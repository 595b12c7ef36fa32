//! Recurrence rules and the next-due computation.
use crate::calendar::{
    add_days_spec, add_months_spec, lemma_day_number_strict, lemma_earlier_date_earlier_instant,
    lemma_instant_order, shift_days, shift_months, shift_years, with_year_spec, CivilDate,
    Timestamp,
};
use vstd::prelude::*;
use vstd::string::*;

verus! {

/// The calendar unit a rule advances by.
#[derive(Clone, Copy, Debug, PartialEq, Eq, Structural)]
pub enum IntervalUnit {
    Days,
    Months,
    Years,
    /// Any other unit name: the rule cannot be applied.
    Other,
}

pub open spec fn unit_of(code: Seq<char>) -> IntervalUnit {
    if code == "days"@ {
        IntervalUnit::Days
    } else if code == "months"@ {
        IntervalUnit::Months
    } else if code == "years"@ {
        IntervalUnit::Years
    } else {
        IntervalUnit::Other
    }
}

impl IntervalUnit {
    /// Reads a unit name: "days", "months" or "years".
    pub fn from_name(name: &String) -> (r: IntervalUnit)
        ensures
            r == unit_of(name@),
    {
        if *name == String::from_str("days") {
            IntervalUnit::Days
        } else if *name == String::from_str("months") {
            IntervalUnit::Months
        } else if *name == String::from_str("years") {
            IntervalUnit::Years
        } else {
            IntervalUnit::Other
        }
    }
}

/// A recurrence rule: advance by `amount` (signed) of `unit`.
#[derive(Clone, Debug, PartialEq, Eq)]
pub struct Interval {
    pub id: i32,
    pub code: String,
    pub unit: String,
    pub amount: i32,
}

/// Moves a date by `amount` units; `None` where the result does not exist.
pub open spec fn shift_date(unit: IntervalUnit, amount: int, d: CivilDate) -> Option<CivilDate> {
    match unit {
        IntervalUnit::Days => add_days_spec(d, amount),
        IntervalUnit::Months => add_months_spec(d, amount),
        IntervalUnit::Years => with_year_spec(d, d.year + amount),
        IntervalUnit::Other => None,
    }
}

/// The last check if there was one, else the creation time.
pub open spec fn starting_point(created_at: Timestamp, last_checked_at: Option<Timestamp>) -> Timestamp {
    match last_checked_at {
        Some(t) => t,
        None => created_at,
    }
}

/// The due date, or `None` where the rule cannot be applied.
pub open spec fn checked_due(
    unit: IntervalUnit,
    amount: int,
    created_at: Timestamp,
    last_checked_at: Option<Timestamp>,
) -> Option<Timestamp> {
    let start = starting_point(created_at, last_checked_at);
    match shift_date(unit, amount, start.date) {
        Some(d) => Some(Timestamp { date: d, ..start }),
        None => None,
    }
}

/// The due date, with the epoch standing for "unknown".
pub open spec fn next_due(
    unit: IntervalUnit,
    amount: int,
    created_at: Timestamp,
    last_checked_at: Option<Timestamp>,
) -> Timestamp {
    match checked_due(unit, amount, created_at, last_checked_at) {
        Some(t) => t,
        None => Timestamp::epoch_spec(),
    }
}

/// The due date, capped by an explicit expiry that comes earlier.
pub open spec fn effective_due(due: Timestamp, expiry: Option<Timestamp>) -> Timestamp {
    match expiry {
        Some(e) => if e.instant() < due.instant() {
            e
        } else {
            due
        },
        None => due,
    }
}

pub open spec fn opt_valid(t: Option<Timestamp>) -> bool {
    match t {
        Some(t) => t.valid(),
        None => true,
    }
}

impl Interval {
    pub open spec fn unit_spec(&self) -> IntervalUnit {
        unit_of(self.unit@)
    }

    /// The due date, or `None` where the unit is unknown or the date falls
    /// outside the calendar's range.
    pub fn checked_next_due(&self, created_at: &Timestamp, last_checked_at: &Option<Timestamp>) -> (r:
        Option<Timestamp>)
        requires
            created_at.valid(),
            opt_valid(*last_checked_at),
        ensures
            r == checked_due(self.unit_spec(), self.amount as int, *created_at, *last_checked_at),
            opt_valid(r),
    {
        let start = match last_checked_at {
            Some(t) => *t,
            None => *created_at,
        };
        let shifted = match IntervalUnit::from_name(&self.unit) {
            IntervalUnit::Days => shift_days(start.date, self.amount),
            IntervalUnit::Months => shift_months(start.date, self.amount),
            IntervalUnit::Years => shift_years(start.date, self.amount),
            IntervalUnit::Other => None,
        };
        match shifted {
            Some(d) => Some(Timestamp { date: d, secs: start.secs, nanos: start.nanos }),
            None => None,
        }
    }

    /// The next due date: the starting point (last check, else creation)
    /// advanced by the rule; the epoch where that cannot be computed.
    pub fn next_interval_expiry(&self, created_at: &Timestamp, last_checked_at: &Option<Timestamp>) -> (r:
        Timestamp)
        requires
            created_at.valid(),
            opt_valid(*last_checked_at),
        ensures
            r == next_due(self.unit_spec(), self.amount as int, *created_at, *last_checked_at),
            r.valid(),
    {
        match self.checked_next_due(created_at, last_checked_at) {
            Some(t) => t,
            None => Timestamp::epoch(),
        }
    }
}

/// The earlier of `due` and `expiry`.
pub fn cap_by_expiry(due: Timestamp, expiry: &Option<Timestamp>) -> (r: Timestamp)
    requires
        due.valid(),
        opt_valid(*expiry),
    ensures
        r == effective_due(due, *expiry),
        r.valid(),
{
    match expiry {
        Some(e) => if e.is_before(&due) {
            *e
        } else {
            due
        },
        None => due,
    }
}

/// For a rule that moves forward, a later last check never gives an earlier
/// due date, where both due dates exist. Moving by months clamps the day of
/// the month, so two starting days can land on one date; there the times of
/// day keep their order only if they had it.
pub proof fn lemma_next_due_monotonic(
    rule: Interval,
    created_at: Timestamp,
    first: Timestamp,
    second: Timestamp,
)
    requires
        created_at.valid(),
        first.valid(),
        second.valid(),
        rule.amount > 0,
        first.instant() <= second.instant(),
        checked_due(rule.unit_spec(), rule.amount as int, created_at, Some(first)) is Some,
        checked_due(rule.unit_spec(), rule.amount as int, created_at, Some(second)) is Some,
        next_due(rule.unit_spec(), rule.amount as int, created_at, Some(first)).date == next_due(
            rule.unit_spec(),
            rule.amount as int,
            created_at,
            Some(second),
        ).date ==> first.time_of_day() <= second.time_of_day(),
    ensures
        next_due(rule.unit_spec(), rule.amount as int, created_at, Some(first)).instant()
            <= next_due(rule.unit_spec(), rule.amount as int, created_at, Some(second)).instant(),
{
    let unit = rule.unit_spec();
    let k = rule.amount as int;
    let r1 = next_due(unit, k, created_at, Some(first));
    let r2 = next_due(unit, k, created_at, Some(second));
    lemma_instant_order(first, second);
    let (d1, d2) = (first.date, second.date);
    assert(r1.valid() && r2.valid()) by {
        match unit {
            IntervalUnit::Days => {
                let n1 = d1.day_number() + k;
                let n2 = d2.day_number() + k;
                assert(exists|e: CivilDate| e.valid() && e.day_number() == n1);
                assert(exists|e: CivilDate| e.valid() && e.day_number() == n2);
            },
            _ => {},
        }
    }
    if r1.date == r2.date {
        return;
    }
    match unit {
        IntervalUnit::Days => {
            let n1 = d1.day_number() + k;
            let n2 = d2.day_number() + k;
            assert(exists|e: CivilDate| e.valid() && e.day_number() == n1);
            assert(exists|e: CivilDate| e.valid() && e.day_number() == n2);
            assert(r1.date.day_number() == n1);
            assert(r2.date.day_number() == n2);
            if d1.precedes(d2) {
                lemma_day_number_strict(d1, d2);
                lemma_earlier_date_earlier_instant(r1, r2);
            }
        },
        IntervalUnit::Months => {
            lemma_month_shift_order(d1, d2, k);
            lemma_instant_order(r1, r2);
        },
        IntervalUnit::Years => {
            lemma_instant_order(r1, r2);
        },
        IntervalUnit::Other => {},
    }
}

/// Moving two ordered dates by the same number of months keeps their order.
pub proof fn lemma_month_shift_order(a: CivilDate, b: CivilDate, k: int)
    requires
        a.valid(),
        b.valid(),
        a == b || a.precedes(b),
        add_months_spec(a, k) is Some,
        add_months_spec(b, k) is Some,
    ensures
        add_months_spec(a, k)->0 == add_months_spec(b, k)->0 || add_months_spec(a, k)->0.precedes(
            add_months_spec(b, k)->0,
        ),
{
    let ia = a.year * 12 + a.month - 1 + k;
    let ib = b.year * 12 + b.month - 1 + k;
    assert(ia <= ib);
    assert(ia == 12 * (ia / 12) + ia % 12);
    assert(ib == 12 * (ib / 12) + ib % 12);
}

} // verus!
