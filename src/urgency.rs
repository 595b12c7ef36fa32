//! How pressing an item's next check is.
use crate::calendar::{
    lemma_day_number_range, nanos_per_day, shift_days, Timestamp,
};
use vstd::prelude::*;

verus! {

#[derive(Clone, Copy, Debug, PartialEq, Eq, Structural)]
pub enum UrgencyLevel {
    Normal,
    Warning,
    Critical,
}

/// Seven days, in nanoseconds.
pub open spec fn warning_window() -> int {
    7 * nanos_per_day()
}

/// Overdue is critical; due within the coming seven days (inclusive) is a
/// warning; anything later is normal.
pub open spec fn urgency_of(due: Timestamp, now: Timestamp) -> UrgencyLevel {
    if due.instant() < now.instant() {
        UrgencyLevel::Critical
    } else if due.instant() <= now.instant() + warning_window() {
        UrgencyLevel::Warning
    } else {
        UrgencyLevel::Normal
    }
}

impl UrgencyLevel {
    /// The label shown for the level.
    pub fn as_str(&self) -> (r: &'static str)
        ensures
            r@ == (match self {
                UrgencyLevel::Normal => "NORMAL"@,
                UrgencyLevel::Warning => "WARNING"@,
                UrgencyLevel::Critical => "CRITICAL"@,
            }),
    {
        match self {
            UrgencyLevel::Normal => "NORMAL",
            UrgencyLevel::Warning => "WARNING",
            UrgencyLevel::Critical => "CRITICAL",
        }
    }
}

/// Classifies a due date against the current time.
pub fn calculate_urgency(next_expiry: &Timestamp, now: &Timestamp) -> (r: UrgencyLevel)
    requires
        next_expiry.valid(),
        now.valid(),
    ensures
        r == urgency_of(*next_expiry, *now),
{
    if next_expiry.is_before(now) {
        return UrgencyLevel::Critical;
    }
    match shift_days(now.date, 7) {
        Some(d) => {
            let horizon = Timestamp { date: d, secs: now.secs, nanos: now.nanos };
            proof {
                assert(d.valid() && d.day_number() == now.date.day_number() + 7);
            }
            if horizon.is_before(next_expiry) {
                UrgencyLevel::Normal
            } else {
                UrgencyLevel::Warning
            }
        },
        None => {
            proof {
                lemma_day_number_range(next_expiry.date);
                lemma_day_number_range(now.date);
            }
            UrgencyLevel::Warning
        },
    }
}

/// The three levels split time into bands without gaps or overlaps: before
/// `now` is critical, from `now` to seven days later (both ends included) is
/// a warning, and one nanosecond past that is normal. The level depends on
/// the two instants alone, so repeating a classification repeats its result.
pub proof fn lemma_urgency_bands(due: Timestamp, now: Timestamp, due2: Timestamp, now2: Timestamp)
    ensures
        (urgency_of(due, now) == UrgencyLevel::Critical) == (due.instant() < now.instant()),
        (urgency_of(due, now) == UrgencyLevel::Warning) == (now.instant() <= due.instant()
            <= now.instant() + warning_window()),
        (urgency_of(due, now) == UrgencyLevel::Normal) == (now.instant() + warning_window()
            < due.instant()),
        due.instant() == now.instant() ==> urgency_of(due, now) == UrgencyLevel::Warning,
        due.instant() == now.instant() + warning_window() ==> urgency_of(due, now)
            == UrgencyLevel::Warning,
        due.instant() == now.instant() + warning_window() + 1 ==> urgency_of(due, now)
            == UrgencyLevel::Normal,
        due2.instant() == due.instant() && now2.instant() == now.instant() ==> urgency_of(due2, now2)
            == urgency_of(due, now),
{
}

} // verus!
