use inventory_tracker::calendar::{CivilDate, Timestamp};
use inventory_tracker::interval::{cap_by_expiry, Interval, IntervalUnit};

fn at(year: i32, month: u32, day: u32) -> Timestamp {
    Timestamp { date: CivilDate { year, month, day }, secs: 0, nanos: 0 }
}

fn rule(unit: &str, amount: i32) -> Interval {
    Interval { id: 1, code: "R".to_string(), unit: unit.to_string(), amount }
}

#[test]
fn six_months_from_creation() {
    let due = rule("months", 6).next_interval_expiry(&at(2024, 1, 31), &None);
    assert_eq!(due, at(2024, 7, 31));
}

#[test]
fn earlier_expiry_overrides_due_date() {
    let due = rule("months", 6).next_interval_expiry(&at(2023, 5, 1), &Some(at(2024, 1, 31)));
    assert_eq!(due, at(2024, 7, 31));
    let effective = cap_by_expiry(due, &Some(at(2024, 3, 1)));
    assert_eq!(effective, at(2024, 3, 1));
}

#[test]
fn later_expiry_leaves_due_date() {
    let due = rule("days", 10).next_interval_expiry(&at(2024, 1, 1), &None);
    assert_eq!(cap_by_expiry(due, &Some(at(2025, 1, 1))), at(2024, 1, 11));
    assert_eq!(cap_by_expiry(due, &None), at(2024, 1, 11));
}

#[test]
fn month_end_clamps_to_shorter_month() {
    assert_eq!(rule("months", 1).next_interval_expiry(&at(2024, 1, 31), &None), at(2024, 2, 29));
    assert_eq!(rule("months", 1).next_interval_expiry(&at(2023, 1, 31), &None), at(2023, 2, 28));
    assert_eq!(rule("months", -1).next_interval_expiry(&at(2024, 3, 31), &None), at(2024, 2, 29));
    assert_eq!(rule("months", 12).next_interval_expiry(&at(2024, 5, 15), &None), at(2025, 5, 15));
}

#[test]
fn days_cross_month_and_year_boundaries() {
    assert_eq!(rule("days", 3).next_interval_expiry(&at(2024, 2, 27), &None), at(2024, 3, 1));
    assert_eq!(rule("days", 1).next_interval_expiry(&at(2023, 12, 31), &None), at(2024, 1, 1));
    assert_eq!(rule("days", -1).next_interval_expiry(&at(2024, 1, 1), &None), at(2023, 12, 31));
    assert_eq!(rule("days", 0).next_interval_expiry(&at(2024, 6, 6), &None), at(2024, 6, 6));
}

#[test]
fn years_keep_month_and_day() {
    assert_eq!(rule("years", 2).next_interval_expiry(&at(2022, 6, 30), &None), at(2024, 6, 30));
    assert_eq!(rule("years", -1).next_interval_expiry(&at(2024, 2, 28), &None), at(2023, 2, 28));
}

#[test]
fn leap_day_in_common_year_gives_epoch() {
    let due = rule("years", 1).next_interval_expiry(&at(2024, 2, 29), &None);
    assert_eq!(due, Timestamp::epoch());
    assert_eq!(rule("years", 1).checked_next_due(&at(2024, 2, 29), &None), None);
}

#[test]
fn unknown_unit_gives_epoch() {
    assert_eq!(rule("weeks", 2).next_interval_expiry(&at(2024, 1, 1), &None), Timestamp::epoch());
    assert_eq!(IntervalUnit::from_name(&"weeks".to_string()), IntervalUnit::Other);
    assert_eq!(IntervalUnit::from_name(&"days".to_string()), IntervalUnit::Days);
}

#[test]
fn out_of_range_gives_epoch() {
    assert_eq!(rule("years", i32::MAX).next_interval_expiry(&at(2024, 1, 1), &None), Timestamp::epoch());
    assert_eq!(rule("days", i32::MIN).next_interval_expiry(&at(2024, 1, 1), &None), Timestamp::epoch());
    assert_eq!(rule("months", i32::MIN).next_interval_expiry(&at(2024, 1, 1), &None), Timestamp::epoch());
    assert_eq!(rule("days", 1).next_interval_expiry(&at(262142, 12, 31), &None), Timestamp::epoch());
}

#[test]
fn last_check_replaces_creation_as_start() {
    let r = rule("days", 30);
    assert_eq!(r.next_interval_expiry(&at(2024, 1, 1), &Some(at(2024, 3, 1))), at(2024, 3, 31));
}

#[test]
fn later_last_check_never_earlier_due() {
    let r = rule("months", 3);
    let created = at(2020, 1, 1);
    let starts = [at(2024, 1, 15), at(2024, 1, 31), at(2024, 2, 1), at(2024, 11, 30), at(2025, 2, 28)];
    let mut previous: Option<Timestamp> = None;
    for s in starts.iter() {
        let due = r.next_interval_expiry(&created, &Some(*s));
        if let Some(p) = previous {
            assert!(!due.is_before(&p));
        }
        previous = Some(due);
    }
}

#[test]
fn time_of_day_is_kept() {
    let start = Timestamp { date: CivilDate { year: 2024, month: 3, day: 10 }, secs: 3600, nanos: 5 };
    let due = rule("days", 5).next_interval_expiry(&start, &None);
    assert_eq!(due, Timestamp { date: CivilDate { year: 2024, month: 3, day: 15 }, secs: 3600, nanos: 5 });
}

#[test]
fn date_validity_checks() {
    assert!(CivilDate::from_ymd(2024, 2, 29).is_some());
    assert!(CivilDate::from_ymd(2023, 2, 29).is_none());
    assert!(CivilDate::from_ymd(1900, 2, 29).is_none());
    assert!(CivilDate::from_ymd(2000, 2, 29).is_some());
    assert!(CivilDate::from_ymd(2024, 13, 1).is_none());
    assert!(CivilDate::from_ymd(300000, 1, 1).is_none());
    assert!(at(2024, 4, 30).is_valid());
    assert!(!at(2024, 4, 31).is_valid());
}
