use inventory_tracker::calendar::{CivilDate, Timestamp};
use inventory_tracker::urgency::{calculate_urgency, UrgencyLevel};

fn at(year: i32, month: u32, day: u32, secs: u32, nanos: u32) -> Timestamp {
    Timestamp { date: CivilDate { year, month, day }, secs, nanos }
}

#[test]
fn due_now_is_warning() {
    let now = at(2024, 5, 10, 43200, 0);
    assert_eq!(calculate_urgency(&now, &now), UrgencyLevel::Warning);
}

#[test]
fn due_in_exactly_seven_days_is_warning() {
    let now = at(2024, 5, 10, 43200, 0);
    assert_eq!(calculate_urgency(&at(2024, 5, 17, 43200, 0), &now), UrgencyLevel::Warning);
}

#[test]
fn one_nanosecond_past_seven_days_is_normal() {
    let now = at(2024, 5, 10, 43200, 0);
    assert_eq!(calculate_urgency(&at(2024, 5, 17, 43200, 1), &now), UrgencyLevel::Normal);
}

#[test]
fn overdue_is_critical() {
    let now = at(2024, 5, 10, 43200, 0);
    assert_eq!(calculate_urgency(&at(2024, 5, 10, 43199, 999_999_999), &now), UrgencyLevel::Critical);
    assert_eq!(calculate_urgency(&Timestamp::epoch(), &now), UrgencyLevel::Critical);
}

#[test]
fn repeated_classification_agrees() {
    let now = at(2024, 12, 28, 0, 0);
    let due = at(2025, 1, 3, 100, 0);
    let first = calculate_urgency(&due, &now);
    let second = calculate_urgency(&due, &now);
    assert_eq!(first, second);
    assert_eq!(first, UrgencyLevel::Warning);
}

#[test]
fn window_near_end_of_range() {
    let now = at(262142, 12, 30, 0, 0);
    assert_eq!(calculate_urgency(&at(262142, 12, 31, 86399, 0), &now), UrgencyLevel::Warning);
    assert_eq!(calculate_urgency(&at(262142, 12, 29, 0, 0), &now), UrgencyLevel::Critical);
}

#[test]
fn labels() {
    assert_eq!(UrgencyLevel::Normal.as_str(), "NORMAL");
    assert_eq!(UrgencyLevel::Warning.as_str(), "WARNING");
    assert_eq!(UrgencyLevel::Critical.as_str(), "CRITICAL");
}
