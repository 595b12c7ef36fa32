use inventory_tracker::app_info::App;
use inventory_tracker::cache::{AppCache, AppCacheInitializer};
use inventory_tracker::calendar::{CivilDate, Timestamp};
use inventory_tracker::home::{home, home_entry_checks};
use inventory_tracker::interval::Interval;
use inventory_tracker::records::{
    AppError, ChecklistRecord, ExecutedChecklist, InventoryItem, InventoryItemCheck, ItemKind, ResultCode, User,
};
use inventory_tracker::store::Inventory;
use inventory_tracker::urgency::UrgencyLevel;

fn at(year: i32, month: u32, day: u32) -> Timestamp {
    Timestamp { date: CivilDate { year, month, day }, secs: 0, nanos: 0 }
}

fn item(id: i32, created: Timestamp, expiry: Option<Timestamp>, interval_id: i32) -> InventoryItem {
    InventoryItem {
        id,
        name: format!("item {}", id),
        serial_number: None,
        created_at: created,
        last_checked_at: None,
        expiry,
        kind_id: 1,
        checklist_id: 1,
        interval_id,
    }
}

fn fixture() -> (Inventory, AppCache) {
    let mut db = Inventory::new();
    db.checklists.push(ChecklistRecord { id: 1, name: "Basic".to_string(), description: None });
    db.intervals.push(Interval { id: 1, code: "D10".to_string(), unit: "days".to_string(), amount: 10 });
    db.intervals.push(Interval { id: 2, code: "M1".to_string(), unit: "months".to_string(), amount: 1 });
    db.item_kinds.push(ItemKind { id: 1, name: "Tool".to_string(), default_checklist_id: 1, default_interval_id: 1, default_expiry_id: 1 });
    db.items.push(item(1, at(2024, 5, 1), None, 2));
    db.items.push(item(2, at(2024, 5, 20), None, 1));
    db.items.push(item(3, at(2024, 4, 1), None, 1));
    db.items.push(item(4, at(2024, 5, 1), Some(at(2024, 5, 30)), 2));
    db.items.push(item(5, at(2024, 5, 1), None, 9));
    db.items.push(item(6, at(2024, 5, 1), None, 2));
    let mut cache = AppCache::empty();
    AppCacheInitializer::reload_cached(&mut cache, &db);
    (db, cache)
}

#[test]
fn dashboard_orders_by_due_date() {
    let (db, cache) = fixture();
    let entries = home(&db, &cache, at(2024, 5, 28)).unwrap();
    let order: Vec<i32> = entries.iter().map(|e| e.item.id).collect();
    assert_eq!(order, vec![3, 2, 4, 1, 6]);
    let dues: Vec<Timestamp> = entries.iter().map(|e| e.next_expiry).collect();
    assert_eq!(dues, vec![at(2024, 4, 11), at(2024, 5, 30), at(2024, 5, 30), at(2024, 6, 1), at(2024, 6, 1)]);
    let levels: Vec<UrgencyLevel> = entries.iter().map(|e| e.urgency).collect();
    assert_eq!(
        levels,
        vec![UrgencyLevel::Critical, UrgencyLevel::Warning, UrgencyLevel::Warning, UrgencyLevel::Warning, UrgencyLevel::Warning]
    );
    assert_eq!(entries[0].checklist_name, "Basic");
    assert_eq!(entries[0].item_kind_name, "Tool");
    assert_eq!(entries[0].interval.code, "D10");
}

#[test]
fn far_due_date_is_normal() {
    let (db, cache) = fixture();
    let entries = home(&db, &cache, at(2024, 5, 1)).unwrap();
    let last = entries.last().unwrap();
    assert_eq!(last.next_expiry, at(2024, 6, 1));
    assert_eq!(last.urgency, UrgencyLevel::Normal);
}

#[test]
fn dashboard_needs_reference_data() {
    let (db, _) = fixture();
    assert!(matches!(home(&db, &AppCache::empty(), at(2024, 5, 1)), Err(AppError::InternalServerError)));
}

#[test]
fn version_label() {
    assert_eq!(App::app_version("1.2.0", Some("abc"), Some("def")), "1.2.0 (abc)");
    assert_eq!(App::app_version("1.2.0", None, Some("def")), "1.2.0 (def)");
    assert_eq!(App::app_version("1.2.0", None, None), "1.2.0 (dev)");
}

fn check(id: i32, item_id: i32, snapshot: i32, user: i32) -> InventoryItemCheck {
    InventoryItemCheck {
        id,
        finished: true,
        checked_at: at(2024, 5, 2),
        notes: None,
        item_id,
        executed_checklist_id: snapshot,
        checked_by: user,
        result_id: 1,
    }
}

#[test]
fn dashboard_check_lines_use_the_snapshot() {
    let (mut db, _) = fixture();
    db.users.push(User { id: 1, name: "Ana".to_string() });
    db.results.push(ResultCode { id: 1, code: "PASS".to_string() });
    db.executed_checklists.push(ExecutedChecklist {
        id: 1,
        name: "Basic - item 1".to_string(),
        description: Some("as it was".to_string()),
    });
    db.checks.push(check(1, 1, 1, 1));
    db.checks.push(check(2, 1, 1, 5));
    db.checks.push(check(3, 2, 1, 1));
    db.checks.push(check(4, 1, 9, 1));
    db.checks.push(check(5, 1, 1, 1));
    let mut cache = AppCache::empty();
    AppCacheInitializer::reload_cached(&mut cache, &db);
    let lines = home_entry_checks(&db, &cache, 1).unwrap();
    let ids: Vec<i32> = lines.iter().map(|l| l.check.id).collect();
    assert_eq!(ids, vec![1, 5]);
    assert_eq!(lines[0].checked_by, "Ana");
    assert_eq!(lines[0].result_code, "PASS");
    assert_eq!(lines[0].checklist_name, "Basic - item 1");
    assert_eq!(lines[0].checklist_description, Some("as it was".to_string()));
    assert!(matches!(home_entry_checks(&db, &AppCache::empty(), 1), Err(AppError::InternalServerError)));
}
