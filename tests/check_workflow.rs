use inventory_tracker::cache::{AppCache, AppCacheInitializer};
use inventory_tracker::calendar::{CivilDate, Timestamp};
use inventory_tracker::checks::{submit_item_check, PerformCheckPayload, StepCheckPayload};
use inventory_tracker::details::show_item_details;
use inventory_tracker::interval::Interval;
use inventory_tracker::records::{
    AppError, ChecklistRecord, ChecklistStep, InventoryItem, ItemKind, ResultCode, User,
};
use inventory_tracker::store::Inventory;

fn at(year: i32, month: u32, day: u32) -> Timestamp {
    Timestamp { date: CivilDate { year, month, day }, secs: 0, nanos: 0 }
}

fn step(id: i32, position: i32, name: &str) -> ChecklistStep {
    ChecklistStep { id, checklist_id: 1, position, name: name.to_string(), description: None }
}

fn fixture() -> (Inventory, AppCache) {
    let mut db = Inventory::new();
    db.checklists.push(ChecklistRecord {
        id: 1,
        name: "Ladder inspection".to_string(),
        description: Some("Monthly".to_string()),
    });
    db.checklist_steps.push(step(10, 2, "Rungs"));
    db.checklist_steps.push(step(11, 1, "Feet"));
    db.checklist_steps.push(step(12, 3, "Labels"));
    db.intervals.push(Interval { id: 1, code: "M6".to_string(), unit: "months".to_string(), amount: 6 });
    db.item_kinds.push(ItemKind {
        id: 1,
        name: "Ladder".to_string(),
        default_checklist_id: 1,
        default_interval_id: 1,
        default_expiry_id: 1,
    });
    db.results.push(ResultCode { id: 1, code: "PASS".to_string() });
    db.results.push(ResultCode { id: 2, code: "FAIL".to_string() });
    db.users.push(User { id: 1, name: "Ana".to_string() });
    db.items.push(InventoryItem {
        id: 1,
        name: "Ladder A".to_string(),
        serial_number: Some("SN-001".to_string()),
        created_at: at(2024, 1, 31),
        last_checked_at: None,
        expiry: None,
        kind_id: 1,
        checklist_id: 1,
        interval_id: 1,
    });
    let mut cache = AppCache::empty();
    AppCacheInitializer::reload_cached(&mut cache, &db);
    (db, cache)
}

fn payload(steps: Vec<(i32, i32, Option<&str>)>) -> PerformCheckPayload {
    PerformCheckPayload {
        checked_by: 1,
        result_id: 1,
        notes: Some("  all fine  ".to_string()),
        steps: steps
            .into_iter()
            .map(|(s, r, n)| StepCheckPayload {
                checklist_step_id: s,
                result_id: r,
                notes: n.map(|t| t.to_string()),
            })
            .collect(),
    }
}

fn row_counts(db: &Inventory) -> [usize; 5] {
    [
        db.executed_checklists.len(),
        db.executed_steps.len(),
        db.checks.len(),
        db.check_steps.len(),
        db.items.len(),
    ]
}

fn bad_request(r: Result<i32, AppError>) -> String {
    match r {
        Err(AppError::BadRequest(m)) => m,
        other => panic!("expected a bad request, got {:?}", other),
    }
}

#[test]
fn execution_snapshots_every_template_step() {
    let (mut db, cache) = fixture();
    let now = at(2024, 6, 1);
    let r = submit_item_check(&mut db, &cache, 1, payload(vec![(11, 1, None), (12, 2, Some(" faded "))]), now);
    assert_eq!(r, Ok(1));
    assert_eq!(row_counts(&db), [1, 3, 1, 2, 1]);
    assert_eq!(db.executed_checklists[0].name, "Ladder inspection - Ladder A");
    assert_eq!(db.executed_checklists[0].description, Some("Monthly".to_string()));
    let names: Vec<&str> = db.executed_steps.iter().map(|s| s.name.as_str()).collect();
    assert_eq!(names, vec!["Feet", "Rungs", "Labels"]);
    let positions: Vec<i32> = db.executed_steps.iter().map(|s| s.position).collect();
    assert_eq!(positions, vec![1, 2, 3]);
    let check = &db.checks[0];
    assert!(check.finished);
    assert_eq!(check.checked_at, now);
    assert_eq!(check.notes, Some("all fine".to_string()));
    assert_eq!(check.item_id, 1);
    assert_eq!(check.executed_checklist_id, 1);
    assert_eq!(db.items[0].last_checked_at, Some(now));
    assert_eq!(db.check_steps[0].executed_checklist_step_id, 1);
    assert_eq!(db.check_steps[1].executed_checklist_step_id, 3);
    assert_eq!(db.check_steps[1].notes, Some("faded".to_string()));
    assert_eq!(db.check_steps[1].result_id, 2);
}

#[test]
fn second_execution_gets_fresh_ids() {
    let (mut db, cache) = fixture();
    submit_item_check(&mut db, &cache, 1, payload(vec![(10, 1, None)]), at(2024, 6, 1)).unwrap();
    let r = submit_item_check(&mut db, &cache, 1, payload(vec![(10, 1, None), (10, 2, None)]), at(2024, 7, 1));
    assert_eq!(r, Ok(2));
    assert_eq!(row_counts(&db), [2, 6, 2, 3, 1]);
    assert_eq!(db.executed_steps[3].id, 4);
    assert_eq!(db.executed_steps[3].executed_checklist_id, 2);
    assert_eq!(db.check_steps[2].executed_checklist_step_id, 5);
    assert_eq!(db.items[0].last_checked_at, Some(at(2024, 7, 1)));
}

#[test]
fn step_outside_checklist_is_refused_without_writes() {
    let (mut db, cache) = fixture();
    let items_before = db.items.clone();
    let r = submit_item_check(&mut db, &cache, 1, payload(vec![(11, 1, None), (99, 1, None)]), at(2024, 6, 1));
    assert_eq!(bad_request(r), "Invalid step id 99 for checklist");
    assert_eq!(row_counts(&db), [0, 0, 0, 0, 1]);
    assert_eq!(db.items, items_before);
}

#[test]
fn unknown_result_is_refused_without_writes() {
    let (mut db, cache) = fixture();
    let mut p = payload(vec![(11, 1, None)]);
    p.result_id = 9999;
    let r = submit_item_check(&mut db, &cache, 1, p, at(2024, 6, 1));
    assert_eq!(bad_request(r), "Unknown checklist result");
    assert_eq!(row_counts(&db), [0, 0, 0, 0, 1]);
    assert_eq!(db.items[0].last_checked_at, None);
}

#[test]
fn unknown_step_result_is_refused() {
    let (mut db, cache) = fixture();
    let r = submit_item_check(&mut db, &cache, 1, payload(vec![(11, 77, None)]), at(2024, 6, 1));
    assert_eq!(bad_request(r), "Unknown result 77 for step");
    assert_eq!(row_counts(&db), [0, 0, 0, 0, 1]);
}

#[test]
fn negative_step_id_message() {
    let (mut db, cache) = fixture();
    let r = submit_item_check(&mut db, &cache, 1, payload(vec![(-5, 1, None)]), at(2024, 6, 1));
    assert_eq!(bad_request(r), "Invalid step id -5 for checklist");
}

#[test]
fn empty_submission_is_refused() {
    let (mut db, cache) = fixture();
    let r = submit_item_check(&mut db, &cache, 1, payload(vec![]), at(2024, 6, 1));
    assert_eq!(bad_request(r), "At least one step result must be provided");
}

#[test]
fn unknown_user_is_refused() {
    let (mut db, cache) = fixture();
    let mut p = payload(vec![(11, 1, None)]);
    p.checked_by = 42;
    assert_eq!(bad_request(submit_item_check(&mut db, &cache, 1, p, at(2024, 6, 1))), "Unknown user for checklist");
}

#[test]
fn checklist_without_steps_is_refused() {
    let (mut db, cache) = fixture();
    db.checklist_steps.clear();
    let r = submit_item_check(&mut db, &cache, 1, payload(vec![(11, 1, None)]), at(2024, 6, 1));
    assert_eq!(bad_request(r), "Checklist contains no steps");
}

#[test]
fn unknown_item_is_not_found() {
    let (mut db, cache) = fixture();
    let r = submit_item_check(&mut db, &cache, 5, payload(vec![(11, 1, None)]), at(2024, 6, 1));
    assert_eq!(r, Err(AppError::NotFound));
}

#[test]
fn item_with_missing_checklist_is_internal_error() {
    let (mut db, cache) = fixture();
    db.items[0].checklist_id = 8;
    let r = submit_item_check(&mut db, &cache, 1, payload(vec![(11, 1, None)]), at(2024, 6, 1));
    assert_eq!(r, Err(AppError::InternalServerError));
    assert_eq!(row_counts(&db), [0, 0, 0, 0, 1]);
}

#[test]
fn unloaded_cache_is_internal_error() {
    let (mut db, _) = fixture();
    let cache = AppCache::empty();
    let r = submit_item_check(&mut db, &cache, 1, payload(vec![(11, 1, None)]), at(2024, 6, 1));
    assert_eq!(r, Err(AppError::InternalServerError));
}

#[test]
fn exhausted_ids_are_a_storage_error() {
    let (mut db, cache) = fixture();
    db.checks.push(inventory_tracker::records::InventoryItemCheck {
        id: i32::MAX,
        finished: true,
        checked_at: at(2020, 1, 1),
        notes: None,
        item_id: 7,
        executed_checklist_id: 0,
        checked_by: 1,
        result_id: 1,
    });
    let r = submit_item_check(&mut db, &cache, 1, payload(vec![(11, 1, None)]), at(2024, 6, 1));
    assert_eq!(r, Err(AppError::Storage));
    assert_eq!(row_counts(&db), [0, 0, 1, 0, 1]);
}

#[test]
fn snapshot_survives_template_edits() {
    let (mut db, cache) = fixture();
    let id = submit_item_check(&mut db, &cache, 1, payload(vec![(11, 1, Some("ok"))]), at(2024, 6, 1)).unwrap();
    db.checklist_steps[0].name = "Rungs and rails".to_string();
    db.checklist_steps.push(step(13, 4, "Hinges"));
    db.checklists[0].name = "Renamed".to_string();
    let details = show_item_details(&db, &cache, 1).unwrap();
    assert_eq!(details.checks.len(), 1);
    let view = &details.checks[0];
    assert_eq!(view.check.id, id);
    let names: Vec<&str> = view.steps.iter().map(|s| s.name.as_str()).collect();
    assert_eq!(names, vec!["Feet", "Rungs", "Labels"]);
    assert_eq!(view.steps[0].result_code, Some("PASS".to_string()));
    assert_eq!(view.steps[0].notes, Some("ok".to_string()));
    assert_eq!(view.steps[1].result_code, None);
    assert_eq!(view.result_code, Some("PASS".to_string()));
    assert_eq!(view.checked_by, Some("Ana".to_string()));
    assert_eq!(db.executed_checklists[0].name, "Ladder inspection - Ladder A");
}

#[test]
fn item_details_lists_checks_by_check_time() {
    let (mut db, cache) = fixture();
    submit_item_check(&mut db, &cache, 1, payload(vec![(11, 1, None)]), at(2024, 7, 1)).unwrap();
    submit_item_check(&mut db, &cache, 1, payload(vec![(11, 2, None)]), at(2024, 6, 1)).unwrap();
    submit_item_check(&mut db, &cache, 1, payload(vec![(12, 1, None)]), at(2024, 8, 1)).unwrap();
    let details = show_item_details(&db, &cache, 1).unwrap();
    let ids: Vec<i32> = details.checks.iter().map(|c| c.check.id).collect();
    assert_eq!(ids, vec![3, 1, 2]);
    assert_eq!(details.item_kind_name, Some("Ladder".to_string()));
    assert_eq!(details.checklist_name, Some("Ladder inspection".to_string()));
    assert_eq!(details.interval_name, Some("M6".to_string()));
    assert!(matches!(show_item_details(&db, &cache, 9), Err(AppError::NotFound)));
}

#[test]
fn checks_at_the_same_instant_list_later_recorded_first() {
    let (mut db, cache) = fixture();
    submit_item_check(&mut db, &cache, 1, payload(vec![(11, 1, None)]), at(2024, 6, 1)).unwrap();
    submit_item_check(&mut db, &cache, 1, payload(vec![(11, 2, None)]), at(2024, 6, 1)).unwrap();
    let details = show_item_details(&db, &cache, 1).unwrap();
    let ids: Vec<i32> = details.checks.iter().map(|c| c.check.id).collect();
    assert_eq!(ids, vec![2, 1]);
}

#[test]
fn item_details_lists_snapshot_steps_by_position() {
    let (mut db, cache) = fixture();
    submit_item_check(&mut db, &cache, 1, payload(vec![(12, 2, Some("worn"))]), at(2024, 6, 1)).unwrap();
    db.executed_steps.reverse();
    let details = show_item_details(&db, &cache, 1).unwrap();
    let steps: Vec<(i32, &str)> = details.checks[0].steps.iter().map(|s| (s.position, s.name.as_str())).collect();
    assert_eq!(steps, vec![(1, "Feet"), (2, "Rungs"), (3, "Labels")]);
    assert_eq!(details.checks[0].steps[2].result_code, Some("FAIL".to_string()));
    assert_eq!(details.checks[0].steps[2].notes, Some("worn".to_string()));
}

#[test]
fn empty_submission_is_refused_before_reference_data() {
    let (mut db, mut cache) = fixture();
    cache.results = None;
    cache.users = None;
    let r = submit_item_check(&mut db, &cache, 1, payload(vec![]), at(2024, 6, 1));
    assert_eq!(bad_request(r), "At least one step result must be provided");
    let r = submit_item_check(&mut db, &cache, 1, payload(vec![(11, 1, None)]), at(2024, 6, 1));
    assert_eq!(r, Err(AppError::InternalServerError));
}

#[test]
fn unknown_result_is_refused_before_user_data() {
    let (mut db, mut cache) = fixture();
    cache.users = None;
    let mut p = payload(vec![(11, 1, None)]);
    p.result_id = 9999;
    assert_eq!(bad_request(submit_item_check(&mut db, &cache, 1, p, at(2024, 6, 1))), "Unknown checklist result");
}
