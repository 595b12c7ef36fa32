use inventory_tracker::calendar::{CivilDate, Timestamp};
use inventory_tracker::checklists::{
    add_post, has_unique_elements, list, remove, AddChecklistParams, ChecklistStepInput,
};
use inventory_tracker::records::{AppError, ChecklistRecord, ChecklistStep, InventoryItem};
use inventory_tracker::store::Inventory;

fn input(position: i32, name: &str, description: &str) -> ChecklistStepInput {
    ChecklistStepInput { position, name: name.to_string(), description: description.to_string() }
}

fn params(name: &str, steps: Vec<ChecklistStepInput>) -> AddChecklistParams {
    AddChecklistParams { name: name.to_string(), description: "  Yearly check ".to_string(), steps }
}

fn item_using(checklist_id: i32) -> InventoryItem {
    InventoryItem {
        id: 1,
        name: "Drill".to_string(),
        serial_number: None,
        created_at: Timestamp { date: CivilDate { year: 2024, month: 1, day: 1 }, secs: 0, nanos: 0 },
        last_checked_at: None,
        expiry: None,
        kind_id: 1,
        checklist_id,
        interval_id: 1,
    }
}

fn message(r: Result<i32, AppError>) -> String {
    match r {
        Err(AppError::BadRequest(m)) => m,
        other => panic!("expected a bad request, got {:?}", other),
    }
}

#[test]
fn creation_stores_steps_by_position() {
    let mut db = Inventory::new();
    let r = add_post(&mut db, params(" Drill ", vec![input(3, " Cable ", ""), input(1, "Chuck", " tight "), input(2, "Switch", "   ")]));
    assert_eq!(r, Ok(1));
    assert_eq!(db.checklists[0].name, "Drill");
    assert_eq!(db.checklists[0].description, Some("Yearly check".to_string()));
    let rows: Vec<(i32, i32, i32, &str)> = db
        .checklist_steps
        .iter()
        .map(|s| (s.id, s.checklist_id, s.position, s.name.as_str()))
        .collect();
    assert_eq!(rows, vec![(1, 1, 1, "Chuck"), (2, 1, 2, "Switch"), (3, 1, 3, "Cable")]);
    assert_eq!(db.checklist_steps[0].description, Some("tight".to_string()));
    assert_eq!(db.checklist_steps[1].description, None);
}

#[test]
fn second_checklist_gets_next_ids() {
    let mut db = Inventory::new();
    add_post(&mut db, params("A", vec![input(1, "x", "")])).unwrap();
    assert_eq!(add_post(&mut db, params("B", vec![input(5, "y", ""), input(4, "z", "")])), Ok(2));
    assert_eq!(db.checklist_steps[1].id, 2);
    assert_eq!(db.checklist_steps[1].name, "z");
    let listed = list(&db);
    assert_eq!(listed.len(), 2);
    let names: Vec<&str> = listed[1].steps.iter().map(|s| s.name.as_str()).collect();
    assert_eq!(names, vec!["z", "y"]);
}

#[test]
fn blank_name_is_refused() {
    let mut db = Inventory::new();
    assert_eq!(message(add_post(&mut db, params("   ", vec![input(1, "x", "")]))), "Checklist name must not be empty");
    assert!(db.checklists.is_empty());
}

#[test]
fn no_steps_is_refused() {
    let mut db = Inventory::new();
    assert_eq!(message(add_post(&mut db, params("A", vec![]))), "Please provide at least one checklist step");
}

#[test]
fn duplicate_positions_are_refused() {
    let mut db = Inventory::new();
    let r = add_post(&mut db, params("A", vec![input(1, "x", ""), input(2, "y", ""), input(1, "z", "")]));
    assert_eq!(message(r), "Checklist steps must all have unique positions");
    assert!(db.checklists.is_empty());
    assert!(db.checklist_steps.is_empty());
}

#[test]
fn unique_elements() {
    assert!(has_unique_elements(&vec![]));
    assert!(has_unique_elements(&vec![3, 1, 2]));
    assert!(!has_unique_elements(&vec![3, 1, 3]));
}

#[test]
fn checklist_in_use_cannot_be_removed() {
    let mut db = Inventory::new();
    add_post(&mut db, params("A", vec![input(1, "x", "")])).unwrap();
    db.items.push(item_using(1));
    match remove(&mut db, 1) {
        Err(AppError::BadRequest(m)) => assert_eq!(m, "Checklist is in use by inventory items"),
        other => panic!("unexpected {:?}", other),
    }
    assert_eq!(db.checklists.len(), 1);
    assert_eq!(db.checklist_steps.len(), 1);
}

#[test]
fn unused_checklist_is_removed_with_its_steps() {
    let mut db = Inventory::new();
    add_post(&mut db, params("A", vec![input(1, "x", "")])).unwrap();
    add_post(&mut db, params("B", vec![input(1, "y", "")])).unwrap();
    db.items.push(item_using(2));
    assert_eq!(remove(&mut db, 1), Ok(()));
    assert_eq!(db.checklists, vec![ChecklistRecord { id: 2, name: "B".to_string(), description: Some("Yearly check".to_string()) }]);
    assert_eq!(
        db.checklist_steps,
        vec![ChecklistStep { id: 2, checklist_id: 2, position: 1, name: "y".to_string(), description: None }]
    );
}

#[test]
fn missing_checklist_is_not_found() {
    let mut db = Inventory::new();
    assert_eq!(remove(&mut db, 4), Err(AppError::NotFound));
}
