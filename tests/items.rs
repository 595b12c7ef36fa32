use inventory_tracker::cache::{AppCache, AppCacheInitializer, AppData};
use inventory_tracker::calendar::{CivilDate, Timestamp};
use inventory_tracker::details::{list_item_kinds, show_item_check};
use inventory_tracker::exts::{BTreeMapExt, OptionStringExt, StringExt};
use inventory_tracker::interval::Interval;
use inventory_tracker::inventory::{
    add_item_kind_post, add_item_post, edit_item_post, parse_expiry, remove_item, remove_item_kind,
    AddItemKindPostParams, AddItemPostParams,
};
use inventory_tracker::records::{
    AppError, ChecklistRecord, ChecklistStep, InventoryItem, InventoryItemCheck, ItemKind, User,
};
use inventory_tracker::search::{list, text_contains, InventoryListQuery, InventoryListing};
use inventory_tracker::store::Inventory;
use std::collections::BTreeMap;

fn at(year: i32, month: u32, day: u32) -> Timestamp {
    Timestamp { date: CivilDate { year, month, day }, secs: 0, nanos: 0 }
}

fn form(name: &str, serial: &str, expiry: Option<&str>) -> AddItemPostParams {
    AddItemPostParams {
        name: name.to_string(),
        serial_number: serial.to_string(),
        checklist_id: 1,
        interval_id: 1,
        item_kind_id: 1,
        expiry: expiry.map(|e| e.to_string()),
    }
}

fn kind(id: i32, name: &str) -> ItemKind {
    ItemKind { id, name: name.to_string(), default_checklist_id: 1, default_interval_id: 1, default_expiry_id: 2 }
}

fn fixture() -> (Inventory, AppCache) {
    let mut db = Inventory::new();
    db.checklists.push(ChecklistRecord { id: 1, name: "Basic".to_string(), description: None });
    db.checklist_steps.push(ChecklistStep { id: 1, checklist_id: 1, position: 2, name: "B".to_string(), description: None });
    db.checklist_steps.push(ChecklistStep { id: 2, checklist_id: 1, position: 1, name: "A".to_string(), description: None });
    db.intervals.push(Interval { id: 1, code: "D30".to_string(), unit: "days".to_string(), amount: 30 });
    db.expiries.push(Interval { id: 2, code: "Y5".to_string(), unit: "years".to_string(), amount: 5 });
    db.item_kinds.push(kind(1, "Fire Extinguisher"));
    db.item_kinds.push(kind(2, "Ladder"));
    db.users.push(User { id: 1, name: "Ana".to_string() });
    let mut cache = AppCache::empty();
    AppCacheInitializer::reload_cached(&mut cache, &db);
    add_item_post(&mut db, form("Red one", " SN-AB12 ", Some("2024-03-01")), at(2024, 1, 1)).unwrap();
    add_item_post(&mut db, form("Blue one", "   ", None), at(2024, 1, 2)).unwrap();
    (db, cache)
}

#[test]
fn item_creation_cleans_serial_and_reads_expiry() {
    let (db, _) = fixture();
    assert_eq!(db.items.len(), 2);
    assert_eq!(db.items[0].id, 1);
    assert_eq!(db.items[0].serial_number, Some("SN-AB12".to_string()));
    assert_eq!(db.items[0].expiry, Some(at(2024, 3, 1)));
    assert_eq!(db.items[0].created_at, at(2024, 1, 1));
    assert_eq!(db.items[1].id, 2);
    assert_eq!(db.items[1].serial_number, None);
    assert_eq!(db.items[1].expiry, None);
}

#[test]
fn bad_expiry_is_refused() {
    let (mut db, _) = fixture();
    assert!(matches!(add_item_post(&mut db, form("X", "", Some("2024-13-01")), at(2024, 1, 1)), Err(AppError::BadRequest(_))));
    assert!(matches!(add_item_post(&mut db, form("X", "", Some("soon")), at(2024, 1, 1)), Err(AppError::BadRequest(_))));
    assert_eq!(db.items.len(), 2);
    assert_eq!(parse_expiry("2024-02-29"), Ok(at(2024, 2, 29)));
    assert!(parse_expiry("2023-02-29").is_err());
}

#[test]
fn editing_keeps_identity_and_history() {
    let (mut db, _) = fixture();
    db.items[0].last_checked_at = Some(at(2024, 2, 1));
    assert_eq!(edit_item_post(&mut db, 1, form("Red two", "x9", None)), Ok(()));
    let item = &db.items[0];
    assert_eq!(item.name, "Red two");
    assert_eq!(item.serial_number, Some("x9".to_string()));
    assert_eq!(item.expiry, None);
    assert_eq!(item.created_at, at(2024, 1, 1));
    assert_eq!(item.last_checked_at, Some(at(2024, 2, 1)));
    assert_eq!(edit_item_post(&mut db, 9, form("Z", "", None)), Err(AppError::NotFound));
    assert!(matches!(edit_item_post(&mut db, 1, form("Z", "", Some("x"))), Err(AppError::BadRequest(_))));
    assert_eq!(db.items[0].name, "Red two");
}

#[test]
fn checked_item_cannot_be_removed() {
    let (mut db, _) = fixture();
    db.checks.push(InventoryItemCheck {
        id: 1,
        finished: true,
        checked_at: at(2024, 2, 1),
        notes: None,
        item_id: 1,
        executed_checklist_id: 1,
        checked_by: 1,
        result_id: 1,
    });
    match remove_item(&mut db, 1) {
        Err(AppError::BadRequest(m)) => assert_eq!(m, "Inventory item already has completed checks"),
        other => panic!("unexpected {:?}", other),
    }
    assert_eq!(db.items.len(), 2);
    assert_eq!(remove_item(&mut db, 2), Ok(()));
    assert_eq!(db.items.len(), 1);
    assert_eq!(remove_item(&mut db, 2), Err(AppError::NotFound));
}

#[test]
fn kind_in_use_cannot_be_removed() {
    let (mut db, mut cache) = fixture();
    match remove_item_kind(&mut db, &mut cache, 1) {
        Err(AppError::BadRequest(m)) => assert_eq!(m, "Item kind is in use by inventory items"),
        other => panic!("unexpected {:?}", other),
    }
    assert_eq!(remove_item_kind(&mut db, &mut cache, 2), Ok(()));
    assert_eq!(db.item_kinds.len(), 1);
    let kinds = cache.get_item_kinds().unwrap();
    assert!(kinds.contains_key(&1));
    assert!(!kinds.contains_key(&2));
    assert_eq!(remove_item_kind(&mut db, &mut cache, 2), Err(AppError::NotFound));
}

#[test]
fn serial_number_search_leads_to_item() {
    let (db, cache) = fixture();
    let r = list(&db, &cache, InventoryListQuery { q: Some("  sn-ab12 ".to_string()) }).unwrap();
    assert!(matches!(r, InventoryListing::Redirect(1)));
}

#[test]
fn search_matches_name_serial_or_kind() {
    let (db, cache) = fixture();
    match list(&db, &cache, InventoryListQuery { q: Some("BLUE".to_string()) }).unwrap() {
        InventoryListing::Rows { rows, search } => {
            assert_eq!(search, Some("BLUE".to_string()));
            assert_eq!(rows.len(), 1);
            assert_eq!(rows[0].item.id, 2);
            assert_eq!(rows[0].kind_name, Some("Fire Extinguisher".to_string()));
        }
        InventoryListing::Redirect(_) => panic!("no serial matches"),
    }
    match list(&db, &cache, InventoryListQuery { q: Some("extinguisher".to_string()) }).unwrap() {
        InventoryListing::Rows { rows, .. } => assert_eq!(rows.len(), 2),
        InventoryListing::Redirect(_) => panic!("no serial matches"),
    }
    match list(&db, &cache, InventoryListQuery { q: Some("ab1".to_string()) }).unwrap() {
        InventoryListing::Rows { rows, .. } => {
            assert_eq!(rows.len(), 1);
            assert_eq!(rows[0].serial, Some("SN-AB12".to_string()));
        }
        InventoryListing::Redirect(_) => panic!("partial serial is no redirect"),
    }
}

#[test]
fn blank_search_lists_everything() {
    let (db, cache) = fixture();
    match list(&db, &cache, InventoryListQuery { q: Some("   ".to_string()) }).unwrap() {
        InventoryListing::Rows { rows, search } => {
            assert_eq!(search, None);
            assert_eq!(rows.len(), 2);
        }
        InventoryListing::Redirect(_) => panic!("blank search"),
    }
    assert!(matches!(list(&db, &AppCache::empty(), InventoryListQuery { q: None }), Err(AppError::InternalServerError)));
}

#[test]
fn substring_test() {
    assert!(text_contains("fire extinguisher", "ext"));
    assert!(text_contains("abc", ""));
    assert!(text_contains("abc", "abc"));
    assert!(!text_contains("abc", "abcd"));
    assert!(!text_contains("abc", "ac"));
}

#[test]
fn cleaning_text() {
    assert_eq!("  a b  ".to_string().clean(), Some("a b".to_string()));
    assert_eq!(" \t ".to_string().clean(), None);
    assert_eq!(Some(" x".to_string()).clean(), Some("x".to_string()));
    assert_eq!(Some("".to_string()).clean(), None);
    assert_eq!(None::<String>.clean(), None);
}

#[test]
fn cloned_lookup() {
    let mut m: BTreeMap<i32, User> = BTreeMap::new();
    m.insert(3, User { id: 3, name: "Bo".to_string() });
    assert_eq!(m.get_cloned(&3, |u: &User| &u.name), Some("Bo".to_string()));
    assert_eq!(m.get_cloned(&4, |u: &User| &u.name), None);
}

#[test]
fn item_kind_rows_name_their_defaults() {
    let (db, cache) = fixture();
    let rows = list_item_kinds(&db, &cache).unwrap();
    assert_eq!(rows.len(), 2);
    assert_eq!(rows[0].kind.name, "Fire Extinguisher");
    assert_eq!(rows[0].default_checklist_name, Some("Basic".to_string()));
    assert_eq!(rows[0].default_interval_code, Some("D30".to_string()));
    assert_eq!(rows[0].default_expiry_code, Some("Y5".to_string()));
}

#[test]
fn check_form_orders_steps() {
    let (db, cache) = fixture();
    let f = show_item_check(&db, &cache, 1).unwrap();
    assert_eq!(f.checklist.name, "Basic");
    let names: Vec<&str> = f.steps.iter().map(|s| s.name.as_str()).collect();
    assert_eq!(names, vec!["A", "B"]);
    assert!(matches!(show_item_check(&db, &cache, 7), Err(AppError::NotFound)));
}

#[test]
fn cache_reload_mirrors_tables() {
    let (db, _) = fixture();
    let mut cache = AppCache::empty();
    assert_eq!(cache.get_users().err(), Some(AppError::InternalServerError));
    let init = AppCacheInitializer;
    assert_eq!(init.name(), "app-cache");
    init.before_run(&mut cache, &db);
    assert_eq!(cache.get_users().unwrap().get(&1).map(|u| u.name.clone()), Some("Ana".to_string()));
    assert_eq!(cache.get_expiries().unwrap().len(), 1);
}

#[test]
fn item_copy_is_equal() {
    let (db, _) = fixture();
    let copy: InventoryItem = db.items[0].clone();
    assert_eq!(copy, db.items[0]);
}

#[test]
fn new_kind_reaches_the_cache() {
    let (mut db, mut cache) = fixture();
    let params = AddItemKindPostParams {
        name: "Harness".to_string(),
        default_checklist_id: 1,
        default_interval_id: 1,
        default_expiry_id: 2,
    };
    assert_eq!(add_item_kind_post(&mut db, &mut cache, params), Ok(3));
    assert_eq!(db.item_kinds[2].name, "Harness");
    let kinds = cache.get_item_kinds().unwrap();
    assert_eq!(kinds.get(&3).map(|k| k.name.clone()), Some("Harness".to_string()));
}
