//! Inventory items and item kinds: creation, editing, removal and search.
use crate::cache::{loaded, refresh_item_kinds_cache, table_of, AppCache};
use crate::calendar::{CivilDate, Timestamp};
use crate::exts::{cleaned, opt_text, StringExt};
use crate::interval::opt_valid;
use crate::records::{AppError, InventoryItem, ItemKind, Keyed};
use crate::store::{
    delete_by_id, find_by_id, first_index, fresh_ids, has_key, max_key, without_key, Inventory,
};
use chrono::Datelike;
use vstd::prelude::*;
use vstd::string::*;

verus! {

/// The date that chrono reads from `text` under the strftime pattern `format`,
/// as (year, month, day).
pub uninterp spec fn parsed_date(text: Seq<char>, format: Seq<char>) -> Option<(int, int, int)>;

/// Relies on chrono's `NaiveDate::parse_from_str`: the date that `text`
/// spells under `format`, which is always a date chrono can represent, or
/// chrono's error message.
#[verifier::external_body]
fn parse_date(text: &str, format: &str) -> (r: Result<CivilDate, String>)
    ensures
        match r {
            Ok(d) => d.valid() && parsed_date(text@, format@) == Some(
                (d.year as int, d.month as int, d.day as int),
            ),
            Err(_) => parsed_date(text@, format@) is None,
        },
{
    chrono::NaiveDate::parse_from_str(text, format)
        .map(|x| CivilDate { year: x.year(), month: x.month(), day: x.day() })
        .map_err(|e| e.to_string())
}

/// The form fields of an item.
pub struct AddItemPostParams {
    pub name: String,
    pub serial_number: String,
    pub checklist_id: i32,
    pub interval_id: i32,
    pub item_kind_id: i32,
    /// A date written YYYY-MM-DD, if any.
    pub expiry: Option<String>,
}

/// The expiry a form field gives: midnight UTC of the date it spells.
pub open spec fn expiry_of(text: Seq<char>) -> Option<Timestamp> {
    match parsed_date(text, "%Y-%m-%d"@) {
        Some((y, m, d)) => Some(
            Timestamp {
                date: CivilDate { year: y as i32, month: m as u32, day: d as u32 },
                secs: 0,
                nanos: 0,
            },
        ),
        None => None,
    }
}

/// Reads an expiry date written YYYY-MM-DD as midnight UTC.
pub fn parse_expiry(text: &str) -> (r: Result<Timestamp, AppError>)
    ensures
        match r {
            Ok(t) => t.valid() && expiry_of(text@) == Some(t),
            Err(e) => expiry_of(text@) is None && e is BadRequest,
        },
{
    match parse_date(text, "%Y-%m-%d") {
        Ok(d) => Ok(Timestamp::at_midnight(d)),
        Err(message) => Err(AppError::BadRequest(message)),
    }
}

/// The expiry field: absent, or a date that parses.
pub open spec fn expiry_field_ok(field: Option<String>) -> bool {
    match field {
        Some(text) => expiry_of(text@) is Some,
        None => true,
    }
}

pub open spec fn expiry_field(field: Option<String>) -> Option<Timestamp> {
    match field {
        Some(text) => expiry_of(text@),
        None => None,
    }
}

fn parse_expiry_field(field: &Option<String>) -> (r: Result<Option<Timestamp>, AppError>)
    ensures
        match r {
            Ok(t) => expiry_field_ok(*field) && t == expiry_field(*field) && opt_valid(t),
            Err(e) => !expiry_field_ok(*field) && e is BadRequest,
        },
{
    match field {
        Some(text) => match parse_expiry(text.as_str()) {
            Ok(t) => Ok(Some(t)),
            Err(e) => Err(e),
        },
        None => Ok(None),
    }
}

/// `item` holds the form's values: the name as given, the serial number
/// trimmed (blank meaning none), the three references and the expiry.
pub open spec fn item_matches_form(item: InventoryItem, params: AddItemPostParams) -> bool {
    &&& item.name@ == params.name@
    &&& opt_text(item.serial_number) == cleaned(params.serial_number@)
    &&& item.kind_id == params.item_kind_id
    &&& item.checklist_id == params.checklist_id
    &&& item.interval_id == params.interval_id
    &&& item.expiry == expiry_field(params.expiry)
}

/// Adds an item created at `now`, not yet checked. Returns its identifier.
pub fn add_item_post(db: &mut Inventory, params: AddItemPostParams, now: Timestamp) -> (r: Result<
    i32,
    AppError,
>)
    ensures
        match r {
            Ok(id) => expiry_field_ok(params.expiry) && id == max_key(old(db).items@) + 1
                && final(db).items@ == old(db).items@.push(final(db).items@.last())
                && final(db).items@.last().id == id && item_matches_form(
                final(db).items@.last(),
                params,
            ) && final(db).items@.last().created_at == now
                && final(db).items@.last().last_checked_at is None && final(db).checks
                == old(db).checks && final(db).checklists == old(db).checklists,
            Err(e) => *final(db) == *old(db) && if expiry_field_ok(params.expiry) {
                e == AppError::Storage && max_key(old(db).items@) == i32::MAX
            } else {
                e is BadRequest
            },
        },
{
    let expiry = match parse_expiry_field(&params.expiry) {
        Ok(t) => t,
        Err(e) => return Err(e),
    };
    proof {
        crate::store::lemma_max_key(db.items@);
    }
    let id = match fresh_ids(&db.items, 1) {
        Some(id) => id,
        None => return Err(AppError::Storage),
    };
    let item = InventoryItem {
        id,
        name: params.name,
        serial_number: params.serial_number.clean(),
        created_at: now,
        last_checked_at: None,
        expiry,
        kind_id: params.item_kind_id,
        checklist_id: params.checklist_id,
        interval_id: params.interval_id,
    };
    let ghost before = db.items@;
    db.items.push(item);
    assert(db.items@ =~= before.push(db.items@.last()));
    Ok(id)
}

/// Replaces the form fields of item `id`; its identifier, creation time and
/// last check stay.
pub fn edit_item_post(db: &mut Inventory, id: i32, params: AddItemPostParams) -> (r: Result<
    (),
    AppError,
>)
    ensures
        match r {
            Ok(()) => {
                let i = first_index(old(db).items@, id);
                let old_item = old(db).items@[i];
                let new_item = final(db).items@[i];
                &&& i >= 0
                &&& expiry_field_ok(params.expiry)
                &&& final(db).items@ == old(db).items@.update(i, new_item)
                &&& new_item.id == id
                &&& new_item.created_at == old_item.created_at
                &&& new_item.last_checked_at == old_item.last_checked_at
                &&& item_matches_form(new_item, params)
                &&& final(db).checks == old(db).checks
            },
            Err(e) => *final(db) == *old(db) && if first_index(old(db).items@, id) < 0 {
                e == AppError::NotFound
            } else {
                !expiry_field_ok(params.expiry) && e is BadRequest
            },
        },
{
    let index = match find_by_id(&db.items, id) {
        Some(i) => i,
        None => return Err(AppError::NotFound),
    };
    let expiry = match parse_expiry_field(&params.expiry) {
        Ok(t) => t,
        Err(e) => return Err(e),
    };
    let existing = &db.items[index];
    let item = InventoryItem {
        id: existing.id,
        name: params.name,
        serial_number: params.serial_number.clean(),
        created_at: existing.created_at,
        last_checked_at: existing.last_checked_at,
        expiry,
        kind_id: params.item_kind_id,
        checklist_id: params.checklist_id,
        interval_id: params.interval_id,
    };
    db.items.set(index, item);
    Ok(())
}

/// Whether item `item_id` has a recorded check.
pub open spec fn item_checked(db: Inventory, item_id: i32) -> bool {
    exists|i: int| 0 <= i < db.checks@.len() && (#[trigger] db.checks@[i]).item_id == item_id
}

/// Whether some item is of kind `kind_id`.
pub open spec fn kind_in_use(db: Inventory, kind_id: i32) -> bool {
    exists|i: int| 0 <= i < db.items@.len() && (#[trigger] db.items@[i]).kind_id == kind_id
}

fn any_check_of(db: &Inventory, item_id: i32) -> (r: bool)
    ensures
        r == item_checked(*db, item_id),
{
    let mut i: usize = 0;
    while i < db.checks.len()
        invariant
            i <= db.checks@.len(),
            forall|k: int| 0 <= k < i ==> (#[trigger] db.checks@[k]).item_id != item_id,
        decreases db.checks@.len() - i,
    {
        if db.checks[i].item_id == item_id {
            return true;
        }
        i += 1;
    }
    false
}

fn any_item_of_kind(db: &Inventory, kind_id: i32) -> (r: bool)
    ensures
        r == kind_in_use(*db, kind_id),
{
    let mut i: usize = 0;
    while i < db.items.len()
        invariant
            i <= db.items@.len(),
            forall|k: int| 0 <= k < i ==> (#[trigger] db.items@[k]).kind_id != kind_id,
        decreases db.items@.len() - i,
    {
        if db.items[i].kind_id == kind_id {
            return true;
        }
        i += 1;
    }
    false
}

/// Deletes item `id`. Refused once the item has a check: checks are history.
pub fn remove_item(db: &mut Inventory, id: i32) -> (r: Result<(), AppError>)
    ensures
        item_checked(*old(db), id) ==> (r matches Err(AppError::BadRequest(text)) && text@
            == "Inventory item already has completed checks"@) && *final(db) == *old(db),
        !item_checked(*old(db), id) && !has_key(old(db).items@, id) ==> r == Err::<(), AppError>(
            AppError::NotFound,
        ) && *final(db) == *old(db),
        !item_checked(*old(db), id) && has_key(old(db).items@, id) ==> r is Ok
            && final(db).items@ == without_key(old(db).items@, id) && final(db).checks
            == old(db).checks && final(db).checklists == old(db).checklists && final(db).item_kinds
            == old(db).item_kinds,
{
    if any_check_of(db, id) {
        return Err(
            AppError::BadRequest(String::from_str("Inventory item already has completed checks")),
        );
    }
    if find_by_id(&db.items, id).is_none() {
        return Err(AppError::NotFound);
    }
    delete_by_id(&mut db.items, id);
    Ok(())
}

/// Deletes item kind `id` and rebuilds the cached item-kind table. Refused
/// while an item is of that kind.
pub fn remove_item_kind(db: &mut Inventory, cache: &mut AppCache, id: i32) -> (r: Result<(), AppError>)
    ensures
        kind_in_use(*old(db), id) ==> (r matches Err(AppError::BadRequest(text)) && text@
            == "Item kind is in use by inventory items"@) && *final(db) == *old(db) && *final(cache)
            == *old(cache),
        !kind_in_use(*old(db), id) && !has_key(old(db).item_kinds@, id) ==> r == Err::<(), AppError>(
            AppError::NotFound,
        ) && *final(db) == *old(db) && *final(cache) == *old(cache),
        !kind_in_use(*old(db), id) && has_key(old(db).item_kinds@, id) ==> r is Ok
            && final(db).item_kinds@ == without_key(old(db).item_kinds@, id) && final(db).items
            == old(db).items && loaded(final(cache).item_kinds) == Some(table_of(final(db).item_kinds@))
            && final(cache).users == old(cache).users && final(cache).checklists
            == old(cache).checklists,
{
    if any_item_of_kind(db, id) {
        return Err(AppError::BadRequest(String::from_str("Item kind is in use by inventory items")));
    }
    if find_by_id(&db.item_kinds, id).is_none() {
        return Err(AppError::NotFound);
    }
    delete_by_id(&mut db.item_kinds, id);
    refresh_item_kinds_cache(cache, db);
    Ok(())
}

/// The form fields of an item kind.
pub struct AddItemKindPostParams {
    pub name: String,
    pub default_checklist_id: i32,
    pub default_interval_id: i32,
    pub default_expiry_id: i32,
}

/// Adds an item kind and rebuilds the cached item-kind table. Returns the
/// new kind's identifier.
pub fn add_item_kind_post(db: &mut Inventory, cache: &mut AppCache, params: AddItemKindPostParams) -> (r:
    Result<i32, AppError>)
    ensures
        match r {
            Ok(id) => {
                let kind = final(db).item_kinds@.last();
                &&& id == max_key(old(db).item_kinds@) + 1
                &&& final(db).item_kinds@ == old(db).item_kinds@.push(kind)
                &&& kind == (ItemKind {
                    id,
                    name: params.name,
                    default_checklist_id: params.default_checklist_id,
                    default_interval_id: params.default_interval_id,
                    default_expiry_id: params.default_expiry_id,
                })
                &&& final(db).items == old(db).items
                &&& loaded(final(cache).item_kinds) == Some(table_of(final(db).item_kinds@))
                &&& final(cache).checklists == old(cache).checklists
                &&& final(cache).users == old(cache).users
            },
            Err(e) => e == AppError::Storage && max_key(old(db).item_kinds@) == i32::MAX
                && *final(db) == *old(db) && *final(cache) == *old(cache),
        },
{
    proof {
        crate::store::lemma_max_key(db.item_kinds@);
    }
    let id = match fresh_ids(&db.item_kinds, 1) {
        Some(id) => id,
        None => return Err(AppError::Storage),
    };
    let ghost before = db.item_kinds@;
    db.item_kinds.push(
        ItemKind {
            id,
            name: params.name,
            default_checklist_id: params.default_checklist_id,
            default_interval_id: params.default_interval_id,
            default_expiry_id: params.default_expiry_id,
        },
    );
    assert(db.item_kinds@ =~= before.push(db.item_kinds@.last()));
    refresh_item_kinds_cache(cache, db);
    Ok(id)
}

} // verus!
