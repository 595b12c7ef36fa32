//! Creating and removing checklist templates.
use crate::exts::{clean_text, cleaned, opt_text, trim_text, trimmed};
use crate::ordering::{lemma_sort_by_position, sort_by_position, sort_steps_by_position};
use crate::records::{AppError, ChecklistRecord, ChecklistStep, Keyed};
use crate::store::{delete_by_id, find_by_id, fresh_ids, has_key, lemma_max_key, max_key, without_key, Inventory};
use vstd::prelude::*;
use vstd::string::*;

verus! {

/// One step of a checklist to create.
pub struct ChecklistStepInput {
    pub position: i32,
    pub name: String,
    pub description: String,
}

/// A checklist to create, with its steps.
pub struct AddChecklistParams {
    pub name: String,
    pub description: String,
    pub steps: Vec<ChecklistStepInput>,
}

pub open spec fn positions(steps: Seq<ChecklistStepInput>) -> Seq<i32> {
    steps.map_values(|s: ChecklistStepInput| s.position)
}

/// Whether no value occurs twice.
pub fn has_unique_elements(values: &Vec<i32>) -> (r: bool)
    ensures
        r == values@.no_duplicates(),
{
    let mut i: usize = 0;
    while i < values.len()
        invariant
            i <= values.len(),
            forall|a: int, b: int| 0 <= a < b < values@.len() && a < i ==> values@[a] != values@[b],
        decreases values.len() - i,
    {
        let mut j: usize = i + 1;
        while j < values.len()
            invariant
                i < j <= values.len(),
                forall|a: int, b: int| 0 <= a < b < values@.len() && a < i ==> values@[a] != values@[b],
                forall|b: int| i < b < j ==> values@[i as int] != values@[b],
            decreases values.len() - j,
        {
            if values[i] == values[j] {
                return false;
            }
            j += 1;
        }
        i += 1;
    }
    true
}

/// Why a checklist cannot be created: a blank name, no steps, or two steps
/// sharing a position.
pub open spec fn checklist_rejection(params: AddChecklistParams) -> Option<Seq<char>> {
    if trimmed(params.name@).len() == 0 {
        Some("Checklist name must not be empty"@)
    } else if params.steps@.len() == 0 {
        Some("Please provide at least one checklist step"@)
    } else if !positions(params.steps@).no_duplicates() {
        Some("Checklist steps must all have unique positions"@)
    } else {
        None
    }
}

/// `prepared` holds the submitted steps in submission order, with names
/// trimmed and blank descriptions dropped.
pub open spec fn prepared_from(prepared: Seq<ChecklistStep>, steps: Seq<ChecklistStepInput>) -> bool {
    &&& prepared.len() == steps.len()
    &&& forall|i: int|
        0 <= i < steps.len() ==> {
            &&& (#[trigger] prepared[i]).position == steps[i].position
            &&& prepared[i].name@ == trimmed(steps[i].name@)
            &&& opt_text(prepared[i].description) == cleaned(steps[i].description@)
            &&& prepared[i].id == 0
            &&& prepared[i].checklist_id == 0
        }
}

/// The stored rows for `sorted`, numbered from `base`, under checklist `checklist_id`.
pub open spec fn numbered_steps(sorted: Seq<ChecklistStep>, checklist_id: int, base: int) -> Seq<ChecklistStep> {
    Seq::new(
        sorted.len(),
        |j: int| ChecklistStep { id: (base + j) as i32, checklist_id: checklist_id as i32, ..sorted[j] },
    )
}

/// Creates a checklist and its steps, stored in position order. Returns the
/// new checklist's identifier; on an error nothing is written.
pub fn add_post(db: &mut Inventory, params: AddChecklistParams) -> (r: Result<i32, AppError>)
    ensures
        match r {
            Ok(id) => checklist_rejection(params) is None && id == max_key(old(db).checklists@) + 1
                && final(db).checklists@ == old(db).checklists@.push(final(db).checklists@.last())
                && final(db).checklists@.last().id == id && final(db).checklists@.last().name@
                == trimmed(params.name@) && opt_text(final(db).checklists@.last().description)
                == cleaned(params.description@) && (exists|prepared: Seq<ChecklistStep>|
                prepared_from(prepared, params.steps@) && final(db).checklist_steps@
                == old(db).checklist_steps@ + numbered_steps(
                sort_by_position(prepared),
                id as int,
                max_key(old(db).checklist_steps@) + 1,
            )) && final(db).items == old(db).items && final(db).executed_steps
                == old(db).executed_steps && final(db).checks == old(db).checks,
            Err(e) => *final(db) == *old(db) && match checklist_rejection(params) {
                Some(m) => e matches AppError::BadRequest(text) && text@ == m,
                None => e == AppError::Storage && (max_key(old(db).checklists@) + 1 > i32::MAX
                    || max_key(old(db).checklist_steps@) + params.steps@.len() > i32::MAX),
            },
        },
{
    let name = match clean_text(params.name.as_str()) {
        Some(n) => n,
        None => return Err(AppError::BadRequest(String::from_str("Checklist name must not be empty"))),
    };
    let description = clean_text(params.description.as_str());
    let inputs = &params.steps;
    if inputs.len() == 0 {
        return Err(AppError::BadRequest(String::from_str("Please provide at least one checklist step")));
    }
    let mut prepared: Vec<ChecklistStep> = Vec::new();
    let mut found: Vec<i32> = Vec::new();
    let mut i: usize = 0;
    while i < inputs.len()
        invariant
            i <= inputs.len(),
            prepared@.len() == i,
            found@ == positions(inputs@).subrange(0, i as int),
            forall|k: int|
                0 <= k < i ==> {
                    &&& (#[trigger] prepared@[k]).position == inputs@[k].position
                    &&& prepared@[k].name@ == trimmed(inputs@[k].name@)
                    &&& opt_text(prepared@[k].description) == cleaned(inputs@[k].description@)
                    &&& prepared@[k].id == 0
                    &&& prepared@[k].checklist_id == 0
                },
        decreases inputs.len() - i,
    {
        let step = &inputs[i];
        let step_name = trim_text(step.name.as_str());
        prepared.push(
            ChecklistStep {
                id: 0,
                checklist_id: 0,
                position: step.position,
                name: step_name,
                description: clean_text(step.description.as_str()),
            },
        );
        found.push(step.position);
        i += 1;
        proof {
            assert(found@ =~= positions(inputs@).subrange(0, i as int));
        }
    }
    assert(found@ =~= positions(inputs@));
    if !has_unique_elements(&found) {
        return Err(
            AppError::BadRequest(String::from_str("Checklist steps must all have unique positions")),
        );
    }
    let ghost prepared_view = prepared@;
    let sorted = sort_steps_by_position(prepared);
    proof {
        lemma_sort_by_position(prepared_view);
    }
    let checklist_id = match fresh_ids(&db.checklists, 1) {
        Some(id) => id,
        None => return Err(AppError::Storage),
    };
    let base = match fresh_ids(&db.checklist_steps, sorted.len()) {
        Some(id) => id,
        None => return Err(AppError::Storage),
    };
    proof {
        lemma_max_key(db.checklist_steps@);
    }
    let ghost old_db = *db;
    db.checklists.push(ChecklistRecord { id: checklist_id, name, description });
    let ghost lists = db.checklists;
    assert(db.checklists@ =~= old_db.checklists@.push(db.checklists@.last()));
    let n = sorted.len();
    let mut j: usize = 0;
    while j < n
        invariant
            j <= n,
            n == sorted@.len(),
            base >= 1,
            base as int + n - 1 <= i32::MAX,
            db.checklists == lists,
            db.items == old_db.items,
            db.executed_steps == old_db.executed_steps,
            db.checks == old_db.checks,
            db.checklist_steps@ == old_db.checklist_steps@ + numbered_steps(
                sorted@.subrange(0, j as int),
                checklist_id as int,
                base as int,
            ),
        decreases n - j,
    {
        let s = &sorted[j];
        let row = ChecklistStep {
            id: base + j as i32,
            checklist_id,
            position: s.position,
            name: s.name.clone(),
            description: crate::records::copy_text(&s.description),
        };
        db.checklist_steps.push(row);
        j += 1;
        proof {
            assert(numbered_steps(sorted@.subrange(0, j as int), checklist_id as int, base as int)
                =~= numbered_steps(sorted@.subrange(0, j - 1), checklist_id as int, base as int).push(
                row,
            ));
        }
    }
    assert(sorted@.subrange(0, n as int) =~= sorted@);
    assert(prepared_from(prepared_view, params.steps@));
    assert(db.checklist_steps@ == old_db.checklist_steps@ + numbered_steps(
        sort_by_position(prepared_view),
        checklist_id as int,
        max_key(old_db.checklist_steps@) + 1,
    ));
    Ok(checklist_id)
}

/// Whether some item uses checklist `checklist_id`.
pub open spec fn checklist_in_use(db: Inventory, checklist_id: i32) -> bool {
    exists|i: int| 0 <= i < db.items@.len() && (#[trigger] db.items@[i]).checklist_id == checklist_id
}

/// The steps that do not belong to checklist `checklist_id`.
pub open spec fn steps_outside(steps: Seq<ChecklistStep>, checklist_id: i32) -> Seq<ChecklistStep> {
    steps.filter(not_in_checklist(checklist_id))
}

pub open spec fn not_in_checklist(checklist_id: i32) -> spec_fn(ChecklistStep) -> bool {
    |s: ChecklistStep| s.checklist_id != checklist_id
}

fn any_item_uses_checklist(db: &Inventory, checklist_id: i32) -> (r: bool)
    ensures
        r == checklist_in_use(*db, checklist_id),
{
    let mut i: usize = 0;
    while i < db.items.len()
        invariant
            i <= db.items@.len(),
            forall|k: int| 0 <= k < i ==> (#[trigger] db.items@[k]).checklist_id != checklist_id,
        decreases db.items@.len() - i,
    {
        if db.items[i].checklist_id == checklist_id {
            return true;
        }
        i += 1;
    }
    false
}

/// Removes every step of checklist `checklist_id`.
fn delete_steps_of(steps: &mut Vec<ChecklistStep>, checklist_id: i32)
    ensures
        final(steps)@ == steps_outside(old(steps)@, checklist_id),
{
    let ghost initial = steps@;
    let mut kept: Vec<ChecklistStep> = Vec::new();
    let mut i: usize = 0;
    while i < steps.len()
        invariant
            i <= steps.len(),
            steps@ == initial,
            kept@ == initial.subrange(0, i as int).filter(not_in_checklist(checklist_id)),
        decreases steps.len() - i,
    {
        let ghost next = initial.subrange(0, i + 1);
        proof {
            assert(next.drop_last() =~= initial.subrange(0, i as int));
            assert(next.last() == initial[i as int]);
            reveal(Seq::filter);
        }
        if steps[i].checklist_id != checklist_id {
            kept.push(steps[i].duplicate());
        }
        i += 1;
    }
    assert(initial.subrange(0, initial.len() as int) =~= initial);
    *steps = kept;
}

/// Deletes checklist `id` with its steps. Refused while an item uses it;
/// not found when no checklist has that identifier.
pub fn remove(db: &mut Inventory, id: i32) -> (r: Result<(), AppError>)
    ensures
        checklist_in_use(*old(db), id) ==> is_bad_request_with(r, "Checklist is in use by inventory items"@)
            && *final(db) == *old(db),
        !checklist_in_use(*old(db), id) && !has_key(old(db).checklists@, id) ==> r == Err::<(), AppError>(
            AppError::NotFound,
        ) && *final(db) == *old(db),
        !checklist_in_use(*old(db), id) && has_key(old(db).checklists@, id) ==> r is Ok
            && final(db).checklists@ == without_key(old(db).checklists@, id)
            && final(db).checklist_steps@ == steps_outside(old(db).checklist_steps@, id)
            && final(db).items == old(db).items && final(db).executed_checklists
            == old(db).executed_checklists && final(db).executed_steps == old(db).executed_steps
            && final(db).checks == old(db).checks && final(db).check_steps == old(db).check_steps,
{
    if any_item_uses_checklist(db, id) {
        return Err(AppError::BadRequest(String::from_str("Checklist is in use by inventory items")));
    }
    if find_by_id(&db.checklists, id).is_none() {
        return Err(AppError::NotFound);
    }
    delete_by_id(&mut db.checklists, id);
    delete_steps_of(&mut db.checklist_steps, id);
    Ok(())
}

pub open spec fn is_bad_request_with<T>(r: Result<T, AppError>, message: Seq<char>) -> bool {
    r matches Err(AppError::BadRequest(text)) && text@ == message
}


/// A checklist with its steps in position order.
pub struct ChecklistWithSteps {
    pub checklist: ChecklistRecord,
    pub steps: Vec<ChecklistStep>,
}

/// Every checklist with its steps ordered by position.
pub fn list(db: &Inventory) -> (r: Vec<ChecklistWithSteps>)
    ensures
        r@.len() == db.checklists@.len(),
        forall|i: int|
            0 <= i < r@.len() ==> (#[trigger] r@[i]).checklist == db.checklists@[i] && r@[i].steps@
                == crate::checks::template_of(db.checklist_steps@, db.checklists@[i].id),
{
    let mut r: Vec<ChecklistWithSteps> = Vec::new();
    let mut i: usize = 0;
    while i < db.checklists.len()
        invariant
            i <= db.checklists@.len(),
            r@.len() == i,
            forall|k: int|
                0 <= k < i ==> (#[trigger] r@[k]).checklist == db.checklists@[k] && r@[k].steps@
                    == crate::checks::template_of(db.checklist_steps@, db.checklists@[k].id),
        decreases db.checklists@.len() - i,
    {
        let checklist = db.checklists[i].duplicate();
        let steps = crate::checks::checklist_template(db, checklist.id);
        r.push(ChecklistWithSteps { checklist, steps });
        i += 1;
    }
    r
}

} // verus!
