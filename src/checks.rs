//! Running a checklist against an item: validation of the submitted results
//! and the all-or-nothing write of the check.
use crate::cache::{AppCache, AppData};
use crate::calendar::Timestamp;
use crate::exts::{cleaned_opt, opt_text, OptionStringExt};
use crate::ordering::{sort_by_position, sort_steps_by_position};
use crate::records::{
    copy_text, AppError, ChecklistRecord, ChecklistStep, ExecutedChecklist, ExecutedChecklistStep,
    InventoryItem, InventoryItemCheck, InventoryItemCheckStep, Keyed, ResultCode, User,
};
use crate::store::{find_by_id, first_index, fresh_ids, lemma_max_key, max_key, Inventory};
use std::collections::BTreeMap;
use vstd::prelude::*;
use vstd::string::*;

verus! {

/// The result submitted for one step.
pub struct StepCheckPayload {
    pub checklist_step_id: i32,
    pub result_id: i32,
    pub notes: Option<String>,
}

/// A submitted check: who checked, the overall result, notes, and step results.
pub struct PerformCheckPayload {
    pub checked_by: i32,
    pub result_id: i32,
    pub notes: Option<String>,
    pub steps: Vec<StepCheckPayload>,
}

/// A step result that passed validation, its notes cleaned.
pub struct StepResultInput {
    pub checklist_step_id: i32,
    pub result_id: i32,
    pub notes: Option<String>,
}

/// A submission that passed validation, with the template it was checked against.
pub struct ValidatedCheckPayload {
    pub steps_template: Vec<ChecklistStep>,
    pub steps: Vec<StepResultInput>,
    pub notes: Option<String>,
    pub checked_by: i32,
    pub result_id: i32,
}

pub open spec fn digit_char(d: int) -> char {
    if d == 0 {
        '0'
    } else if d == 1 {
        '1'
    } else if d == 2 {
        '2'
    } else if d == 3 {
        '3'
    } else if d == 4 {
        '4'
    } else if d == 5 {
        '5'
    } else if d == 6 {
        '6'
    } else if d == 7 {
        '7'
    } else if d == 8 {
        '8'
    } else {
        '9'
    }
}

pub open spec fn decimal_digits(n: nat) -> Seq<char>
    decreases n,
{
    if n < 10 {
        seq![digit_char(n as int)]
    } else {
        decimal_digits(n / 10).push(digit_char((n % 10) as int))
    }
}

/// Decimal notation of `n`, with a leading '-' when negative.
pub open spec fn decimal(n: int) -> Seq<char> {
    if n < 0 {
        seq!['-'] + decimal_digits((-n) as nat)
    } else {
        decimal_digits(n as nat)
    }
}

/// Relies on `i32`'s `Display` (through `ToString`): decimal digits, led by
/// '-' for a negative number.
#[verifier::external_body]
fn decimal_text(n: i32) -> (r: String)
    ensures
        r@ == decimal(n as int),
{
    n.to_string()
}

/// `prefix`, then `n` in decimal, then `suffix`.
fn message_with_number(prefix: &str, n: i32, suffix: &str) -> (r: String)
    ensures
        r@ == prefix@ + decimal(n as int) + suffix@,
{
    let mut text = String::from_str(prefix);
    let digits = decimal_text(n);
    text.append(digits.as_str());
    text.append(suffix);
    text
}

pub open spec fn invalid_step_message(id: i32) -> Seq<char> {
    "Invalid step id "@ + decimal(id as int) + " for checklist"@
}

pub open spec fn unknown_step_result_message(id: i32) -> Seq<char> {
    "Unknown result "@ + decimal(id as int) + " for step"@
}

pub open spec fn template_has(template: Seq<ChecklistStep>, step_id: i32) -> bool {
    exists|j: int| 0 <= j < template.len() && (#[trigger] template[j]).id == step_id
}

/// Why one submitted step is refused, if it is.
pub open spec fn step_rejection(
    s: StepCheckPayload,
    template: Seq<ChecklistStep>,
    results: Map<i32, ResultCode>,
) -> Option<Seq<char>> {
    if !template_has(template, s.checklist_step_id) {
        Some(invalid_step_message(s.checklist_step_id))
    } else if !results.contains_key(s.result_id) {
        Some(unknown_step_result_message(s.result_id))
    } else {
        None
    }
}

/// The refusal of the first refused step at or after `from`.
pub open spec fn steps_rejection(
    steps: Seq<StepCheckPayload>,
    template: Seq<ChecklistStep>,
    results: Map<i32, ResultCode>,
    from: int,
) -> Option<Seq<char>>
    decreases steps.len() - from,
{
    if from < 0 || from >= steps.len() {
        None
    } else if step_rejection(steps[from], template, results) is Some {
        step_rejection(steps[from], template, results)
    } else {
        steps_rejection(steps, template, results, from + 1)
    }
}

/// Why a submission is refused, checking in order: steps present, overall
/// result known, user known, template not empty, then each step in turn.
pub open spec fn payload_rejection(
    p: PerformCheckPayload,
    template: Seq<ChecklistStep>,
    results: Map<i32, ResultCode>,
    users: Map<i32, User>,
) -> Option<Seq<char>> {
    if p.steps@.len() == 0 {
        Some("At least one step result must be provided"@)
    } else if !results.contains_key(p.result_id) {
        Some("Unknown checklist result"@)
    } else if !users.contains_key(p.checked_by) {
        Some("Unknown user for checklist"@)
    } else if template.len() == 0 {
        Some("Checklist contains no steps"@)
    } else {
        steps_rejection(p.steps@, template, results, 0)
    }
}

/// `v` carries the submission's values, its notes cleaned.
pub open spec fn validated_from(v: ValidatedCheckPayload, p: PerformCheckPayload) -> bool {
    &&& v.checked_by == p.checked_by
    &&& v.result_id == p.result_id
    &&& opt_text(v.notes) == cleaned_opt(p.notes)
    &&& v.steps@.len() == p.steps@.len()
    &&& forall|i: int|
        0 <= i < v.steps@.len() ==> {
            &&& (#[trigger] v.steps@[i]).checklist_step_id == p.steps@[i].checklist_step_id
            &&& v.steps@[i].result_id == p.steps@[i].result_id
            &&& opt_text(v.steps@[i].notes) == cleaned_opt(p.steps@[i].notes)
        }
}

pub open spec fn is_bad_request(e: AppError, message: Seq<char>) -> bool {
    e matches AppError::BadRequest(text) && text@ == message
}

/// `e` is the refusal `why` describes.
pub open spec fn refused_with(e: AppError, why: Option<Seq<char>>) -> bool {
    match why {
        Some(m) => is_bad_request(e, m),
        None => false,
    }
}

/// Index of the last template step with identifier `id`; -1 if none.
pub open spec fn last_index(template: Seq<ChecklistStep>, id: i32) -> int
    decreases template.len(),
{
    if template.len() == 0 {
        -1
    } else if template.last().id == id {
        template.len() - 1
    } else {
        last_index(template.drop_last(), id)
    }
}

pub proof fn lemma_last_index(template: Seq<ChecklistStep>, id: i32)
    ensures
        template_has(template, id) ==> 0 <= last_index(template, id) < template.len()
            && template[last_index(template, id)].id == id,
        !template_has(template, id) ==> last_index(template, id) == -1,
    decreases template.len(),
{
    if template.len() > 0 {
        let rest = template.drop_last();
        lemma_last_index(rest, id);
        if template.last().id != id {
            if template_has(template, id) {
                let j = choose|j: int| 0 <= j < template.len() && (#[trigger] template[j]).id == id;
                assert(rest[j] == template[j]);
            }
            if template_has(rest, id) {
                let j = choose|j: int| 0 <= j < rest.len() && (#[trigger] rest[j]).id == id;
                assert(rest[j] == template[j]);
            }
        }
    }
}

/// Index of the last step of `template` with identifier `id`.
fn find_last_step(template: &Vec<ChecklistStep>, id: i32) -> (r: Option<usize>)
    ensures
        match r {
            Some(j) => j as int == last_index(template@, id) && j < template.len()
                && template_has(template@, id),
            None => !template_has(template@, id),
        },
{
    proof {
        lemma_last_index(template@, id);
    }
    let mut k: usize = template.len();
    assert(template@.subrange(0, k as int) =~= template@);
    while k > 0
        invariant
            k <= template.len(),
            last_index(template@, id) == last_index(template@.subrange(0, k as int), id),
        decreases k,
    {
        proof {
            assert(template@.subrange(0, k as int).drop_last() =~= template@.subrange(0, k - 1));
        }
        if template[k - 1].id == id {
            return Some(k - 1);
        }
        k -= 1;
    }
    None
}

/// The steps of checklist `checklist_id`, in table order.
pub open spec fn steps_of(steps: Seq<ChecklistStep>, checklist_id: i32) -> Seq<ChecklistStep> {
    steps.filter(in_checklist(checklist_id))
}

pub open spec fn in_checklist(checklist_id: i32) -> spec_fn(ChecklistStep) -> bool {
    |s: ChecklistStep| s.checklist_id == checklist_id
}

/// The live template of a checklist: its steps ordered by position.
pub open spec fn template_of(steps: Seq<ChecklistStep>, checklist_id: i32) -> Seq<ChecklistStep> {
    sort_by_position(steps_of(steps, checklist_id))
}

/// Fetches the steps of checklist `checklist_id` ordered by position.
pub fn checklist_template(db: &Inventory, checklist_id: i32) -> (r: Vec<ChecklistStep>)
    ensures
        r@ == template_of(db.checklist_steps@, checklist_id),
{
    let rows = &db.checklist_steps;
    let mut found: Vec<ChecklistStep> = Vec::new();
    let mut i: usize = 0;
    while i < rows.len()
        invariant
            i <= rows.len(),
            found@ == rows@.subrange(0, i as int).filter(in_checklist(checklist_id)),
        decreases rows.len() - i,
    {
        let ghost next = rows@.subrange(0, i + 1);
        proof {
            assert(next.drop_last() =~= rows@.subrange(0, i as int));
            assert(next.last() == rows@[i as int]);
            reveal(Seq::filter);
        }
        if rows[i].checklist_id == checklist_id {
            found.push(rows[i].duplicate());
        }
        i += 1;
    }
    assert(rows@.subrange(0, rows.len() as int) =~= rows@);
    sort_steps_by_position(found)
}

impl PerformCheckPayload {
    /// Checks the submission against the checklist's template and the known
    /// results and users. Nothing is written.
    pub fn validate(
        self,
        results: &BTreeMap<i32, ResultCode>,
        users: &BTreeMap<i32, User>,
        steps_template: Vec<ChecklistStep>,
    ) -> (r: Result<ValidatedCheckPayload, AppError>)
        ensures
            match r {
                Ok(v) => payload_rejection(self, steps_template@, results@, users@) is None
                    && v.steps_template@ == steps_template@ && validated_from(v, self),
                Err(e) => refused_with(e, payload_rejection(self, steps_template@, results@, users@)),
            },
    {
        broadcast use vstd::std_specs::btree::group_btree_axioms;
        broadcast use vstd::laws_cmp::group_laws_cmp;

        if self.steps.len() == 0 {
            return Err(AppError::BadRequest(String::from_str("At least one step result must be provided")));
        }
        if !results.contains_key(&self.result_id) {
            return Err(AppError::BadRequest(String::from_str("Unknown checklist result")));
        }
        if !users.contains_key(&self.checked_by) {
            return Err(AppError::BadRequest(String::from_str("Unknown user for checklist")));
        }
        if steps_template.len() == 0 {
            return Err(AppError::BadRequest(String::from_str("Checklist contains no steps")));
        }
        let submitted = &self.steps;
        let mut steps: Vec<StepResultInput> = Vec::new();
        let mut i: usize = 0;
        while i < submitted.len()
            invariant
                i <= submitted.len(),
                submitted@ == self.steps@,
                steps@.len() == i,
                self.steps@.len() > 0,
                payload_rejection(self, steps_template@, results@, users@) == steps_rejection(
                    submitted@,
                    steps_template@,
                    results@,
                    i as int,
                ),
                forall|k: int|
                    0 <= k < i ==> {
                        &&& (#[trigger] steps@[k]).checklist_step_id
                            == submitted@[k].checklist_step_id
                        &&& steps@[k].result_id == submitted@[k].result_id
                        &&& opt_text(steps@[k].notes) == cleaned_opt(submitted@[k].notes)
                    },
            decreases submitted.len() - i,
        {
            let step = &submitted[i];
            proof {
                assert(steps_rejection(submitted@, steps_template@, results@, i as int) == (if step_rejection(
                    submitted@[i as int],
                    steps_template@,
                    results@,
                ) is Some {
                    step_rejection(submitted@[i as int], steps_template@, results@)
                } else {
                    steps_rejection(submitted@, steps_template@, results@, i + 1)
                }));
            }
            if find_last_step(&steps_template, step.checklist_step_id).is_none() {
                let text = message_with_number("Invalid step id ", step.checklist_step_id, " for checklist");
                return Err(AppError::BadRequest(text));
            }
            if !results.contains_key(&step.result_id) {
                return Err(
                    AppError::BadRequest(message_with_number("Unknown result ", step.result_id, " for step")),
                );
            }
            steps.push(
                StepResultInput {
                    checklist_step_id: step.checklist_step_id,
                    result_id: step.result_id,
                    notes: copy_text(&step.notes).clean(),
                },
            );
            i += 1;
        }
        let notes = copy_text(&self.notes).clean();
        Ok(
            ValidatedCheckPayload {
                steps_template,
                steps,
                notes,
                checked_by: self.checked_by,
                result_id: self.result_id,
            },
        )
    }
}

/// The name of a snapshot: "{checklist} - {item}".
pub open spec fn snapshot_name(checklist: Seq<char>, item: Seq<char>) -> Seq<char> {
    checklist + " - "@ + item
}

/// The snapshot row of template step `t`.
pub open spec fn executed_step_row(t: ChecklistStep, executed_checklist_id: int, id: int) -> ExecutedChecklistStep {
    ExecutedChecklistStep {
        id: id as i32,
        executed_checklist_id: executed_checklist_id as i32,
        position: t.position,
        name: t.name,
        description: t.description,
    }
}

/// Identifiers remain for one snapshot of `steps` steps, one check and
/// `results` step results.
pub open spec fn ids_available(db: Inventory, steps: int, results: int) -> bool {
    &&& max_key(db.executed_checklists@) + 1 <= i32::MAX
    &&& max_key(db.executed_steps@) + steps <= i32::MAX
    &&& max_key(db.checks@) + 1 <= i32::MAX
    &&& max_key(db.check_steps@) + results <= i32::MAX
}

/// The item the submission is for.
pub open spec fn target_item(db: Inventory, item_id: i32) -> InventoryItem {
    db.items@[first_index(db.items@, item_id)]
}

/// The checklist the cache holds for the target item.
pub open spec fn target_checklist(db: Inventory, cache: AppCache, item_id: i32) -> ChecklistRecord {
    cache.checklists->0@[target_item(db, item_id).checklist_id]
}

/// The live template of the target item's checklist.
pub open spec fn target_template(db: Inventory, cache: AppCache, item_id: i32) -> Seq<ChecklistStep> {
    template_of(db.checklist_steps@, target_checklist(db, cache, item_id).id)
}

/// The submission can be recorded.
pub open spec fn submission_accepted(db: Inventory, cache: AppCache, item_id: i32, p: PerformCheckPayload) -> bool {
    &&& first_index(db.items@, item_id) >= 0
    &&& cache.checklists is Some
    &&& cache.checklists->0@.contains_key(target_item(db, item_id).checklist_id)
    &&& cache.results is Some
    &&& cache.users is Some
    &&& payload_rejection(p, target_template(db, cache, item_id), cache.results->0@, cache.users->0@) is None
    &&& ids_available(db, target_template(db, cache, item_id).len() as int, p.steps@.len() as int)
}

/// `e` is the error a refused submission gets: not found for an unknown
/// item; internal for missing reference data or a dangling checklist; the
/// validation message; or a storage error when identifiers run out.
pub open spec fn submission_error(db: Inventory, cache: AppCache, item_id: i32, p: PerformCheckPayload, e: AppError) -> bool {
    if first_index(db.items@, item_id) < 0 {
        e == AppError::NotFound
    } else if cache.checklists is None || !cache.checklists->0@.contains_key(target_item(db, item_id).checklist_id) {
        e == AppError::InternalServerError
    } else if p.steps@.len() == 0 {
        is_bad_request(e, "At least one step result must be provided"@)
    } else if cache.results is None {
        e == AppError::InternalServerError
    } else if !cache.results->0@.contains_key(p.result_id) {
        is_bad_request(e, "Unknown checklist result"@)
    } else if cache.users is None {
        e == AppError::InternalServerError
    } else {
        match payload_rejection(p, target_template(db, cache, item_id), cache.results->0@, cache.users->0@) {
            Some(m) => is_bad_request(e, m),
            None => e == AppError::Storage,
        }
    }
}

/// `new` is `old` with the check recorded: one snapshot of the checklist,
/// one snapshot row per template step in template order, the check itself,
/// the item's last check time, and one result row per submitted step.
pub open spec fn check_recorded(
    old: Inventory,
    new: Inventory,
    cache: AppCache,
    item_id: i32,
    p: PerformCheckPayload,
    now: Timestamp,
    check_id: i32,
) -> bool {
    let i = first_index(old.items@, item_id);
    let item = target_item(old, item_id);
    let checklist = target_checklist(old, cache, item_id);
    let template = target_template(old, cache, item_id);
    let snapshot_id = max_key(old.executed_checklists@) + 1;
    let step_base = max_key(old.executed_steps@) + 1;
    let result_base = max_key(old.check_steps@) + 1;
    let snapshot = new.executed_checklists@.last();
    let check = new.checks@.last();
    &&& check_id == max_key(old.checks@) + 1
    &&& new.checklists == old.checklists
    &&& new.checklist_steps == old.checklist_steps
    &&& new.item_kinds == old.item_kinds
    &&& new.intervals == old.intervals
    &&& new.expiries == old.expiries
    &&& new.results == old.results
    &&& new.users == old.users
    &&& new.items@ == old.items@.update(i, InventoryItem { last_checked_at: Some(now), ..item })
    &&& new.executed_checklists@ == old.executed_checklists@.push(snapshot)
    &&& snapshot.id == snapshot_id
    &&& snapshot.name@ == snapshot_name(checklist.name@, item.name@)
    &&& snapshot.description == checklist.description
    &&& new.executed_steps@ == old.executed_steps@ + Seq::new(
        template.len(),
        |j: int| executed_step_row(template[j], snapshot_id, step_base + j),
    )
    &&& new.checks@ == old.checks@.push(check)
    &&& check.id == check_id
    &&& check.finished
    &&& check.checked_at == now
    &&& opt_text(check.notes) == cleaned_opt(p.notes)
    &&& check.item_id == item_id
    &&& check.executed_checklist_id == snapshot_id
    &&& check.checked_by == p.checked_by
    &&& check.result_id == p.result_id
    &&& new.check_steps@.len() == old.check_steps@.len() + p.steps@.len()
    &&& new.check_steps@.subrange(0, old.check_steps@.len() as int) == old.check_steps@
    &&& forall|k: int|
        0 <= k < p.steps@.len() ==> {
            let row = #[trigger] new.check_steps@[old.check_steps@.len() + k];
            &&& row.id == result_base + k
            &&& row.check_id == check_id
            &&& row.executed_checklist_step_id == step_base + last_index(
                template,
                p.steps@[k].checklist_step_id,
            )
            &&& row.result_id == p.steps@[k].result_id
            &&& opt_text(row.notes) == cleaned_opt(p.steps@[k].notes)
        }
}

/// Records a check of item `item_id` at time `now`. Everything is validated
/// before the first write; on any error the tables are left as they were.
pub fn submit_item_check(
    db: &mut Inventory,
    cache: &AppCache,
    item_id: i32,
    payload: PerformCheckPayload,
    now: Timestamp,
) -> (r: Result<i32, AppError>)
    ensures
        match r {
            Ok(check_id) => submission_accepted(*old(db), *cache, item_id, payload) && check_recorded(
                *old(db),
                *final(db),
                *cache,
                item_id,
                payload,
                now,
                check_id,
            ),
            Err(e) => !submission_accepted(*old(db), *cache, item_id, payload) && submission_error(
                *old(db),
                *cache,
                item_id,
                payload,
                e,
            ) && *final(db) == *old(db),
        },
{
    broadcast use vstd::std_specs::btree::group_btree_axioms;
    broadcast use vstd::laws_cmp::group_laws_cmp;

    let index = match find_by_id(&db.items, item_id) {
        Some(i) => i,
        None => return Err(AppError::NotFound),
    };
    let item = db.items[index].duplicate();
    let checklists = match cache.get_checklists() {
        Ok(m) => m,
        Err(e) => return Err(e),
    };
    let checklist = match checklists.get(&item.checklist_id) {
        Some(c) => c.duplicate(),
        None => return Err(AppError::InternalServerError),
    };
    let template = checklist_template(db, checklist.id);
    if payload.steps.len() == 0 {
        return Err(AppError::BadRequest(String::from_str("At least one step result must be provided")));
    }
    let results = match cache.get_results() {
        Ok(m) => m,
        Err(e) => return Err(e),
    };
    if !results.contains_key(&payload.result_id) {
        return Err(AppError::BadRequest(String::from_str("Unknown checklist result")));
    }
    let users = match cache.get_users() {
        Ok(m) => m,
        Err(e) => return Err(e),
    };
    let ghost template_view = template@;
    let validated = match payload.validate(&results, &users, template) {
        Ok(v) => v,
        Err(e) => return Err(e),
    };
    let template = &validated.steps_template;
    let n_steps = template.len();
    let n_results = validated.steps.len();
    let snapshot_id = match fresh_ids(&db.executed_checklists, 1) {
        Some(id) => id,
        None => return Err(AppError::Storage),
    };
    let step_base = match fresh_ids(&db.executed_steps, n_steps) {
        Some(id) => id,
        None => return Err(AppError::Storage),
    };
    let check_id = match fresh_ids(&db.checks, 1) {
        Some(id) => id,
        None => return Err(AppError::Storage),
    };
    let result_base = match fresh_ids(&db.check_steps, n_results) {
        Some(id) => id,
        None => return Err(AppError::Storage),
    };
    let ghost old_db = *db;
    proof {
        lemma_max_key(db.executed_steps@);
        lemma_max_key(db.check_steps@);
    }

    let mut name = checklist.name.clone();
    name.append(" - ");
    name.append(item.name.as_str());
    db.executed_checklists.push(
        ExecutedChecklist { id: snapshot_id, name, description: copy_text(&checklist.description) },
    );

    let mut j: usize = 0;
    while j < n_steps
        invariant
            j <= n_steps,
            n_steps == template@.len(),
            template@ == template_view,
            step_base >= 1,
            step_base as int + n_steps - 1 <= i32::MAX,
            db.checklists == old_db.checklists,
            db.checklist_steps == old_db.checklist_steps,
            db.items == old_db.items,
            db.item_kinds == old_db.item_kinds,
            db.intervals == old_db.intervals,
            db.expiries == old_db.expiries,
            db.results == old_db.results,
            db.users == old_db.users,
            db.checks == old_db.checks,
            db.check_steps == old_db.check_steps,
            db.executed_checklists@.len() == old_db.executed_checklists@.len() + 1,
            db.executed_checklists@.drop_last() == old_db.executed_checklists@,
            db.executed_checklists@.last().id == snapshot_id,
            db.executed_checklists@.last().name@ == snapshot_name(checklist.name@, item.name@),
            db.executed_checklists@.last().description == checklist.description,
            db.executed_steps@ == old_db.executed_steps@ + Seq::new(
                j as nat,
                |k: int| executed_step_row(template@[k], snapshot_id as int, step_base + k),
            ),
        decreases n_steps - j,
    {
        let t = &template[j];
        let row = ExecutedChecklistStep {
            id: step_base + j as i32,
            executed_checklist_id: snapshot_id,
            position: t.position,
            name: t.name.clone(),
            description: copy_text(&t.description),
        };
        assert(row == executed_step_row(template@[j as int], snapshot_id as int, step_base + j));
        let ghost before = db.executed_steps@;
        db.executed_steps.push(row);
        j += 1;
        proof {
            let fresh = Seq::new(
                j as nat,
                |k: int| executed_step_row(template@[k], snapshot_id as int, step_base + k),
            );
            let prior = Seq::new(
                (j - 1) as nat,
                |k: int| executed_step_row(template@[k], snapshot_id as int, step_base + k),
            );
            assert(fresh =~= prior.push(row));
            assert(old_db.executed_steps@ + fresh =~= (old_db.executed_steps@ + prior).push(row));
        }
    }

    assert(db.executed_checklists@ =~= old_db.executed_checklists@.push(db.executed_checklists@.last()));
    db.checks.push(
        InventoryItemCheck {
            id: check_id,
            finished: true,
            checked_at: now,
            notes: copy_text(&validated.notes),
            item_id: item.id,
            executed_checklist_id: snapshot_id,
            checked_by: validated.checked_by,
            result_id: validated.result_id,
        },
    );
    let mut updated = item.duplicate();
    updated.last_checked_at = Some(now);
    db.items.set(index, updated);

    let ghost checks_before = db.check_steps@;
    let ghost written = *db;
    let mut k: usize = 0;
    while k < n_results
        invariant
            k <= n_results,
            n_results == validated.steps@.len(),
            n_results == payload.steps@.len(),
            validated_from(validated, payload),
            template@ == template_view,
            payload_rejection(payload, template_view, results@, users@) is None,
            result_base >= 1,
            result_base as int + n_results - 1 <= i32::MAX,
            step_base >= 1,
            step_base as int + n_steps - 1 <= i32::MAX,
            n_steps == template@.len(),
            checks_before == old_db.check_steps@,
            db.checklists == written.checklists,
            db.checklist_steps == written.checklist_steps,
            db.items == written.items,
            db.item_kinds == written.item_kinds,
            db.intervals == written.intervals,
            db.expiries == written.expiries,
            db.results == written.results,
            db.users == written.users,
            db.executed_checklists == written.executed_checklists,
            db.executed_steps == written.executed_steps,
            db.checks == written.checks,
            db.check_steps@.len() == checks_before.len() + k,
            db.check_steps@.subrange(0, checks_before.len() as int) == checks_before,
            forall|m: int|
                0 <= m < k ==> {
                    let row = #[trigger] db.check_steps@[checks_before.len() + m];
                    &&& row.id == result_base + m
                    &&& row.check_id == check_id
                    &&& row.executed_checklist_step_id == step_base + last_index(
                        template_view,
                        payload.steps@[m].checklist_step_id,
                    )
                    &&& row.result_id == payload.steps@[m].result_id
                    &&& opt_text(row.notes) == cleaned_opt(payload.steps@[m].notes)
                },
        decreases n_results - k,
    {
        let step = &validated.steps[k];
        proof {
            lemma_accepted_step_known(payload, template_view, results@, users@, k as int);
        }
        let position = match find_last_step(template, step.checklist_step_id) {
            Some(p) => p,
            None => {
                proof {
                    assert(false);
                }
                0
            },
        };
        let ghost before = db.check_steps@;
        db.check_steps.push(
            InventoryItemCheckStep {
                id: result_base + k as i32,
                check_id,
                executed_checklist_step_id: step_base + position as i32,
                result_id: step.result_id,
                notes: copy_text(&step.notes),
            },
        );
        proof {
            assert forall|m: int| 0 <= m < checks_before.len() implies db.check_steps@[m] == before[m] by {}
            assert(db.check_steps@.subrange(0, checks_before.len() as int) =~= checks_before);
        }
        k += 1;
    }
    Ok(check_id)
}

/// Every step of an accepted submission names a template step.
pub proof fn lemma_accepted_step_known(
    p: PerformCheckPayload,
    template: Seq<ChecklistStep>,
    results: Map<i32, ResultCode>,
    users: Map<i32, User>,
    k: int,
)
    requires
        payload_rejection(p, template, results, users) is None,
        0 <= k < p.steps@.len(),
    ensures
        template_has(template, p.steps@[k].checklist_step_id),
        results.contains_key(p.steps@[k].result_id),
{
    lemma_no_rejection_from(p.steps@, template, results, 0, k);
}

proof fn lemma_no_rejection_from(
    steps: Seq<StepCheckPayload>,
    template: Seq<ChecklistStep>,
    results: Map<i32, ResultCode>,
    from: int,
    k: int,
)
    requires
        steps_rejection(steps, template, results, from) is None,
        0 <= from <= k < steps.len(),
    ensures
        step_rejection(steps[k], template, results) is None,
    decreases k - from,
{
    if from < k {
        lemma_no_rejection_from(steps, template, results, from + 1, k);
    }
}

pub open spec fn step_ids(steps: Seq<StepCheckPayload>) -> Seq<i32> {
    steps.map_values(|s: StepCheckPayload| s.checklist_step_id)
}

pub open spec fn template_ids(template: Seq<ChecklistStep>) -> Seq<i32> {
    template.map_values(|s: ChecklistStep| s.id)
}

/// Recording a check against a template of N steps adds exactly N snapshot
/// step rows and one result row per submitted step; when no step is
/// submitted twice, that is at most N result rows.
pub proof fn lemma_recorded_row_counts(
    old: Inventory,
    new: Inventory,
    cache: AppCache,
    item_id: i32,
    p: PerformCheckPayload,
    now: Timestamp,
    check_id: i32,
)
    requires
        submission_accepted(old, cache, item_id, p),
        check_recorded(old, new, cache, item_id, p, now, check_id),
    ensures
        new.executed_steps@.len() == old.executed_steps@.len() + target_template(
            old,
            cache,
            item_id,
        ).len(),
        new.check_steps@.len() == old.check_steps@.len() + p.steps@.len(),
        step_ids(p.steps@).no_duplicates() ==> p.steps@.len() <= target_template(
            old,
            cache,
            item_id,
        ).len(),
{
    broadcast use vstd::set::group_set_axioms;
    broadcast use vstd::seq_lib::seq_to_set_is_finite;

    let t = target_template(old, cache, item_id);
    let ids = step_ids(p.steps@);
    let known = template_ids(t);
    if ids.no_duplicates() {
        ids.unique_seq_to_set();
        known.lemma_cardinality_of_set();
        assert forall|x: i32| ids.to_set().contains(x) implies known.to_set().contains(x) by {
            let k = choose|k: int| 0 <= k < ids.len() && ids[k] == x;
            lemma_accepted_step_known(p, t, cache.results->0@, cache.users->0@, k);
            let j = choose|j: int| 0 <= j < t.len() && (#[trigger] t[j]).id == x;
            assert(known[j] == x);
        }
        vstd::set_lib::lemma_len_subset(ids.to_set(), known.to_set());
    }
}

/// The snapshot steps stored under executed checklist `snapshot_id`.
pub open spec fn snapshot_steps(db: Inventory, snapshot_id: i32) -> Seq<ExecutedChecklistStep> {
    db.executed_steps@.filter(under_snapshot(snapshot_id))
}

pub open spec fn under_snapshot(snapshot_id: i32) -> spec_fn(ExecutedChecklistStep) -> bool {
    |s: ExecutedChecklistStep| s.executed_checklist_id == snapshot_id
}

/// Every snapshot step belongs to a stored snapshot.
pub open spec fn snapshots_consistent(db: Inventory) -> bool {
    forall|i: int|
        0 <= i < db.executed_steps@.len() ==> (#[trigger] db.executed_steps@[i]).executed_checklist_id
            <= max_key(db.executed_checklists@)
}

/// Reading a recorded check back gives the template as it was when the check
/// ran, in template order, whatever later happens to the live checklists and
/// their steps (`later` differs from `new` only there).
pub proof fn lemma_snapshot_round_trip(
    old: Inventory,
    new: Inventory,
    cache: AppCache,
    item_id: i32,
    p: PerformCheckPayload,
    now: Timestamp,
    check_id: i32,
    later: Inventory,
)
    requires
        submission_accepted(old, cache, item_id, p),
        check_recorded(old, new, cache, item_id, p, now, check_id),
        snapshots_consistent(old),
        later.executed_checklists == new.executed_checklists,
        later.executed_steps == new.executed_steps,
        later.checks == new.checks,
    ensures
        later.checks@.last().id == check_id,
        snapshot_steps(later, later.checks@.last().executed_checklist_id) == Seq::new(
            target_template(old, cache, item_id).len(),
            |j: int|
                executed_step_row(
                    target_template(old, cache, item_id)[j],
                    max_key(old.executed_checklists@) + 1,
                    max_key(old.executed_steps@) + 1 + j,
                ),
        ),
{
    broadcast use Seq::filter_distributes_over_add;

    let t = target_template(old, cache, item_id);
    let sid = max_key(old.executed_checklists@) + 1;
    let added = Seq::new(
        t.len(),
        |j: int| executed_step_row(t[j], sid, max_key(old.executed_steps@) + 1 + j),
    );
    let pred = under_snapshot(sid as i32);
    assert(later.checks@.last().executed_checklist_id == sid);
    assert forall|i: int| 0 <= i < old.executed_steps@.len() implies !pred(old.executed_steps@[i]) by {}
    old.executed_steps@.lemma_all_neg_filter_empty(pred);
    assert forall|j: int| 0 <= j < added.len() implies pred(#[trigger] added[j]) by {}
    crate::store::lemma_filter_keeps_all(added, pred);
    assert(later.executed_steps@ == old.executed_steps@ + added);
    assert(old.executed_steps@.filter(pred) + added =~= added);
}

} // verus!
