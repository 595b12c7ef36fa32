//! An item's page: its references by name and its check history.
use crate::cache::{AppCache, AppData};
use crate::calendar::Timestamp;
use crate::checks::{
    check_recorded, executed_step_row, lemma_snapshot_round_trip, snapshot_steps, snapshots_consistent,
    submission_accepted, target_template, under_snapshot, PerformCheckPayload,
};
use crate::exts::{opt_text, BTreeMapExt};
use crate::interval::Interval;
use crate::ordering::{
    all_ready, lemma_sort_by_rank, lemma_sort_sorted, sort_by_rank, sort_ranked, sorted_by_rank, Ranked,
};
use crate::records::{
    copy_text, AppError, ChecklistRecord, ChecklistStep, ExecutedChecklistStep, InventoryItem,
    InventoryItemCheck, InventoryItemCheckStep, ItemKind, Keyed, ResultCode, User,
};
use crate::store::{find_by_id, first_index, max_key, Inventory};
use std::collections::BTreeMap;
use vstd::prelude::*;

verus! {

/// One snapshot step of a check, with the result recorded for it.
pub struct ItemCheckStepView {
    pub position: i32,
    pub name: String,
    pub description: Option<String>,
    pub result_code: Option<String>,
    pub notes: Option<String>,
}

/// One check of an item, with names resolved.
pub struct ItemCheckView {
    pub check: InventoryItemCheck,
    pub result_code: Option<String>,
    pub checked_by: Option<String>,
    pub steps: Vec<ItemCheckStepView>,
}

/// An item with its references by name and its checks, newest first.
pub struct ItemDetails {
    pub item: InventoryItem,
    pub item_kind_name: Option<String>,
    pub checklist_name: Option<String>,
    pub interval_name: Option<String>,
    pub checks: Vec<ItemCheckView>,
}

/// The text a map holds under `key`, as picked by `pick`.
pub open spec fn name_in<V>(m: Map<i32, V>, key: i32, pick: spec_fn(V) -> String) -> Option<Seq<char>> {
    if m.contains_key(key) {
        Some(pick(m[key])@)
    } else {
        None
    }
}

/// The result row recorded for snapshot step `step_id` in check `check_id`;
/// of several, the last.
pub open spec fn step_result(rows: Seq<InventoryItemCheckStep>, check_id: i32, step_id: i32) -> Option<
    InventoryItemCheckStep,
>
    decreases rows.len(),
{
    if rows.len() == 0 {
        None
    } else if rows.last().check_id == check_id && rows.last().executed_checklist_step_id == step_id {
        Some(rows.last())
    } else {
        step_result(rows.drop_last(), check_id, step_id)
    }
}

/// `v` shows snapshot step `e` of check `check_id`.
pub open spec fn step_view_matches(
    v: ItemCheckStepView,
    e: ExecutedChecklistStep,
    rows: Seq<InventoryItemCheckStep>,
    check_id: i32,
    results: Map<i32, ResultCode>,
) -> bool {
    &&& v.position == e.position
    &&& v.name == e.name
    &&& v.description == e.description
    &&& match step_result(rows, check_id, e.id) {
        Some(row) => opt_text(v.result_code) == name_in(results, row.result_id, |r: ResultCode| r.code)
            && v.notes == row.notes,
        None => v.result_code is None && v.notes is None,
    }
}

pub open spec fn of_item(item_id: i32) -> spec_fn(InventoryItemCheck) -> bool {
    |c: InventoryItemCheck| c.item_id == item_id
}

/// The snapshot steps of a check, ordered by position; steps sharing a
/// position keep their stored order.
pub open spec fn snapshot_in_order(db: Inventory, snapshot_id: i32) -> Seq<ExecutedChecklistStep> {
    sort_by_rank(snapshot_steps(db, snapshot_id))
}

/// `v` shows check `c`: its result and the user who checked, by name, and its
/// snapshot steps ordered by position.
pub open spec fn check_view_matches(
    v: ItemCheckView,
    c: InventoryItemCheck,
    db: Inventory,
    results: Map<i32, ResultCode>,
    users: Map<i32, User>,
) -> bool {
    let steps = snapshot_in_order(db, c.executed_checklist_id);
    &&& v.check == c
    &&& opt_text(v.result_code) == name_in(results, c.result_id, |r: ResultCode| r.code)
    &&& opt_text(v.checked_by) == name_in(users, c.checked_by, |u: User| u.name)
    &&& v.steps@.len() == steps.len()
    &&& forall|j: int|
        0 <= j < steps.len() ==> step_view_matches(
            #[trigger] v.steps@[j],
            steps[j],
            db.check_steps@,
            c.id,
            results,
        )
}

fn find_step_result(rows: &Vec<InventoryItemCheckStep>, check_id: i32, step_id: i32) -> (r: Option<
    usize,
>)
    ensures
        match r {
            Some(k) => k < rows@.len() && step_result(rows@, check_id, step_id) == Some(rows@[k as int]),
            None => step_result(rows@, check_id, step_id) is None,
        },
{
    let mut k: usize = rows.len();
    assert(rows@.subrange(0, k as int) =~= rows@);
    while k > 0
        invariant
            k <= rows@.len(),
            step_result(rows@, check_id, step_id) == step_result(rows@.subrange(0, k as int), check_id, step_id),
        decreases k,
    {
        proof {
            assert(rows@.subrange(0, k as int).drop_last() =~= rows@.subrange(0, k - 1));
        }
        if rows[k - 1].check_id == check_id && rows[k - 1].executed_checklist_step_id == step_id {
            return Some(k - 1);
        }
        k -= 1;
    }
    None
}

fn view_step(
    db: &Inventory,
    results: &BTreeMap<i32, ResultCode>,
    check_id: i32,
    e: &ExecutedChecklistStep,
) -> (v: ItemCheckStepView)
    ensures
        step_view_matches(v, *e, db.check_steps@, check_id, results@),
{
    broadcast use vstd::std_specs::btree::group_btree_axioms;
    broadcast use vstd::laws_cmp::group_laws_cmp;

    let (result_code, notes) = match find_step_result(&db.check_steps, check_id, e.id) {
        Some(k) => {
            let row = &db.check_steps[k];
            (
                results.get_cloned(&row.result_id, |r: &ResultCode| -> (c: &String) ensures *c == r.code { &r.code }),
                copy_text(&row.notes),
            )
        },
        None => (None, None),
    };
    ItemCheckStepView {
        position: e.position,
        name: e.name.clone(),
        description: copy_text(&e.description),
        result_code,
        notes,
    }
}

fn view_check(
    db: &Inventory,
    results: &BTreeMap<i32, ResultCode>,
    users: &BTreeMap<i32, User>,
    c: &InventoryItemCheck,
) -> (v: ItemCheckView)
    ensures
        check_view_matches(v, *c, *db, results@, users@),
{
    broadcast use vstd::std_specs::btree::group_btree_axioms;
    broadcast use vstd::laws_cmp::group_laws_cmp;

    let rows = &db.executed_steps;
    let mut snapshot: Vec<ExecutedChecklistStep> = Vec::new();
    let mut i: usize = 0;
    while i < rows.len()
        invariant
            i <= rows@.len(),
            rows == &db.executed_steps,
            snapshot@ == rows@.subrange(0, i as int).filter(under_snapshot(c.executed_checklist_id)),
        decreases rows@.len() - i,
    {
        let ghost next = rows@.subrange(0, i + 1);
        proof {
            assert(next.drop_last() =~= rows@.subrange(0, i as int));
            assert(next.last() == rows@[i as int]);
            reveal(Seq::filter);
        }
        if rows[i].executed_checklist_id == c.executed_checklist_id {
            snapshot.push(rows[i].duplicate());
        }
        i += 1;
    }
    assert(rows@.subrange(0, rows@.len() as int) =~= rows@);
    assert(all_ready(snapshot@));
    let ordered = sort_ranked(snapshot);
    let mut steps: Vec<ItemCheckStepView> = Vec::new();
    let mut j: usize = 0;
    while j < ordered.len()
        invariant
            j <= ordered@.len(),
            ordered@ == snapshot_in_order(*db, c.executed_checklist_id),
            steps@.len() == j,
            forall|k: int|
                0 <= k < j ==> step_view_matches(
                    #[trigger] steps@[k],
                    ordered@[k],
                    db.check_steps@,
                    c.id,
                    results@,
                ),
        decreases ordered@.len() - j,
    {
        steps.push(view_step(db, results, c.id, &ordered[j]));
        j += 1;
    }
    ItemCheckView {
        check: c.duplicate(),
        result_code: results.get_cloned(&c.result_id, |r: &ResultCode| -> (t: &String) ensures *t == r.code { &r.code }),
        checked_by: users.get_cloned(&c.checked_by, |u: &User| -> (t: &String) ensures *t == u.name { &u.name }),
        steps,
    }
}

/// The item's checks ordered by check time, newest first; of checks made at
/// the same instant, the one recorded later comes first.
pub open spec fn checks_newest_first(db: Inventory, item_id: i32) -> Seq<InventoryItemCheck> {
    sort_by_rank(db.checks@.filter(of_item(item_id)).reverse())
}

/// Every stored check time is a valid instant.
pub open spec fn check_times_valid(checks: Seq<InventoryItemCheck>) -> bool {
    forall|i: int| 0 <= i < checks.len() ==> (#[trigger] checks[i]).checked_at.valid()
}

/// The page of item `id`: its kind, checklist and interval by name, and each
/// of its checks, newest first, each with its snapshot steps by position.
pub fn show_item_details(db: &Inventory, cache: &AppCache, id: i32) -> (r: Result<ItemDetails, AppError>)
    requires
        check_times_valid(db.checks@),
    ensures
        match r {
            Ok(d) => {
                let item = db.items@[first_index(db.items@, id)];
                let checks = checks_newest_first(*db, id);
                &&& first_index(db.items@, id) >= 0
                &&& cache.item_kinds is Some && cache.results is Some && cache.users is Some
                &&& cache.checklists is Some && cache.intervals is Some
                &&& d.item == item
                &&& opt_text(d.item_kind_name) == name_in(cache.item_kinds->0@, item.kind_id, |k: ItemKind| k.name)
                &&& opt_text(d.checklist_name) == name_in(cache.checklists->0@, item.checklist_id, |c: ChecklistRecord| c.name)
                &&& opt_text(d.interval_name) == name_in(cache.intervals->0@, item.interval_id, |i: Interval| i.code)
                &&& d.checks@.len() == checks.len()
                &&& forall|j: int|
                    0 <= j < checks.len() ==> check_view_matches(
                        #[trigger] d.checks@[j],
                        checks[j],
                        *db,
                        cache.results->0@,
                        cache.users->0@,
                    )
            },
            Err(e) => if first_index(db.items@, id) < 0 {
                e == AppError::NotFound
            } else {
                e == AppError::InternalServerError && (cache.item_kinds is None || cache.results is None
                    || cache.users is None || cache.checklists is None || cache.intervals is None)
            },
        },
{
    broadcast use vstd::std_specs::btree::group_btree_axioms;
    broadcast use vstd::laws_cmp::group_laws_cmp;

    let index = match find_by_id(&db.items, id) {
        Some(i) => i,
        None => return Err(AppError::NotFound),
    };
    let item_kinds = match cache.get_item_kinds() {
        Ok(m) => m,
        Err(e) => return Err(e),
    };
    let results = match cache.get_results() {
        Ok(m) => m,
        Err(e) => return Err(e),
    };
    let users = match cache.get_users() {
        Ok(m) => m,
        Err(e) => return Err(e),
    };
    let checklists = match cache.get_checklists() {
        Ok(m) => m,
        Err(e) => return Err(e),
    };
    let intervals = match cache.get_intervals() {
        Ok(m) => m,
        Err(e) => return Err(e),
    };
    let item = &db.items[index];
    let item_kind_name = item_kinds.get_cloned(&item.kind_id, |k: &ItemKind| -> (t: &String) ensures *t == k.name { &k.name });
    let checklist_name = checklists.get_cloned(&item.checklist_id, |c: &ChecklistRecord| -> (t: &String) ensures *t == c.name { &c.name });
    let interval_name = intervals.get_cloned(&item.interval_id, |i: &Interval| -> (t: &String) ensures *t == i.code { &i.code });

    let all = &db.checks;
    let mut mine: Vec<InventoryItemCheck> = Vec::new();
    let mut k: usize = all.len();
    assert(all@.subrange(k as int, all@.len() as int).filter(of_item(id)).reverse() =~= Seq::<InventoryItemCheck>::empty()) by {
        reveal(Seq::filter);
    }
    while k > 0
        invariant
            k <= all@.len(),
            all == &db.checks,
            mine@ == all@.subrange(k as int, all@.len() as int).filter(of_item(id)).reverse(),
        decreases k,
    {
        let ghost tail = all@.subrange(k as int, all@.len() as int);
        let ghost longer = all@.subrange(k - 1, all@.len() as int);
        proof {
            lemma_filter_prepend(tail, all@[k - 1], of_item(id));
            assert(longer =~= seq![all@[k - 1]] + tail);
        }
        if all[k - 1].item_id == id {
            proof {
                let f = tail.filter(of_item(id));
                assert(longer.filter(of_item(id)) == seq![all@[k - 1]] + f);
                assert((seq![all@[k - 1]] + f).reverse() =~= f.reverse().push(all@[k - 1]));
            }
            mine.push(all[k - 1].duplicate());
        }
        k -= 1;
    }
    assert(all@.subrange(0, all@.len() as int) =~= all@);
    proof {
        assert forall|j: int| 0 <= j < mine@.len() implies (#[trigger] mine@[j]).rank_ready() by {
            let f = all@.filter(of_item(id));
            assert(mine@[j] == f[f.len() - 1 - j]);
            lemma_filter_draws_from(all@, of_item(id), f.len() - 1 - j);
        }
    }
    let ordered = sort_ranked(mine);
    let mut views: Vec<ItemCheckView> = Vec::new();
    let mut n: usize = 0;
    while n < ordered.len()
        invariant
            n <= ordered@.len(),
            ordered@ == checks_newest_first(*db, id),
            views@.len() == n,
            forall|j: int|
                0 <= j < n ==> check_view_matches(
                    #[trigger] views@[j],
                    ordered@[j],
                    *db,
                    results@,
                    users@,
                ),
        decreases ordered@.len() - n,
    {
        views.push(view_check(db, &results, &users, &ordered[n]));
        n += 1;
    }
    Ok(
        ItemDetails {
            item: item.duplicate(),
            item_kind_name,
            checklist_name,
            interval_name,
            checks: views,
        },
    )
}

/// After a check is recorded, the item page lists it, and shows its steps as
/// the template stood when the check ran, by position, whatever later
/// happens to the live checklists and their steps (`later` differs from `new`
/// only there).
pub proof fn lemma_item_page_keeps_snapshot(
    old: Inventory,
    new: Inventory,
    cache: AppCache,
    item_id: i32,
    p: PerformCheckPayload,
    now: Timestamp,
    check_id: i32,
    later: Inventory,
)
    requires
        submission_accepted(old, cache, item_id, p),
        check_recorded(old, new, cache, item_id, p, now, check_id),
        snapshots_consistent(old),
        later.executed_checklists == new.executed_checklists,
        later.executed_steps == new.executed_steps,
        later.checks == new.checks,
    ensures
        later.checks@.last().id == check_id,
        checks_newest_first(later, item_id).contains(later.checks@.last()),
        snapshot_in_order(later, later.checks@.last().executed_checklist_id) == Seq::new(
            target_template(old, cache, item_id).len(),
            |j: int|
                executed_step_row(
                    target_template(old, cache, item_id)[j],
                    max_key(old.executed_checklists@) + 1,
                    max_key(old.executed_steps@) + 1 + j,
                ),
        ),
{
    lemma_snapshot_round_trip(old, new, cache, item_id, p, now, check_id, later);
    let t = target_template(old, cache, item_id);
    lemma_sort_by_rank(crate::checks::steps_of(old.checklist_steps@, target_checklist_id(old, cache, item_id)));
    lemma_rows_keep_order(t, max_key(old.executed_checklists@) + 1, max_key(old.executed_steps@) + 1);
    lemma_last_check_listed(later.checks@, item_id);
}

/// The snapshot rows of a template sorted by position are already in position order.
proof fn lemma_rows_keep_order(t: Seq<ChecklistStep>, snapshot_id: int, base: int)
    requires
        sorted_by_rank(t),
    ensures
        ({
            let rows = Seq::new(t.len(), |j: int| executed_step_row(t[j], snapshot_id, base + j));
            sort_by_rank(rows) == rows
        }),
{
    let rows = Seq::new(t.len(), |j: int| executed_step_row(t[j], snapshot_id, base + j));
    assert forall|i: int, j: int| 0 <= i < j < rows.len() implies rows[i].rank() <= rows[j].rank() by {
        assert(t[i].rank() <= t[j].rank());
    }
    lemma_sort_sorted(rows);
}

/// The last recorded check of an item is among its checks as the page lists them.
proof fn lemma_last_check_listed(checks: Seq<InventoryItemCheck>, item_id: i32)
    requires
        checks.len() > 0,
        checks.last().item_id == item_id,
    ensures
        sort_by_rank(checks.filter(of_item(item_id)).reverse()).contains(checks.last()),
{
    broadcast use vstd::seq_lib::group_to_multiset_ensures;
    broadcast use vstd::seq_lib::group_filter_ensures;

    let c = checks.last();
    let f = checks.filter(of_item(item_id));
    assert(checks[checks.len() - 1] == c);
    assert(f.contains(c));
    let k = choose|k: int| 0 <= k < f.len() && f[k] == c;
    assert(f.reverse()[f.len() - 1 - k] == c);
    lemma_sort_by_rank(f.reverse());
    assert(f.reverse().to_multiset().count(c) > 0);
    assert(sort_by_rank(f.reverse()).to_multiset().count(c) > 0);
}

pub open spec fn target_checklist_id(db: Inventory, cache: AppCache, item_id: i32) -> i32 {
    crate::checks::target_checklist(db, cache, item_id).id
}

/// Every element of a filtered sequence comes from the sequence.
pub proof fn lemma_filter_draws_from<T>(s: Seq<T>, pred: spec_fn(T) -> bool, i: int)
    requires
        0 <= i < s.filter(pred).len(),
    ensures
        s.contains(s.filter(pred)[i]),
    decreases s.len(),
{
    reveal(Seq::filter);
    let rest = s.drop_last();
    if pred(s.last()) && i == rest.filter(pred).len() {
        assert(s[s.len() - 1] == s.last());
    } else {
        lemma_filter_draws_from(rest, pred, i);
        let k = choose|k: int| 0 <= k < rest.len() && rest[k] == rest.filter(pred)[i];
        assert(s[k] == rest[k]);
    }
}

/// Filtering a sequence with one more element in front.
pub proof fn lemma_filter_prepend<T>(s: Seq<T>, x: T, pred: spec_fn(T) -> bool)
    ensures
        (seq![x] + s).filter(pred) == if pred(x) {
            seq![x] + s.filter(pred)
        } else {
            s.filter(pred)
        },
{
    broadcast use Seq::filter_distributes_over_add;

    reveal(Seq::filter);
    assert(seq![x].drop_last() =~= Seq::<T>::empty());
    assert(Seq::<T>::empty().filter(pred) =~= Seq::<T>::empty());
}


/// A kind of item with its defaults by name.
pub struct InventoryItemKindRow {
    pub kind: ItemKind,
    pub default_checklist_name: Option<String>,
    pub default_interval_code: Option<String>,
    pub default_expiry_code: Option<String>,
}

/// What the check form shows: the item, its checklist and the live template.
pub struct CheckForm {
    pub item: InventoryItem,
    pub checklist: ChecklistRecord,
    pub steps: Vec<crate::records::ChecklistStep>,
}

/// Every item kind, in the order of the kind table, with its default
/// checklist, interval and expiry by name.
pub fn list_item_kinds(db: &Inventory, cache: &AppCache) -> (r: Result<Vec<InventoryItemKindRow>, AppError>)
    ensures
        match r {
            Ok(rows) => {
                let lists = cache.checklists->0@;
                let intervals = cache.intervals->0@;
                let expiries = cache.expiries->0@;
                &&& cache.checklists is Some && cache.intervals is Some && cache.expiries is Some
                &&& rows@.len() == db.item_kinds@.len()
                &&& forall|i: int|
                    0 <= i < rows@.len() ==> {
                        let k = db.item_kinds@[i];
                        &&& (#[trigger] rows@[i]).kind == k
                        &&& opt_text(rows@[i].default_checklist_name) == name_in(lists, k.default_checklist_id, |c: ChecklistRecord| c.name)
                        &&& opt_text(rows@[i].default_interval_code) == name_in(intervals, k.default_interval_id, |v: Interval| v.code)
                        &&& opt_text(rows@[i].default_expiry_code) == name_in(expiries, k.default_expiry_id, |v: Interval| v.code)
                    }
            },
            Err(e) => e == AppError::InternalServerError && (cache.checklists is None
                || cache.intervals is None || cache.expiries is None),
        },
{
    broadcast use vstd::std_specs::btree::group_btree_axioms;
    broadcast use vstd::laws_cmp::group_laws_cmp;

    let checklists = match cache.get_checklists() {
        Ok(m) => m,
        Err(e) => return Err(e),
    };
    let intervals = match cache.get_intervals() {
        Ok(m) => m,
        Err(e) => return Err(e),
    };
    let expiries = match cache.get_expiries() {
        Ok(m) => m,
        Err(e) => return Err(e),
    };
    let kinds = &db.item_kinds;
    let mut rows: Vec<InventoryItemKindRow> = Vec::new();
    let mut i: usize = 0;
    while i < kinds.len()
        invariant
            i <= kinds@.len(),
            kinds == &db.item_kinds,
            rows@.len() == i,
            forall|j: int|
                0 <= j < i ==> {
                    let k = kinds@[j];
                    &&& (#[trigger] rows@[j]).kind == k
                    &&& opt_text(rows@[j].default_checklist_name) == name_in(checklists@, k.default_checklist_id, |c: ChecklistRecord| c.name)
                    &&& opt_text(rows@[j].default_interval_code) == name_in(intervals@, k.default_interval_id, |v: Interval| v.code)
                    &&& opt_text(rows@[j].default_expiry_code) == name_in(expiries@, k.default_expiry_id, |v: Interval| v.code)
                },
        decreases kinds@.len() - i,
    {
        let kind = &kinds[i];
        let row = InventoryItemKindRow {
            default_checklist_name: checklists.get_cloned(&kind.default_checklist_id, |c: &ChecklistRecord| -> (t: &String) ensures *t == c.name { &c.name }),
            default_interval_code: intervals.get_cloned(&kind.default_interval_id, |v: &Interval| -> (t: &String) ensures *t == v.code { &v.code }),
            default_expiry_code: expiries.get_cloned(&kind.default_expiry_id, |v: &Interval| -> (t: &String) ensures *t == v.code { &v.code }),
            kind: kind.duplicate(),
        };
        rows.push(row);
        i += 1;
    }
    Ok(rows)
}

/// The form for checking item `id`: the item, its checklist and the
/// checklist's steps ordered by position.
pub fn show_item_check(db: &Inventory, cache: &AppCache, id: i32) -> (r: Result<CheckForm, AppError>)
    ensures
        match r {
            Ok(form) => {
                let item = db.items@[first_index(db.items@, id)];
                &&& first_index(db.items@, id) >= 0
                &&& cache.checklists is Some
                &&& cache.checklists->0@.contains_key(item.checklist_id)
                &&& form.item == item
                &&& form.checklist == cache.checklists->0@[item.checklist_id]
                &&& form.steps@ == crate::checks::template_of(db.checklist_steps@, form.checklist.id)
            },
            Err(e) => if first_index(db.items@, id) < 0 {
                e == AppError::NotFound
            } else if cache.checklists is None {
                e == AppError::InternalServerError
            } else {
                e == AppError::NotFound && !cache.checklists->0@.contains_key(
                    db.items@[first_index(db.items@, id)].checklist_id,
                )
            },
        },
{
    broadcast use vstd::std_specs::btree::group_btree_axioms;
    broadcast use vstd::laws_cmp::group_laws_cmp;

    let index = match find_by_id(&db.items, id) {
        Some(i) => i,
        None => return Err(AppError::NotFound),
    };
    let item = db.items[index].duplicate();
    let checklists = match cache.get_checklists() {
        Ok(m) => m,
        Err(e) => return Err(e),
    };
    let checklist = match checklists.get(&item.checklist_id) {
        Some(c) => c.duplicate(),
        None => return Err(AppError::NotFound),
    };
    let steps = crate::checks::checklist_template(db, checklist.id);
    Ok(CheckForm { item, checklist, steps })
}

} // verus!
