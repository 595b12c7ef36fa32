//! The dashboard: every item with its next due date and urgency, soonest first.
use crate::cache::{AppCache, AppData};
use crate::calendar::Timestamp;
use crate::interval::{cap_by_expiry, effective_due, next_due, opt_valid, Interval};
use crate::records::{
    copy_text, AppError, ChecklistRecord, ExecutedChecklist, InventoryItem, InventoryItemCheck, ItemKind,
    Keyed, ResultCode, User,
};
use crate::store::{find_by_id, first_index};
use crate::store::Inventory;
use crate::urgency::{calculate_urgency, urgency_of, UrgencyLevel};
use vstd::prelude::*;

verus! {

/// One dashboard line.
pub struct HomeEntry {
    pub item: InventoryItem,
    pub checklist_name: String,
    pub checklist_description: Option<String>,
    pub item_kind_name: String,
    pub interval: Interval,
    pub next_expiry: Timestamp,
    pub urgency: UrgencyLevel,
}

/// The stored times of an item are valid instants.
pub open spec fn item_times_valid(item: InventoryItem) -> bool {
    &&& item.created_at.valid()
    &&& opt_valid(item.last_checked_at)
    &&& opt_valid(item.expiry)
}

pub open spec fn items_times_valid(items: Seq<InventoryItem>) -> bool {
    forall|i: int| 0 <= i < items.len() ==> item_times_valid(#[trigger] items[i])
}

/// The item's checklist, kind and interval are all in the reference data.
pub open spec fn listed(
    checklists: Map<i32, ChecklistRecord>,
    kinds: Map<i32, ItemKind>,
    intervals: Map<i32, Interval>,
) -> spec_fn(InventoryItem) -> bool {
    |item: InventoryItem|
        checklists.contains_key(item.checklist_id) && kinds.contains_key(item.kind_id)
            && intervals.contains_key(item.interval_id)
}

/// The due date shown for an item: its rule applied, capped by its expiry.
pub open spec fn item_due(item: InventoryItem, interval: Interval) -> Timestamp {
    effective_due(
        next_due(interval.unit_spec(), interval.amount as int, item.created_at, item.last_checked_at),
        item.expiry,
    )
}

/// The dashboard line of a listed item.
pub open spec fn entry_of(
    checklists: Map<i32, ChecklistRecord>,
    kinds: Map<i32, ItemKind>,
    intervals: Map<i32, Interval>,
    now: Timestamp,
) -> spec_fn(InventoryItem) -> HomeEntry {
    |item: InventoryItem|
        HomeEntry {
            item,
            checklist_name: checklists[item.checklist_id].name,
            checklist_description: checklists[item.checklist_id].description,
            item_kind_name: kinds[item.kind_id].name,
            interval: intervals[item.interval_id],
            next_expiry: item_due(item, intervals[item.interval_id]),
            urgency: urgency_of(item_due(item, intervals[item.interval_id]), now),
        }
}

/// Puts `x` after every entry due no later than it, scanning from the end.
pub open spec fn insert_by_due(s: Seq<HomeEntry>, x: HomeEntry) -> Seq<HomeEntry>
    decreases s.len(),
{
    if s.len() == 0 {
        seq![x]
    } else if s.last().next_expiry.instant() <= x.next_expiry.instant() {
        s.push(x)
    } else {
        insert_by_due(s.drop_last(), x).push(s.last())
    }
}

/// Stable sort by due date: entries due at the same instant keep their order.
pub open spec fn sort_by_due(s: Seq<HomeEntry>) -> Seq<HomeEntry>
    decreases s.len(),
{
    if s.len() == 0 {
        s
    } else {
        insert_by_due(sort_by_due(s.drop_last()), s.last())
    }
}

pub open spec fn sorted_by_due(s: Seq<HomeEntry>) -> bool {
    forall|i: int, j: int|
        0 <= i < j < s.len() ==> s[i].next_expiry.instant() <= s[j].next_expiry.instant()
}

pub proof fn lemma_insert_by_due(s: Seq<HomeEntry>, x: HomeEntry)
    ensures
        insert_by_due(s, x).len() == s.len() + 1,
        insert_by_due(s, x).to_multiset() == s.to_multiset().insert(x),
        sorted_by_due(s) ==> sorted_by_due(insert_by_due(s, x)),
    decreases s.len(),
{
    broadcast use vstd::seq_lib::group_to_multiset_ensures;

    if s.len() > 0 && s.last().next_expiry.instant() > x.next_expiry.instant() {
        let rest = s.drop_last();
        lemma_insert_by_due(rest, x);
        assert(rest.push(s.last()) =~= s);
        let r = insert_by_due(rest, x);
        if sorted_by_due(s) {
            assert forall|i: int| 0 <= i < r.len() implies r[i].next_expiry.instant()
                <= s.last().next_expiry.instant() by {
                assert(r.to_multiset().count(r[i]) > 0);
                assert(r.to_multiset().count(r[i]) == rest.to_multiset().insert(x).count(r[i]));
                if r[i] != x {
                    assert(rest.to_multiset().count(r[i]) > 0);
                    assert(rest.contains(r[i]));
                }
            }
        }
    } else if s.len() > 0 {
        assert(s.drop_last().push(s.last()) =~= s);
    }
}

/// The stable sort keeps every entry and orders them by due date.
pub proof fn lemma_sort_by_due(s: Seq<HomeEntry>)
    ensures
        sort_by_due(s).len() == s.len(),
        sort_by_due(s).to_multiset() == s.to_multiset(),
        sorted_by_due(sort_by_due(s)),
    decreases s.len(),
{
    broadcast use vstd::seq_lib::group_to_multiset_ensures;

    if s.len() > 0 {
        lemma_sort_by_due(s.drop_last());
        lemma_insert_by_due(sort_by_due(s.drop_last()), s.last());
        assert(s.drop_last().push(s.last()) =~= s);
    }
}

pub open spec fn entries_valid(s: Seq<HomeEntry>) -> bool {
    forall|i: int| 0 <= i < s.len() ==> (#[trigger] s[i]).next_expiry.valid()
}

fn insert_entry(v: &mut Vec<HomeEntry>, x: HomeEntry)
    requires
        entries_valid(old(v)@),
        x.next_expiry.valid(),
    ensures
        final(v)@ == insert_by_due(old(v)@, x),
{
    let ghost s = v@;
    let mut k: usize = v.len();
    proof {
        assert(s.subrange(0, k as int) =~= s);
        assert(insert_by_due(s, x) + s.subrange(k as int, s.len() as int) =~= insert_by_due(s, x));
    }
    while k > 0 && x.next_expiry.is_before(&v[k - 1].next_expiry)
        invariant
            k <= v.len(),
            v@ == s,
            entries_valid(s),
            x.next_expiry.valid(),
            insert_by_due(s, x) == insert_by_due(s.subrange(0, k as int), x) + s.subrange(
                k as int,
                s.len() as int,
            ),
        decreases k,
    {
        proof {
            let head = s.subrange(0, k as int);
            assert(head.drop_last() =~= s.subrange(0, k - 1));
            assert(head.last() == s[k - 1]);
            assert(s.subrange(k - 1, s.len() as int) =~= seq![s[k - 1]] + s.subrange(
                k as int,
                s.len() as int,
            ));
            assert(insert_by_due(s.subrange(0, k - 1), x).push(s[k - 1]) + s.subrange(
                k as int,
                s.len() as int,
            ) =~= insert_by_due(s.subrange(0, k - 1), x) + s.subrange(k - 1, s.len() as int));
        }
        k -= 1;
    }
    proof {
        let head = s.subrange(0, k as int);
        if k > 0 {
            assert(insert_by_due(head, x) == head.push(x));
        } else {
            assert(insert_by_due(head, x) == seq![x]);
        }
        assert(insert_by_due(s, x) =~= s.insert(k as int, x));
    }
    v.insert(k, x);
}

/// Sorts entries by due date, soonest first; ties keep their order.
pub fn sort_entries_by_due(entries: Vec<HomeEntry>) -> (r: Vec<HomeEntry>)
    requires
        entries_valid(entries@),
    ensures
        r@ == sort_by_due(entries@),
        sorted_by_due(r@),
{
    let ghost initial = entries@;
    let mut rest = entries;
    let mut r: Vec<HomeEntry> = Vec::new();
    let ghost mut i: int = 0;
    while rest.len() > 0
        invariant
            0 <= i <= initial.len(),
            rest@ == initial.subrange(i, initial.len() as int),
            r@ == sort_by_due(initial.subrange(0, i)),
            entries_valid(initial),
            entries_valid(r@),
        decreases rest.len(),
    {
        let x = rest.remove(0);
        proof {
            let next = initial.subrange(0, i + 1);
            assert(next.drop_last() =~= initial.subrange(0, i));
            assert(next.last() == x);
            assert(x == initial[i]);
        }
        insert_entry(&mut r, x);
        proof {
            i = i + 1;
            assert(rest@ =~= initial.subrange(i, initial.len() as int));
            lemma_sort_by_due(initial.subrange(0, i));
            assert forall|k: int| 0 <= k < r@.len() implies (#[trigger] r@[k]).next_expiry.valid() by {
                broadcast use vstd::seq_lib::group_to_multiset_ensures;

                let sub = initial.subrange(0, i);
                assert(r@.to_multiset().count(r@[k]) > 0);
                assert(sub.contains(r@[k]));
            }
        }
    }
    proof {
        assert(initial.subrange(0, i) =~= initial);
        lemma_sort_by_due(initial);
    }
    r
}

/// The dashboard: each item whose checklist, kind and interval are known,
/// with its due date (rule applied, capped by expiry) and urgency at `now`,
/// soonest first; items due at the same instant keep their table order.
pub fn home(db: &Inventory, cache: &AppCache, now: Timestamp) -> (r: Result<Vec<HomeEntry>, AppError>)
    requires
        items_times_valid(db.items@),
        now.valid(),
    ensures
        match r {
            Ok(entries) => cache.checklists is Some && cache.item_kinds is Some
                && cache.intervals is Some && entries@ == sort_by_due(
                db.items@.filter(
                    listed(
                        cache.checklists->0@,
                        cache.item_kinds->0@,
                        cache.intervals->0@,
                    ),
                ).map_values(
                    entry_of(
                        cache.checklists->0@,
                        cache.item_kinds->0@,
                        cache.intervals->0@,
                        now,
                    ),
                ),
            ) && sorted_by_due(entries@),
            Err(e) => e == AppError::InternalServerError && (cache.checklists is None
                || cache.item_kinds is None || cache.intervals is None),
        },
{
    broadcast use vstd::std_specs::btree::group_btree_axioms;
    broadcast use vstd::laws_cmp::group_laws_cmp;

    let checklists = match cache.get_checklists() {
        Ok(m) => m,
        Err(e) => return Err(e),
    };
    let intervals = match cache.get_intervals() {
        Ok(m) => m,
        Err(e) => return Err(e),
    };
    let item_kinds = match cache.get_item_kinds() {
        Ok(m) => m,
        Err(e) => return Err(e),
    };
    let items = &db.items;
    let mut entries: Vec<HomeEntry> = Vec::new();
    let mut i: usize = 0;
    while i < items.len()
        invariant
            i <= items.len(),
            items_times_valid(items@),
            now.valid(),
            entries@ == items@.subrange(0, i as int).filter(
                listed(checklists@, item_kinds@, intervals@),
            ).map_values(entry_of(checklists@, item_kinds@, intervals@, now)),
            entries_valid(entries@),
        decreases items.len() - i,
    {
        let item = &items[i];
        let ghost prefix = items@.subrange(0, i as int);
        let ghost next = items@.subrange(0, i + 1);
        proof {
            assert(next.drop_last() =~= prefix);
            assert(next.last() == items@[i as int]);
            reveal(Seq::filter);
            assert(item_times_valid(items@[i as int]));
        }
        let checklist = checklists.get(&item.checklist_id);
        let kind = item_kinds.get(&item.kind_id);
        let interval = intervals.get(&item.interval_id);
        if let (Some(checklist), Some(kind), Some(interval)) = (checklist, kind, interval) {
            let due = interval.next_interval_expiry(&item.created_at, &item.last_checked_at);
            let due = cap_by_expiry(due, &item.expiry);
            let urgency = calculate_urgency(&due, &now);
            let entry = HomeEntry {
                item: item.duplicate(),
                checklist_name: checklist.name.clone(),
                checklist_description: crate::records::copy_text(&checklist.description),
                item_kind_name: kind.name.clone(),
                interval: interval.duplicate(),
                next_expiry: due,
                urgency,
            };
            proof {
                assert(entry == entry_of(checklists@, item_kinds@, intervals@, now)(items@[i as int]));
                assert(next.filter(listed(checklists@, item_kinds@, intervals@)) == prefix.filter(
                    listed(checklists@, item_kinds@, intervals@),
                ).push(items@[i as int]));
            }
            entries.push(entry);
            proof {
                let f = entry_of(checklists@, item_kinds@, intervals@, now);
                let kept = prefix.filter(listed(checklists@, item_kinds@, intervals@));
                assert(kept.push(items@[i as int]).map_values(f) =~= kept.map_values(f).push(
                    f(items@[i as int]),
                ));
            }
        } else {
            proof {
                assert(next.filter(listed(checklists@, item_kinds@, intervals@)) == prefix.filter(
                    listed(checklists@, item_kinds@, intervals@),
                ));
            }
        }
        i += 1;
    }
    assert(items@.subrange(0, items@.len() as int) =~= items@);
    Ok(sort_entries_by_due(entries))
}

/// One past check on a dashboard line: who checked, the result, and the
/// checklist as it was when the check ran.
pub struct HomeEntryCheck {
    pub check: InventoryItemCheck,
    pub checked_by: String,
    pub result_code: String,
    pub checklist_name: String,
    pub checklist_description: Option<String>,
}

/// A check of item `item_id` whose user, result and snapshot are all known.
pub open spec fn check_shown(
    item_id: i32,
    users: Map<i32, User>,
    results: Map<i32, ResultCode>,
    snapshots: Seq<ExecutedChecklist>,
) -> spec_fn(InventoryItemCheck) -> bool {
    |c: InventoryItemCheck|
        c.item_id == item_id && users.contains_key(c.checked_by) && results.contains_key(c.result_id)
            && first_index(snapshots, c.executed_checklist_id) >= 0
}

/// `line` shows check `c` with the names it refers to.
pub open spec fn check_line_matches(
    line: HomeEntryCheck,
    c: InventoryItemCheck,
    users: Map<i32, User>,
    results: Map<i32, ResultCode>,
    snapshots: Seq<ExecutedChecklist>,
) -> bool {
    let snapshot = snapshots[first_index(snapshots, c.executed_checklist_id)];
    &&& line.check == c
    &&& line.checked_by == users[c.checked_by].name
    &&& line.result_code == results[c.result_id].code
    &&& line.checklist_name == snapshot.name
    &&& line.checklist_description == snapshot.description
}

/// The past checks of item `item_id` for its dashboard line, in the order
/// they were recorded; a check whose user, result or snapshot is unknown is
/// left out.
pub fn home_entry_checks(db: &Inventory, cache: &AppCache, item_id: i32) -> (r: Result<
    Vec<HomeEntryCheck>,
    AppError,
>)
    ensures
        match r {
            Ok(lines) => {
                let users = cache.users->0@;
                let results = cache.results->0@;
                let shown = db.checks@.filter(check_shown(item_id, users, results, db.executed_checklists@));
                &&& cache.users is Some && cache.results is Some
                &&& lines@.len() == shown.len()
                &&& forall|j: int|
                    0 <= j < shown.len() ==> check_line_matches(
                        #[trigger] lines@[j],
                        shown[j],
                        users,
                        results,
                        db.executed_checklists@,
                    )
            },
            Err(e) => e == AppError::InternalServerError && (cache.users is None || cache.results is None),
        },
{
    broadcast use vstd::std_specs::btree::group_btree_axioms;
    broadcast use vstd::laws_cmp::group_laws_cmp;

    let users = match cache.get_users() {
        Ok(m) => m,
        Err(e) => return Err(e),
    };
    let results = match cache.get_results() {
        Ok(m) => m,
        Err(e) => return Err(e),
    };
    let checks = &db.checks;
    let snapshots = &db.executed_checklists;
    let mut lines: Vec<HomeEntryCheck> = Vec::new();
    let mut i: usize = 0;
    while i < checks.len()
        invariant
            i <= checks@.len(),
            checks == &db.checks,
            snapshots == &db.executed_checklists,
            lines@.len() == checks@.subrange(0, i as int).filter(
                check_shown(item_id, users@, results@, snapshots@),
            ).len(),
            forall|j: int|
                0 <= j < lines@.len() ==> check_line_matches(
                    #[trigger] lines@[j],
                    checks@.subrange(0, i as int).filter(
                        check_shown(item_id, users@, results@, snapshots@),
                    )[j],
                    users@,
                    results@,
                    snapshots@,
                ),
        decreases checks@.len() - i,
    {
        let ghost prefix = checks@.subrange(0, i as int);
        let ghost next = checks@.subrange(0, i + 1);
        proof {
            assert(next.drop_last() =~= prefix);
            assert(next.last() == checks@[i as int]);
            reveal(Seq::filter);
        }
        let c = &checks[i];
        if c.item_id == item_id {
            let user = users.get(&c.checked_by);
            let result = results.get(&c.result_id);
            let snapshot = find_by_id(snapshots, c.executed_checklist_id);
            if let (Some(user), Some(result), Some(k)) = (user, result, snapshot) {
                let line = HomeEntryCheck {
                    check: c.duplicate(),
                    checked_by: user.name.clone(),
                    result_code: result.code.clone(),
                    checklist_name: snapshots[k].name.clone(),
                    checklist_description: copy_text(&snapshots[k].description),
                };
                lines.push(line);
            }
        }
        i += 1;
    }
    assert(checks@.subrange(0, checks@.len() as int) =~= checks@);
    Ok(lines)
}

} // verus!
