//! The inventory's tables, held in memory, with lookups by identifier.
use crate::interval::Interval;
use crate::records::{
    ChecklistRecord, ChecklistStep, ExecutedChecklist, ExecutedChecklistStep, InventoryItem,
    InventoryItemCheck, InventoryItemCheckStep, ItemKind, Keyed, ResultCode, User,
};
use vstd::prelude::*;

verus! {

/// All tables of the inventory. Each table lists its rows in insertion order.
pub struct Inventory {
    pub checklists: Vec<ChecklistRecord>,
    pub checklist_steps: Vec<ChecklistStep>,
    pub items: Vec<InventoryItem>,
    pub item_kinds: Vec<ItemKind>,
    pub intervals: Vec<Interval>,
    pub expiries: Vec<Interval>,
    pub results: Vec<ResultCode>,
    pub users: Vec<User>,
    pub executed_checklists: Vec<ExecutedChecklist>,
    pub executed_steps: Vec<ExecutedChecklistStep>,
    pub checks: Vec<InventoryItemCheck>,
    pub check_steps: Vec<InventoryItemCheckStep>,
}

pub open spec fn has_key<T: Keyed>(rows: Seq<T>, id: i32) -> bool {
    exists|i: int| 0 <= i < rows.len() && (#[trigger] rows[i]).key() == id
}

/// All identifiers in `rows` lie below `bound`.
pub open spec fn keys_below<T: Keyed>(rows: Seq<T>, bound: int) -> bool {
    forall|i: int| 0 <= i < rows.len() ==> (#[trigger] rows[i]).key() < bound
}

/// The rows whose identifier differs from `id`.
pub open spec fn without_key<T: Keyed>(rows: Seq<T>, id: i32) -> Seq<T> {
    rows.filter(key_differs(id))
}

pub open spec fn key_differs<T: Keyed>(id: i32) -> spec_fn(T) -> bool {
    |r: T| r.key() != id
}

/// Index of the first row at or after `from` with identifier `id`; -1 if none.
pub open spec fn index_from<T: Keyed>(rows: Seq<T>, id: i32, from: int) -> int
    decreases rows.len() - from,
{
    if from < 0 || from >= rows.len() {
        -1
    } else if rows[from].key() == id {
        from
    } else {
        index_from(rows, id, from + 1)
    }
}

/// Index of the first row with identifier `id`; -1 if none.
pub open spec fn first_index<T: Keyed>(rows: Seq<T>, id: i32) -> int {
    index_from(rows, id, 0)
}

/// The largest identifier in `rows`, or 0 when none is positive.
pub open spec fn max_key<T: Keyed>(rows: Seq<T>) -> int
    decreases rows.len(),
{
    if rows.len() == 0 {
        0
    } else {
        let m = max_key(rows.drop_last());
        if rows.last().key() > m {
            rows.last().key() as int
        } else {
            m
        }
    }
}

pub proof fn lemma_max_key<T: Keyed>(rows: Seq<T>)
    ensures
        0 <= max_key(rows) <= i32::MAX,
        keys_below(rows, max_key(rows) + 1),
        max_key(rows) > 0 ==> has_key(rows, max_key(rows) as i32),
    decreases rows.len(),
{
    if rows.len() > 0 {
        lemma_max_key(rows.drop_last());
        let m = max_key(rows.drop_last());
        if m > 0 && rows.last().key() <= m {
            let j = choose|j: int|
                0 <= j < rows.drop_last().len() && (#[trigger] rows.drop_last()[j]).key() == m;
            assert(rows[j] == rows.drop_last()[j]);
        }
        assert forall|i: int| 0 <= i < rows.len() implies (#[trigger] rows[i]).key() < max_key(rows) + 1 by {
            if i < rows.len() - 1 {
                assert(rows[i] == rows.drop_last()[i]);
            }
        }
    }
}

/// Index of the first row with identifier `id`.
pub fn find_by_id<T: Keyed>(rows: &Vec<T>, id: i32) -> (r: Option<usize>)
    ensures
        match r {
            Some(i) => i < rows.len() && i == first_index(rows@, id) && rows@[i as int].key() == id,
            None => !has_key(rows@, id) && first_index(rows@, id) == -1,
        },
{
    let mut i: usize = 0;
    while i < rows.len()
        invariant
            i <= rows.len(),
            forall|j: int| 0 <= j < i ==> (#[trigger] rows@[j]).key() != id,
            index_from(rows@, id, 0) == index_from(rows@, id, i as int),
        decreases rows.len() - i,
    {
        if rows[i].id() == id {
            return Some(i);
        }
        i += 1;
    }
    None
}

/// The first of `count` consecutive identifiers above every one in `rows`,
/// or `None` when they would pass `i32::MAX`.
pub fn fresh_ids<T: Keyed>(rows: &Vec<T>, count: usize) -> (r: Option<i32>)
    requires
        count >= 1,
    ensures
        r == (if max_key(rows@) + count <= i32::MAX {
            Some((max_key(rows@) + 1) as i32)
        } else {
            None::<i32>
        }),
{
    let mut largest: i32 = 0;
    let mut i: usize = 0;
    while i < rows.len()
        invariant
            i <= rows.len(),
            largest == max_key(rows@.subrange(0, i as int)),
        decreases rows.len() - i,
    {
        proof {
            assert(rows@.subrange(0, i + 1).drop_last() =~= rows@.subrange(0, i as int));
            lemma_max_key(rows@.subrange(0, i as int));
        }
        let id = rows[i].id();
        if id > largest {
            largest = id;
        }
        i += 1;
    }
    assert(rows@.subrange(0, rows.len() as int) =~= rows@);
    proof {
        lemma_max_key(rows@);
    }
    let room = i32::MAX - largest;
    if count > room as usize {
        None
    } else {
        Some(largest + 1)
    }
}

/// Removes every row with identifier `id`; returns how many went.
pub fn delete_by_id<T: Keyed>(rows: &mut Vec<T>, id: i32) -> (removed: usize)
    ensures
        final(rows)@ == without_key(old(rows)@, id),
        removed == old(rows)@.len() - final(rows)@.len(),
        removed > 0 <==> has_key(old(rows)@, id),
{
    let ghost initial = rows@;
    let mut kept: Vec<T> = Vec::new();
    let total = rows.len();
    let mut i: usize = 0;
    broadcast use Seq::lemma_filter_len;

    while rows.len() > 0
        invariant
            i + rows.len() == total,
            total == initial.len(),
            rows@ == initial.subrange(i as int, total as int),
            kept@ == initial.subrange(0, i as int).filter(key_differs::<T>(id)),
        decreases rows.len(),
    {
        let row = rows.remove(0);
        let ghost prev = initial.subrange(0, i as int);
        let ghost next = initial.subrange(0, i + 1);
        proof {
            assert(next.drop_last() =~= prev);
            assert(next.last() == row);
            reveal(Seq::filter);
            assert(next.filter(key_differs::<T>(id)) == (if key_differs::<T>(id)(row) {
                prev.filter(key_differs::<T>(id)).push(row)
            } else {
                prev.filter(key_differs::<T>(id))
            }));
        }
        let keep = row.id() != id;
        proof {
            assert(keep == key_differs::<T>(id)(row));
        }
        if keep {
            kept.push(row);
        }
        assert(kept@ == next.filter(key_differs::<T>(id)));
        i += 1;
        proof {
            assert(rows@ =~= initial.subrange(i as int, total as int));
        }
    }
    assert(initial.subrange(0, total as int) =~= initial);
    let removed = total - kept.len();
    proof {
        if has_key(initial, id) {
            let j = choose|j: int| 0 <= j < initial.len() && (#[trigger] initial[j]).key() == id;
            lemma_filter_drops(initial, key_differs::<T>(id), j);
        } else {
            assert forall|j: int| 0 <= j < initial.len() implies key_differs::<T>(id)(initial[j]) by {}
            lemma_filter_keeps_all(initial, key_differs::<T>(id));
        }
    }
    *rows = kept;
    removed
}

/// Filtering away an element shortens the sequence.
pub proof fn lemma_filter_drops<T>(s: Seq<T>, pred: spec_fn(T) -> bool, j: int)
    requires
        0 <= j < s.len(),
        !pred(s[j]),
    ensures
        s.filter(pred).len() < s.len(),
    decreases s.len(),
{
    reveal(Seq::filter);
    broadcast use Seq::lemma_filter_len;

    if j == s.len() - 1 {
        assert(s.drop_last().filter(pred).len() <= s.drop_last().len());
    } else {
        lemma_filter_drops(s.drop_last(), pred, j);
    }
}

/// Filtering with a predicate that holds everywhere keeps the sequence.
pub proof fn lemma_filter_keeps_all<T>(s: Seq<T>, pred: spec_fn(T) -> bool)
    requires
        forall|j: int| 0 <= j < s.len() ==> pred(#[trigger] s[j]),
    ensures
        s.filter(pred) == s,
    decreases s.len(),
{
    reveal(Seq::filter);
    if s.len() > 0 {
        lemma_filter_keeps_all(s.drop_last(), pred);
        assert(s.drop_last().push(s.last()) =~= s);
    }
}

impl Inventory {
    pub fn new() -> (r: Inventory)
        ensures
            r.checklists@.len() == 0,
            r.checklist_steps@.len() == 0,
            r.items@.len() == 0,
            r.item_kinds@.len() == 0,
            r.intervals@.len() == 0,
            r.expiries@.len() == 0,
            r.results@.len() == 0,
            r.users@.len() == 0,
            r.executed_checklists@.len() == 0,
            r.executed_steps@.len() == 0,
            r.checks@.len() == 0,
            r.check_steps@.len() == 0,
    {
        Inventory {
            checklists: Vec::new(),
            checklist_steps: Vec::new(),
            items: Vec::new(),
            item_kinds: Vec::new(),
            intervals: Vec::new(),
            expiries: Vec::new(),
            results: Vec::new(),
            users: Vec::new(),
            executed_checklists: Vec::new(),
            executed_steps: Vec::new(),
            checks: Vec::new(),
            check_steps: Vec::new(),
        }
    }
}

} // verus!
