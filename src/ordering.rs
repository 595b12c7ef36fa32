//! Stable sorting by a rank: checklist steps and snapshot steps by position,
//! checks by time, newest first.
use crate::records::{ChecklistStep, ExecutedChecklistStep, InventoryItemCheck};
use vstd::prelude::*;

verus! {

/// A row with a rank to sort by, ascending.
pub trait Ranked: Sized {
    spec fn rank(&self) -> int;

    /// The row can be compared at run time.
    spec fn rank_ready(&self) -> bool;

    fn ranks_above(&self, other: &Self) -> (r: bool)
        requires
            self.rank_ready(),
            other.rank_ready(),
        ensures
            r == (self.rank() > other.rank()),
    ;
}

impl Ranked for ChecklistStep {
    open spec fn rank(&self) -> int {
        self.position as int
    }

    open spec fn rank_ready(&self) -> bool {
        true
    }

    fn ranks_above(&self, other: &Self) -> (r: bool) {
        self.position > other.position
    }
}

impl Ranked for ExecutedChecklistStep {
    open spec fn rank(&self) -> int {
        self.position as int
    }

    open spec fn rank_ready(&self) -> bool {
        true
    }

    fn ranks_above(&self, other: &Self) -> (r: bool) {
        self.position > other.position
    }
}

/// Checks rank by time, the most recent lowest, so that they sort newest first.
impl Ranked for InventoryItemCheck {
    open spec fn rank(&self) -> int {
        -self.checked_at.instant()
    }

    open spec fn rank_ready(&self) -> bool {
        self.checked_at.valid()
    }

    fn ranks_above(&self, other: &Self) -> (r: bool) {
        self.checked_at.is_before(&other.checked_at)
    }
}

/// Puts `x` after every element of `s` ranked at most as high, scanning from
/// the end; on a sorted `s` this keeps it sorted and stable.
pub open spec fn insert_by_rank<T: Ranked>(s: Seq<T>, x: T) -> Seq<T>
    decreases s.len(),
{
    if s.len() == 0 {
        seq![x]
    } else if s.last().rank() <= x.rank() {
        s.push(x)
    } else {
        insert_by_rank(s.drop_last(), x).push(s.last())
    }
}

/// Stable sort by rank: elements of equal rank keep their order.
pub open spec fn sort_by_rank<T: Ranked>(s: Seq<T>) -> Seq<T>
    decreases s.len(),
{
    if s.len() == 0 {
        s
    } else {
        insert_by_rank(sort_by_rank(s.drop_last()), s.last())
    }
}

pub open spec fn sorted_by_rank<T: Ranked>(s: Seq<T>) -> bool {
    forall|i: int, j: int| 0 <= i < j < s.len() ==> s[i].rank() <= s[j].rank()
}

pub open spec fn all_ready<T: Ranked>(s: Seq<T>) -> bool {
    forall|i: int| 0 <= i < s.len() ==> (#[trigger] s[i]).rank_ready()
}

/// Stable sort of checklist steps by position.
pub open spec fn sort_by_position(s: Seq<ChecklistStep>) -> Seq<ChecklistStep> {
    sort_by_rank(s)
}

pub proof fn lemma_insert_by_rank<T: Ranked>(s: Seq<T>, x: T)
    ensures
        insert_by_rank(s, x).len() == s.len() + 1,
        insert_by_rank(s, x).to_multiset() == s.to_multiset().insert(x),
        sorted_by_rank(s) ==> sorted_by_rank(insert_by_rank(s, x)),
    decreases s.len(),
{
    broadcast use vstd::seq_lib::group_to_multiset_ensures;

    if s.len() > 0 && s.last().rank() > x.rank() {
        let rest = s.drop_last();
        lemma_insert_by_rank(rest, x);
        assert(rest.push(s.last()) =~= s);
        let r = insert_by_rank(rest, x);
        if sorted_by_rank(s) {
            assert forall|i: int| 0 <= i < r.len() implies r[i].rank() <= s.last().rank() by {
                assert(r.to_multiset().count(r[i]) > 0);
                assert(r.to_multiset().count(r[i]) == rest.to_multiset().insert(x).count(r[i]));
                if r[i] != x {
                    assert(rest.to_multiset().count(r[i]) > 0);
                    assert(rest.contains(r[i]));
                }
            }
        }
    } else if s.len() > 0 {
        assert(s.drop_last().push(s.last()) =~= s);
    }
}

/// The sort keeps every element and orders them by rank.
pub proof fn lemma_sort_by_rank<T: Ranked>(s: Seq<T>)
    ensures
        sort_by_rank(s).len() == s.len(),
        sort_by_rank(s).to_multiset() == s.to_multiset(),
        sorted_by_rank(sort_by_rank(s)),
    decreases s.len(),
{
    broadcast use vstd::seq_lib::group_to_multiset_ensures;

    if s.len() > 0 {
        lemma_sort_by_rank(s.drop_last());
        lemma_insert_by_rank(sort_by_rank(s.drop_last()), s.last());
        assert(s.drop_last().push(s.last()) =~= s);
    }
}

/// Sorting what is already sorted changes nothing.
pub proof fn lemma_sort_sorted<T: Ranked>(s: Seq<T>)
    requires
        sorted_by_rank(s),
    ensures
        sort_by_rank(s) == s,
    decreases s.len(),
{
    if s.len() > 0 {
        let rest = s.drop_last();
        assert(sorted_by_rank(rest));
        lemma_sort_sorted(rest);
        if rest.len() > 0 {
            assert(rest.last() == s[s.len() - 2]);
        }
        assert(rest.push(s.last()) =~= s);
    }
}

pub proof fn lemma_sort_by_position(s: Seq<ChecklistStep>)
    ensures
        sort_by_position(s).len() == s.len(),
        sort_by_position(s).to_multiset() == s.to_multiset(),
        sorted_by_rank(sort_by_position(s)),
{
    lemma_sort_by_rank(s);
}

/// Inserts `x` into `v` where `insert_by_rank` puts it.
fn insert_ranked<T: Ranked>(v: &mut Vec<T>, x: T)
    requires
        all_ready(old(v)@),
        x.rank_ready(),
    ensures
        final(v)@ == insert_by_rank(old(v)@, x),
{
    let ghost s = v@;
    let mut k: usize = v.len();
    proof {
        assert(s.subrange(0, k as int) =~= s);
        assert(insert_by_rank(s, x) + s.subrange(k as int, s.len() as int) =~= insert_by_rank(s, x));
    }
    while k > 0 && v[k - 1].ranks_above(&x)
        invariant
            k <= v.len(),
            v@ == s,
            all_ready(s),
            x.rank_ready(),
            insert_by_rank(s, x) == insert_by_rank(s.subrange(0, k as int), x) + s.subrange(
                k as int,
                s.len() as int,
            ),
        decreases k,
    {
        proof {
            let head = s.subrange(0, k as int);
            assert(head.drop_last() =~= s.subrange(0, k - 1));
            assert(head.last() == s[k - 1]);
            assert(s.subrange(k - 1, s.len() as int) =~= seq![s[k - 1]] + s.subrange(
                k as int,
                s.len() as int,
            ));
            assert(insert_by_rank(s.subrange(0, k - 1), x).push(s[k - 1]) + s.subrange(
                k as int,
                s.len() as int,
            ) =~= insert_by_rank(s.subrange(0, k - 1), x) + s.subrange(k - 1, s.len() as int));
        }
        k -= 1;
    }
    proof {
        let head = s.subrange(0, k as int);
        if k > 0 {
            assert(insert_by_rank(head, x) == head.push(x));
        } else {
            assert(insert_by_rank(head, x) == seq![x]);
        }
        assert(insert_by_rank(s, x) =~= s.insert(k as int, x));
    }
    v.insert(k, x);
}

/// Stable sort by rank, ascending.
pub fn sort_ranked<T: Ranked>(items: Vec<T>) -> (r: Vec<T>)
    requires
        all_ready(items@),
    ensures
        r@ == sort_by_rank(items@),
{
    let ghost initial = items@;
    let mut rest = items;
    let mut r: Vec<T> = Vec::new();
    let ghost mut i: int = 0;
    while rest.len() > 0
        invariant
            0 <= i <= initial.len(),
            rest@ == initial.subrange(i, initial.len() as int),
            r@ == sort_by_rank(initial.subrange(0, i)),
            all_ready(initial),
            all_ready(r@),
        decreases rest.len(),
    {
        let x = rest.remove(0);
        proof {
            let next = initial.subrange(0, i + 1);
            assert(next.drop_last() =~= initial.subrange(0, i));
            assert(next.last() == x);
            assert(x == initial[i]);
        }
        insert_ranked(&mut r, x);
        proof {
            i = i + 1;
            assert(rest@ =~= initial.subrange(i, initial.len() as int));
            lemma_sort_by_rank(initial.subrange(0, i));
            assert forall|k: int| 0 <= k < r@.len() implies (#[trigger] r@[k]).rank_ready() by {
                broadcast use vstd::seq_lib::group_to_multiset_ensures;

                let sub = initial.subrange(0, i);
                assert(r@.to_multiset().count(r@[k]) > 0);
                assert(sub.contains(r@[k]));
            }
        }
    }
    assert(initial.subrange(0, i) =~= initial);
    r
}

/// The steps sorted by position; steps sharing a position keep their order.
pub fn sort_steps_by_position(steps: Vec<ChecklistStep>) -> (r: Vec<ChecklistStep>)
    ensures
        r@ == sort_by_position(steps@),
{
    sort_ranked(steps)
}

} // verus!
