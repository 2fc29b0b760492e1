//! The descendants of a process, and what they add up to.
//!
//! A record belongs to the subtree of a process identifier if it carries that
//! identifier, or if its parent is the identifier of a record that belongs to
//! it. Membership is a property of the table alone: a malformed table whose
//! parent links run in a circle still gives every record at most once.

use vstd::prelude::*;
use crate::snapshot::{
    distinct_pids, has_pid, lemma_totals_agree, lemma_totals_insert, totals_over, ProcessSnapshot,
    Totals,
};

verus! {

/// The record at `child` names the process of the record at `parent` as its
/// parent.
pub open spec fn is_child(procs: Seq<ProcessSnapshot>, parent: int, child: int) -> bool {
    &&& 0 <= parent < procs.len()
    &&& 0 <= child < procs.len()
    &&& procs[child].parent == Some(procs[parent].pid)
}

/// The record at `i` is the process `root` or descends from it in at most
/// `depth` generations.
pub open spec fn within(procs: Seq<ProcessSnapshot>, root: u32, i: int, depth: nat) -> bool
    decreases depth,
{
    &&& 0 <= i < procs.len()
    &&& (procs[i].pid == root || (depth > 0 && exists|j: int| #[trigger]
        is_child(procs, j, i) && within(procs, root, j, (depth - 1) as nat)))
}

/// The record at `i` is the process `root` or one of its descendants.
pub open spec fn in_subtree(procs: Seq<ProcessSnapshot>, root: u32, i: int) -> bool {
    exists|depth: nat| within(procs, root, i, depth)
}

/// The indices of the records of `root` and of all its descendants.
pub open spec fn subtree(procs: Seq<ProcessSnapshot>, root: u32) -> Set<int> {
    Set::new(|i: int| in_subtree(procs, root, i))
}

/// What the process `root` and all its descendants add up to.
pub open spec fn subtree_totals(procs: Seq<ProcessSnapshot>, root: u32) -> Totals {
    totals_over(procs, subtree(procs, root), procs.len())
}

/// The indices that `marks` has set.
pub open spec fn marked(marks: Seq<bool>) -> Set<int> {
    Set::new(|i: int| 0 <= i < marks.len() && marks[i])
}

/// The index `i` is on the stack of records whose children are still to be
/// looked for.
pub open spec fn on_stack(stack: Seq<usize>, i: int) -> bool {
    exists|k: int| 0 <= k < stack.len() && #[trigger] stack[k] as int == i
}

/// A child of a member of the subtree is a member.
pub proof fn lemma_child_in_subtree(procs: Seq<ProcessSnapshot>, root: u32, i: int, j: int)
    requires
        in_subtree(procs, root, i),
        is_child(procs, i, j),
    ensures
        in_subtree(procs, root, j),
{
    let d = choose|d: nat| within(procs, root, i, d);
    assert(within(procs, root, j, d + 1));
}

/// A set of marks that holds the root and, with each record, its children,
/// holds every member of the subtree.
pub proof fn lemma_closed_marks_cover(
    procs: Seq<ProcessSnapshot>,
    root: u32,
    marks: Seq<bool>,
    i: int,
    depth: nat,
)
    requires
        marks.len() == procs.len(),
        forall|r: int| 0 <= r < procs.len() && (#[trigger] procs[r]).pid == root ==> marks[r],
        forall|v: int, j: int| 0 <= v < marks.len() && marks[v] && #[trigger] is_child(procs, v, j) ==> marks[j],
        within(procs, root, i, depth),
    ensures
        marks[i],
    decreases depth,
{
    if procs[i].pid != root {
        let j = choose|j: int| #[trigger]
            is_child(procs, j, i) && within(procs, root, j, (depth - 1) as nat);
        lemma_closed_marks_cover(procs, root, marks, j, (depth - 1) as nat);
    }
}

/// Marks that are set exactly on the subtree add up to the subtree's totals.
pub proof fn lemma_marks_are_subtree(procs: Seq<ProcessSnapshot>, root: u32, marks: Seq<bool>)
    requires
        marks.len() == procs.len(),
        forall|r: int| 0 <= r < procs.len() && (#[trigger] procs[r]).pid == root ==> marks[r],
        forall|v: int, j: int| 0 <= v < marks.len() && marks[v] && #[trigger] is_child(procs, v, j) ==> marks[j],
        forall|i: int| 0 <= i < marks.len() && marks[i] ==> in_subtree(procs, root, i),
    ensures
        totals_over(procs, marked(marks), procs.len()) == subtree_totals(procs, root),
{
    assert forall|i: int| 0 <= i < procs.len() implies marked(marks).contains(i) == subtree(
        procs,
        root,
    ).contains(i) by {
        if in_subtree(procs, root, i) {
            let d = choose|d: nat| within(procs, root, i, d);
            lemma_closed_marks_cover(procs, root, marks, i, d);
        }
    }
    lemma_totals_agree(procs, procs, marked(marks), subtree(procs, root), procs.len());
}

/// Without a record of `root` the subtree's totals are zero.
pub proof fn lemma_missing_root_totals(procs: Seq<ProcessSnapshot>, root: u32)
    requires
        !has_pid(procs, root),
    ensures
        subtree_totals(procs, root) == Totals::zero(),
{
    let none = Seq::new(procs.len(), |i: int| false);
    assert forall|i: int| 0 <= i < none.len() && none[i] implies in_subtree(procs, root, i) by {}
    lemma_marks_are_subtree(procs, root, none);
    lemma_unmarked_totals(procs, none, procs.len());
}

/// Without a mark set, the totals are zero.
pub proof fn lemma_unmarked_totals(procs: Seq<ProcessSnapshot>, marks: Seq<bool>, n: nat)
    requires
        forall|i: int| 0 <= i < marks.len() ==> !marks[i],
    ensures
        totals_over(procs, marked(marks), n) == Totals::zero(),
    decreases n,
{
    if n > 0 {
        lemma_unmarked_totals(procs, marks, (n - 1) as nat);
    }
}

/// Setting one more mark adds that record to the totals.
pub proof fn lemma_mark_one(procs: Seq<ProcessSnapshot>, marks: Seq<bool>, j: int)
    requires
        marks.len() == procs.len(),
        0 <= j < marks.len(),
        !marks[j],
    ensures
        totals_over(procs, marked(marks.update(j, true)), procs.len()) == totals_over(
            procs,
            marked(marks),
            procs.len(),
        ).plus(procs[j]),
{
    lemma_totals_insert(procs, marked(marks), j, procs.len());
    assert(marked(marks.update(j, true)) =~= marked(marks).insert(j));
}

/// A process that is listed as its own parent counts once: where nothing
/// else names it as parent, its subtree adds up to its own record.
pub proof fn lemma_self_parent_counts_once(procs: Seq<ProcessSnapshot>, a: int)
    requires
        distinct_pids(procs),
        0 <= a < procs.len(),
        forall|j: int| 0 <= j < procs.len() && j != a ==> (#[trigger] procs[j]).parent != Some(procs[a].pid),
    ensures
        subtree_totals(procs, procs[a].pid) == Totals::zero().plus(procs[a]),
{
    let root = procs[a].pid;
    let none = Seq::new(procs.len(), |i: int| false);
    let marks = none.update(a, true);
    lemma_unmarked_totals(procs, none, procs.len());
    lemma_mark_one(procs, none, a);
    assert(within(procs, root, a, 0));
    assert forall|r: int| 0 <= r < procs.len() && (#[trigger] procs[r]).pid == root implies marks[r] by {
        lemma_same_pid_same_index(procs, r, a);
    }
    lemma_marks_are_subtree(procs, root, marks);
}

/// A process with exactly two children, neither of which has children, adds
/// up to its own record and theirs.
pub proof fn lemma_two_children(procs: Seq<ProcessSnapshot>, r: int, c1: int, c2: int)
    requires
        distinct_pids(procs),
        0 <= r < procs.len(),
        r != c1 && r != c2 && c1 != c2,
        is_child(procs, r, c1),
        is_child(procs, r, c2),
        forall|j: int| #[trigger] is_child(procs, r, j) ==> j == c1 || j == c2,
        forall|j: int| !#[trigger] is_child(procs, c1, j),
        forall|j: int| !#[trigger] is_child(procs, c2, j),
    ensures
        subtree_totals(procs, procs[r].pid) == Totals::zero().plus(procs[r]).plus(procs[c1]).plus(
            procs[c2],
        ),
{
    let root = procs[r].pid;
    let none = Seq::new(procs.len(), |i: int| false);
    let m1 = none.update(r, true);
    let m2 = m1.update(c1, true);
    let marks = m2.update(c2, true);
    lemma_unmarked_totals(procs, none, procs.len());
    lemma_mark_one(procs, none, r);
    lemma_mark_one(procs, m1, c1);
    lemma_mark_one(procs, m2, c2);
    assert(within(procs, root, r, 0));
    lemma_child_in_subtree(procs, root, r, c1);
    lemma_child_in_subtree(procs, root, r, c2);
    assert forall|q: int| 0 <= q < procs.len() && (#[trigger] procs[q]).pid == root implies marks[q] by {
        lemma_same_pid_same_index(procs, q, r);
    }
    lemma_marks_are_subtree(procs, root, marks);
}

/// With pairwise different identifiers, one identifier is one record.
pub proof fn lemma_same_pid_same_index(procs: Seq<ProcessSnapshot>, i: int, j: int)
    requires
        distinct_pids(procs),
        0 <= i < procs.len(),
        0 <= j < procs.len(),
        procs[i].pid == procs[j].pid,
    ensures
        i == j,
{
    if i < j {
        assert(procs[i].pid != procs[j].pid);
    } else if j < i {
        assert(procs[j].pid != procs[i].pid);
    }
}

} // verus!
