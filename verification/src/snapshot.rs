//! One instant's table of live processes.
//!
//! A snapshot is a list of process records with pairwise different process
//! identifiers whose metrics, summed over the whole table, fit in 64 bits. The
//! second condition makes every sum over a part of the table safe.

use vstd::prelude::*;

verus! {

/// What is known of one process at one instant. CPU load is in hundredths of
/// a percent; memory and cumulative disk traffic are in bytes.
pub struct ProcessSnapshot {
    pub pid: u32,
    pub parent: Option<u32>,
    pub name: String,
    pub command: String,
    pub status: String,
    pub cpu_usage: u64,
    pub memory_usage: u64,
    pub disk_written: u64,
    pub disk_read: u64,
}

/// Why a record was not added to a snapshot.
#[derive(Clone, Copy, Debug, PartialEq, Eq, Structural)]
pub enum SnapshotError {
    /// The snapshot already holds a record with that process identifier.
    DuplicatePid,
    /// With the record, one of the table's sums would no longer fit in 64 bits.
    Overflow,
}

/// Sums of the four metrics over some records, and the number of records.
pub struct Totals {
    pub count: nat,
    pub cpu: nat,
    pub memory: nat,
    pub written: nat,
    pub read: nat,
}

impl Totals {
    /// The totals over no record.
    pub open spec fn zero() -> Totals {
        Totals { count: 0, cpu: 0, memory: 0, written: 0, read: 0 }
    }

    /// The totals with one more record counted.
    pub open spec fn plus(self, p: ProcessSnapshot) -> Totals {
        Totals {
            count: self.count + 1,
            cpu: self.cpu + p.cpu_usage as nat,
            memory: self.memory + p.memory_usage as nat,
            written: self.written + p.disk_written as nat,
            read: self.read + p.disk_read as nat,
        }
    }

    /// No field of `self` exceeds the same field of `other`.
    pub open spec fn le(self, other: Totals) -> bool {
        &&& self.count <= other.count
        &&& self.cpu <= other.cpu
        &&& self.memory <= other.memory
        &&& self.written <= other.written
        &&& self.read <= other.read
    }

    /// Every sum fits in 64 bits.
    pub open spec fn fits(self) -> bool {
        &&& self.cpu <= u64::MAX
        &&& self.memory <= u64::MAX
        &&& self.written <= u64::MAX
        &&& self.read <= u64::MAX
    }
}

/// The totals over those of the first `n` records whose index is in `members`.
pub open spec fn totals_over(procs: Seq<ProcessSnapshot>, members: Set<int>, n: nat) -> Totals
    decreases n,
{
    if n == 0 {
        Totals::zero()
    } else {
        let rest = totals_over(procs, members, (n - 1) as nat);
        if members.contains(n - 1) {
            rest.plus(procs[n - 1])
        } else {
            rest
        }
    }
}

/// The totals over all records.
pub open spec fn grand_totals(procs: Seq<ProcessSnapshot>) -> Totals {
    totals_over(procs, Set::new(|i: int| true), procs.len())
}

/// Some record has the process identifier `pid`.
pub open spec fn has_pid(procs: Seq<ProcessSnapshot>, pid: u32) -> bool {
    exists|i: int| 0 <= i < procs.len() && (#[trigger] procs[i]).pid == pid
}

/// No two records share a process identifier.
pub open spec fn distinct_pids(procs: Seq<ProcessSnapshot>) -> bool {
    forall|i: int, j: int|
        0 <= i < j < procs.len() ==> (#[trigger] procs[i]).pid != (#[trigger] procs[j]).pid
}

/// The record at `i` has the given name and command line.
pub open spec fn matches_signature(
    procs: Seq<ProcessSnapshot>,
    i: int,
    name: Seq<char>,
    command: Seq<char>,
) -> bool {
    procs[i].name@ == name && procs[i].command@ == command
}

/// The identifier of the first record with the given name and command line.
pub open spec fn first_with_signature(
    procs: Seq<ProcessSnapshot>,
    name: Seq<char>,
    command: Seq<char>,
) -> Option<u32>
    decreases procs.len(),
{
    if procs.len() == 0 {
        None
    } else {
        match first_with_signature(procs.drop_last(), name, command) {
            Some(pid) => Some(pid),
            None => if matches_signature(procs, procs.len() - 1, name, command) {
                Some(procs.last().pid)
            } else {
                None
            },
        }
    }
}

/// A match among the first `k` records is the match in the whole table.
pub proof fn lemma_first_in_prefix(
    procs: Seq<ProcessSnapshot>,
    name: Seq<char>,
    command: Seq<char>,
    k: int,
)
    requires
        0 <= k <= procs.len(),
        first_with_signature(procs.take(k), name, command) is Some,
    ensures
        first_with_signature(procs, name, command) == first_with_signature(
            procs.take(k),
            name,
            command,
        ),
    decreases procs.len(),
{
    if k == procs.len() {
        assert(procs.take(k) =~= procs);
    } else {
        assert(procs.drop_last().take(k) =~= procs.take(k));
        lemma_first_in_prefix(procs.drop_last(), name, command, k);
    }
}

/// Adding one index to `members` adds that record to the totals, if the index
/// is among the first `n`.
pub proof fn lemma_totals_insert(procs: Seq<ProcessSnapshot>, members: Set<int>, j: int, n: nat)
    requires
        0 <= j,
        !members.contains(j),
    ensures
        totals_over(procs, members.insert(j), n) == if j < n {
            totals_over(procs, members, n).plus(procs[j])
        } else {
            totals_over(procs, members, n)
        },
    decreases n,
{
    if n > 0 {
        lemma_totals_insert(procs, members, j, (n - 1) as nat);
    }
}

/// Totals over fewer records are no greater.
pub proof fn lemma_totals_monotone(
    procs: Seq<ProcessSnapshot>,
    a: Set<int>,
    b: Set<int>,
    n: nat,
)
    requires
        forall|i: int| 0 <= i < n && a.contains(i) ==> b.contains(i),
    ensures
        totals_over(procs, a, n).le(totals_over(procs, b, n)),
    decreases n,
{
    if n > 0 {
        lemma_totals_monotone(procs, a, b, (n - 1) as nat);
    }
}

/// Totals depend only on which of the first `n` indices are members, and on
/// the first `n` records.
pub proof fn lemma_totals_agree(
    p: Seq<ProcessSnapshot>,
    q: Seq<ProcessSnapshot>,
    a: Set<int>,
    b: Set<int>,
    n: nat,
)
    requires
        forall|i: int| 0 <= i < n ==> a.contains(i) == b.contains(i),
        forall|i: int| 0 <= i < n ==> p[i] == q[i],
    ensures
        totals_over(p, a, n) == totals_over(q, b, n),
    decreases n,
{
    if n > 0 {
        lemma_totals_agree(p, q, a, b, (n - 1) as nat);
    }
}

/// The totals over all of the first `n` records count `n` records.
pub proof fn lemma_totals_count_all(procs: Seq<ProcessSnapshot>, n: nat)
    ensures
        totals_over(procs, Set::new(|i: int| true), n).count == n,
    decreases n,
{
    if n > 0 {
        lemma_totals_count_all(procs, (n - 1) as nat);
    }
}

/// The table of all live processes at one instant.
pub struct SystemSnapshot {
    procs: Vec<ProcessSnapshot>,
    cpu: u64,
    memory: u64,
    written: u64,
    read: u64,
}

impl View for SystemSnapshot {
    type V = Seq<ProcessSnapshot>;

    closed spec fn view(&self) -> Seq<ProcessSnapshot> {
        self.procs@
    }
}

impl SystemSnapshot {
    /// The sums kept beside the table are those of the table.
    pub closed spec fn sums_kept(&self) -> bool {
        &&& self.cpu == grand_totals(self@).cpu
        &&& self.memory == grand_totals(self@).memory
        &&& self.written == grand_totals(self@).written
        &&& self.read == grand_totals(self@).read
    }

    /// No identifier occurs twice, and the sums over the whole table fit in
    /// 64 bits.
    pub open spec fn wf(&self) -> bool {
        &&& distinct_pids(self@)
        &&& grand_totals(self@).fits()
        &&& self.sums_kept()
    }

    /// A snapshot without processes.
    pub fn new() -> (s: SystemSnapshot)
        ensures
            s.wf(),
            s@ == Seq::<ProcessSnapshot>::empty(),
    {
        SystemSnapshot { procs: Vec::new(), cpu: 0, memory: 0, written: 0, read: 0 }
    }

    /// The number of processes.
    pub fn len(&self) -> (n: usize)
        ensures
            n == self@.len(),
    {
        self.procs.len()
    }

    /// The record at `index`, in the order of insertion.
    pub fn get(&self, index: usize) -> (p: &ProcessSnapshot)
        requires
            index < self@.len(),
        ensures
            *p == self@[index as int],
    {
        &self.procs[index]
    }

    /// The index of the record with process identifier `pid`, if there is one.
    pub fn find(&self, pid: u32) -> (found: Option<usize>)
        ensures
            match found {
                Some(i) => i < self@.len() && self@[i as int].pid == pid && forall|k: int|
                    0 <= k < i ==> (#[trigger] self@[k]).pid != pid,
                None => !has_pid(self@, pid),
            },
    {
        let mut i: usize = 0;
        while i < self.procs.len()
            invariant
                i <= self.procs@.len(),
                forall|k: int| 0 <= k < i ==> (#[trigger] self.procs@[k]).pid != pid,
            decreases self.procs@.len() - i,
        {
            if self.procs[i].pid == pid {
                return Some(i);
            }
            i += 1;
        }
        None
    }

    /// Whether a process with identifier `pid` is alive in this snapshot.
    pub fn contains(&self, pid: u32) -> (b: bool)
        ensures
            b == has_pid(self@, pid),
    {
        self.find(pid).is_some()
    }

    /// The identifier of the first process with the given name and command
    /// line, if there is one.
    pub fn find_by_signature(&self, name: &String, command: &String) -> (found: Option<u32>)
        ensures
            found == first_with_signature(self@, name@, command@),
    {
        let mut i: usize = 0;
        assert(self.procs@.take(0) =~= Seq::<ProcessSnapshot>::empty());
        while i < self.procs.len()
            invariant
                i <= self.procs@.len(),
                first_with_signature(self.procs@.take(i as int), name@, command@) is None,
            decreases self.procs@.len() - i,
        {
            let p: &ProcessSnapshot = &self.procs[i];
            proof {
                assert(self.procs@.take(i + 1).drop_last() =~= self.procs@.take(i as int));
                assert(self.procs@.take(i + 1).last() == self.procs@[i as int]);
            }
            if p.name == *name && p.command == *command {
                proof {
                    lemma_first_in_prefix(self.procs@, name@, command@, i + 1);
                }
                return Some(p.pid);
            }
            i += 1;
        }
        assert(self.procs@.take(i as int) =~= self.procs@);
        None
    }

    /// Adds the record of one process, unless its identifier is already
    /// present or the table's sums would overflow.
    pub fn insert(&mut self, p: ProcessSnapshot) -> (r: Result<(), SnapshotError>)
        requires
            old(self).wf(),
        ensures
            final(self).wf(),
            r is Ok <==> !has_pid(old(self)@, p.pid) && grand_totals(old(self)@.push(p)).fits(),
            r == Err::<(), SnapshotError>(SnapshotError::DuplicatePid) <==> has_pid(
                old(self)@,
                p.pid,
            ),
            r is Ok ==> final(self)@ == old(self)@.push(p),
            r is Err ==> final(self)@ == old(self)@,
    {
        proof {
            let all = Set::new(|i: int| true);
            let before = self@;
            lemma_totals_agree(before.push(p), before, all, all, before.len());
        }
        if self.find(p.pid).is_some() {
            return Err(SnapshotError::DuplicatePid);
        }
        if p.cpu_usage > u64::MAX - self.cpu || p.memory_usage > u64::MAX - self.memory
            || p.disk_written > u64::MAX - self.written || p.disk_read > u64::MAX - self.read {
            return Err(SnapshotError::Overflow);
        }
        self.cpu = self.cpu + p.cpu_usage;
        self.memory = self.memory + p.memory_usage;
        self.written = self.written + p.disk_written;
        self.read = self.read + p.disk_read;
        self.procs.push(p);
        Ok(())
    }
}

} // verus!
