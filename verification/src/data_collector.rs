//! Per-tick collection: one process tree summed into a single reading, and
//! the four rolling series that the readings are folded into.

use vstd::prelude::*;
use crate::series::{zero_filled, RollingSeries};
use crate::snapshot::{
    distinct_pids, has_pid, lemma_totals_count_all, lemma_totals_monotone, totals_over,
    ProcessSnapshot, SystemSnapshot, Totals,
};
use crate::subtree::{
    in_subtree, is_child, lemma_child_in_subtree, lemma_mark_one, lemma_marks_are_subtree,
    lemma_missing_root_totals, lemma_same_pid_same_index, lemma_unmarked_totals, marked, on_stack,
    subtree_totals, within,
};

verus! {

/// The number of samples that each series of a collector holds.
pub const PRINT_LEN: usize = 500;

/// The metrics of a process and all its descendants at one instant, with the
/// name and status of the process itself.
#[derive(Debug)]
pub struct ProcessData {
    pub cpu_usage: u64,
    pub memory_usage: u64,
    pub total_written_bytes: u64,
    pub total_read_bytes: u64,
    pub name: String,
    pub status: String,
}

/// `data` is the reading of the process `pid` in the table `procs`: the sums
/// over its subtree, and its own name and status. Of a process that the table
/// does not hold, the reading is zero and its name and status are empty.
pub open spec fn is_reading_of(data: ProcessData, procs: Seq<ProcessSnapshot>, pid: u32) -> bool {
    &&& data.cpu_usage == subtree_totals(procs, pid).cpu
    &&& data.memory_usage == subtree_totals(procs, pid).memory
    &&& data.total_written_bytes == subtree_totals(procs, pid).written
    &&& data.total_read_bytes == subtree_totals(procs, pid).read
    &&& data.name@ == display_name(procs, pid)
    &&& data.status@ == display_status(procs, pid)
}

/// The index of a record with the identifier `pid`, where there is one.
pub open spec fn index_of(procs: Seq<ProcessSnapshot>, pid: u32) -> int {
    choose|i: int| 0 <= i < procs.len() && (#[trigger] procs[i]).pid == pid
}

/// The name of the process `pid` itself; empty where the table does not hold it.
pub open spec fn display_name(procs: Seq<ProcessSnapshot>, pid: u32) -> Seq<char> {
    if has_pid(procs, pid) {
        procs[index_of(procs, pid)].name@
    } else {
        Seq::<char>::empty()
    }
}

/// The status of the process `pid` itself; empty where the table does not hold it.
pub open spec fn display_status(procs: Seq<ProcessSnapshot>, pid: u32) -> Seq<char> {
    if has_pid(procs, pid) {
        procs[index_of(procs, pid)].status@
    } else {
        Seq::<char>::empty()
    }
}

/// In a table with pairwise different identifiers, the name and status shown
/// for an identifier are those of the one record that carries it, whatever
/// its descendants are called.
pub proof fn lemma_display_is_root(procs: Seq<ProcessSnapshot>, r: int)
    requires
        distinct_pids(procs),
        0 <= r < procs.len(),
    ensures
        display_name(procs, procs[r].pid) == procs[r].name@,
        display_status(procs, procs[r].pid) == procs[r].status@,
{
    let pid = procs[r].pid;
    assert(has_pid(procs, pid));
    lemma_same_pid_same_index(procs, index_of(procs, pid), r);
}

/// The rolling history of the four metrics of the tracked process.
pub struct DataCollector {
    pub cpu_data: RollingSeries,
    pub memory_data: RollingSeries,
    pub disk_write_data: RollingSeries,
    pub disk_read_data: RollingSeries,
}

impl DataCollector {
    /// Every series is well formed and all four have the same length.
    pub open spec fn wf(&self) -> bool {
        &&& self.cpu_data.wf()
        &&& self.memory_data.wf()
        &&& self.disk_write_data.wf()
        &&& self.disk_read_data.wf()
        &&& self.memory_data@.len() == self.cpu_data@.len()
        &&& self.disk_write_data@.len() == self.cpu_data@.len()
        &&& self.disk_read_data@.len() == self.cpu_data@.len()
    }

    /// A collector whose four series hold `PRINT_LEN` zero samples each.
    pub fn new() -> (c: DataCollector)
        ensures
            c.wf(),
            c.cpu_data@ == zero_filled(PRINT_LEN as nat),
            c.memory_data@ == zero_filled(PRINT_LEN as nat),
            c.disk_write_data@ == zero_filled(PRINT_LEN as nat),
            c.disk_read_data@ == zero_filled(PRINT_LEN as nat),
            c.cpu_data.recorded_spec() == 0,
            c.memory_data.recorded_spec() == 0,
            c.disk_write_data.recorded_spec() == 0,
            c.disk_read_data.recorded_spec() == 0,
    {
        DataCollector {
            cpu_data: RollingSeries::new(PRINT_LEN),
            memory_data: RollingSeries::new(PRINT_LEN),
            disk_write_data: RollingSeries::new(PRINT_LEN),
            disk_read_data: RollingSeries::new(PRINT_LEN),
        }
    }

    /// The reading of the process `pid` and all its descendants in `system`.
    /// The reading of a process that `system` does not hold is zero, with an
    /// empty name and status.
    pub fn get_process_data(&self, system: &SystemSnapshot, pid: u32) -> (data: Option<
        ProcessData,
    >)
        requires
            system.wf(),
        ensures
            data is Some,
            is_reading_of(data->0, system@, pid),
    {
        Some(self.collect_process_data(system, pid))
    }

    /// Pushes a CPU reading; the other series stay as they are.
    pub fn update_cpu_data(&mut self, new_value: u64) -> (r: &mut DataCollector)
        requires
            old(self).wf(),
        ensures
            *final(self) == *final(r),
            r.wf(),
            r.cpu_data.is_push_of(old(self).cpu_data, new_value),
            r.memory_data == old(self).memory_data,
            r.disk_write_data == old(self).disk_write_data,
            r.disk_read_data == old(self).disk_read_data,
    {
        self.cpu_data.push(new_value);
        self
    }

    /// Pushes a memory reading; the other series stay as they are.
    pub fn update_memory_data(&mut self, new_value: u64) -> (r: &mut DataCollector)
        requires
            old(self).wf(),
        ensures
            *final(self) == *final(r),
            r.wf(),
            r.memory_data.is_push_of(old(self).memory_data, new_value),
            r.cpu_data == old(self).cpu_data,
            r.disk_write_data == old(self).disk_write_data,
            r.disk_read_data == old(self).disk_read_data,
    {
        self.memory_data.push(new_value);
        self
    }

    /// Pushes a reading of the bytes written; the other series stay as they are.
    pub fn update_disk_write_data(&mut self, new_value: u64) -> (r: &mut DataCollector)
        requires
            old(self).wf(),
        ensures
            *final(self) == *final(r),
            r.wf(),
            r.disk_write_data.is_push_of(old(self).disk_write_data, new_value),
            r.cpu_data == old(self).cpu_data,
            r.memory_data == old(self).memory_data,
            r.disk_read_data == old(self).disk_read_data,
    {
        self.disk_write_data.push(new_value);
        self
    }

    /// Pushes a reading of the bytes read; the other series stay as they are.
    pub fn update_disk_read_data(&mut self, new_value: u64) -> (r: &mut DataCollector)
        requires
            old(self).wf(),
        ensures
            *final(self) == *final(r),
            r.wf(),
            r.disk_read_data.is_push_of(old(self).disk_read_data, new_value),
            r.cpu_data == old(self).cpu_data,
            r.memory_data == old(self).memory_data,
            r.disk_write_data == old(self).disk_write_data,
    {
        self.disk_read_data.push(new_value);
        self
    }

    /// Walks the subtree of `pid` with an explicit stack, marking each record
    /// when it is first reached, and sums what it marks.
    fn collect_process_data(&self, system: &SystemSnapshot, pid: u32) -> (data: ProcessData)
        requires
            system.wf(),
        ensures
            is_reading_of(data, system@, pid),
    {
        let ghost procs = system@;
        let n: usize = system.len();
        let r: usize = match system.find(pid) {
            Some(r) => r,
            None => {
                proof {
                    lemma_missing_root_totals(procs, pid);
                }
                return ProcessData {
                    cpu_usage: 0,
                    memory_usage: 0,
                    total_written_bytes: 0,
                    total_read_bytes: 0,
                    name: String::new(),
                    status: String::new(),
                };
            },
        };
        let root: &ProcessSnapshot = system.get(r);
        let mut marks: Vec<bool> = Vec::new();
        let mut k: usize = 0;
        while k < n
            invariant
                k <= n,
                marks@.len() == k,
                forall|i: int| 0 <= i < k ==> !marks@[i],
            decreases n - k,
        {
            marks.push(false);
            k += 1;
        }
        proof {
            lemma_unmarked_totals(procs, marks@, n as nat);
            lemma_mark_one(procs, marks@, r as int);
            assert(within(procs, pid, r as int, 0));
        }
        marks.set(r, true);
        let mut stack: Vec<usize> = Vec::new();
        stack.push(r);
        assert(on_stack(stack@, r as int)) by {
            assert(stack@[0] == r);
        }
        let mut cpu: u64 = root.cpu_usage;
        let mut memory: u64 = root.memory_usage;
        let mut written: u64 = root.disk_written;
        let mut read: u64 = root.disk_read;
        let ghost mut count: nat = 1;
        proof {
            lemma_count_bound(procs, marks@);
        }
        while stack.len() > 0
            invariant
                system.wf(),
                procs == system@,
                n == procs.len(),
                marks@.len() == n,
                r < n,
                procs[r as int].pid == pid,
                marks@[r as int],
                forall|k: int|
                    0 <= k < stack@.len() ==> #[trigger] stack@[k] < n && marks@[stack@[k] as int],
                forall|i: int| 0 <= i < n && marks@[i] ==> in_subtree(procs, pid, i),
                forall|v: int, j: int|
                    0 <= v < n && marks@[v] && !on_stack(stack@, v) && #[trigger] is_child(
                        procs,
                        v,
                        j,
                    ) ==> marks@[j],
                totals_over(procs, marked(marks@), n as nat) == (Totals {
                    count,
                    cpu: cpu as nat,
                    memory: memory as nat,
                    written: written as nat,
                    read: read as nat,
                }),
                count <= n,
            decreases 2 * (n - count) + stack@.len(),
        {
            let ghost measure = 2 * (n - count) + stack@.len();
            let ghost stack_before = stack@;
            let i: usize = stack.pop().unwrap();
            assert(stack_before[stack_before.len() - 1] == i);
            assert forall|v: int| on_stack(stack_before, v) implies v == i || on_stack(
                stack@,
                v,
            ) by {
                let k = choose|k: int|
                    0 <= k < stack_before.len() && #[trigger] stack_before[k] as int == v;
                if k < stack@.len() {
                    assert(stack@[k] as int == v);
                }
            }
            let parent_pid: u32 = system.get(i).pid;
            let mut j: usize = 0;
            while j < n
                invariant
                    system.wf(),
                    procs == system@,
                    n == procs.len(),
                    marks@.len() == n,
                    r < n,
                    i < n,
                    j <= n,
                    procs[r as int].pid == pid,
                    procs[i as int].pid == parent_pid,
                    marks@[r as int],
                    marks@[i as int],
                    forall|k: int|
                        0 <= k < stack@.len() ==> #[trigger] stack@[k] < n && marks@[stack@[k] as int],
                    forall|i: int| 0 <= i < n && marks@[i] ==> in_subtree(procs, pid, i),
                    forall|v: int, c: int|
                        0 <= v < n && marks@[v] && v != i && !on_stack(stack@, v)
                            && #[trigger] is_child(procs, v, c) ==> marks@[c],
                    forall|c: int| 0 <= c < j && #[trigger] is_child(procs, i as int, c) ==> marks@[c],
                    totals_over(procs, marked(marks@), n as nat) == (Totals {
                        count,
                        cpu: cpu as nat,
                        memory: memory as nat,
                        written: written as nat,
                        read: read as nat,
                    }),
                    count <= n,
                    2 * (n - count) + stack@.len() < measure,
                decreases n - j,
            {
                let child: &ProcessSnapshot = system.get(j);
                let is_its_child: bool = match child.parent {
                    Some(p) => p == parent_pid,
                    None => false,
                };
                assert(is_its_child == is_child(procs, i as int, j as int));
                if is_its_child && !marks[j] {
                    let ghost stack_then = stack@;
                    proof {
                        lemma_mark_one(procs, marks@, j as int);
                        lemma_child_in_subtree(procs, pid, i as int, j as int);
                        lemma_count_bound(procs, marks@.update(j as int, true));
                        lemma_totals_monotone(
                            procs,
                            marked(marks@.update(j as int, true)),
                            Set::new(|i: int| true),
                            n as nat,
                        );
                    }
                    marks.set(j, true);
                    stack.push(j);
                    cpu = cpu + child.cpu_usage;
                    memory = memory + child.memory_usage;
                    written = written + child.disk_written;
                    read = read + child.disk_read;
                    proof {
                        count = count + 1;
                        assert forall|v: int| on_stack(stack_then, v) implies on_stack(
                            stack@,
                            v,
                        ) by {
                            let k = choose|k: int|
                                0 <= k < stack_then.len() && #[trigger] stack_then[k] as int == v;
                            assert(stack@[k] as int == v);
                        }
                        assert(on_stack(stack@, j as int)) by {
                            assert(stack@[stack@.len() - 1] as int == j);
                        }
                    }
                }
                j += 1;
            }
        }
        proof {
            assert forall|v: int| !on_stack(stack@, v) by {}
            assert forall|q: int| 0 <= q < procs.len() && (#[trigger] procs[q]).pid
                == pid implies marks@[q] by {
                lemma_same_pid_same_index(procs, q, r as int);
            }
            lemma_marks_are_subtree(procs, pid, marks@);
            lemma_display_is_root(procs, r as int);
        }
        ProcessData {
            cpu_usage: cpu,
            memory_usage: memory,
            total_written_bytes: written,
            total_read_bytes: read,
            name: root.name.clone(),
            status: root.status.clone(),
        }
    }
}

/// No more records are marked than the table holds.
proof fn lemma_count_bound(procs: Seq<ProcessSnapshot>, marks: Seq<bool>)
    requires
        marks.len() == procs.len(),
    ensures
        totals_over(procs, marked(marks), procs.len()).count <= procs.len(),
{
    lemma_totals_monotone(procs, marked(marks), Set::new(|i: int| true), procs.len());
    lemma_totals_count_all(procs, procs.len());
}

} // verus!
