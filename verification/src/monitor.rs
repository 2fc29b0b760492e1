//! The monitor's state machine.
//!
//! The caller owns the clock and the operating system: each tick it takes a
//! fresh snapshot and hands it to `tick`, which does everything else. While
//! the tracked process is alive, a tick folds its reading into the history
//! and gives back a frame to draw. When the process is gone the monitor
//! either stops or, in watch mode, waits for a process with the same name
//! and command line and goes on with the history it has.

use vstd::prelude::*;
use vstd::string::*;
use crate::chart_manager::ChartManager;
use crate::data_collector::{display_name, display_status, DataCollector, ProcessData};
use crate::pressure::PressureClassifier;
use crate::series::{is_max_of, is_min_of, sum_of};
use crate::snapshot::{first_with_signature, has_pid, ProcessSnapshot, SystemSnapshot};
use crate::subtree::subtree_totals;
use crate::text::{
    append_decimal, decimal, duration_text, format_duration, percent_line, percent_line_text,
    size_line, size_line_text, x_label_format, x_label_text,
};

verus! {

/// Where the monitor stands.
#[derive(Clone, Copy, Debug, PartialEq, Eq, Structural)]
pub enum MonitorState {
    /// The tracked process is being sampled.
    Running,
    /// The tracked process is gone and its successor is awaited.
    AwaitingRestart,
    /// Monitoring has ended for good.
    Terminated,
}

/// What one tick asks of the caller.
pub enum TickOutcome {
    /// Draw this frame and log its label.
    Frame(ChartManager),
    /// Nothing to draw: the process is gone, keep ticking.
    Waiting,
    /// A successor with this identifier was found and is tracked from now on.
    Reattached(u32),
    /// Monitoring has ended; stop ticking.
    Finished,
}

/// The figures of the final report. All of them are taken over the samples
/// that were recorded and are still in the window: neither the zero samples
/// that a short run leaves in front of them nor the samples that a long run
/// has dropped count.
#[derive(Clone, Copy, Debug, PartialEq, Eq, Structural)]
pub struct Summary {
    pub min_memory_usage: u64,
    pub min_cpu_usage: u64,
    pub max_cpu_usage: u64,
    pub avg_cpu_usage: u64,
    pub max_memory_usage: u64,
    pub avg_memory_usage: u64,
    pub total_disk_write: u128,
    pub total_disk_read: u128,
    pub restart_count: u64,
}

/// The texts of a list of lines.
pub open spec fn texts(lines: Seq<String>) -> Seq<Seq<char>> {
    Seq::new(lines.len(), |i: int| lines[i]@)
}

impl Summary {
    /// The lines of the final report. The number of restarts is given only
    /// where `show_restarts` asks for it.
    pub open spec fn report_text(self, show_restarts: bool, runtime_seconds: nat) -> Seq<
        Seq<char>,
    > {
        let head = seq!["Program finished."@];
        let counted = if show_restarts {
            head.push("Process restarts: "@ + decimal(self.restart_count as nat))
        } else {
            head
        };
        counted.push(size_line_text("Min Memory Usage: "@, self.min_memory_usage as nat)).push(
            percent_line_text("Min CPU Usage: "@, self.min_cpu_usage as nat),
        ).push(percent_line_text("Max CPU Usage: "@, self.max_cpu_usage as nat)).push(
            percent_line_text("Average CPU Usage: "@, self.avg_cpu_usage as nat),
        ).push(size_line_text("Max Memory Usage: "@, self.max_memory_usage as nat)).push(
            size_line_text("Average Memory Usage: "@, self.avg_memory_usage as nat),
        ).push(size_line_text("Total Disk Write: "@, self.total_disk_write as nat)).push(
            size_line_text("Total Disk Read: "@, self.total_disk_read as nat),
        ).push("Total runtime: "@ + duration_text(runtime_seconds))
    }

    /// The final report, line by line.
    pub fn lines(&self, show_restarts: bool, runtime_seconds: u64) -> (lines: Vec<String>)
        ensures
            texts(lines@) == self.report_text(show_restarts, runtime_seconds as nat),
    {
        let mut lines: Vec<String> = Vec::new();
        lines.push(String::from_str("Program finished."));
        if show_restarts {
            let mut restarts: String = String::from_str("Process restarts: ");
            append_decimal(&mut restarts, self.restart_count as u128);
            lines.push(restarts);
        }
        lines.push(size_line("Min Memory Usage: ", self.min_memory_usage as u128));
        lines.push(percent_line("Min CPU Usage: ", self.min_cpu_usage));
        lines.push(percent_line("Max CPU Usage: ", self.max_cpu_usage));
        lines.push(percent_line("Average CPU Usage: ", self.avg_cpu_usage));
        lines.push(size_line("Max Memory Usage: ", self.max_memory_usage as u128));
        lines.push(size_line("Average Memory Usage: ", self.avg_memory_usage as u128));
        lines.push(size_line("Total Disk Write: ", self.total_disk_write));
        lines.push(size_line("Total Disk Read: ", self.total_disk_read));
        let mut runtime: String = String::from_str("Total runtime: ");
        let elapsed: String = format_duration(runtime_seconds);
        runtime.append(elapsed.as_str());
        lines.push(runtime);
        assert(texts(lines@) =~= self.report_text(show_restarts, runtime_seconds as nat));
        lines
    }
}

/// The monitor of one process tree: what it tracks, and all it has recorded.
pub struct Monitor {
    pub state: MonitorState,
    /// The identifier of the tracked process; it changes when a successor is adopted.
    pub pid: u32,
    /// The name by which a successor is recognised.
    pub name: String,
    /// The command line by which a successor is recognised.
    pub command: String,
    pub watch: bool,
    pub disk_write: bool,
    pub disk_read: bool,
    /// The number of readings taken.
    pub tick: usize,
    pub restart_count: u64,
    pub data_collector: DataCollector,
    pub pressure: PressureClassifier,
    /// The greatest memory reading so far, which is the top of the chart.
    pub max: u64,
}

/// The greater of two values.
pub open spec fn max_u64(a: u64, b: u64) -> u64 {
    if a >= b {
        a
    } else {
        b
    }
}

/// One more than `n`, unless `n` is the greatest value of its type.
pub open spec fn bumped(n: int, limit: int) -> int {
    if n < limit {
        n + 1
    } else {
        n
    }
}

impl Monitor {
    /// The history is well formed.
    pub open spec fn wf(&self) -> bool {
        self.data_collector.wf()
    }

    /// `after` is `self` with one reading folded in: one push to each series,
    /// the classifier and the top of the chart brought up to date, one more
    /// tick.
    pub open spec fn records(
        &self,
        after: Monitor,
        cpu: u64,
        memory: u64,
        written: u64,
        read: u64,
    ) -> bool {
        &&& after.state == self.state
        &&& after.pid == self.pid
        &&& after.name == self.name
        &&& after.command == self.command
        &&& after.watch == self.watch
        &&& after.disk_write == self.disk_write
        &&& after.disk_read == self.disk_read
        &&& after.restart_count == self.restart_count
        &&& after.tick == bumped(self.tick as int, usize::MAX as int)
        &&& after.data_collector.cpu_data.is_push_of(self.data_collector.cpu_data, cpu)
        &&& after.data_collector.memory_data.is_push_of(self.data_collector.memory_data, memory)
        &&& after.data_collector.disk_write_data.is_push_of(
            self.data_collector.disk_write_data,
            written,
        )
        &&& after.data_collector.disk_read_data.is_push_of(
            self.data_collector.disk_read_data,
            read,
        )
        &&& after.pressure == self.pressure.after(memory)
        &&& after.max == max_u64(self.max, memory)
    }

    /// `after` is `self` tracking the process `pid` again, one restart later,
    /// with everything recorded so far untouched. A terminated monitor adopts
    /// nothing.
    pub open spec fn adopts(&self, after: Monitor, pid: u32) -> bool {
        if self.state == MonitorState::Terminated {
            after == *self
        } else {
            after == (Monitor {
                state: MonitorState::Running,
                pid,
                restart_count: bumped(self.restart_count as int, u64::MAX as int) as u64,
                ..*self
            })
        }
    }

    /// `after` is the state that one tick on the table `procs` makes of `self`.
    pub open spec fn steps_to(&self, after: Monitor, procs: Seq<ProcessSnapshot>) -> bool {
        match self.state {
            MonitorState::Terminated => after == *self,
            MonitorState::Running => if has_pid(procs, self.pid) {
                let t = subtree_totals(procs, self.pid);
                self.records(after, t.cpu as u64, t.memory as u64, t.written as u64, t.read as u64)
            } else if self.watch {
                after == (Monitor { state: MonitorState::AwaitingRestart, ..*self })
            } else {
                after == (Monitor { state: MonitorState::Terminated, ..*self })
            },
            MonitorState::AwaitingRestart => match first_with_signature(
                procs,
                self.name@,
                self.command@,
            ) {
                Some(pid) => self.adopts(after, pid),
                None => after == *self,
            },
        }
    }

    /// `outcome` is what a tick on `procs` that made `after` of `self` asks
    /// of the caller.
    pub open spec fn asks(&self, after: Monitor, procs: Seq<ProcessSnapshot>, outcome: TickOutcome) -> bool {
        match self.state {
            MonitorState::Terminated => outcome is Finished,
            MonitorState::Running => if has_pid(procs, self.pid) {
                let t = subtree_totals(procs, self.pid);
                &&& outcome is Frame
                &&& outcome->Frame_0.is_frame_of(
                    after.data_collector,
                    after.pressure.current_flag,
                    after.max,
                    x_label_text(
                        self.tick as nat,
                        t.cpu,
                        t.memory,
                        t.written,
                        t.read,
                        display_name(procs, self.pid),
                        display_status(procs, self.pid),
                        self.disk_write,
                        self.disk_read,
                    ),
                    t.cpu as u64,
                    t.memory as u64,
                    self.disk_write,
                    self.disk_read,
                )
            } else if self.watch {
                outcome is Waiting
            } else {
                outcome is Finished
            },
            MonitorState::AwaitingRestart => match first_with_signature(
                procs,
                self.name@,
                self.command@,
            ) {
                Some(pid) => outcome == TickOutcome::Reattached(pid),
                None => outcome is Waiting,
            },
        }
    }

    /// `summary` reports on `self`.
    pub open spec fn is_summary(&self, summary: Summary) -> bool {
        let cpu = self.data_collector.cpu_data.recorded_values();
        let memory = self.data_collector.memory_data.recorded_values();
        &&& is_min_of(memory, summary.min_memory_usage)
        &&& is_min_of(cpu, summary.min_cpu_usage)
        &&& is_max_of(cpu, summary.max_cpu_usage)
        &&& is_max_of(memory, summary.max_memory_usage)
        &&& summary.avg_cpu_usage == if cpu.len() == 0 {
            0
        } else {
            sum_of(cpu) / cpu.len()
        }
        &&& summary.avg_memory_usage == if memory.len() == 0 {
            0
        } else {
            sum_of(memory) / memory.len()
        }
        &&& summary.total_disk_write == sum_of(self.data_collector.disk_write_data.recorded_values())
        &&& summary.total_disk_read == sum_of(self.data_collector.disk_read_data.recorded_values())
        &&& summary.restart_count == self.restart_count
    }

    /// A running monitor of the process `pid` with an empty history. `name`
    /// and `command` are what a successor is recognised by.
    pub fn new(
        pid: u32,
        name: String,
        command: String,
        watch: bool,
        disk_write: bool,
        disk_read: bool,
    ) -> (m: Monitor)
        ensures
            m.wf(),
            m.state == MonitorState::Running,
            m.pid == pid,
            m.name == name,
            m.command == command,
            m.watch == watch,
            m.disk_write == disk_write,
            m.disk_read == disk_read,
            m.tick == 0,
            m.restart_count == 0,
            m.max == 0,
            m.pressure.baseline is None,
            m.data_collector.cpu_data.recorded_spec() == 0,
            m.data_collector.memory_data.recorded_spec() == 0,
            m.data_collector.disk_write_data.recorded_spec() == 0,
            m.data_collector.disk_read_data.recorded_spec() == 0,
    {
        Monitor {
            state: MonitorState::Running,
            pid,
            name,
            command,
            watch,
            disk_write,
            disk_read,
            tick: 0,
            restart_count: 0,
            data_collector: DataCollector::new(),
            pressure: PressureClassifier::new(),
            max: 0,
        }
    }

    /// Folds one reading into the history and gives the frame that shows it.
    fn record(&mut self, data: ProcessData) -> (frame: ChartManager)
        requires
            old(self).wf(),
        ensures
            final(self).wf(),
            old(self).records(
                *final(self),
                data.cpu_usage,
                data.memory_usage,
                data.total_written_bytes,
                data.total_read_bytes,
            ),
            frame.is_frame_of(
                final(self).data_collector,
                final(self).pressure.current_flag,
                final(self).max,
                x_label_text(
                    old(self).tick as nat,
                    data.cpu_usage as nat,
                    data.memory_usage as nat,
                    data.total_written_bytes as nat,
                    data.total_read_bytes as nat,
                    data.name@,
                    data.status@,
                    old(self).disk_write,
                    old(self).disk_read,
                ),
                data.cpu_usage,
                data.memory_usage,
                old(self).disk_write,
                old(self).disk_read,
            ),
    {
        let flag = self.pressure.classify(data.memory_usage);
        if data.memory_usage > self.max {
            self.max = data.memory_usage;
        }
        let label: String = x_label_format(
            self.tick,
            data.cpu_usage,
            data.memory_usage,
            data.total_written_bytes,
            data.total_read_bytes,
            data.name,
            data.status,
            self.disk_write,
            self.disk_read,
        );
        self.data_collector.update_cpu_data(data.cpu_usage).update_memory_data(
            data.memory_usage,
        ).update_disk_read_data(data.total_read_bytes).update_disk_write_data(
            data.total_written_bytes,
        );
        if self.tick < usize::MAX {
            self.tick = self.tick + 1;
        }
        ChartManager::assemble(
            &self.data_collector,
            flag,
            self.max,
            label,
            data.cpu_usage,
            data.memory_usage,
            self.disk_write,
            self.disk_read,
        )
    }

    /// Tracks the process `pid` from now on and counts one restart, unless
    /// monitoring has ended. The history, the classifier and the top of the
    /// chart stay as they are.
    pub fn adopt(&mut self, pid: u32)
        ensures
            old(self).adopts(*final(self), pid),
    {
        match self.state {
            MonitorState::Terminated => {},
            _ => {
                self.pid = pid;
                self.state = MonitorState::Running;
                if self.restart_count < u64::MAX {
                    self.restart_count = self.restart_count + 1;
                }
            },
        }
    }

    /// Ends monitoring. Nothing recorded is lost: the report can still be made.
    pub fn cancel(&mut self)
        ensures
            *final(self) == (Monitor { state: MonitorState::Terminated, ..*old(self) }),
    {
        self.state = MonitorState::Terminated;
    }

    /// One tick on a fresh snapshot of the system.
    pub fn tick(&mut self, system: &SystemSnapshot) -> (outcome: TickOutcome)
        requires
            old(self).wf(),
            system.wf(),
        ensures
            final(self).wf(),
            old(self).steps_to(*final(self), system@),
            old(self).asks(*final(self), system@, outcome),
    {
        match self.state {
            MonitorState::Terminated => TickOutcome::Finished,
            MonitorState::Running => {
                if system.contains(self.pid) {
                    let data: ProcessData = self.data_collector.get_process_data(
                        system,
                        self.pid,
                    ).unwrap();
                    TickOutcome::Frame(self.record(data))
                } else if self.watch {
                    self.state = MonitorState::AwaitingRestart;
                    TickOutcome::Waiting
                } else {
                    self.state = MonitorState::Terminated;
                    TickOutcome::Finished
                }
            },
            MonitorState::AwaitingRestart => {
                match system.find_by_signature(&self.name, &self.command) {
                    Some(pid) => {
                        self.adopt(pid);
                        TickOutcome::Reattached(pid)
                    },
                    None => TickOutcome::Waiting,
                }
            },
        }
    }

    /// The figures of the final report.
    pub fn report(&self) -> (summary: Summary)
        requires
            self.wf(),
        ensures
            self.is_summary(summary),
    {
        Summary {
            min_memory_usage: self.data_collector.memory_data.minimum(),
            min_cpu_usage: self.data_collector.cpu_data.minimum(),
            max_cpu_usage: self.data_collector.cpu_data.maximum(),
            avg_cpu_usage: self.data_collector.cpu_data.average(),
            max_memory_usage: self.data_collector.memory_data.maximum(),
            avg_memory_usage: self.data_collector.memory_data.average(),
            total_disk_write: self.data_collector.disk_write_data.total(),
            total_disk_read: self.data_collector.disk_read_data.total(),
            restart_count: self.restart_count,
        }
    }
}

/// A restart keeps the history: when a running monitor loses its process,
/// waits, and then finds a successor, every series (and with them the
/// minimum, maximum and mean of the report), the classifier, the top of the
/// chart and the tick count are what they were when the process was lost.
/// The monitor now tracks the first process with its name and command line.
pub proof fn lemma_restart_keeps_history(
    running: Monitor,
    waiting: Monitor,
    resumed: Monitor,
    gone: Seq<ProcessSnapshot>,
    back: Seq<ProcessSnapshot>,
)
    requires
        running.state == MonitorState::Running,
        running.steps_to(waiting, gone),
        waiting.state == MonitorState::AwaitingRestart,
        waiting.steps_to(resumed, back),
        resumed.state == MonitorState::Running,
    ensures
        resumed.data_collector == running.data_collector,
        resumed.pressure == running.pressure,
        resumed.max == running.max,
        resumed.tick == running.tick,
        first_with_signature(back, running.name@, running.command@) == Some(resumed.pid),
{
}

/// While no successor shows up, a waiting monitor does not change.
pub proof fn lemma_waiting_is_idle(waiting: Monitor, after: Monitor, procs: Seq<ProcessSnapshot>)
    requires
        waiting.state == MonitorState::AwaitingRestart,
        first_with_signature(procs, waiting.name@, waiting.command@) is None,
        waiting.steps_to(after, procs),
    ensures
        after == waiting,
{
}

/// A terminated monitor stays terminated and unchanged, whatever the system
/// shows and whichever process it is asked to adopt.
pub proof fn lemma_terminated_is_final(
    ended: Monitor,
    after: Monitor,
    procs: Seq<ProcessSnapshot>,
    pid: u32,
)
    requires
        ended.state == MonitorState::Terminated,
        ended.steps_to(after, procs) || ended.adopts(after, pid),
    ensures
        after == ended,
{
}

/// The greatest memory reading never falls, whatever a tick does.
pub proof fn lemma_max_never_falls(before: Monitor, after: Monitor, procs: Seq<ProcessSnapshot>)
    requires
        before.steps_to(after, procs),
    ensures
        after.max >= before.max,
{
}

} // verus!
