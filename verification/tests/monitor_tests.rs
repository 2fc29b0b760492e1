use procmon::monitor::{Monitor, MonitorState, Summary, TickOutcome};
use procmon::palette::{green, red};
use procmon::pressure::PressureFlag;
use procmon::series::Sample;
use procmon::snapshot::{ProcessSnapshot, SystemSnapshot};

fn worker(pid: u32, parent: Option<u32>, cpu: u64, memory: u64) -> ProcessSnapshot {
    ProcessSnapshot {
        pid,
        parent,
        name: "worker".to_string(),
        command: "worker --serve".to_string(),
        status: "Run".to_string(),
        cpu_usage: cpu,
        memory_usage: memory,
        disk_written: 7,
        disk_read: 9,
    }
}

fn system(processes: Vec<ProcessSnapshot>) -> SystemSnapshot {
    let mut s = SystemSnapshot::new();
    for p in processes {
        assert!(s.insert(p).is_ok());
    }
    s
}

fn monitor(pid: u32, watch: bool) -> Monitor {
    Monitor::new(pid, "worker".to_string(), "worker --serve".to_string(), watch, false, false)
}

fn frame_of(outcome: TickOutcome) -> procmon::chart_manager::ChartManager {
    match outcome {
        TickOutcome::Frame(f) => f,
        _ => panic!("the tick gave no frame"),
    }
}

#[test]
fn new_monitor_is_running_and_empty() {
    let m = monitor(42, true);
    assert_eq!(m.state, MonitorState::Running);
    assert_eq!(m.pid, 42);
    assert_eq!(m.tick, 0);
    assert_eq!(m.restart_count, 0);
    assert_eq!(m.max, 0);
    assert_eq!(m.pressure.baseline, None);
    assert_eq!(m.data_collector.memory_data.recorded(), 0);
    assert_eq!(m.data_collector.memory_data.len(), 500);
}

#[test]
fn constant_memory_then_exit_without_watch() {
    let mut m = monitor(5, false);
    let alive = system(vec![worker(5, None, 120, 50)]);
    for k in 0..10 {
        assert_eq!(m.tick, k);
        let f = frame_of(m.tick(&alive));
        assert_eq!(f.memory_usage, 50);
        assert_eq!(m.state, MonitorState::Running);
    }
    let gone = system(vec![worker(6, None, 1, 1)]);
    assert!(matches!(m.tick(&gone), TickOutcome::Finished));
    assert_eq!(m.state, MonitorState::Terminated);
    let r = m.report();
    assert_eq!(r.min_memory_usage, 50);
    assert_eq!(r.max_memory_usage, 50);
    assert_eq!(r.avg_memory_usage, 50);
    assert_eq!(
        r,
        Summary {
            min_memory_usage: 50,
            min_cpu_usage: 120,
            max_cpu_usage: 120,
            avg_cpu_usage: 120,
            max_memory_usage: 50,
            avg_memory_usage: 50,
            total_disk_write: 70,
            total_disk_read: 90,
            restart_count: 0,
        }
    );
    assert!(matches!(m.tick(&alive), TickOutcome::Finished));
    assert_eq!(m.state, MonitorState::Terminated);
    assert_eq!(m.tick, 10);
}

#[test]
fn restart_keeps_history() {
    let mut m = monitor(5, true);
    frame_of(m.tick(&system(vec![worker(5, None, 10, 100)])));
    frame_of(m.tick(&system(vec![worker(5, None, 30, 300)])));
    let history = m.data_collector.memory_data.to_pairs();
    let cpu_history = m.data_collector.cpu_data.to_pairs();
    let before = m.report();

    let gone = system(vec![]);
    assert!(matches!(m.tick(&gone), TickOutcome::Waiting));
    assert_eq!(m.state, MonitorState::AwaitingRestart);
    assert!(matches!(m.tick(&gone), TickOutcome::Waiting));
    assert_eq!(m.state, MonitorState::AwaitingRestart);
    assert_eq!(m.pid, 5);

    let back = system(vec![worker(77, None, 20, 200)]);
    assert!(matches!(m.tick(&back), TickOutcome::Reattached(77)));
    assert_eq!(m.state, MonitorState::Running);
    assert_eq!(m.pid, 77);
    assert_eq!(m.restart_count, 1);
    assert_eq!(m.tick, 2);
    assert_eq!(m.max, 300);
    assert_eq!(m.pressure.baseline, Some(100));
    assert_eq!(m.pressure.current_flag, PressureFlag::Elevated);
    assert_eq!(m.data_collector.memory_data.to_pairs(), history);
    assert_eq!(m.data_collector.cpu_data.to_pairs(), cpu_history);
    let after = m.report();
    assert_eq!(after.min_memory_usage, before.min_memory_usage);
    assert_eq!(after.avg_memory_usage, before.avg_memory_usage);
    assert_eq!(after.max_memory_usage, before.max_memory_usage);
    assert_eq!(after.avg_cpu_usage, before.avg_cpu_usage);
    assert_eq!(after, Summary { restart_count: 1, ..before });
    assert_eq!(before.max_memory_usage, 300);
    assert_eq!(before.max_cpu_usage, 30);

    let f = frame_of(m.tick(&back));
    assert_eq!(f.max, 300);
    assert_eq!(f.memory_color, green());
    assert_eq!(m.data_collector.memory_data.get(499), Sample { age: 0, value: 200 });
    assert_eq!(m.data_collector.memory_data.get(498), Sample { age: 1, value: 300 });
    assert_eq!(m.data_collector.memory_data.get(497), Sample { age: 2, value: 100 });
    assert_eq!(m.report().avg_memory_usage, 200);
    assert_eq!(m.report().min_memory_usage, 100);
}

#[test]
fn successor_is_found_by_name_and_command() {
    let mut m = monitor(5, true);
    assert!(matches!(m.tick(&system(vec![])), TickOutcome::Waiting));
    let mut other = worker(8, None, 1, 1);
    other.command = "worker --idle".to_string();
    assert!(matches!(m.tick(&system(vec![other])), TickOutcome::Waiting));
    assert_eq!(m.restart_count, 0);
    let mut stranger = worker(9, None, 1, 1);
    stranger.name = "editor".to_string();
    let found = m.tick(&system(vec![stranger, worker(11, None, 1, 1), worker(12, None, 1, 1)]));
    assert!(matches!(found, TickOutcome::Reattached(11)));
    assert_eq!(m.pid, 11);
}

#[test]
fn frame_carries_tree_totals_label_and_colour() {
    let mut m = Monitor::new(5, "worker".to_string(), "worker --serve".to_string(), false, true, false);
    let mib = 1024 * 1024;
    let mut root = worker(5, None, 150, 10 * mib);
    root.disk_written = 2 * mib;
    let mut child = worker(6, Some(5), 50, 5 * mib);
    child.name = "helper".to_string();
    child.status = "Sleep".to_string();
    child.disk_written = mib;
    let first = frame_of(m.tick(&system(vec![root, child])));
    assert_eq!(first.cpu_usage, 200);
    assert_eq!(first.memory_usage, 15 * mib);
    assert_eq!(first.max, 15 * mib);
    assert_eq!(first.memory_color, green());
    assert!(first.disk_write);
    assert!(!first.disk_read);
    assert_eq!(
        first.x_label,
        "0 ORANGE = CPU (Usage: 2.00 %), GREEN/RED = Memory (Usage: 15.00 MB), PURPLE - disk write (Usage: 3.00 MB) - worker (Run)"
    );
    assert_eq!(first.memory_data[499], (0, 15 * mib));
    assert_eq!(first.disk_write_data[499], (0, 3 * mib));
    assert_eq!(first.disk_read_data[499], (0, 18));

    let second = frame_of(m.tick(&system(vec![worker(5, None, 10, 31 * mib)])));
    assert_eq!(second.memory_color, red());
    assert_eq!(second.max, 31 * mib);
    assert_eq!(second.memory_data[498], (1, 15 * mib));
    let third = frame_of(m.tick(&system(vec![worker(5, None, 10, mib)])));
    assert_eq!(third.memory_color, green());
    assert_eq!(third.max, 31 * mib);
    assert_eq!(third.memory_usage, mib);
    assert_eq!(m.tick, 3);
    assert_eq!(m.max, 31 * mib);
    assert_eq!(m.report().max_cpu_usage, 200);
    assert_eq!(m.report().max_memory_usage, 31 * mib);
    assert_eq!(m.report().min_memory_usage, mib);
}

#[test]
fn cancel_ends_monitoring_and_keeps_the_report() {
    let mut m = monitor(5, true);
    let alive = system(vec![worker(5, None, 10, 20)]);
    frame_of(m.tick(&alive));
    m.cancel();
    assert_eq!(m.state, MonitorState::Terminated);
    assert!(matches!(m.tick(&alive), TickOutcome::Finished));
    assert_eq!(m.tick, 1);
    assert_eq!(m.report().avg_memory_usage, 20);
    assert_eq!(m.report().total_disk_read, 9);
}

#[test]
fn adopt_counts_a_restart_and_keeps_history() {
    let mut m = monitor(5, true);
    frame_of(m.tick(&system(vec![worker(5, None, 10, 20)])));
    m.adopt(6);
    assert_eq!(m.pid, 6);
    assert_eq!(m.restart_count, 1);
    assert_eq!(m.state, MonitorState::Running);
    assert_eq!(m.data_collector.memory_data.newest(), Sample { age: 0, value: 20 });
    m.restart_count = u64::MAX;
    m.adopt(7);
    assert_eq!(m.restart_count, u64::MAX);
}

#[test]
fn report_of_a_monitor_without_readings() {
    let m = monitor(5, false);
    assert_eq!(
        m.report(),
        Summary {
            min_memory_usage: 0,
            min_cpu_usage: 0,
            max_cpu_usage: 0,
            avg_cpu_usage: 0,
            max_memory_usage: 0,
            avg_memory_usage: 0,
            total_disk_write: 0,
            total_disk_read: 0,
            restart_count: 0,
        }
    );
}

#[test]
fn tick_count_stops_at_the_greatest_value() {
    let mut m = monitor(5, false);
    m.tick = usize::MAX - 1;
    let alive = system(vec![worker(5, None, 1, 2)]);
    frame_of(m.tick(&alive));
    assert_eq!(m.tick, usize::MAX);
    frame_of(m.tick(&alive));
    assert_eq!(m.tick, usize::MAX);
    assert_eq!(m.data_collector.memory_data.recorded(), 2);
}

#[test]
fn terminated_monitor_adopts_nothing() {
    let mut m = monitor(5, true);
    m.cancel();
    m.adopt(9);
    assert_eq!(m.state, MonitorState::Terminated);
    assert_eq!(m.pid, 5);
    assert_eq!(m.restart_count, 0);
}

#[test]
fn waiting_monitor_adopts_a_given_process() {
    let mut m = monitor(5, true);
    assert!(matches!(m.tick(&system(vec![])), TickOutcome::Waiting));
    m.adopt(9);
    assert_eq!(m.state, MonitorState::Running);
    assert_eq!(m.pid, 9);
    assert_eq!(m.restart_count, 1);
}

#[test]
fn report_lines_in_order() {
    let mib: u64 = 1024 * 1024;
    let summary = Summary {
        min_memory_usage: 10 * mib,
        min_cpu_usage: 50,
        max_cpu_usage: 9950,
        avg_cpu_usage: 1234,
        max_memory_usage: 30 * mib,
        avg_memory_usage: 20 * mib + mib / 4,
        total_disk_write: 100 * mib as u128,
        total_disk_read: 0,
        restart_count: 3,
    };
    let expected = vec![
        "Program finished.",
        "Process restarts: 3",
        "Min Memory Usage: 10.00 MB",
        "Min CPU Usage: 0.50%",
        "Max CPU Usage: 99.50%",
        "Average CPU Usage: 12.34%",
        "Max Memory Usage: 30.00 MB",
        "Average Memory Usage: 20.25 MB",
        "Total Disk Write: 100.00 MB",
        "Total Disk Read: 0.00 MB",
        "Total runtime: 01:02:03",
    ];
    assert_eq!(summary.lines(true, 3723), expected);
    let without = summary.lines(false, 3723);
    assert_eq!(without.len(), 10);
    assert_eq!(without[0], "Program finished.");
    assert_eq!(without[1], "Min Memory Usage: 10.00 MB");
    assert_eq!(without[9], "Total runtime: 01:02:03");
}

#[test]
fn report_covers_the_window_only() {
    let mut m = monitor(5, false);
    frame_of(m.tick(&system(vec![worker(5, None, 900, 1000)])));
    let calm = system(vec![worker(5, None, 100, 10)]);
    for _ in 0..499 {
        frame_of(m.tick(&calm));
    }
    assert_eq!(m.report().max_memory_usage, 1000);
    assert_eq!(m.report().avg_memory_usage, (1000 + 499 * 10) / 500);
    let f = frame_of(m.tick(&calm));
    assert_eq!(f.max, 1000);
    assert_eq!(m.max, 1000);
    let r = m.report();
    assert_eq!(r.max_memory_usage, 10);
    assert_eq!(r.min_memory_usage, 10);
    assert_eq!(r.avg_memory_usage, 10);
    assert_eq!(r.max_cpu_usage, 100);
    assert_eq!(r.total_disk_write, 500 * 7);
    assert_eq!(r.total_disk_read, 500 * 9);
    assert_eq!(m.tick, 501);
    assert_eq!(m.data_collector.memory_data.len(), 500);
}
