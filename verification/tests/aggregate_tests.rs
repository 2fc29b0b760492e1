use procmon::data_collector::DataCollector;
use procmon::snapshot::{ProcessSnapshot, SnapshotError, SystemSnapshot};

fn process(pid: u32, parent: Option<u32>, name: &str, value: u64) -> ProcessSnapshot {
    ProcessSnapshot {
        pid,
        parent,
        name: name.to_string(),
        command: format!("/usr/bin/{}", name),
        status: format!("status-{}", name),
        cpu_usage: value,
        memory_usage: value * 10,
        disk_written: value * 100,
        disk_read: value * 1000,
    }
}

fn table(processes: Vec<ProcessSnapshot>) -> SystemSnapshot {
    let mut s = SystemSnapshot::new();
    for p in processes {
        assert!(s.insert(p).is_ok());
    }
    s
}

#[test]
fn self_parent_counts_once() {
    let s = table(vec![process(7, Some(7), "loop", 3), process(8, None, "other", 100)]);
    let d = DataCollector::new().get_process_data(&s, 7).unwrap();
    assert_eq!(d.cpu_usage, 3);
    assert_eq!(d.memory_usage, 30);
    assert_eq!(d.total_written_bytes, 300);
    assert_eq!(d.total_read_bytes, 3000);
    assert_eq!(d.name, "loop");
    assert_eq!(d.status, "status-loop");
}

#[test]
fn root_with_two_children_sums_all_three() {
    let s = table(vec![
        process(20, Some(10), "first", 2),
        process(10, Some(1), "root", 1),
        process(30, Some(10), "second", 4),
        process(1, None, "init", 1000),
    ]);
    let d = DataCollector::new().get_process_data(&s, 10).unwrap();
    assert_eq!(d.cpu_usage, 7);
    assert_eq!(d.memory_usage, 70);
    assert_eq!(d.total_written_bytes, 700);
    assert_eq!(d.total_read_bytes, 7000);
    assert_eq!(d.name, "root");
    assert_eq!(d.status, "status-root");
}

#[test]
fn missing_root_gives_zero_and_empty_text() {
    let s = table(vec![process(1, None, "init", 5), process(2, Some(99), "orphan", 6)]);
    let d = DataCollector::new().get_process_data(&s, 99).unwrap();
    assert_eq!(d.cpu_usage, 0);
    assert_eq!(d.memory_usage, 0);
    assert_eq!(d.total_written_bytes, 0);
    assert_eq!(d.total_read_bytes, 0);
    assert_eq!(d.name, "");
    assert_eq!(d.status, "");
}

#[test]
fn empty_table_gives_zero() {
    let s = SystemSnapshot::new();
    let d = DataCollector::new().get_process_data(&s, 1).unwrap();
    assert_eq!(d.cpu_usage, 0);
    assert_eq!(d.name, "");
}

#[test]
fn parent_cycle_of_two_counts_each_once() {
    let s = table(vec![process(1, Some(2), "a", 1), process(2, Some(1), "b", 2)]);
    let from_a = DataCollector::new().get_process_data(&s, 1).unwrap();
    assert_eq!(from_a.cpu_usage, 3);
    assert_eq!(from_a.name, "a");
    let from_b = DataCollector::new().get_process_data(&s, 2).unwrap();
    assert_eq!(from_b.cpu_usage, 3);
    assert_eq!(from_b.name, "b");
}

#[test]
fn grandchildren_count_and_strangers_do_not() {
    let s = table(vec![
        process(1, None, "init", 1),
        process(2, Some(1), "shell", 2),
        process(3, Some(2), "build", 4),
        process(4, Some(3), "compiler", 8),
        process(5, Some(1), "editor", 16),
        process(6, Some(5), "plugin", 32),
    ]);
    let c = DataCollector::new();
    assert_eq!(c.get_process_data(&s, 2).unwrap().cpu_usage, 14);
    assert_eq!(c.get_process_data(&s, 5).unwrap().cpu_usage, 48);
    assert_eq!(c.get_process_data(&s, 1).unwrap().cpu_usage, 63);
    assert_eq!(c.get_process_data(&s, 4).unwrap().memory_usage, 80);
}

#[test]
fn leaf_is_its_own_subtree() {
    let s = table(vec![process(1, None, "init", 1), process(2, Some(1), "leaf", 9)]);
    let d = DataCollector::new().get_process_data(&s, 2).unwrap();
    assert_eq!(d.cpu_usage, 9);
    assert_eq!(d.name, "leaf");
}

#[test]
fn duplicate_pid_is_refused() {
    let mut s = table(vec![process(1, None, "init", 1)]);
    assert_eq!(s.insert(process(1, None, "again", 2)), Err(SnapshotError::DuplicatePid));
    assert_eq!(s.len(), 1);
    assert_eq!(s.get(0).name, "init");
}

#[test]
fn overflowing_sum_is_refused() {
    let mut s = SystemSnapshot::new();
    let mut big = process(1, None, "big", 0);
    big.memory_usage = u64::MAX;
    assert_eq!(s.insert(big), Ok(()));
    let mut one = process(2, None, "one", 0);
    one.memory_usage = 1;
    assert_eq!(s.insert(one), Err(SnapshotError::Overflow));
    assert_eq!(s.len(), 1);
    assert_eq!(s.insert(process(3, Some(1), "zero", 0)), Ok(()));
    let d = DataCollector::new().get_process_data(&s, 1).unwrap();
    assert_eq!(d.memory_usage, u64::MAX);
}

#[test]
fn find_and_contains_go_by_pid() {
    let s = table(vec![process(5, None, "a", 1), process(9, None, "b", 2)]);
    assert_eq!(s.find(9), Some(1));
    assert_eq!(s.find(5), Some(0));
    assert_eq!(s.find(6), None);
    assert!(s.contains(5));
    assert!(!s.contains(0));
}

#[test]
fn signature_search_takes_the_first_match() {
    let mut twin = process(30, None, "server", 1);
    twin.command = "/usr/bin/server".to_string();
    let s = table(vec![process(10, None, "client", 1), process(20, None, "server", 1), twin]);
    let name = "server".to_string();
    let command = "/usr/bin/server".to_string();
    assert_eq!(s.find_by_signature(&name, &command), Some(20));
    assert_eq!(s.find_by_signature(&name, &"/bin/server".to_string()), None);
    assert_eq!(s.find_by_signature(&"serve".to_string(), &command), None);
}
