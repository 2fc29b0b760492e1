use procmon::chart_manager::{ChartManager, Layer, SeriesKind, CHART_HEIGHT, CHART_WIDTH};
use procmon::data_collector::DataCollector;
use procmon::palette::{blue, green, orange, purple, red};
use procmon::pressure::PressureFlag;
use rgb::RGB8;
use procmon::series::RollingSeries;

#[test]
fn new_frame_is_empty() {
    let c = ChartManager::new();
    assert!(c.cpu_data.is_empty());
    assert!(c.memory_data.is_empty());
    assert!(c.disk_write_data.is_empty());
    assert!(c.disk_read_data.is_empty());
    assert_eq!(c.max, 0);
    assert_eq!(c.x_label, "");
    assert_eq!(c.cpu_usage, 0);
    assert_eq!(c.memory_usage, 0);
    assert_eq!(c.memory_color, RGB8 { r: 0, g: 0, b: 0 });
    assert!(!c.disk_write);
    assert!(!c.disk_read);
    assert_eq!(CHART_WIDTH, 280);
    assert_eq!(CHART_HEIGHT, 40);
}

#[test]
fn setters_chain_and_set_one_field_each() {
    let mut a = RollingSeries::new(3);
    a.push(5);
    let mut b = RollingSeries::new(3);
    b.push(6);
    b.push(7);
    let mut c = ChartManager::new();
    c.set_cpu_data(&a)
        .set_memory_data(&b)
        .set_disk_write_data(&a)
        .set_disk_read_data(&b)
        .set_max(99)
        .set_x_label("label".to_string())
        .set_cpu_usage(11)
        .set_memory_usage(22)
        .set_memory_color(red())
        .set_disk_write(true)
        .set_disk_read(false);
    assert_eq!(c.cpu_data, vec![(1, 0), (1, 0), (0, 5)]);
    assert_eq!(c.memory_data, vec![(2, 0), (1, 6), (0, 7)]);
    assert_eq!(c.disk_write_data, vec![(1, 0), (1, 0), (0, 5)]);
    assert_eq!(c.disk_read_data, vec![(2, 0), (1, 6), (0, 7)]);
    assert_eq!(c.max, 99);
    assert_eq!(c.x_label, "label");
    assert_eq!(c.cpu_usage, 11);
    assert_eq!(c.memory_usage, 22);
    assert_eq!(c.memory_color, red());
    assert!(c.disk_write);
    assert!(!c.disk_read);
    c.set_max(5);
    assert_eq!(c.max, 5);
    assert_eq!(c.x_label, "label");
    assert_eq!(c.cpu_data, vec![(1, 0), (1, 0), (0, 5)]);
}

#[test]
fn layers_follow_the_toggles() {
    let mut c = ChartManager::new();
    c.set_memory_color(green());
    let cpu = Layer { kind: SeriesKind::Cpu, color: orange() };
    let memory = Layer { kind: SeriesKind::Memory, color: green() };
    let write = Layer { kind: SeriesKind::DiskWrite, color: purple() };
    let read = Layer { kind: SeriesKind::DiskRead, color: blue() };
    assert_eq!(c.layers(), vec![cpu, memory]);
    c.set_disk_write(true);
    assert_eq!(c.layers(), vec![cpu, memory, write]);
    c.set_disk_read(true);
    assert_eq!(c.layers(), vec![cpu, memory, write, read]);
    c.set_disk_write(false).set_memory_color(red());
    let hot = Layer { kind: SeriesKind::Memory, color: red() };
    assert_eq!(c.layers(), vec![cpu, hot, read]);
}

#[test]
fn axis_labels() {
    let mut c = ChartManager::new();
    c.set_x_label("under the chart".to_string()).set_cpu_usage(1234).set_memory_usage(
        3 * 1024 * 1024 / 2,
    );
    assert_eq!(c.x_axis_label(false), "under the chart");
    assert_eq!(c.x_axis_label(true), "");
    assert_eq!(c.y_axis_label(true), "12.34% MB");
    assert_eq!(c.y_axis_label(false), "1.50 MB");
}

#[test]
fn axis_labels_of_an_empty_frame() {
    let c = ChartManager::new();
    assert_eq!(c.x_axis_label(false), "");
    assert_eq!(c.y_axis_label(true), "0.00% MB");
    assert_eq!(c.y_axis_label(false), "0.00 MB");
}

#[test]
fn assembled_frame_holds_every_piece() {
    let mut d = DataCollector::new();
    d.update_cpu_data(1).update_memory_data(2).update_disk_write_data(3).update_disk_read_data(4);
    let f = ChartManager::assemble(
        &d,
        PressureFlag::Elevated,
        10,
        "tick".to_string(),
        1,
        2,
        true,
        false,
    );
    assert_eq!(f.cpu_data.len(), 500);
    assert_eq!(f.cpu_data[499], (0, 1));
    assert_eq!(f.memory_data[499], (0, 2));
    assert_eq!(f.disk_write_data[499], (0, 3));
    assert_eq!(f.disk_read_data[499], (0, 4));
    assert_eq!(f.cpu_data[0], (1, 0));
    assert_eq!(f.max, 10);
    assert_eq!(f.x_label, "tick");
    assert_eq!(f.cpu_usage, 1);
    assert_eq!(f.memory_usage, 2);
    assert_eq!(f.memory_color, red());
    assert!(f.disk_write);
    assert!(!f.disk_read);
}

#[test]
fn assembled_axis_top_is_the_greater_of_old_top_and_reading() {
    let d = DataCollector::new();
    let low = ChartManager::assemble(&d, PressureFlag::Normal, 10, String::new(), 0, 4, false, false);
    assert_eq!(low.max, 10);
    let high =
        ChartManager::assemble(&d, PressureFlag::Normal, 10, String::new(), 0, 40, false, false);
    assert_eq!(high.max, 40);
    let flat = ChartManager::assemble(&d, PressureFlag::Normal, 0, String::new(), 0, 0, false, false);
    assert_eq!(flat.max, 0);
    assert_eq!(flat.memory_color, green());
}
