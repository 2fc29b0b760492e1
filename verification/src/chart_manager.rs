//! The frame handed to the renderer each tick: the four series, the top of
//! the value axis, the label, and what is drawn in which colour.

use vstd::prelude::*;
use crate::data_collector::DataCollector;
use rgb::RGB8;
use crate::palette::{black, blue, orange, purple};
use crate::pressure::PressureFlag;
use crate::series::{pairs_of, RollingSeries};
use crate::text::{append_mebibytes, append_two_places, mebibyte_hundredths, two_places};

verus! {

/// The width of the chart in dots.
pub const CHART_WIDTH: u32 = 280;

/// The height of the chart in dots.
pub const CHART_HEIGHT: u32 = 40;

/// Which of the four series a line of the chart shows.
#[derive(Clone, Copy, Debug, PartialEq, Eq, Structural)]
pub enum SeriesKind {
    Cpu,
    Memory,
    DiskWrite,
    DiskRead,
}

/// One line of the chart.
#[derive(Clone, Copy, Debug, PartialEq, Eq)]
pub struct Layer {
    pub kind: SeriesKind,
    pub color: RGB8,
}

/// Everything the renderer needs for one frame.
pub struct ChartManager {
    pub cpu_data: Vec<(u64, u64)>,
    pub memory_data: Vec<(u64, u64)>,
    pub disk_write_data: Vec<(u64, u64)>,
    pub disk_read_data: Vec<(u64, u64)>,
    /// The top of the value axis.
    pub max: u64,
    pub x_label: String,
    /// The latest CPU load, in hundredths of a percent.
    pub cpu_usage: u64,
    /// The latest memory in use, in bytes.
    pub memory_usage: u64,
    pub memory_color: RGB8,
    pub disk_write: bool,
    pub disk_read: bool,
}

impl ChartManager {
    /// The lines of the chart in the order they are drawn: CPU, memory, then
    /// disk writes and disk reads where they are switched on.
    pub open spec fn layers_spec(&self) -> Seq<Layer> {
        let base = seq![
            Layer { kind: SeriesKind::Cpu, color: RGB8 { r: 0xFF, g: 0xA5, b: 0x00 } },
            Layer { kind: SeriesKind::Memory, color: self.memory_color },
        ];
        let with_write = if self.disk_write {
            base.push(
                Layer { kind: SeriesKind::DiskWrite, color: RGB8 { r: 0xE0, g: 0x80, b: 0xFF } },
            )
        } else {
            base
        };
        if self.disk_read {
            with_write.push(
                Layer { kind: SeriesKind::DiskRead, color: RGB8 { r: 0x00, g: 0x00, b: 0xFF } },
            )
        } else {
            with_write
        }
    }

    /// The text at a mark of the time axis: the label at the origin and
    /// before it, nothing after it.
    pub open spec fn x_axis_text(&self, past_origin: bool) -> Seq<char> {
        if past_origin {
            Seq::<char>::empty()
        } else {
            self.x_label@
        }
    }

    /// The text at a mark of the value axis: the CPU load at zero, the memory
    /// in use elsewhere.
    pub open spec fn y_axis_text(&self, at_zero: bool) -> Seq<char> {
        if at_zero {
            two_places(self.cpu_usage as nat) + "% MB"@
        } else {
            two_places(mebibyte_hundredths(self.memory_usage as nat)) + " MB"@
        }
    }

    /// `self` shows the four series of `collector` under `label`, the memory
    /// series in the colour of `flag`, with the value axis reaching up to the
    /// greater of `running_max` and `memory_usage`.
    pub open spec fn is_frame_of(
        &self,
        collector: DataCollector,
        flag: PressureFlag,
        running_max: u64,
        label: Seq<char>,
        cpu_usage: u64,
        memory_usage: u64,
        disk_write: bool,
        disk_read: bool,
    ) -> bool {
        &&& self.cpu_data@ == pairs_of(collector.cpu_data@)
        &&& self.memory_data@ == pairs_of(collector.memory_data@)
        &&& self.disk_write_data@ == pairs_of(collector.disk_write_data@)
        &&& self.disk_read_data@ == pairs_of(collector.disk_read_data@)
        &&& self.max == if running_max >= memory_usage {
            running_max
        } else {
            memory_usage
        }
        &&& self.x_label@ == label
        &&& self.cpu_usage == cpu_usage
        &&& self.memory_usage == memory_usage
        &&& self.memory_color == flag.color_spec()
        &&& self.disk_write == disk_write
        &&& self.disk_read == disk_read
    }

    /// Puts one tick's pieces together into a frame. The top of the value
    /// axis never falls below `running_max`.
    pub fn assemble(
        collector: &DataCollector,
        flag: PressureFlag,
        running_max: u64,
        label: String,
        cpu_usage: u64,
        memory_usage: u64,
        disk_write: bool,
        disk_read: bool,
    ) -> (frame: ChartManager)
        ensures
            frame.is_frame_of(
                *collector,
                flag,
                running_max,
                label@,
                cpu_usage,
                memory_usage,
                disk_write,
                disk_read,
            ),
    {
        let mut frame: ChartManager = ChartManager::new();
        let top: u64 = if running_max >= memory_usage {
            running_max
        } else {
            memory_usage
        };
        frame.set_cpu_data(&collector.cpu_data).set_memory_data(
            &collector.memory_data,
        ).set_disk_write_data(&collector.disk_write_data).set_disk_read_data(
            &collector.disk_read_data,
        ).set_x_label(label).set_cpu_usage(cpu_usage).set_memory_usage(
            memory_usage,
        ).set_memory_color(flag.color()).set_disk_write(disk_write).set_disk_read(disk_read).set_max(
            top,
        );
        frame
    }

    /// An empty frame: no data, a black memory series, no disk series.
    pub fn new() -> (c: ChartManager)
        ensures
            c.cpu_data@.len() == 0,
            c.memory_data@.len() == 0,
            c.disk_write_data@.len() == 0,
            c.disk_read_data@.len() == 0,
            c.max == 0,
            c.x_label@ == Seq::<char>::empty(),
            c.cpu_usage == 0,
            c.memory_usage == 0,
            c.memory_color == (RGB8 { r: 0, g: 0, b: 0 }),
            !c.disk_write,
            !c.disk_read,
    {
        ChartManager {
            cpu_data: Vec::new(),
            memory_data: Vec::new(),
            disk_write_data: Vec::new(),
            disk_read_data: Vec::new(),
            max: 0,
            x_label: String::new(),
            cpu_usage: 0,
            memory_usage: 0,
            memory_color: RGB8 { r: 0, g: 0, b: 0 },
            disk_write: false,
            disk_read: false,
        }
    }

    /// Shows the CPU series as it stands in `data`.
    pub fn set_cpu_data(&mut self, data: &RollingSeries) -> (r: &mut ChartManager)
        ensures
            *final(self) == *final(r),
            r.cpu_data@ == pairs_of(data@),
            *r == (ChartManager { cpu_data: r.cpu_data, ..*old(self) }),
    {
        self.cpu_data = data.to_pairs();
        self
    }

    /// Shows the memory series as it stands in `data`.
    pub fn set_memory_data(&mut self, data: &RollingSeries) -> (r: &mut ChartManager)
        ensures
            *final(self) == *final(r),
            r.memory_data@ == pairs_of(data@),
            *r == (ChartManager { memory_data: r.memory_data, ..*old(self) }),
    {
        self.memory_data = data.to_pairs();
        self
    }

    /// Shows the disk-write series as it stands in `data`.
    pub fn set_disk_write_data(&mut self, data: &RollingSeries) -> (r: &mut ChartManager)
        ensures
            *final(self) == *final(r),
            r.disk_write_data@ == pairs_of(data@),
            *r == (ChartManager { disk_write_data: r.disk_write_data, ..*old(self) }),
    {
        self.disk_write_data = data.to_pairs();
        self
    }

    /// Shows the disk-read series as it stands in `data`.
    pub fn set_disk_read_data(&mut self, data: &RollingSeries) -> (r: &mut ChartManager)
        ensures
            *final(self) == *final(r),
            r.disk_read_data@ == pairs_of(data@),
            *r == (ChartManager { disk_read_data: r.disk_read_data, ..*old(self) }),
    {
        self.disk_read_data = data.to_pairs();
        self
    }

    /// Sets the top of the value axis.
    pub fn set_max(&mut self, max: u64) -> (r: &mut ChartManager)
        ensures
            *final(self) == *final(r),
            *r == (ChartManager { max, ..*old(self) }),
    {
        self.max = max;
        self
    }

    /// Sets the text under the chart.
    pub fn set_x_label(&mut self, label: String) -> (r: &mut ChartManager)
        ensures
            *final(self) == *final(r),
            *r == (ChartManager { x_label: label, ..*old(self) }),
    {
        self.x_label = label;
        self
    }

    /// Sets the latest CPU load, in hundredths of a percent.
    pub fn set_cpu_usage(&mut self, usage: u64) -> (r: &mut ChartManager)
        ensures
            *final(self) == *final(r),
            *r == (ChartManager { cpu_usage: usage, ..*old(self) }),
    {
        self.cpu_usage = usage;
        self
    }

    /// Sets the latest memory in use, in bytes.
    pub fn set_memory_usage(&mut self, usage: u64) -> (r: &mut ChartManager)
        ensures
            *final(self) == *final(r),
            *r == (ChartManager { memory_usage: usage, ..*old(self) }),
    {
        self.memory_usage = usage;
        self
    }

    /// Sets the colour of the memory series.
    pub fn set_memory_color(&mut self, color: RGB8) -> (r: &mut ChartManager)
        ensures
            *final(self) == *final(r),
            *r == (ChartManager { memory_color: color, ..*old(self) }),
    {
        self.memory_color = color;
        self
    }

    /// Switches the disk-write series on or off.
    pub fn set_disk_write(&mut self, write: bool) -> (r: &mut ChartManager)
        ensures
            *final(self) == *final(r),
            *r == (ChartManager { disk_write: write, ..*old(self) }),
    {
        self.disk_write = write;
        self
    }

    /// Switches the disk-read series on or off.
    pub fn set_disk_read(&mut self, read: bool) -> (r: &mut ChartManager)
        ensures
            *final(self) == *final(r),
            *r == (ChartManager { disk_read: read, ..*old(self) }),
    {
        self.disk_read = read;
        self
    }

    /// The lines to draw, in drawing order.
    pub fn layers(&self) -> (out: Vec<Layer>)
        ensures
            out@ == self.layers_spec(),
    {
        let mut out: Vec<Layer> = Vec::new();
        out.push(Layer { kind: SeriesKind::Cpu, color: orange() });
        out.push(Layer { kind: SeriesKind::Memory, color: self.memory_color });
        assert(out@ =~= seq![
            Layer { kind: SeriesKind::Cpu, color: RGB8 { r: 0xFF, g: 0xA5, b: 0x00 } },
            Layer { kind: SeriesKind::Memory, color: self.memory_color },
        ]);
        if self.disk_write {
            out.push(Layer { kind: SeriesKind::DiskWrite, color: purple() });
        }
        if self.disk_read {
            out.push(Layer { kind: SeriesKind::DiskRead, color: blue() });
        }
        out
    }

    /// The text at a mark of the time axis.
    pub fn x_axis_label(&self, past_origin: bool) -> (text: String)
        ensures
            text@ == self.x_axis_text(past_origin),
    {
        if past_origin {
            String::new()
        } else {
            self.x_label.clone()
        }
    }

    /// The text at a mark of the value axis.
    pub fn y_axis_label(&self, at_zero: bool) -> (text: String)
        ensures
            text@ == self.y_axis_text(at_zero),
    {
        let mut text: String = String::new();
        if at_zero {
            append_two_places(&mut text, self.cpu_usage as u128);
            text.append("% MB");
        } else {
            append_mebibytes(&mut text, self.memory_usage as u128);
            text.append(" MB");
        }
        assert(text@ =~= self.y_axis_text(at_zero));
        text
    }
}

} // verus!
