//! Telemetry aggregation and rolling-window charting for one process tree.
//!
//! All quantities are integers: CPU load in hundredths of a percent, memory
//! and disk traffic in bytes.

pub mod series;
pub mod snapshot;
pub mod subtree;
pub mod data_collector;
pub mod text;
pub mod palette;
pub mod pressure;
pub mod chart_manager;
pub mod monitor;
pub mod process_manager;
