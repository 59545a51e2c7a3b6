//! Host telemetry snapshots: building them from raw host readings, publishing
//! them through a versioned store, and keeping a presenter's last-known copy.
//!
//! Percentages are fixed-point values in hundredths of a percent, so that
//! `10000` stands for 100% and `7550` for 75.50%. Load averages are stored in
//! hundredths as well.

pub mod monitor;
pub mod sampler;
pub mod snapshot;
pub mod store;

pub use snapshot::{
    insert_network, network_table, used_percent, AppSystemInfo, LoadAverage, NetworkInfo,
    FULL_PERCENT,
};
pub use monitor::{fixed_update, CpuMonitorApp};
pub use sampler::{build_snapshot, update_system_usage, HostReading};
pub use store::{MetricsStore, SnapshotCopy};
