//! Disk inspection and write-benchmark library.
//!
//! Two independent components share this crate: a partition reporter, which
//! classifies partition sizes into human-readable units and flags unhealthy
//! partitions, and a write benchmark, which folds per-packet timing samples
//! into summary statistics. All decision logic lives here, verified; device
//! access, file I/O and timing are performed by the surrounding binary, which
//! hands plain values in and out.

mod benchmark;
mod cli;
mod errors;
mod partition;

pub use benchmark::BenchmarkConfig;
pub use benchmark::BenchmarkResult;
pub use benchmark::RunStats;
pub use benchmark::ValidationError;
pub use benchmark::compute_result;
pub use benchmark::default_configs;
pub use benchmark::whole_seconds;
pub use cli::Command;
pub use cli::UsageError;
pub use cli::benchmark_file_path;
pub use cli::parse_args;
pub use cli::parse_u64;
pub use errors::DeviceError;
pub use errors::StorageError;
pub use partition::BENIGN_UNUSED_SECTORS;
pub use partition::HumanSize;
pub use partition::PartitionRecord;
pub use partition::ReportLine;
pub use partition::SizeUnit;
pub use partition::classify;
pub use partition::report;
pub use partition::report_device;
pub use partition::size_bytes;
