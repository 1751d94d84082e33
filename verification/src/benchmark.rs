//! The write-benchmark engine: configuration validation, the fold-style
//! accumulator for per-packet timing samples, and the summary statistics
//! computed once a run completes.
//!
//! The surrounding binary performs the writes, the durable flushes and the
//! timing; it threads every sample through [`RunStats::record_packet`] and
//! asks [`compute_result`] for the summary, so every decision made along
//! the way is verified here.

use vstd::arithmetic::div_mod::lemma_div_by_multiple;
use vstd::arithmetic::div_mod::lemma_div_is_ordered;
use vstd::prelude::*;
use vstd::string::*;

verus! {

/// One benchmark configuration: write `packet_count` packets of
/// `data_size_mb` megabytes each. Both must be strictly positive before a
/// run starts; zero values are rejected, never divided against.
#[derive(Clone, Copy, Debug, PartialEq, Eq, Structural)]
pub struct BenchmarkConfig {
    pub data_size_mb: u64,
    pub packet_count: u64,
}

/// A configuration found invalid before any file was touched.
#[derive(Clone, Copy, Debug, PartialEq, Eq, Structural)]
pub enum ValidationError {
    ZeroDataSize,
    ZeroPacketCount,
}

impl ValidationError {
    /// The console line reported for this error.
    pub fn message(&self) -> (r: String)
        ensures
            match self {
                ValidationError::ZeroDataSize => r@ == "Data size must be greater than zero"@,
                ValidationError::ZeroPacketCount => r@
                    == "Packet count must be greater than zero"@,
            },
    {
        match self {
            ValidationError::ZeroDataSize => "Data size must be greater than zero".to_owned(),
            ValidationError::ZeroPacketCount => "Packet count must be greater than zero"
                .to_owned(),
        }
    }
}

pub const BYTES_PER_MIB: u64 = 1048576;

/// After this many progress markers a line break follows, giving the
/// operator a coarse visual sense of progress.
pub const MARKERS_PER_LINE: u64 = 20;

impl BenchmarkConfig {
    /// Both sizes strictly positive: the only configurations a run accepts.
    pub open spec fn is_valid(self) -> bool {
        self.data_size_mb > 0 && self.packet_count > 0
    }

    /// Reject a zero packet size or a zero packet count before a run
    /// starts, naming the first offending field.
    pub fn validate(&self) -> (r: Result<(), ValidationError>)
        ensures
            r is Ok <==> self.is_valid(),
            self.data_size_mb == 0 ==> r == Result::<(), ValidationError>::Err(
                ValidationError::ZeroDataSize,
            ),
            self.data_size_mb > 0 && self.packet_count == 0 ==> r == Result::<
                (),
                ValidationError,
            >::Err(ValidationError::ZeroPacketCount),
    {
        if self.data_size_mb == 0 {
            Err(ValidationError::ZeroDataSize)
        } else if self.packet_count == 0 {
            Err(ValidationError::ZeroPacketCount)
        } else {
            Ok(())
        }
    }

    /// The byte length of one packet's write buffer, or `None` when
    /// `data_size_mb` megabytes do not fit in a `u64`.
    pub fn packet_bytes(&self) -> (r: Option<u64>)
        ensures
            r is Some <==> self.data_size_mb * BYTES_PER_MIB <= u64::MAX,
            r is Some ==> r->0 == self.data_size_mb * BYTES_PER_MIB,
    {
        self.data_size_mb.checked_mul(1048576)
    }
}

/// The default benchmark set: a few large packets, then many small ones.
/// Exactly these two configurations run when the operator supplies none.
pub fn default_configs() -> (configs: Vec<BenchmarkConfig>)
    ensures
        configs@.len() == 2,
        configs@[0] == (BenchmarkConfig { data_size_mb: 1024, packet_count: 8 }),
        configs@[1] == (BenchmarkConfig { data_size_mb: 8, packet_count: 256 }),
        configs@[0] != configs@[1],
{
    let mut configs: Vec<BenchmarkConfig> = Vec::new();
    configs.push(BenchmarkConfig { data_size_mb: 1024, packet_count: 8 });
    configs.push(BenchmarkConfig { data_size_mb: 8, packet_count: 256 });
    configs
}

/// Timing statistics folded over the packets completed so far. `min` and
/// `max` only carry meaning once at least one packet completed; on an
/// empty accumulator both are zero.
#[derive(Clone, Copy, Debug, PartialEq, Eq, Structural)]
pub struct RunStats {
    pub completed: u64,
    pub min_packet_ms: u64,
    pub max_packet_ms: u64,
}

impl RunStats {
    /// `min` and `max` bracket properly once a sample exists, and are zero
    /// before the first one.
    pub open spec fn wf(self) -> bool {
        if self.completed == 0 {
            self.min_packet_ms == 0 && self.max_packet_ms == 0
        } else {
            self.min_packet_ms <= self.max_packet_ms
        }
    }

    /// The empty accumulator a run starts from.
    pub fn new() -> (s: RunStats)
        ensures
            s.completed == 0,
            s.min_packet_ms == 0,
            s.max_packet_ms == 0,
            s.wf(),
    {
        RunStats { completed: 0, min_packet_ms: 0, max_packet_ms: 0 }
    }

    /// Fold one packet's elapsed milliseconds into the statistics: the
    /// minimum takes the first sample or any smaller one, the maximum any
    /// larger one.
    pub fn record_packet(&self, elapsed_ms: u64) -> (s: RunStats)
        requires
            self.completed < u64::MAX,
            self.wf(),
        ensures
            s.completed == self.completed + 1,
            s.min_packet_ms == if self.completed == 0 || elapsed_ms < self.min_packet_ms {
                elapsed_ms
            } else {
                self.min_packet_ms
            },
            s.max_packet_ms == if elapsed_ms > self.max_packet_ms {
                elapsed_ms
            } else {
                self.max_packet_ms
            },
            s.wf(),
            s.min_packet_ms <= elapsed_ms <= s.max_packet_ms,
    {
        let min_packet_ms = if self.completed == 0 || elapsed_ms < self.min_packet_ms {
            elapsed_ms
        } else {
            self.min_packet_ms
        };
        let max_packet_ms = if elapsed_ms > self.max_packet_ms {
            elapsed_ms
        } else {
            self.max_packet_ms
        };
        RunStats { completed: self.completed + 1, min_packet_ms, max_packet_ms }
    }

    /// Whether the progress marker just emitted for the latest packet
    /// should be followed by a line break: one break after every
    /// `MARKERS_PER_LINE` markers.
    pub fn line_break_due(&self) -> (b: bool)
        ensures
            b == (self.completed % MARKERS_PER_LINE == 0),
    {
        self.completed % 20 == 0
    }
}

/// The summary of one completed run. Immutable once produced; nothing is
/// aggregated across runs.
#[derive(Clone, Copy, Debug, PartialEq, Eq, Structural)]
pub struct BenchmarkResult {
    pub total_elapsed_ms: u64,
    pub min_packet_ms: u64,
    pub max_packet_ms: u64,
    pub avg_packet_ms: u64,
    pub throughput_mbps: u128,
}

/// Average milliseconds per packet: total wall-clock time over the packet
/// count.
pub open spec fn spec_avg_packet_ms(total_elapsed_ms: u64, packet_count: u64) -> int
    recommends
        packet_count > 0,
{
    total_elapsed_ms as int / packet_count as int
}

/// Megabytes per second over the whole run, computed at millisecond
/// precision: total megabytes times 1000, over the elapsed milliseconds
/// (1000 milliseconds to the second). A run measured at zero elapsed
/// milliseconds reports zero rather than dividing by zero.
pub open spec fn spec_throughput_mbps(
    data_size_mb: u64,
    packet_count: u64,
    total_elapsed_ms: u64,
) -> int {
    if total_elapsed_ms == 0 {
        0
    } else {
        (packet_count * data_size_mb * 1000) / (total_elapsed_ms as int)
    }
}

/// Compute the summary once every packet of a run has completed. Asks for
/// a validated configuration up front, so no division faults on a zero
/// packet count; the one unguarded division of elapsed time is covered by
/// the zero check inside the throughput formula.
pub fn compute_result(config: &BenchmarkConfig, stats: &RunStats, total_elapsed_ms: u64) -> (r:
    BenchmarkResult)
    requires
        config.is_valid(),
        stats.completed == config.packet_count,
        config.data_size_mb * config.packet_count <= u64::MAX,
    ensures
        r.total_elapsed_ms == total_elapsed_ms,
        r.min_packet_ms == stats.min_packet_ms,
        r.max_packet_ms == stats.max_packet_ms,
        r.avg_packet_ms == spec_avg_packet_ms(total_elapsed_ms, config.packet_count),
        r.throughput_mbps == spec_throughput_mbps(
            config.data_size_mb,
            config.packet_count,
            total_elapsed_ms,
        ),
{
    proof {
        assert(config.packet_count * config.data_size_mb == config.data_size_mb
            * config.packet_count) by (nonlinear_arith);
    }
    let avg_packet_ms = total_elapsed_ms / config.packet_count;
    let total_mb: u128 = (config.packet_count as u128) * (config.data_size_mb as u128);
    let throughput_mbps: u128 = if total_elapsed_ms == 0 {
        0
    } else {
        (total_mb * 1000) / (total_elapsed_ms as u128)
    };
    BenchmarkResult {
        total_elapsed_ms,
        min_packet_ms: stats.min_packet_ms,
        max_packet_ms: stats.max_packet_ms,
        avg_packet_ms,
        throughput_mbps,
    }
}

/// Whole seconds in a span of milliseconds: the divisor is 1000, one
/// thousand milliseconds to the second.
pub fn whole_seconds(ms: u64) -> (s: u64)
    ensures
        s == ms / 1000,
{
    ms / 1000
}

/// The average packet time of a completed run lies between the smallest
/// and the largest packet time, whenever the run's wall-clock total is
/// itself bracketed by `packet_count` times those bounds. (The total is
/// measured around the whole loop, so loop overhead beyond the packets
/// themselves could push it past `packet_count * max`; within that
/// bracket the bound is unconditional.)
pub proof fn lemma_avg_within_packet_bounds(stats: RunStats, total_elapsed_ms: u64, config: BenchmarkConfig)
    requires
        config.is_valid(),
        stats.completed == config.packet_count,
        stats.min_packet_ms * config.packet_count <= total_elapsed_ms,
        total_elapsed_ms <= stats.max_packet_ms * config.packet_count,
    ensures
        stats.min_packet_ms <= spec_avg_packet_ms(total_elapsed_ms, config.packet_count)
            <= stats.max_packet_ms,
{
    let n = config.packet_count as int;
    let min = stats.min_packet_ms as int;
    let max = stats.max_packet_ms as int;
    let total = total_elapsed_ms as int;
    lemma_div_is_ordered(min * n, total, n);
    lemma_div_is_ordered(total, max * n, n);
    lemma_div_by_multiple(min, n);
    lemma_div_by_multiple(max, n);
}

} // verus!
