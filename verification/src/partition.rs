//! Partition size classification and per-partition health reporting.

use vstd::prelude::*;

verus! {

/// Size units for a human-readable rendering of a byte count. There is no
/// unit beyond `GB`: a magnitude that would pass 1024 GB stays in `GB`.
#[derive(Clone, Copy, Debug, PartialEq, Eq, Structural)]
pub enum SizeUnit {
    Bytes,
    KB,
    MB,
    GB,
}

/// A byte count reduced to a magnitude and a unit. The magnitude is the
/// whole (truncated) number of units; fractional parts are dropped, which
/// is what gets printed.
#[derive(Clone, Copy, Debug, PartialEq, Eq, Structural)]
pub struct HumanSize {
    pub magnitude: u128,
    pub unit: SizeUnit,
}

impl SizeUnit {
    /// The unit's name as it appears in a report line.
    pub fn label(&self) -> (r: &'static str)
        ensures
            match self {
                SizeUnit::Bytes => r@ == "bytes"@,
                SizeUnit::KB => r@ == "KB"@,
                SizeUnit::MB => r@ == "MB"@,
                SizeUnit::GB => r@ == "GB"@,
            },
    {
        match self {
            SizeUnit::Bytes => "bytes",
            SizeUnit::KB => "KB",
            SizeUnit::MB => "MB",
            SizeUnit::GB => "GB",
        }
    }
}

pub const BYTES_PER_KB: u128 = 1024;
pub const BYTES_PER_MB: u128 = 1048576;
pub const BYTES_PER_GB: u128 = 1073741824;

/// What `classify` returns: repeated division by 1024, stopping at `GB`.
pub open spec fn spec_classify(bytes: u128) -> HumanSize {
    if bytes < BYTES_PER_KB {
        HumanSize { magnitude: bytes, unit: SizeUnit::Bytes }
    } else if bytes < BYTES_PER_MB {
        HumanSize { magnitude: bytes / BYTES_PER_KB, unit: SizeUnit::KB }
    } else if bytes < BYTES_PER_GB {
        HumanSize { magnitude: bytes / BYTES_PER_MB, unit: SizeUnit::MB }
    } else {
        HumanSize { magnitude: bytes / BYTES_PER_GB, unit: SizeUnit::GB }
    }
}

/// Classify a byte count: starting at `Bytes`, while the magnitude is at
/// least 1024 and the unit is below `GB`, divide by 1024 and advance the
/// unit. Values of 1024 GB and above are not promoted further; the
/// magnitude simply keeps growing in `GB`.
pub fn classify(bytes: u128) -> (h: HumanSize)
    ensures
        h == spec_classify(bytes),
{
    if bytes < 1024 {
        HumanSize { magnitude: bytes, unit: SizeUnit::Bytes }
    } else if bytes < 1048576 {
        HumanSize { magnitude: bytes / 1024, unit: SizeUnit::KB }
    } else if bytes < 1073741824 {
        HumanSize { magnitude: bytes / 1048576, unit: SizeUnit::MB }
    } else {
        HumanSize { magnitude: bytes / 1073741824, unit: SizeUnit::GB }
    }
}

/// One partition as the on-disk table decoder hands it over: its slot
/// number in the table, its extent in sectors, and whether the slot is in
/// use. Read-only to this crate.
#[derive(Clone, Copy, Debug, PartialEq, Eq, Structural)]
pub struct PartitionRecord {
    pub index: u32,
    pub size_in_sectors: u64,
    pub is_used: bool,
}

/// An unused partition whose sector count equals this value is treated as a
/// benign, reserved slot and draws no unhealthy line. The convention behind
/// the value is not documented by any partition-table reference consulted;
/// it is kept as an explicit named constant rather than folded into the
/// logic.
pub const BENIGN_UNUSED_SECTORS: u64 = 1;

/// One line of the partition report: either a size line for a used
/// partition or an unhealthy flag for an unused one.
#[derive(Clone, Copy, Debug, PartialEq, Eq, Structural)]
pub enum ReportLine {
    Size { index: u32, size: HumanSize },
    Unhealthy { index: u32 },
}

/// The exact byte count of a partition. Two 64-bit factors always fit in
/// 128 bits, so the product never silently overflows.
pub open spec fn spec_size_bytes(size_in_sectors: u64, sector_size: u64) -> u128 {
    (size_in_sectors * sector_size) as u128
}

/// Multiply a sector count by the sector size, widened so the product is
/// exact for every pair of inputs.
pub fn size_bytes(size_in_sectors: u64, sector_size: u64) -> (b: u128)
    ensures
        b == spec_size_bytes(size_in_sectors, sector_size),
{
    proof {
        assert(size_in_sectors * sector_size <= u64::MAX * u64::MAX) by (nonlinear_arith)
            requires
                size_in_sectors <= u64::MAX,
                sector_size <= u64::MAX,
        ;
    }
    (size_in_sectors as u128) * (sector_size as u128)
}

/// What `report` returns for one record: a size line when the partition is
/// used, no line for a benign unused slot, an unhealthy line otherwise.
pub open spec fn spec_report(record: PartitionRecord, sector_size: u64) -> Option<ReportLine> {
    if record.is_used {
        Some(ReportLine::Size {
            index: record.index,
            size: spec_classify(spec_size_bytes(record.size_in_sectors, sector_size)),
        })
    } else if record.size_in_sectors == BENIGN_UNUSED_SECTORS {
        None
    } else {
        Some(ReportLine::Unhealthy { index: record.index })
    }
}

/// Report one partition: a used partition gets its size in the largest
/// fitting unit; an unused one is flagged unhealthy unless its sector count
/// equals `BENIGN_UNUSED_SECTORS`, in which case it draws no line at all.
pub fn report(record: &PartitionRecord, sector_size: u64) -> (r: Option<ReportLine>)
    ensures
        r == spec_report(*record, sector_size),
{
    if record.is_used {
        let bytes = size_bytes(record.size_in_sectors, sector_size);
        Some(ReportLine::Size { index: record.index, size: classify(bytes) })
    } else if record.size_in_sectors == BENIGN_UNUSED_SECTORS {
        None
    } else {
        Some(ReportLine::Unhealthy { index: record.index })
    }
}

/// The report for a whole device: one line per record that draws one, in
/// the order the decoder enumerated the records.
pub open spec fn spec_report_lines(records: Seq<PartitionRecord>, sector_size: u64) -> Seq<
    ReportLine,
>
    decreases records.len(),
{
    if records.len() == 0 {
        Seq::empty()
    } else {
        let rest = spec_report_lines(records.drop_last(), sector_size);
        match spec_report(records.last(), sector_size) {
            Some(line) => rest.push(line),
            None => rest,
        }
    }
}

/// Report every partition of a device, in the decoder's enumeration order.
/// No reordering and no filtering happens beyond dropping the lines that
/// benign unused slots do not draw.
pub fn report_device(records: &Vec<PartitionRecord>, sector_size: u64) -> (lines: Vec<ReportLine>)
    ensures
        lines@ == spec_report_lines(records@, sector_size),
{
    let mut lines: Vec<ReportLine> = Vec::new();
    let mut i: usize = 0;
    while i < records.len()
        invariant
            i <= records@.len(),
            lines@ == spec_report_lines(records@.take(i as int), sector_size),
        decreases records@.len() - i,
    {
        match report(&records[i], sector_size) {
            Some(line) => lines.push(line),
            None => (),
        }
        proof {
            assert(records@.take(i + 1 as int).drop_last() =~= records@.take(i as int));
            assert(records@.take(i + 1 as int).last() == records@[i as int]);
        }
        i = i + 1;
    }
    proof {
        assert(records@.take(records@.len() as int) =~= records@);
    }
    lines
}

/// A benign unused slot is invisible in the device report: the report of a
/// record list containing such a record at position `k` is exactly the
/// report of the list with that record removed. In particular no unhealthy
/// line is emitted for it.
pub proof fn lemma_benign_unused_omitted(records: Seq<PartitionRecord>, sector_size: u64, k: int)
    requires
        0 <= k < records.len(),
        !records[k].is_used,
        records[k].size_in_sectors == BENIGN_UNUSED_SECTORS,
    ensures
        spec_report_lines(records, sector_size) == spec_report_lines(
            records.remove(k),
            sector_size,
        ),
    decreases records.len(),
{
    if k == records.len() - 1 {
        assert(records.remove(k) =~= records.drop_last());
        assert(spec_report(records.last(), sector_size) is None);
    } else {
        lemma_benign_unused_omitted(records.drop_last(), sector_size, k);
        assert(records.remove(k).drop_last() =~= records.drop_last().remove(k));
        assert(records.remove(k).last() == records.last());
    }
}

} // verus!
