//! Table statistics computed from chunk metadata.
//!
//! A query optimizer can use per-table statistics (row counts, byte sizes,
//! per-column bounds) to answer aggregates without scanning data. The chunk
//! metadata available here describes only where chunks are stored, not what
//! is inside them, so every statistic is reported as absent rather than as a
//! misleading placeholder.

use vstd::prelude::*;

verus! {

/// How precisely a statistic is known.
#[derive(Clone, Copy, Debug, PartialEq, Eq, Structural)]
pub enum Precision {
    /// The value is known exactly.
    Exact(u64),
    /// The value is an estimate.
    Inexact(u64),
    /// The value is not known at all.
    Absent,
}

/// The data type of a table column, as far as these statistics care.
#[derive(Clone, Copy, Debug, PartialEq, Eq, Structural)]
pub enum ColumnType {
    Int64,
    Utf8,
    Float64,
}

/// One column of a table schema.
#[derive(Clone, Debug)]
pub struct SchemaField {
    pub name: String,
    pub data_type: ColumnType,
    pub nullable: bool,
}

/// The schema of the table the statistics describe.
#[derive(Clone, Debug)]
pub struct TableSchema {
    pub fields: Vec<SchemaField>,
}

/// Per-column statistics.
#[derive(Clone, Copy, Debug, PartialEq, Eq, Structural)]
pub struct ColumnStatistics {
    pub null_count: Precision,
    pub max_value: Precision,
    pub min_value: Precision,
    pub distinct_count: Precision,
}

impl ColumnStatistics {
    /// Column statistics that carry no information.
    pub fn new_unknown() -> (r: Self)
        ensures
            r == Self::spec_unknown(),
    {
        Self {
            null_count: Precision::Absent,
            max_value: Precision::Absent,
            min_value: Precision::Absent,
            distinct_count: Precision::Absent,
        }
    }

    /// The all-absent column statistics value.
    pub open spec fn spec_unknown() -> Self {
        Self {
            null_count: Precision::Absent,
            max_value: Precision::Absent,
            min_value: Precision::Absent,
            distinct_count: Precision::Absent,
        }
    }
}

/// Whole-table statistics: row count, byte size, and one entry per column.
#[derive(Clone, Debug)]
pub struct Statistics {
    pub num_rows: Precision,
    pub total_byte_size: Precision,
    pub column_statistics: Vec<ColumnStatistics>,
}

/// Metadata about one batch of chunk descriptions. It says where chunks
/// live, not how many rows or bytes they hold, which is why it contributes
/// nothing to the statistics.
#[derive(Clone, Debug)]
pub struct ChunkInfoBatch {
    /// Number of metadata rows in the batch (one per chunk).
    pub num_rows: u64,
}

/// Compute table statistics from chunk metadata batches.
///
/// The metadata describes chunk placement only, so the honest answer is a
/// statistics value with every field absent: one unknown column entry per
/// schema field, and no row or byte counts. Absent values never mislead the
/// optimizer, while a fabricated exact value would.
pub fn compute_statistics_from_chunks(
    schema: &TableSchema,
    chunk_info_batches: &Vec<ChunkInfoBatch>,
) -> (r: Statistics)
    ensures
        r.num_rows == Precision::Absent,
        r.total_byte_size == Precision::Absent,
        r.column_statistics@.len() == schema.fields@.len(),
        forall|i: int|
            0 <= i < r.column_statistics@.len() ==> r.column_statistics@[i]
                == ColumnStatistics::spec_unknown(),
{
    let _ = chunk_info_batches;
    let n = schema.fields.len();
    let mut column_statistics: Vec<ColumnStatistics> = Vec::new();
    let mut i: usize = 0;
    while i < n
        invariant
            i <= n,
            column_statistics@.len() == i,
            forall|j: int|
                0 <= j < i as int ==> column_statistics@[j] == ColumnStatistics::spec_unknown(),
        decreases n - i,
    {
        column_statistics.push(ColumnStatistics::new_unknown());
        i = i + 1;
    }
    Statistics { num_rows: Precision::Absent, total_byte_size: Precision::Absent, column_statistics }
}

} // verus!
