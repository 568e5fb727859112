//! The OTAP profiles batch, held as plain columns.
//!
//! Each record batch of an OTAP profiles payload is represented by a struct
//! of columns. A column is `Option<Vec<Option<T>>>`: `None` when the batch
//! has no such column, otherwise one cell per row, `None` for a null cell.
//! List columns hold one `Option<Vec<..>>` per row.
use vstd::prelude::*;
use crate::model::common::AnyValue;

verus! {

/// A nullable column of a record batch; `None` when the column is absent.
pub type Column<T> = Option<Vec<Option<T>>>;

/// The cell at `row` of `col`: `None` when the column is absent, the row
/// is past its end, or the cell is null.
pub open spec fn cell<T>(col: Column<T>, row: int) -> Option<T> {
    match col {
        Some(c) => if 0 <= row < c.len() { c@[row] } else { None },
        None => None,
    }
}

/// The cell at `row` of `col`, or the type's default value (`0`/`false`).
pub open spec fn cell_or<T>(col: Column<T>, row: int, default: T) -> T {
    match cell(col, row) {
        Some(v) => v,
        None => default,
    }
}

/// A row of a `Struct{type_strindex, unit_strindex, aggregation_temporality}`
/// column.
#[derive(Debug, Clone, Copy, PartialEq, Eq, Structural)]
pub struct ValueTypeRow {
    pub type_strindex: Option<i32>,
    pub unit_strindex: Option<i32>,
    pub aggregation_temporality: Option<i32>,
}

/// A row of a `Struct{function_index, line, column}` column.
#[derive(Debug, Clone, Copy, PartialEq, Eq, Structural)]
pub struct LineRow {
    pub function_index: Option<i32>,
    pub line: Option<i64>,
    pub column: Option<i64>,
}

/// The resource struct column of the `Profiles` root batch.
#[derive(Debug, PartialEq)]
pub struct ResourceColumns {
    pub id: Column<u16>,
    pub dropped_attributes_count: Column<u32>,
    pub schema_url: Column<String>,
}

/// The scope struct column of the `Profiles` root batch.
#[derive(Debug, PartialEq)]
pub struct ScopeColumns {
    pub id: Column<u16>,
    pub name: Column<String>,
    pub version: Column<String>,
    pub dropped_attributes_count: Column<u32>,
}

/// The `Profiles` root batch: one row per profile, with the resource,
/// scope and scope schema URL flattened onto the row.
#[derive(Debug, PartialEq)]
pub struct ProfilesBatch {
    pub num_rows: usize,
    pub id: Column<u16>,
    pub resource: ResourceColumns,
    pub scope: ScopeColumns,
    pub schema_url: Column<String>,
    pub time_nanos: Column<i64>,
    pub duration_nanos: Column<i64>,
    pub period: Column<i64>,
    pub period_type: Column<ValueTypeRow>,
    pub default_sample_type_index: Column<i32>,
    pub profile_id: Column<Vec<u8>>,
    pub dropped_attributes_count: Column<u32>,
    pub original_payload_format: Column<String>,
    pub original_payload: Column<Vec<u8>>,
    pub sample_type: Column<Vec<ValueTypeRow>>,
    pub location_indices: Column<Vec<Option<i32>>>,
    pub comment_strindices: Column<Vec<Option<i32>>>,
    pub attribute_indices: Column<Vec<Option<i32>>>,
}

/// The `Sample` batch: one row per sample, joined to its profile by
/// `parent_id`.
#[derive(Debug, PartialEq)]
pub struct SampleBatch {
    pub num_rows: usize,
    pub parent_id: Vec<Option<u16>>,
    pub locations_start_index: Column<i32>,
    pub locations_length: Column<i32>,
    pub value: Column<Vec<Option<i64>>>,
    pub attribute_indices: Column<Vec<Option<i32>>>,
    pub link_index: Column<i32>,
    pub timestamps_unix_nano: Column<Vec<Option<u64>>>,
}

/// A resource or scope attributes batch: one attribute per row, joined to
/// its resource or scope by `parent_id`. `value` holds the decoded value
/// lanes of the row (`None` when the row has no usable value type).
#[derive(Debug, PartialEq)]
pub struct AttrsBatch {
    pub num_rows: usize,
    pub parent_id: Vec<Option<u16>>,
    pub key: Vec<Option<String>>,
    pub value: Vec<Option<AnyValue>>,
}

/// The interned `StringTable` batch.
#[derive(Debug, PartialEq)]
pub struct StringTableBatch {
    pub num_rows: usize,
    pub id: Column<u32>,
    pub value: Column<String>,
}

/// The interned `FunctionTable` batch.
#[derive(Debug, PartialEq)]
pub struct FunctionTableBatch {
    pub num_rows: usize,
    pub id: Column<u32>,
    pub name_strindex: Column<i32>,
    pub system_name_strindex: Column<i32>,
    pub filename_strindex: Column<i32>,
    pub start_line: Column<i64>,
}

/// The interned `MappingTable` batch.
#[derive(Debug, PartialEq)]
pub struct MappingTableBatch {
    pub num_rows: usize,
    pub id: Column<u32>,
    pub memory_start: Column<u64>,
    pub memory_limit: Column<u64>,
    pub file_offset: Column<u64>,
    pub filename_strindex: Column<i32>,
    pub has_functions: Column<bool>,
    pub has_filenames: Column<bool>,
    pub has_line_numbers: Column<bool>,
    pub has_inline_frames: Column<bool>,
    pub attribute_indices: Column<Vec<Option<i32>>>,
}

/// The interned `LocationTable` batch.
#[derive(Debug, PartialEq)]
pub struct LocationTableBatch {
    pub num_rows: usize,
    pub id: Column<u32>,
    pub mapping_index: Column<i32>,
    pub address: Column<u64>,
    pub is_folded: Column<bool>,
    pub attribute_indices: Column<Vec<Option<i32>>>,
    pub line: Column<Vec<LineRow>>,
}

/// The interned `LinkTable` batch.
#[derive(Debug, PartialEq)]
pub struct LinkTableBatch {
    pub num_rows: usize,
    pub id: Column<u32>,
    pub trace_id: Column<Vec<u8>>,
    pub span_id: Column<Vec<u8>>,
}

/// The interned `AttributeTable` batch.
#[derive(Debug, PartialEq)]
pub struct AttributeTableBatch {
    pub num_rows: usize,
    pub id: Column<u32>,
    pub key: Vec<Option<String>>,
    pub value: Vec<Option<AnyValue>>,
}

/// The interned `AttributeUnits` batch.
#[derive(Debug, PartialEq)]
pub struct AttributeUnitsBatch {
    pub num_rows: usize,
    pub id: Column<u32>,
    pub attribute_key_strindex: Column<i32>,
    pub unit_strindex: Column<i32>,
}

/// An OTAP profiles payload: every record batch is optional.
#[derive(Debug, PartialEq)]
pub struct ProfilesRecords {
    pub profiles: Option<ProfilesBatch>,
    pub sample: Option<SampleBatch>,
    pub resource_attrs: Option<AttrsBatch>,
    pub scope_attrs: Option<AttrsBatch>,
    pub string_table: Option<StringTableBatch>,
    pub function_table: Option<FunctionTableBatch>,
    pub mapping_table: Option<MappingTableBatch>,
    pub location_table: Option<LocationTableBatch>,
    pub link_table: Option<LinkTableBatch>,
    pub attribute_table: Option<AttributeTableBatch>,
    pub attribute_units: Option<AttributeUnitsBatch>,
}

/* ------------------------------ cell access ------------------------------ */

/// The cell at `row` of a column of copyable values.
pub fn cell_at<T: Copy>(col: &Column<T>, row: usize) -> (r: Option<T>)
    ensures
        r == cell(*col, row as int),
{
    match col {
        Some(c) => if row < c.len() { c[row] } else { None },
        None => None,
    }
}

} // verus!
