//! Errors of the profiles encoding and decoding paths.
use vstd::prelude::*;

verus! {

/// A record batch of an OTAP profiles payload: the two row streams and the
/// lookup tables of [`crate::model::profiles::ProfilesData`].
#[derive(Debug, Clone, Copy, PartialEq, Eq, Structural)]
pub enum ProfilesTable {
    Profiles,
    Sample,
    String,
    Function,
    Mapping,
    Location,
    Link,
    Attribute,
    AttributeUnits,
}

/// A column that holds indices into a lookup table.
#[derive(Debug, Clone, Copy, PartialEq, Eq, Structural)]
pub enum IndexColumn {
    SampleType,
    PeriodType,
    LocationIndices,
    CommentStrindices,
    AttributeIndices,
    LinkIndex,
    FilenameStrindex,
    MappingIndex,
    FunctionIndex,
    NameStrindex,
    SystemNameStrindex,
    AttributeKeyStrindex,
    UnitStrindex,
}

/// Errors raised while reconstructing or validating profiles data.
#[derive(Debug, Clone, PartialEq, Eq)]
pub enum Error {
    /// An index column refers past the end of (or before the start of) the
    /// table it indexes.
    InvalidProfilesTableIndex { column: IndexColumn, index: i64, table: ProfilesTable, table_len: usize },
    /// A record batch is not in the state that decoding expects (such as an
    /// interned table whose ids are not exactly its row positions); `reason`
    /// says how.
    UnexpectedRecordBatchState { reason: String },
    /// The columns of a record batch under construction differ in length.
    ColumnLengthMismatch { table: ProfilesTable },
}

/// The name of a table as it appears in error reports.
pub open spec fn table_name(x: ProfilesTable) -> Seq<char> {
    match x {
        ProfilesTable::Profiles => "profiles"@,
        ProfilesTable::Sample => "sample"@,
        ProfilesTable::String => "string"@,
        ProfilesTable::Function => "function"@,
        ProfilesTable::Mapping => "mapping"@,
        ProfilesTable::Location => "location"@,
        ProfilesTable::Link => "link"@,
        ProfilesTable::Attribute => "attribute"@,
        ProfilesTable::AttributeUnits => "attribute-units"@,
    }
}

impl ProfilesTable {
    /// The name of the table as it appears in error reports.
    pub fn name(&self) -> (r: &'static str)
        ensures
            r@ == table_name(*self),
    {
        proof {
            reveal_strlit("profiles");
            reveal_strlit("sample");
            reveal_strlit("string");
            reveal_strlit("function");
            reveal_strlit("mapping");
            reveal_strlit("location");
            reveal_strlit("link");
            reveal_strlit("attribute");
            reveal_strlit("attribute-units");
        }
        match self {
            ProfilesTable::Profiles => "profiles",
            ProfilesTable::Sample => "sample",
            ProfilesTable::String => "string",
            ProfilesTable::Function => "function",
            ProfilesTable::Mapping => "mapping",
            ProfilesTable::Location => "location",
            ProfilesTable::Link => "link",
            ProfilesTable::Attribute => "attribute",
            ProfilesTable::AttributeUnits => "attribute-units",
        }
    }
}

/// The name of a column as it appears in error reports.
pub open spec fn column_name(x: IndexColumn) -> Seq<char> {
    match x {
        IndexColumn::SampleType => "sample_type"@,
        IndexColumn::PeriodType => "period_type"@,
        IndexColumn::LocationIndices => "location_indices"@,
        IndexColumn::CommentStrindices => "comment_strindices"@,
        IndexColumn::AttributeIndices => "attribute_indices"@,
        IndexColumn::LinkIndex => "link_index"@,
        IndexColumn::FilenameStrindex => "filename_strindex"@,
        IndexColumn::MappingIndex => "mapping_index"@,
        IndexColumn::FunctionIndex => "function_index"@,
        IndexColumn::NameStrindex => "name_strindex"@,
        IndexColumn::SystemNameStrindex => "system_name_strindex"@,
        IndexColumn::AttributeKeyStrindex => "attribute_key_strindex"@,
        IndexColumn::UnitStrindex => "unit_strindex"@,
    }
}

impl IndexColumn {
    /// The name of the column as it appears in error reports.
    pub fn name(&self) -> (r: &'static str)
        ensures
            r@ == column_name(*self),
    {
        proof {
            reveal_strlit("sample_type");
            reveal_strlit("period_type");
            reveal_strlit("location_indices");
            reveal_strlit("comment_strindices");
            reveal_strlit("attribute_indices");
            reveal_strlit("link_index");
            reveal_strlit("filename_strindex");
            reveal_strlit("mapping_index");
            reveal_strlit("function_index");
            reveal_strlit("name_strindex");
            reveal_strlit("system_name_strindex");
            reveal_strlit("attribute_key_strindex");
            reveal_strlit("unit_strindex");
        }
        match self {
            IndexColumn::SampleType => "sample_type",
            IndexColumn::PeriodType => "period_type",
            IndexColumn::LocationIndices => "location_indices",
            IndexColumn::CommentStrindices => "comment_strindices",
            IndexColumn::AttributeIndices => "attribute_indices",
            IndexColumn::LinkIndex => "link_index",
            IndexColumn::FilenameStrindex => "filename_strindex",
            IndexColumn::MappingIndex => "mapping_index",
            IndexColumn::FunctionIndex => "function_index",
            IndexColumn::NameStrindex => "name_strindex",
            IndexColumn::SystemNameStrindex => "system_name_strindex",
            IndexColumn::AttributeKeyStrindex => "attribute_key_strindex",
            IndexColumn::UnitStrindex => "unit_strindex",
        }
    }
}

} // verus!
