//! OTLP profiles messages (`v1development`) and their models.
//!
//! Profiles is a dictionary-normalized model: [`ProfilesData`] carries flat
//! lookup tables and the resource -> scope -> profile -> sample tree refers
//! to their entries by index.
use vstd::prelude::*;
use crate::model::common::{
    key_values_model, opt_resource_model, opt_scope_model, InstrumentationScope, KeyValue,
    KeyValueModel, Resource, ResourceModel, ScopeModel,
};

verus! {

/// The type and unit of a sample value or of the profile period.
#[derive(Debug, Clone, Copy, PartialEq, Eq, Structural)]
pub struct ValueType {
    pub type_strindex: i32,
    pub unit_strindex: i32,
    pub aggregation_temporality: i32,
}

/// Line information of a location.
#[derive(Debug, Clone, Copy, PartialEq, Eq, Structural)]
pub struct Line {
    pub function_index: i32,
    pub line: i64,
    pub column: i64,
}

/// An entry of the function table.
#[derive(Debug, Clone, Copy, PartialEq, Eq, Structural)]
pub struct Function {
    pub name_strindex: i32,
    pub system_name_strindex: i32,
    pub filename_strindex: i32,
    pub start_line: i64,
}

/// An entry of the attribute units table.
#[derive(Debug, Clone, Copy, PartialEq, Eq, Structural)]
pub struct AttributeUnit {
    pub attribute_key_strindex: i32,
    pub unit_strindex: i32,
}

/// A sample of a profile.
#[derive(Debug, PartialEq)]
pub struct Sample {
    pub locations_start_index: i32,
    pub locations_length: i32,
    pub value: Vec<i64>,
    pub attribute_indices: Vec<i32>,
    pub link_index: Option<i32>,
    pub timestamps_unix_nano: Vec<u64>,
}

/// A profile.
#[derive(Debug, PartialEq)]
pub struct Profile {
    pub sample_type: Vec<ValueType>,
    pub sample: Vec<Sample>,
    pub location_indices: Vec<i32>,
    pub time_nanos: i64,
    pub duration_nanos: i64,
    pub period_type: Option<ValueType>,
    pub period: i64,
    pub comment_strindices: Vec<i32>,
    pub default_sample_type_index: i32,
    pub profile_id: Vec<u8>,
    pub dropped_attributes_count: u32,
    pub original_payload_format: String,
    pub original_payload: Vec<u8>,
    pub attribute_indices: Vec<i32>,
}

/// An entry of the mapping table.
#[derive(Debug, PartialEq)]
pub struct Mapping {
    pub memory_start: u64,
    pub memory_limit: u64,
    pub file_offset: u64,
    pub filename_strindex: i32,
    pub attribute_indices: Vec<i32>,
    pub has_functions: bool,
    pub has_filenames: bool,
    pub has_line_numbers: bool,
    pub has_inline_frames: bool,
}

/// An entry of the location table.
#[derive(Debug, PartialEq)]
pub struct Location {
    pub mapping_index: Option<i32>,
    pub address: u64,
    pub line: Vec<Line>,
    pub is_folded: bool,
    pub attribute_indices: Vec<i32>,
}

/// An entry of the link table: a connection from a sample to a span.
#[derive(Debug, PartialEq)]
pub struct Link {
    pub trace_id: Vec<u8>,
    pub span_id: Vec<u8>,
}

/// The profiles produced by one instrumentation scope.
#[derive(Debug, PartialEq)]
pub struct ScopeProfiles {
    pub scope: Option<InstrumentationScope>,
    pub profiles: Vec<Profile>,
    pub schema_url: String,
}

/// The profiles produced by one resource.
#[derive(Debug, PartialEq)]
pub struct ResourceProfiles {
    pub resource: Option<Resource>,
    pub scope_profiles: Vec<ScopeProfiles>,
    pub schema_url: String,
}

/// A collection of profiles together with the lookup tables they refer to.
#[derive(Debug, PartialEq)]
pub struct ProfilesData {
    pub resource_profiles: Vec<ResourceProfiles>,
    pub mapping_table: Vec<Mapping>,
    pub location_table: Vec<Location>,
    pub function_table: Vec<Function>,
    pub link_table: Vec<Link>,
    pub string_table: Vec<String>,
    pub attribute_table: Vec<KeyValue>,
    pub attribute_units: Vec<AttributeUnit>,
}

/* ------------------------------ models ------------------------------ */

/// Model of a [`Sample`].
#[verifier::ext_equal]
pub struct SampleModel {
    pub locations_start_index: i32,
    pub locations_length: i32,
    pub value: Seq<i64>,
    pub attribute_indices: Seq<i32>,
    pub link_index: Option<i32>,
    pub timestamps_unix_nano: Seq<u64>,
}

/// Model of a [`Profile`].
#[verifier::ext_equal]
pub struct ProfileModel {
    pub sample_type: Seq<ValueType>,
    pub sample: Seq<SampleModel>,
    pub location_indices: Seq<i32>,
    pub time_nanos: i64,
    pub duration_nanos: i64,
    pub period_type: Option<ValueType>,
    pub period: i64,
    pub comment_strindices: Seq<i32>,
    pub default_sample_type_index: i32,
    pub profile_id: Seq<u8>,
    pub dropped_attributes_count: u32,
    pub original_payload_format: Seq<char>,
    pub original_payload: Seq<u8>,
    pub attribute_indices: Seq<i32>,
}

/// Model of a [`Mapping`].
#[verifier::ext_equal]
pub struct MappingModel {
    pub memory_start: u64,
    pub memory_limit: u64,
    pub file_offset: u64,
    pub filename_strindex: i32,
    pub attribute_indices: Seq<i32>,
    pub has_functions: bool,
    pub has_filenames: bool,
    pub has_line_numbers: bool,
    pub has_inline_frames: bool,
}

/// Model of a [`Location`].
#[verifier::ext_equal]
pub struct LocationModel {
    pub mapping_index: Option<i32>,
    pub address: u64,
    pub line: Seq<Line>,
    pub is_folded: bool,
    pub attribute_indices: Seq<i32>,
}

/// Model of a [`Link`].
#[verifier::ext_equal]
pub struct LinkModel {
    pub trace_id: Seq<u8>,
    pub span_id: Seq<u8>,
}

/// Model of a [`ScopeProfiles`].
#[verifier::ext_equal]
pub struct ScopeProfilesModel {
    pub scope: Option<ScopeModel>,
    pub profiles: Seq<ProfileModel>,
    pub schema_url: Seq<char>,
}

/// Model of a [`ResourceProfiles`].
#[verifier::ext_equal]
pub struct ResourceProfilesModel {
    pub resource: Option<ResourceModel>,
    pub scope_profiles: Seq<ScopeProfilesModel>,
    pub schema_url: Seq<char>,
}

/// Model of a [`ProfilesData`].
#[verifier::ext_equal]
pub struct ProfilesDataModel {
    pub resource_profiles: Seq<ResourceProfilesModel>,
    pub mapping_table: Seq<MappingModel>,
    pub location_table: Seq<LocationModel>,
    pub function_table: Seq<Function>,
    pub link_table: Seq<LinkModel>,
    pub string_table: Seq<Seq<char>>,
    pub attribute_table: Seq<KeyValueModel>,
    pub attribute_units: Seq<AttributeUnit>,
}

impl View for Sample {
    type V = SampleModel;

    open spec fn view(&self) -> SampleModel {
        SampleModel {
            locations_start_index: self.locations_start_index,
            locations_length: self.locations_length,
            value: self.value@,
            attribute_indices: self.attribute_indices@,
            link_index: self.link_index,
            timestamps_unix_nano: self.timestamps_unix_nano@,
        }
    }
}

impl View for Profile {
    type V = ProfileModel;

    open spec fn view(&self) -> ProfileModel {
        ProfileModel {
            sample_type: self.sample_type@,
            sample: self.sample@.map_values(|s: Sample| s@),
            location_indices: self.location_indices@,
            time_nanos: self.time_nanos,
            duration_nanos: self.duration_nanos,
            period_type: self.period_type,
            period: self.period,
            comment_strindices: self.comment_strindices@,
            default_sample_type_index: self.default_sample_type_index,
            profile_id: self.profile_id@,
            dropped_attributes_count: self.dropped_attributes_count,
            original_payload_format: self.original_payload_format@,
            original_payload: self.original_payload@,
            attribute_indices: self.attribute_indices@,
        }
    }
}

impl View for Mapping {
    type V = MappingModel;

    open spec fn view(&self) -> MappingModel {
        MappingModel {
            memory_start: self.memory_start,
            memory_limit: self.memory_limit,
            file_offset: self.file_offset,
            filename_strindex: self.filename_strindex,
            attribute_indices: self.attribute_indices@,
            has_functions: self.has_functions,
            has_filenames: self.has_filenames,
            has_line_numbers: self.has_line_numbers,
            has_inline_frames: self.has_inline_frames,
        }
    }
}

impl View for Location {
    type V = LocationModel;

    open spec fn view(&self) -> LocationModel {
        LocationModel {
            mapping_index: self.mapping_index,
            address: self.address,
            line: self.line@,
            is_folded: self.is_folded,
            attribute_indices: self.attribute_indices@,
        }
    }
}

impl View for Link {
    type V = LinkModel;

    open spec fn view(&self) -> LinkModel {
        LinkModel { trace_id: self.trace_id@, span_id: self.span_id@ }
    }
}

impl View for ScopeProfiles {
    type V = ScopeProfilesModel;

    open spec fn view(&self) -> ScopeProfilesModel {
        ScopeProfilesModel {
            scope: opt_scope_model(self.scope),
            profiles: self.profiles@.map_values(|p: Profile| p@),
            schema_url: self.schema_url@,
        }
    }
}

impl View for ResourceProfiles {
    type V = ResourceProfilesModel;

    open spec fn view(&self) -> ResourceProfilesModel {
        ResourceProfilesModel {
            resource: opt_resource_model(self.resource),
            scope_profiles: self.scope_profiles@.map_values(|s: ScopeProfiles| s@),
            schema_url: self.schema_url@,
        }
    }
}

impl View for ProfilesData {
    type V = ProfilesDataModel;

    open spec fn view(&self) -> ProfilesDataModel {
        ProfilesDataModel {
            resource_profiles: self.resource_profiles@.map_values(|r: ResourceProfiles| r@),
            mapping_table: self.mapping_table@.map_values(|m: Mapping| m@),
            location_table: self.location_table@.map_values(|l: Location| l@),
            function_table: self.function_table@,
            link_table: self.link_table@.map_values(|l: Link| l@),
            string_table: self.string_table@.map_values(|s: String| s@),
            attribute_table: key_values_model(self.attribute_table@),
            attribute_units: self.attribute_units@,
        }
    }
}

} // verus!
