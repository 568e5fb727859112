//! Backend-agnostic read access to OTLP profiles, and its implementation for
//! the message structs of [`crate::model::profiles`].
//!
//! Profiles is a dictionary-normalized model: the data carries flat lookup
//! tables and the profile/sample tree refers to their entries by index. Index
//! `0` is a valid reference everywhere, so the views hand out every index and
//! numeric field verbatim; only the fields that are `optional` in the proto
//! (`link_index`, `mapping_index`, `period_type`) are surfaced as `Option`.
//! Sequences are handed out as slices, in their stored order.
use vstd::prelude::*;
use crate::model::common::{InstrumentationScope, KeyValue, Resource};
use crate::model::profiles::{
    AttributeUnit, Function, Line, Link, Location, Mapping, Profile, ProfilesData,
    ResourceProfiles, Sample, ScopeProfiles, ValueType,
};

verus! {

/// View of a whole profiles data: the resource tree and the lookup tables it
/// refers to. The position of an entry within its table is its identity.
pub trait ProfilesDataView {
    type ResourceProfiles: ResourceProfilesView;
    type Mapping: MappingView;
    type Location: LocationView;
    type Function: FunctionView;
    type Link: LinkView;
    type Attribute;
    type AttributeUnit: AttributeUnitView;

    /// The resource profiles.
    fn resources(&self) -> &[Self::ResourceProfiles];

    /// The mapping table, in table order.
    fn mapping_table(&self) -> &[Self::Mapping];

    /// The location table, in table order.
    fn location_table(&self) -> &[Self::Location];

    /// The function table, in table order.
    fn function_table(&self) -> &[Self::Function];

    /// The link table, in table order.
    fn link_table(&self) -> &[Self::Link];

    /// The string table, in table order; empty strings are entries too.
    fn string_table(&self) -> &[String];

    /// The attribute table, in table order.
    fn attribute_table(&self) -> &[Self::Attribute];

    /// The attribute units table, in table order.
    fn attribute_units(&self) -> &[Self::AttributeUnit];
}

/// View of the profiles of one resource.
pub trait ResourceProfilesView {
    type Resource;
    type ScopeProfiles: ScopeProfilesView;

    /// The resource; `None` when it is unknown.
    fn resource(&self) -> Option<&Self::Resource>;

    /// The scope profiles of this resource.
    fn scopes(&self) -> &[Self::ScopeProfiles];

    /// The schema URL; `None` when it is not known (empty).
    fn schema_url(&self) -> Option<&str>;
}

/// View of the profiles of one instrumentation scope.
pub trait ScopeProfilesView {
    type Scope;
    type Profile: ProfileView;

    /// The scope; `None` when it is unknown.
    fn scope(&self) -> Option<&Self::Scope>;

    /// The profiles of this scope.
    fn profiles(&self) -> &[Self::Profile];

    /// The schema URL; `None` when it is not known (empty).
    fn schema_url(&self) -> Option<&str>;
}

/// View of a single profile.
pub trait ProfileView {
    type ValueType: ValueTypeView;
    type Sample: SampleView;

    /// The value types of the sample values, one per value dimension.
    fn sample_types(&self) -> &[Self::ValueType];

    /// The samples.
    fn samples(&self) -> &[Self::Sample];

    /// Indices into the location table of the locations of the samples.
    fn location_indices(&self) -> &[i32];

    /// Time of the profile in nanoseconds since the Unix epoch.
    fn time_nanos(&self) -> i64;

    /// Duration of the profile in nanoseconds.
    fn duration_nanos(&self) -> i64;

    /// The kind of events between sampled occurrences; `None` when absent.
    fn period_type(&self) -> Option<&Self::ValueType>;

    /// The number of events between sampled occurrences.
    fn period(&self) -> i64;

    /// Indices into the string table of the comments.
    fn comment_strindices(&self) -> &[i32];

    /// Index into the sample types of the preferred sample value.
    fn default_sample_type_index(&self) -> i32;

    /// The profile id as held (16 bytes when valid, possibly empty).
    fn profile_id(&self) -> &[u8];

    /// The number of dropped attributes.
    fn dropped_attributes_count(&self) -> u32;

    /// The format of the original payload; `None` when unset (empty).
    fn original_payload_format(&self) -> Option<&str>;

    /// The original payload (possibly empty).
    fn original_payload(&self) -> &[u8];

    /// Indices into the attribute table.
    fn attribute_indices(&self) -> &[i32];
}

/// View of a sample.
pub trait SampleView {
    /// Start of the sample's stack within the profile's location indices.
    fn locations_start_index(&self) -> i32;

    /// Length of the sample's stack within the profile's location indices.
    fn locations_length(&self) -> i32;

    /// The values, one per sample type of the profile.
    fn values(&self) -> &[i64];

    /// Indices into the attribute table.
    fn attribute_indices(&self) -> &[i32];

    /// Index into the link table; `None` when absent (`Some(0)` is a reference).
    fn link_index(&self) -> Option<i32>;

    /// Timestamps of the sample in nanoseconds since the Unix epoch.
    fn timestamps_unix_nano(&self) -> &[u64];
}

/// View of a value type.
pub trait ValueTypeView {
    /// Index into the string table of the type.
    fn type_strindex(&self) -> i32;

    /// Index into the string table of the unit.
    fn unit_strindex(&self) -> i32;

    /// The aggregation temporality, as the raw enum value.
    fn aggregation_temporality(&self) -> i32;
}

/// View of an entry of the mapping table.
pub trait MappingView {
    /// Address at which the binary is loaded.
    fn memory_start(&self) -> u64;

    /// Limit of the address range of the mapping.
    fn memory_limit(&self) -> u64;

    /// Offset in the binary of the first mapped address.
    fn file_offset(&self) -> u64;

    /// Index into the string table of the file name.
    fn filename_strindex(&self) -> i32;

    /// Indices into the attribute table.
    fn attribute_indices(&self) -> &[i32];

    /// Whether the mapping has function information.
    fn has_functions(&self) -> bool;

    /// Whether the mapping has file name information.
    fn has_filenames(&self) -> bool;

    /// Whether the mapping has line number information.
    fn has_line_numbers(&self) -> bool;

    /// Whether the mapping has inline frame information.
    fn has_inline_frames(&self) -> bool;
}

/// View of an entry of the location table.
pub trait LocationView {
    type Line: LineView;

    /// Index into the mapping table; `None` when absent (`Some(0)` is a reference).
    fn mapping_index(&self) -> Option<i32>;

    /// The instruction address.
    fn address(&self) -> u64;

    /// The lines (several describe inlined functions).
    fn lines(&self) -> &[Self::Line];

    /// Whether several symbols map to this location by identical-code folding.
    fn is_folded(&self) -> bool;

    /// Indices into the attribute table.
    fn attribute_indices(&self) -> &[i32];
}

/// View of the line information of a location.
pub trait LineView {
    /// Index into the function table.
    fn function_index(&self) -> i32;

    /// The source line number.
    fn line(&self) -> i64;

    /// The source column number.
    fn column(&self) -> i64;
}

/// View of an entry of the function table.
pub trait FunctionView {
    /// Index into the string table of the name.
    fn name_strindex(&self) -> i32;

    /// Index into the string table of the system (mangled) name.
    fn system_name_strindex(&self) -> i32;

    /// Index into the string table of the source file name.
    fn filename_strindex(&self) -> i32;

    /// The source line of the start of the function.
    fn start_line(&self) -> i64;
}

/// View of an entry of the link table.
pub trait LinkView {
    /// The trace id as held (16 bytes when valid, possibly empty).
    fn trace_id(&self) -> &[u8];

    /// The span id as held (8 bytes when valid, possibly empty).
    fn span_id(&self) -> &[u8];
}

/// View of an entry of the attribute units table.
pub trait AttributeUnitView {
    /// Index into the string table of the attribute key.
    fn attribute_key_strindex(&self) -> i32;

    /// Index into the string table of the unit.
    fn unit_strindex(&self) -> i32;
}

/* ------------------------------ implementations ------------------------------ */

/// `None` for the empty string, the string otherwise.
fn non_empty(s: &String) -> (r: Option<&str>)
    ensures
        r matches Some(x) ==> x@ == s@,
        r is None <==> s@.len() == 0,
{
    let v = s.as_str();
    if v.is_empty() {
        None
    } else {
        Some(v)
    }
}

impl ProfilesDataView for ProfilesData {
    type ResourceProfiles = ResourceProfiles;
    type Mapping = Mapping;
    type Location = Location;
    type Function = Function;
    type Link = Link;
    type Attribute = KeyValue;
    type AttributeUnit = AttributeUnit;

    fn resources(&self) -> (r: &[ResourceProfiles])
        ensures
            r@ == self.resource_profiles@,
    {
        self.resource_profiles.as_slice()
    }

    fn mapping_table(&self) -> (r: &[Mapping])
        ensures
            r@ == self.mapping_table@,
    {
        self.mapping_table.as_slice()
    }

    fn location_table(&self) -> (r: &[Location])
        ensures
            r@ == self.location_table@,
    {
        self.location_table.as_slice()
    }

    fn function_table(&self) -> (r: &[Function])
        ensures
            r@ == self.function_table@,
    {
        self.function_table.as_slice()
    }

    fn link_table(&self) -> (r: &[Link])
        ensures
            r@ == self.link_table@,
    {
        self.link_table.as_slice()
    }

    fn string_table(&self) -> (r: &[String])
        ensures
            r@ == self.string_table@,
    {
        self.string_table.as_slice()
    }

    fn attribute_table(&self) -> (r: &[KeyValue])
        ensures
            r@ == self.attribute_table@,
    {
        self.attribute_table.as_slice()
    }

    fn attribute_units(&self) -> (r: &[AttributeUnit])
        ensures
            r@ == self.attribute_units@,
    {
        self.attribute_units.as_slice()
    }
}

impl ResourceProfilesView for ResourceProfiles {
    type Resource = Resource;
    type ScopeProfiles = ScopeProfiles;

    fn resource(&self) -> (r: Option<&Resource>)
        ensures
            r is Some <==> self.resource is Some,
            r matches Some(x) ==> *x == self.resource->0,
    {
        self.resource.as_ref()
    }

    fn scopes(&self) -> (r: &[ScopeProfiles])
        ensures
            r@ == self.scope_profiles@,
    {
        self.scope_profiles.as_slice()
    }

    fn schema_url(&self) -> (r: Option<&str>)
        ensures
            r matches Some(x) ==> x@ == self.schema_url@,
            r is None <==> self.schema_url@.len() == 0,
    {
        non_empty(&self.schema_url)
    }
}

impl ScopeProfilesView for ScopeProfiles {
    type Scope = InstrumentationScope;
    type Profile = Profile;

    fn scope(&self) -> (r: Option<&InstrumentationScope>)
        ensures
            r is Some <==> self.scope is Some,
            r matches Some(x) ==> *x == self.scope->0,
    {
        self.scope.as_ref()
    }

    fn profiles(&self) -> (r: &[Profile])
        ensures
            r@ == self.profiles@,
    {
        self.profiles.as_slice()
    }

    fn schema_url(&self) -> (r: Option<&str>)
        ensures
            r matches Some(x) ==> x@ == self.schema_url@,
            r is None <==> self.schema_url@.len() == 0,
    {
        non_empty(&self.schema_url)
    }
}

impl ProfileView for Profile {
    type ValueType = ValueType;
    type Sample = Sample;

    fn sample_types(&self) -> (r: &[ValueType])
        ensures
            r@ == self.sample_type@,
    {
        self.sample_type.as_slice()
    }

    fn samples(&self) -> (r: &[Sample])
        ensures
            r@ == self.sample@,
    {
        self.sample.as_slice()
    }

    fn location_indices(&self) -> (r: &[i32])
        ensures
            r@ == self.location_indices@,
    {
        self.location_indices.as_slice()
    }

    fn time_nanos(&self) -> (r: i64)
        ensures
            r == self.time_nanos,
    {
        self.time_nanos
    }

    fn duration_nanos(&self) -> (r: i64)
        ensures
            r == self.duration_nanos,
    {
        self.duration_nanos
    }

    fn period_type(&self) -> (r: Option<&ValueType>)
        ensures
            r is Some <==> self.period_type is Some,
            r matches Some(x) ==> *x == self.period_type->0,
    {
        self.period_type.as_ref()
    }

    fn period(&self) -> (r: i64)
        ensures
            r == self.period,
    {
        self.period
    }

    fn comment_strindices(&self) -> (r: &[i32])
        ensures
            r@ == self.comment_strindices@,
    {
        self.comment_strindices.as_slice()
    }

    fn default_sample_type_index(&self) -> (r: i32)
        ensures
            r == self.default_sample_type_index,
    {
        self.default_sample_type_index
    }

    fn profile_id(&self) -> (r: &[u8])
        ensures
            r@ == self.profile_id@,
    {
        self.profile_id.as_slice()
    }

    fn dropped_attributes_count(&self) -> (r: u32)
        ensures
            r == self.dropped_attributes_count,
    {
        self.dropped_attributes_count
    }

    fn original_payload_format(&self) -> (r: Option<&str>)
        ensures
            r matches Some(x) ==> x@ == self.original_payload_format@,
            r is None <==> self.original_payload_format@.len() == 0,
    {
        non_empty(&self.original_payload_format)
    }

    fn original_payload(&self) -> (r: &[u8])
        ensures
            r@ == self.original_payload@,
    {
        self.original_payload.as_slice()
    }

    fn attribute_indices(&self) -> (r: &[i32])
        ensures
            r@ == self.attribute_indices@,
    {
        self.attribute_indices.as_slice()
    }
}

impl SampleView for Sample {
    fn locations_start_index(&self) -> (r: i32)
        ensures
            r == self.locations_start_index,
    {
        self.locations_start_index
    }

    fn locations_length(&self) -> (r: i32)
        ensures
            r == self.locations_length,
    {
        self.locations_length
    }

    fn values(&self) -> (r: &[i64])
        ensures
            r@ == self.value@,
    {
        self.value.as_slice()
    }

    fn attribute_indices(&self) -> (r: &[i32])
        ensures
            r@ == self.attribute_indices@,
    {
        self.attribute_indices.as_slice()
    }

    fn link_index(&self) -> (r: Option<i32>)
        ensures
            r == self.link_index,
    {
        self.link_index
    }

    fn timestamps_unix_nano(&self) -> (r: &[u64])
        ensures
            r@ == self.timestamps_unix_nano@,
    {
        self.timestamps_unix_nano.as_slice()
    }
}

impl ValueTypeView for ValueType {
    fn type_strindex(&self) -> (r: i32)
        ensures
            r == self.type_strindex,
    {
        self.type_strindex
    }

    fn unit_strindex(&self) -> (r: i32)
        ensures
            r == self.unit_strindex,
    {
        self.unit_strindex
    }

    fn aggregation_temporality(&self) -> (r: i32)
        ensures
            r == self.aggregation_temporality,
    {
        self.aggregation_temporality
    }
}

impl MappingView for Mapping {
    fn memory_start(&self) -> (r: u64)
        ensures
            r == self.memory_start,
    {
        self.memory_start
    }

    fn memory_limit(&self) -> (r: u64)
        ensures
            r == self.memory_limit,
    {
        self.memory_limit
    }

    fn file_offset(&self) -> (r: u64)
        ensures
            r == self.file_offset,
    {
        self.file_offset
    }

    fn filename_strindex(&self) -> (r: i32)
        ensures
            r == self.filename_strindex,
    {
        self.filename_strindex
    }

    fn attribute_indices(&self) -> (r: &[i32])
        ensures
            r@ == self.attribute_indices@,
    {
        self.attribute_indices.as_slice()
    }

    fn has_functions(&self) -> (r: bool)
        ensures
            r == self.has_functions,
    {
        self.has_functions
    }

    fn has_filenames(&self) -> (r: bool)
        ensures
            r == self.has_filenames,
    {
        self.has_filenames
    }

    fn has_line_numbers(&self) -> (r: bool)
        ensures
            r == self.has_line_numbers,
    {
        self.has_line_numbers
    }

    fn has_inline_frames(&self) -> (r: bool)
        ensures
            r == self.has_inline_frames,
    {
        self.has_inline_frames
    }
}

impl LocationView for Location {
    type Line = Line;

    fn mapping_index(&self) -> (r: Option<i32>)
        ensures
            r == self.mapping_index,
    {
        self.mapping_index
    }

    fn address(&self) -> (r: u64)
        ensures
            r == self.address,
    {
        self.address
    }

    fn lines(&self) -> (r: &[Line])
        ensures
            r@ == self.line@,
    {
        self.line.as_slice()
    }

    fn is_folded(&self) -> (r: bool)
        ensures
            r == self.is_folded,
    {
        self.is_folded
    }

    fn attribute_indices(&self) -> (r: &[i32])
        ensures
            r@ == self.attribute_indices@,
    {
        self.attribute_indices.as_slice()
    }
}

impl LineView for Line {
    fn function_index(&self) -> (r: i32)
        ensures
            r == self.function_index,
    {
        self.function_index
    }

    fn line(&self) -> (r: i64)
        ensures
            r == self.line,
    {
        self.line
    }

    fn column(&self) -> (r: i64)
        ensures
            r == self.column,
    {
        self.column
    }
}

impl FunctionView for Function {
    fn name_strindex(&self) -> (r: i32)
        ensures
            r == self.name_strindex,
    {
        self.name_strindex
    }

    fn system_name_strindex(&self) -> (r: i32)
        ensures
            r == self.system_name_strindex,
    {
        self.system_name_strindex
    }

    fn filename_strindex(&self) -> (r: i32)
        ensures
            r == self.filename_strindex,
    {
        self.filename_strindex
    }

    fn start_line(&self) -> (r: i64)
        ensures
            r == self.start_line,
    {
        self.start_line
    }
}

impl LinkView for Link {
    fn trace_id(&self) -> (r: &[u8])
        ensures
            r@ == self.trace_id@,
    {
        self.trace_id.as_slice()
    }

    fn span_id(&self) -> (r: &[u8])
        ensures
            r@ == self.span_id@,
    {
        self.span_id.as_slice()
    }
}

impl AttributeUnitView for AttributeUnit {
    fn attribute_key_strindex(&self) -> (r: i32)
        ensures
            r == self.attribute_key_strindex,
    {
        self.attribute_key_strindex
    }

    fn unit_strindex(&self) -> (r: i32)
        ensures
            r == self.unit_strindex,
    {
        self.unit_strindex
    }
}

} // verus!
