//! A profiles fixture in which every field of every profiles message takes a
//! value, including the presence-sensitive edge cases (empty ids, index zero
//! present versus absent, resource-less and scope-less trees).
use vstd::prelude::*;
use crate::model::common::{
    any_values_model, attr, attrs1, attrs2, lemma_any_values_model, lemma_key_values_model, str_value, AnyValue, AnyValueModel, ArrayValue, InstrumentationScope, KeyValue, KeyValueList, Resource, ResourceModel, ScopeModel, Value,
};
use crate::model::profiles::{
    AttributeUnit, Function, Line, Link, LinkModel, Location, LocationModel, Mapping,
    MappingModel, Profile, ProfileModel, ProfilesData, ProfilesDataModel, ResourceProfiles,
    ResourceProfilesModel, Sample, SampleModel, ScopeProfiles, ScopeProfilesModel, ValueType,
};
use crate::testing::from_config::BINARY64_ONE_HALF;

verus! {

/// The bytes `first, first + 1, ..` (`n` of them).
pub open spec fn counting(first: int, n: nat) -> Seq<u8> {
    Seq::new(n, |i: int| (first + i) as u8)
}

fn counting_bytes(first: u8, n: u8) -> (r: Vec<u8>)
    requires
        first + n <= 256,
    ensures
        r@ == counting(first as int, n as nat),
{
    let mut out: Vec<u8> = Vec::with_capacity(n as usize);
    let mut i: u8 = 0;
    while i < n
        invariant
            i <= n,
            first + n <= 256,
            out@ == counting(first as int, i as nat),
        decreases n - i,
    {
        out.push(first + i);
        i += 1;
        assert(out@ =~= counting(first as int, i as nat));
    }
    out
}

/// Model of the value type with the given fields.
pub open spec fn value_type(type_strindex: i32, unit_strindex: i32, aggregation_temporality: i32) -> ValueType {
    ValueType { type_strindex, unit_strindex, aggregation_temporality }
}

/// Model of the full-fidelity profiles fixture.
pub open spec fn profiles_data_full_fidelity_model() -> ProfilesDataModel {
    let sample0 = SampleModel {
        locations_start_index: 0,
        locations_length: 2,
        value: seq![100i64, 1i64],
        attribute_indices: seq![0i32, 1i32],
        link_index: Some(1),
        timestamps_unix_nano: seq![111u64, 222u64],
    };
    let sample1 = SampleModel {
        locations_start_index: 2,
        locations_length: 1,
        value: seq![200i64, 2i64],
        attribute_indices: Seq::empty(),
        link_index: None,
        timestamps_unix_nano: Seq::empty(),
    };
    let sample2 = SampleModel {
        locations_start_index: 0,
        locations_length: 0,
        value: Seq::empty(),
        attribute_indices: seq![3i32],
        link_index: Some(0),
        timestamps_unix_nano: seq![333u64],
    };
    let sample3 = SampleModel {
        locations_start_index: 1,
        locations_length: 1,
        value: seq![300i64],
        attribute_indices: seq![4i32, 5i32, 6i32],
        link_index: None,
        timestamps_unix_nano: Seq::empty(),
    };
    let profile0 = ProfileModel {
        sample_type: seq![value_type(7, 2, 1), value_type(8, 2, 2)],
        sample: seq![sample0, sample1],
        location_indices: seq![0i32, 1i32, 2i32],
        time_nanos: 1_000_000_000,
        duration_nanos: 5_000,
        period_type: Some(value_type(1, 2, 0)),
        period: 10_000,
        comment_strindices: seq![6i32],
        default_sample_type_index: 1,
        profile_id: counting(1, 16),
        dropped_attributes_count: 3,
        original_payload_format: "pprof"@,
        original_payload: seq![9u8, 9u8, 9u8],
        attribute_indices: seq![2i32],
    };
    let profile1 = ProfileModel {
        sample_type: Seq::empty(),
        sample: seq![sample2],
        location_indices: Seq::empty(),
        time_nanos: 0,
        duration_nanos: 0,
        period_type: None,
        period: 0,
        comment_strindices: Seq::empty(),
        default_sample_type_index: 0,
        profile_id: Seq::empty(),
        dropped_attributes_count: 0,
        original_payload_format: Seq::empty(),
        original_payload: Seq::empty(),
        attribute_indices: Seq::empty(),
    };
    let profile2 = ProfileModel {
        sample_type: seq![value_type(7, 2, 1)],
        sample: seq![sample3],
        location_indices: seq![1i32],
        time_nanos: 2_000_000_000,
        duration_nanos: 1,
        period_type: Some(value_type(1, 2, 2)),
        period: 1,
        comment_strindices: Seq::empty(),
        default_sample_type_index: 0,
        profile_id: counting(16, 16),
        dropped_attributes_count: 0,
        original_payload_format: Seq::empty(),
        original_payload: Seq::empty(),
        attribute_indices: Seq::empty(),
    };
    ProfilesDataModel {
        resource_profiles: seq![
            ResourceProfilesModel {
                resource: Some(ResourceModel {
                    attributes: seq![attr("res.attr"@, str_value("host1"@)), attr("res.num"@, AnyValueModel::Int(42))],
                    dropped_attributes_count: 1,
                }),
                scope_profiles: seq![ScopeProfilesModel {
                    scope: Some(ScopeModel {
                        name: "profiler"@,
                        version: "1.0"@,
                        attributes: seq![attr("scope.zero"@, AnyValueModel::Int(0)), attr("scope.attr"@, AnyValueModel::Bool(true))],
                        dropped_attributes_count: 2,
                    }),
                    profiles: seq![profile0, profile1],
                    schema_url: "https://scope.schema"@,
                }],
                schema_url: "https://resource.schema"@,
            },
            ResourceProfilesModel {
                resource: None,
                scope_profiles: seq![ScopeProfilesModel { scope: None, profiles: seq![profile2], schema_url: Seq::empty() }],
                schema_url: Seq::empty(),
            },
        ],
        mapping_table: seq![
            MappingModel {
                memory_start: 0x1000,
                memory_limit: 0x2000,
                file_offset: 77,
                filename_strindex: 4,
                attribute_indices: seq![0i32],
                has_functions: true,
                has_filenames: false,
                has_line_numbers: true,
                has_inline_frames: false,
            },
            MappingModel {
                memory_start: 0,
                memory_limit: 0,
                file_offset: 0,
                filename_strindex: 0,
                attribute_indices: Seq::empty(),
                has_functions: false,
                has_filenames: false,
                has_line_numbers: false,
                has_inline_frames: false,
            },
        ],
        location_table: seq![
            LocationModel {
                mapping_index: Some(0),
                address: 0x1234,
                line: seq![Line { function_index: 0, line: 10, column: 2 }, Line { function_index: 2, line: 20, column: 0 }],
                is_folded: false,
                attribute_indices: seq![1i32],
            },
            LocationModel { mapping_index: None, address: 0, line: Seq::empty(), is_folded: true, attribute_indices: Seq::empty() },
            LocationModel {
                mapping_index: Some(1),
                address: 0x999,
                line: seq![Line { function_index: 1, line: 7, column: 1 }],
                is_folded: false,
                attribute_indices: Seq::empty(),
            },
        ],
        function_table: seq![
            Function { name_strindex: 3, system_name_strindex: 3, filename_strindex: 5, start_line: 10 },
            Function { name_strindex: 1, system_name_strindex: 0, filename_strindex: 0, start_line: 0 },
            Function { name_strindex: 8, system_name_strindex: 1, filename_strindex: 5, start_line: 42 },
        ],
        link_table: seq![
            LinkModel { trace_id: counting(1, 16), span_id: counting(1, 8) },
            LinkModel { trace_id: Seq::empty(), span_id: counting(9, 8) },
            LinkModel { trace_id: Seq::new(16, |i: int| 0u8), span_id: Seq::empty() },
        ],
        string_table: seq![
            ""@,
            "cpu"@,
            "nanoseconds"@,
            "main"@,
            "libc.so"@,
            "src/main.rs"@,
            "a comment"@,
            "samples"@,
            "count"@,
        ],
        attribute_table: seq![
            attr("thread.name"@, str_value("main"@)),
            attr("cpu.core"@, AnyValueModel::Int(3)),
            attr("fraction"@, AnyValueModel::Double(BINARY64_ONE_HALF)),
            attr("flag"@, AnyValueModel::Bool(true)),
            attr("blob"@, AnyValueModel::Bytes(seq![1u8, 2u8, 3u8])),
            attr("ctx"@, AnyValueModel::Kvlist(seq![attr("inner"@, AnyValueModel::Int(5))])),
            attr("arr"@, AnyValueModel::Array(seq![AnyValueModel::Int(1), str_value("x"@)])),
            attr("cpu.idle"@, AnyValueModel::Int(0)),
        ],
        attribute_units: seq![
            AttributeUnit { attribute_key_strindex: 1, unit_strindex: 2 },
            AttributeUnit { attribute_key_strindex: 7, unit_strindex: 8 },
            AttributeUnit { attribute_key_strindex: 0, unit_strindex: 0 },
        ],
    }
}

/// A small but full-fidelity `ProfilesData`: every field of every profiles
/// message is exercised by at least one element, including the
/// presence-sensitive edge cases (`link_index` and `mapping_index` of zero
/// against absent ones, empty and all-zero ids, a resource-less and
/// scope-less tree, an integer attribute of exactly zero).
pub fn profiles_data_full_fidelity() -> (r: ProfilesData)
    ensures
        r@ == profiles_data_full_fidelity_model(),
{
    let sample0 = Sample {
        locations_start_index: 0,
        locations_length: 2,
        value: vec![100, 1],
        attribute_indices: vec![0, 1],
        link_index: Some(1),
        timestamps_unix_nano: vec![111, 222],
    };
    let sample1 = Sample {
        locations_start_index: 2,
        locations_length: 1,
        value: vec![200, 2],
        attribute_indices: Vec::new(),
        link_index: None,
        timestamps_unix_nano: Vec::new(),
    };
    let sample2 = Sample {
        locations_start_index: 0,
        locations_length: 0,
        value: Vec::new(),
        attribute_indices: vec![3],
        link_index: Some(0),
        timestamps_unix_nano: vec![333],
    };
    let sample3 = Sample {
        locations_start_index: 1,
        locations_length: 1,
        value: vec![300],
        attribute_indices: vec![4, 5, 6],
        link_index: None,
        timestamps_unix_nano: Vec::new(),
    };
    let profile0 = Profile {
        sample_type: vec![
            ValueType { type_strindex: 7, unit_strindex: 2, aggregation_temporality: 1 },
            ValueType { type_strindex: 8, unit_strindex: 2, aggregation_temporality: 2 },
        ],
        sample: vec![sample0, sample1],
        location_indices: vec![0, 1, 2],
        time_nanos: 1_000_000_000,
        duration_nanos: 5_000,
        period_type: Some(ValueType { type_strindex: 1, unit_strindex: 2, aggregation_temporality: 0 }),
        period: 10_000,
        comment_strindices: vec![6],
        default_sample_type_index: 1,
        profile_id: counting_bytes(1, 16),
        dropped_attributes_count: 3,
        original_payload_format: String::from_str("pprof"),
        original_payload: vec![9, 9, 9],
        attribute_indices: vec![2],
    };
    let profile1 = Profile {
        sample_type: Vec::new(),
        sample: vec![sample2],
        location_indices: Vec::new(),
        time_nanos: 0,
        duration_nanos: 0,
        period_type: None,
        period: 0,
        comment_strindices: Vec::new(),
        default_sample_type_index: 0,
        profile_id: Vec::new(),
        dropped_attributes_count: 0,
        original_payload_format: String::new(),
        original_payload: Vec::new(),
        attribute_indices: Vec::new(),
    };
    let profile2 = Profile {
        sample_type: vec![ValueType { type_strindex: 7, unit_strindex: 2, aggregation_temporality: 1 }],
        sample: vec![sample3],
        location_indices: vec![1],
        time_nanos: 2_000_000_000,
        duration_nanos: 1,
        period_type: Some(ValueType { type_strindex: 1, unit_strindex: 2, aggregation_temporality: 2 }),
        period: 1,
        comment_strindices: Vec::new(),
        default_sample_type_index: 0,
        profile_id: counting_bytes(16, 16),
        dropped_attributes_count: 0,
        original_payload_format: String::new(),
        original_payload: Vec::new(),
        attribute_indices: Vec::new(),
    };
    let resource = Resource {
        attributes: attrs2(
            KeyValue::new("res.attr", AnyValue::new_string("host1")),
            KeyValue::new("res.num", AnyValue::new_int(42)),
        ),
        dropped_attributes_count: 1,
    };
    let scope = InstrumentationScope {
        name: String::from_str("profiler"),
        version: String::from_str("1.0"),
        attributes: attrs2(
            KeyValue::new("scope.zero", AnyValue::new_int(0)),
            KeyValue::new("scope.attr", AnyValue::new_bool(true)),
        ),
        dropped_attributes_count: 2,
    };
    let inner = attrs1(KeyValue::new("inner", AnyValue::new_int(5)));
    let ctx = AnyValue { value: Some(Value::KvlistValue(KeyValueList { values: inner })) };
    let items = vec![AnyValue::new_int(1), AnyValue::new_string("x")];
    proof {
        lemma_any_values_model(items@);
        assert(any_values_model(items@) =~= seq![AnyValueModel::Int(1), str_value("x"@)]);
    }
    let arr = AnyValue { value: Some(Value::ArrayValue(ArrayValue { values: items })) };
    proof {
        assert(arr@ =~~= AnyValueModel::Array(seq![AnyValueModel::Int(1), str_value("x"@)]));
    }
    let blob: [u8; 3] = [1, 2, 3];
    let attribute_table = vec![
        KeyValue::new("thread.name", AnyValue::new_string("main")),
        KeyValue::new("cpu.core", AnyValue::new_int(3)),
        KeyValue::new("fraction", AnyValue::new_double(BINARY64_ONE_HALF)),
        KeyValue::new("flag", AnyValue::new_bool(true)),
        KeyValue::new("blob", AnyValue::new_bytes(&blob)),
        KeyValue::new("ctx", ctx),
        KeyValue::new("arr", arr),
        KeyValue::new("cpu.idle", AnyValue::new_int(0)),
    ];
    proof {
        lemma_key_values_model(attribute_table@);
        assert(blob@ =~= seq![1u8, 2u8, 3u8]);
    }
    let r = ProfilesData {
        resource_profiles: vec![
            ResourceProfiles {
                resource: Some(resource),
                scope_profiles: vec![ScopeProfiles {
                    scope: Some(scope),
                    profiles: vec![profile0, profile1],
                    schema_url: String::from_str("https://scope.schema"),
                }],
                schema_url: String::from_str("https://resource.schema"),
            },
            ResourceProfiles {
                resource: None,
                scope_profiles: vec![ScopeProfiles { scope: None, profiles: vec![profile2], schema_url: String::new() }],
                schema_url: String::new(),
            },
        ],
        mapping_table: vec![
            Mapping {
                memory_start: 0x1000,
                memory_limit: 0x2000,
                file_offset: 77,
                filename_strindex: 4,
                attribute_indices: vec![0],
                has_functions: true,
                has_filenames: false,
                has_line_numbers: true,
                has_inline_frames: false,
            },
            Mapping {
                memory_start: 0,
                memory_limit: 0,
                file_offset: 0,
                filename_strindex: 0,
                attribute_indices: Vec::new(),
                has_functions: false,
                has_filenames: false,
                has_line_numbers: false,
                has_inline_frames: false,
            },
        ],
        location_table: vec![
            Location {
                mapping_index: Some(0),
                address: 0x1234,
                line: vec![Line { function_index: 0, line: 10, column: 2 }, Line { function_index: 2, line: 20, column: 0 }],
                is_folded: false,
                attribute_indices: vec![1],
            },
            Location { mapping_index: None, address: 0, line: Vec::new(), is_folded: true, attribute_indices: Vec::new() },
            Location {
                mapping_index: Some(1),
                address: 0x999,
                line: vec![Line { function_index: 1, line: 7, column: 1 }],
                is_folded: false,
                attribute_indices: Vec::new(),
            },
        ],
        function_table: vec![
            Function { name_strindex: 3, system_name_strindex: 3, filename_strindex: 5, start_line: 10 },
            Function { name_strindex: 1, system_name_strindex: 0, filename_strindex: 0, start_line: 0 },
            Function { name_strindex: 8, system_name_strindex: 1, filename_strindex: 5, start_line: 42 },
        ],
        link_table: vec![
            Link { trace_id: counting_bytes(1, 16), span_id: counting_bytes(1, 8) },
            Link { trace_id: Vec::new(), span_id: counting_bytes(9, 8) },
            Link { trace_id: vec![0u8; 16], span_id: Vec::new() },
        ],
        string_table: vec![
            String::new(),
            String::from_str("cpu"),
            String::from_str("nanoseconds"),
            String::from_str("main"),
            String::from_str("libc.so"),
            String::from_str("src/main.rs"),
            String::from_str("a comment"),
            String::from_str("samples"),
            String::from_str("count"),
        ],
        attribute_table,
        attribute_units: vec![
            AttributeUnit { attribute_key_strindex: 1, unit_strindex: 2 },
            AttributeUnit { attribute_key_strindex: 7, unit_strindex: 8 },
            AttributeUnit { attribute_key_strindex: 0, unit_strindex: 0 },
        ],
    };
    proof {
        reveal_strlit("");
    }
    assert(r@ =~~= profiles_data_full_fidelity_model());
    r
}

} // verus!
