use otap_df_pdata::model::common::Value;
use otap_df_pdata::testing::profiles_fixtures::profiles_data_full_fidelity;

#[test]
fn test_fixture_exercises_every_profiles_proto_field() {
    let data = profiles_data_full_fidelity();

    // ProfilesData: every table populated
    assert!(data.resource_profiles.len() >= 2);
    assert!(!data.mapping_table.is_empty());
    assert!(!data.location_table.is_empty());
    assert!(!data.function_table.is_empty());
    assert!(!data.link_table.is_empty());
    assert!(!data.string_table.is_empty());
    assert!(!data.attribute_table.is_empty());
    assert!(!data.attribute_units.is_empty());

    // ResourceProfiles / ScopeProfiles: presence + default coverage
    let rps = &data.resource_profiles;
    assert!(rps.iter().any(|rp| rp.resource.is_some()));
    assert!(rps.iter().any(|rp| rp.resource.is_none()));
    assert!(rps.iter().any(|rp| !rp.schema_url.is_empty()));
    assert!(rps.iter().any(|rp| rp.schema_url.is_empty()));
    let sps: Vec<_> = rps.iter().flat_map(|rp| &rp.scope_profiles).collect();
    assert!(sps.iter().any(|sp| sp.scope.is_some()));
    assert!(sps.iter().any(|sp| sp.scope.is_none()));
    assert!(sps.iter().any(|sp| !sp.schema_url.is_empty()));
    assert!(sps.iter().any(|sp| sp.schema_url.is_empty()));
    let scope = sps.iter().find_map(|sp| sp.scope.as_ref()).expect("some scope");
    assert!(!scope.name.is_empty());
    assert!(!scope.version.is_empty());
    assert!(!scope.attributes.is_empty());
    assert!(scope.dropped_attributes_count != 0);
    let resource = rps.iter().find_map(|rp| rp.resource.as_ref()).expect("some resource");
    assert!(!resource.attributes.is_empty());
    assert!(resource.dropped_attributes_count != 0);

    // Profile: every field non-default somewhere AND default somewhere
    let profiles: Vec<_> = sps.iter().flat_map(|sp| &sp.profiles).collect();
    assert!(profiles.iter().any(|p| !p.sample_type.is_empty()));
    assert!(profiles.iter().any(|p| p.sample_type.is_empty()));
    assert!(profiles.iter().all(|p| !p.sample.is_empty()));
    assert!(profiles.iter().any(|p| !p.location_indices.is_empty()));
    assert!(profiles.iter().any(|p| p.location_indices.is_empty()));
    assert!(profiles.iter().any(|p| p.time_nanos != 0));
    assert!(profiles.iter().any(|p| p.time_nanos == 0));
    assert!(profiles.iter().any(|p| p.duration_nanos != 0));
    assert!(profiles.iter().any(|p| p.duration_nanos == 0));
    assert!(profiles.iter().any(|p| p.period_type.is_some()));
    assert!(profiles.iter().any(|p| p.period_type.is_none()));
    assert!(profiles.iter().any(|p| p.period != 0));
    assert!(profiles.iter().any(|p| p.period == 0));
    assert!(profiles.iter().any(|p| !p.comment_strindices.is_empty()));
    assert!(profiles.iter().any(|p| p.comment_strindices.is_empty()));
    assert!(profiles.iter().any(|p| p.default_sample_type_index != 0));
    assert!(profiles.iter().any(|p| p.default_sample_type_index == 0));
    assert!(profiles.iter().any(|p| p.profile_id.len() == 16));
    assert!(profiles.iter().any(|p| p.profile_id.is_empty()));
    assert!(profiles.iter().any(|p| p.dropped_attributes_count != 0));
    assert!(profiles.iter().any(|p| p.dropped_attributes_count == 0));
    assert!(profiles.iter().any(|p| !p.original_payload_format.is_empty()));
    assert!(profiles.iter().any(|p| p.original_payload_format.is_empty()));
    assert!(profiles.iter().any(|p| !p.original_payload.is_empty()));
    assert!(profiles.iter().any(|p| p.original_payload.is_empty()));
    assert!(profiles.iter().any(|p| !p.attribute_indices.is_empty()));
    assert!(profiles.iter().any(|p| p.attribute_indices.is_empty()));

    // Sample: every field, incl. the `link_index` presence pins
    let samples: Vec<_> = profiles.iter().flat_map(|p| &p.sample).collect();
    assert!(samples.iter().any(|s| s.locations_start_index != 0));
    assert!(samples.iter().any(|s| s.locations_start_index == 0));
    assert!(samples.iter().any(|s| s.locations_length != 0));
    assert!(samples.iter().any(|s| s.locations_length == 0));
    assert!(samples.iter().any(|s| !s.value.is_empty()));
    assert!(samples.iter().any(|s| s.value.is_empty()));
    assert!(samples.iter().any(|s| !s.attribute_indices.is_empty()));
    assert!(samples.iter().any(|s| s.attribute_indices.is_empty()));
    assert!(samples.iter().any(|s| s.link_index == Some(0)));
    assert!(samples.iter().any(|s| matches!(s.link_index, Some(idx) if idx != 0)));
    assert!(samples.iter().any(|s| s.link_index.is_none()));
    assert!(samples.iter().any(|s| !s.timestamps_unix_nano.is_empty()));
    assert!(samples.iter().any(|s| s.timestamps_unix_nano.is_empty()));

    // Mapping: every field, incl. an all-false boolean column
    let mappings = &data.mapping_table;
    assert!(mappings.iter().any(|m| m.memory_start != 0));
    assert!(mappings.iter().any(|m| m.memory_start == 0));
    assert!(mappings.iter().any(|m| m.memory_limit != 0));
    assert!(mappings.iter().any(|m| m.memory_limit == 0));
    assert!(mappings.iter().any(|m| m.file_offset != 0));
    assert!(mappings.iter().any(|m| m.file_offset == 0));
    assert!(mappings.iter().any(|m| m.filename_strindex != 0));
    assert!(mappings.iter().any(|m| m.filename_strindex == 0));
    assert!(mappings.iter().any(|m| !m.attribute_indices.is_empty()));
    assert!(mappings.iter().any(|m| m.attribute_indices.is_empty()));
    assert!(mappings.iter().any(|m| m.has_functions));
    assert!(mappings.iter().any(|m| !m.has_functions));
    assert!(mappings.iter().all(|m| !m.has_filenames));
    assert!(mappings.iter().any(|m| m.has_line_numbers));
    assert!(mappings.iter().any(|m| !m.has_line_numbers));
    assert!(mappings.iter().all(|m| !m.has_inline_frames));

    // Location: every field, incl. the `mapping_index` presence pins
    let locations = &data.location_table;
    assert!(locations.iter().any(|l| l.mapping_index == Some(0)));
    assert!(locations.iter().any(|l| matches!(l.mapping_index, Some(idx) if idx != 0)));
    assert!(locations.iter().any(|l| l.mapping_index.is_none()));
    assert!(locations.iter().any(|l| l.address != 0));
    assert!(locations.iter().any(|l| l.address == 0));
    assert!(locations.iter().any(|l| l.line.len() > 1));
    assert!(locations.iter().any(|l| l.line.is_empty()));
    assert!(locations.iter().any(|l| l.is_folded));
    assert!(locations.iter().any(|l| !l.is_folded));
    assert!(locations.iter().any(|l| !l.attribute_indices.is_empty()));
    assert!(locations.iter().any(|l| l.attribute_indices.is_empty()));

    // Line: every field, zeros included
    let lines: Vec<_> = locations.iter().flat_map(|l| &l.line).collect();
    assert!(lines.iter().any(|l| l.function_index != 0));
    assert!(lines.iter().any(|l| l.function_index == 0));
    assert!(lines.iter().all(|l| l.line != 0));
    assert!(lines.iter().any(|l| l.column != 0));
    assert!(lines.iter().any(|l| l.column == 0));

    // Function: every field, zeros included
    let functions = &data.function_table;
    assert!(functions.iter().any(|f| f.name_strindex != 0));
    assert!(functions.iter().any(|f| f.system_name_strindex != 0));
    assert!(functions.iter().any(|f| f.system_name_strindex == 0));
    assert!(functions.iter().any(|f| f.filename_strindex != 0));
    assert!(functions.iter().any(|f| f.filename_strindex == 0));
    assert!(functions.iter().any(|f| f.start_line != 0));
    assert!(functions.iter().any(|f| f.start_line == 0));

    // Link: nonzero / empty / all-zero-but-well-formed ids
    let links = &data.link_table;
    assert!(links.iter().any(|l| l.trace_id.len() == 16 && l.trace_id.iter().any(|&b| b != 0)));
    assert!(links.iter().any(|l| l.trace_id.is_empty()));
    assert!(links.iter().any(|l| l.trace_id.len() == 16 && l.trace_id.iter().all(|&b| b == 0)));
    assert!(links.iter().any(|l| l.span_id.len() == 8 && l.span_id.iter().any(|&b| b != 0)));
    assert!(links.iter().any(|l| l.span_id.is_empty()));

    // ValueType: all three aggregation temporalities, strindex coverage
    let value_types: Vec<_> = profiles
        .iter()
        .flat_map(|p| p.sample_type.iter().chain(p.period_type.iter()))
        .collect();
    assert!(value_types.iter().any(|vt| vt.type_strindex != 0));
    assert!(value_types.iter().any(|vt| vt.unit_strindex != 0));
    for temporality in [0, 1, 2] {
        assert!(
            value_types.iter().any(|vt| vt.aggregation_temporality == temporality),
            "aggregation_temporality {temporality} not exercised"
        );
    }

    // AttributeUnit: non-default rows and the all-default row
    let units = &data.attribute_units;
    assert!(units.iter().any(|u| u.attribute_key_strindex != 0));
    assert!(units.iter().any(|u| u.attribute_key_strindex == 0));
    assert!(units.iter().any(|u| u.unit_strindex != 0));
    assert!(units.iter().any(|u| u.unit_strindex == 0));

    // attribute value lanes: all AnyValue variants incl. the exactly-zero int
    let attr_values: Vec<_> = data
        .attribute_table
        .iter()
        .chain(resource.attributes.iter())
        .chain(scope.attributes.iter())
        .filter_map(|kv| kv.value.as_ref().and_then(|v| v.value.as_ref()))
        .collect();
    assert!(attr_values.iter().any(|v| matches!(v, Value::StringValue(s) if !s.is_empty())));
    assert!(attr_values.iter().any(|v| matches!(v, Value::IntValue(i) if *i != 0)));
    assert!(attr_values.iter().any(|v| matches!(v, Value::IntValue(0))));
    assert!(attr_values.iter().any(|v| matches!(v, Value::DoubleValue(d) if f64::from_bits(*d) != 0.0)));
    assert!(attr_values.iter().any(|v| matches!(v, Value::BoolValue(true))));
    assert!(attr_values.iter().any(|v| matches!(v, Value::BytesValue(b) if !b.is_empty())));
    assert!(attr_values.iter().any(|v| matches!(v, Value::KvlistValue(_))));
    assert!(attr_values.iter().any(|v| matches!(v, Value::ArrayValue(_))));

    // string table: the conventional "" at index 0
    assert_eq!(data.string_table[0], "");
}

#[test]
fn fixture_double_attribute_is_one_half() {
    let data = profiles_data_full_fidelity();
    let fraction = &data.attribute_table[2];
    assert_eq!(fraction.key, "fraction");
    match fraction.value.as_ref().and_then(|v| v.value.as_ref()) {
        Some(Value::DoubleValue(bits)) => assert_eq!(f64::from_bits(*bits), 0.5),
        other => panic!("double expected, got {other:?}"),
    }
    assert_eq!(data.resource_profiles[0].scope_profiles[0].profiles[0].profile_id, (1..=16).collect::<Vec<u8>>());
    assert_eq!(data.resource_profiles[1].scope_profiles[0].profiles[0].profile_id, (16..=31).collect::<Vec<u8>>());
}
