use otap_df_pdata::encode::profiles::{
    AttributeTableRecordBatchBuilder, AttributeUnitsRecordBatchBuilder,
    FunctionTableRecordBatchBuilder, LinkTableRecordBatchBuilder, LocationTableRecordBatchBuilder,
    MappingTableRecordBatchBuilder, ProfilesRecordBatchBuilder, SampleRecordBatchBuilder,
    StringTableRecordBatchBuilder,
};
use otap_df_pdata::error::{Error, IndexColumn, ProfilesTable};
use otap_df_pdata::model::common::{copy_any_value, AnyValue, InstrumentationScope, KeyValue, Resource, Value};
use otap_df_pdata::model::profiles::{Profile, ProfilesData, ResourceProfiles, ScopeProfiles};
use otap_df_pdata::otap::profiles::{AttrsBatch, ProfilesRecords};
use otap_df_pdata::otlp::profiles::profiles_data_from;
use otap_df_pdata::testing::profiles_fixtures::profiles_data_full_fidelity;

fn non_empty(s: &str) -> Option<&str> {
    if s.is_empty() { None } else { Some(s) }
}

fn attrs_batch(rows: Vec<(u16, &KeyValue)>) -> Option<AttrsBatch> {
    if rows.is_empty() {
        return None;
    }
    let num_rows = rows.len();
    let mut parent_id = Vec::new();
    let mut key = Vec::new();
    let mut value = Vec::new();
    for (p, kv) in rows {
        parent_id.push(Some(p));
        key.push(Some(kv.key.clone()));
        value.push(kv.value.as_ref().map(copy_any_value));
    }
    Some(AttrsBatch { num_rows, parent_id, key, value })
}

/// Transpose profiles data into its OTAP record batches with the builders:
/// resources, scopes and profiles are numbered in order, every lookup table
/// row gets its position as id.
fn encode_records(data: &ProfilesData) -> ProfilesRecords {
    let mut profiles = ProfilesRecordBatchBuilder::new();
    let mut samples = SampleRecordBatchBuilder::new();
    let mut resource_attrs = Vec::new();
    let mut scope_attrs = Vec::new();
    let mut scope_id: u16 = 0;
    let mut profile_id: u16 = 0;
    for (rid, rp) in data.resource_profiles.iter().enumerate() {
        let rid = rid as u16;
        if let Some(r) = &rp.resource {
            for kv in &r.attributes {
                resource_attrs.push((rid, kv));
            }
        }
        for sp in &rp.scope_profiles {
            if let Some(s) = &sp.scope {
                for kv in &s.attributes {
                    scope_attrs.push((scope_id, kv));
                }
            }
            for p in &sp.profiles {
                profiles.append_id(profile_id);
                profiles.append_resource(
                    Some(rid),
                    rp.resource.as_ref().map_or(0, |r| r.dropped_attributes_count),
                    non_empty(&rp.schema_url),
                );
                profiles.append_scope(
                    Some(scope_id),
                    sp.scope.as_ref().and_then(|s| non_empty(&s.name)),
                    sp.scope.as_ref().and_then(|s| non_empty(&s.version)),
                    sp.scope.as_ref().map_or(0, |s| s.dropped_attributes_count),
                );
                profiles.append_schema_url(non_empty(&sp.schema_url));
                profiles.append_time_nanos(p.time_nanos);
                profiles.append_duration_nanos(p.duration_nanos);
                profiles.append_period(p.period);
                profiles.append_period_type(
                    p.period_type.map(|v| (v.type_strindex, v.unit_strindex, v.aggregation_temporality)),
                );
                profiles.append_sample_types(&p.sample_type);
                profiles.append_default_sample_type_index(p.default_sample_type_index);
                profiles.append_profile_id(&p.profile_id).unwrap();
                profiles.append_dropped_attributes_count(p.dropped_attributes_count);
                profiles.append_original_payload_format(non_empty(&p.original_payload_format));
                profiles.append_original_payload(&p.original_payload);
                profiles.append_location_indices(&p.location_indices);
                profiles.append_comment_strindices(&p.comment_strindices);
                profiles.append_attribute_indices(&p.attribute_indices);
                for s in &p.sample {
                    samples.append_parent_id(profile_id);
                    samples.append_locations_start_index(s.locations_start_index);
                    samples.append_locations_length(s.locations_length);
                    samples.append_values(&s.value);
                    samples.append_attribute_indices(&s.attribute_indices);
                    samples.append_link_index(s.link_index);
                    samples.append_timestamps_unix_nano(&s.timestamps_unix_nano);
                }
                profile_id += 1;
            }
            scope_id += 1;
        }
    }

    let mut strings = StringTableRecordBatchBuilder::new();
    for (i, s) in data.string_table.iter().enumerate() {
        strings.append(i as u32, s);
    }
    let mut functions = FunctionTableRecordBatchBuilder::new();
    for (i, f) in data.function_table.iter().enumerate() {
        functions.append_id(i as u32);
        functions.append_name_strindex(f.name_strindex);
        functions.append_system_name_strindex(f.system_name_strindex);
        functions.append_filename_strindex(f.filename_strindex);
        functions.append_start_line(f.start_line);
    }
    let mut mappings = MappingTableRecordBatchBuilder::new();
    for (i, m) in data.mapping_table.iter().enumerate() {
        mappings.append_id(i as u32);
        mappings.append_memory_start(m.memory_start);
        mappings.append_memory_limit(m.memory_limit);
        mappings.append_file_offset(m.file_offset);
        mappings.append_filename_strindex(m.filename_strindex);
        mappings.append_has_functions(m.has_functions);
        mappings.append_has_filenames(m.has_filenames);
        mappings.append_has_line_numbers(m.has_line_numbers);
        mappings.append_has_inline_frames(m.has_inline_frames);
        mappings.append_attribute_indices(&m.attribute_indices);
    }
    let mut locations = LocationTableRecordBatchBuilder::new();
    for (i, l) in data.location_table.iter().enumerate() {
        locations.append_id(i as u32);
        locations.append_mapping_index(l.mapping_index);
        locations.append_address(l.address);
        locations.append_is_folded(l.is_folded);
        locations.append_attribute_indices(&l.attribute_indices);
        locations.append_lines(&l.line);
    }
    let mut links = LinkTableRecordBatchBuilder::new();
    for (i, l) in data.link_table.iter().enumerate() {
        links.append_id(i as u32);
        links.append_trace_id(&l.trace_id).unwrap();
        links.append_span_id(&l.span_id).unwrap();
    }
    let mut attributes = AttributeTableRecordBatchBuilder::new();
    for (i, kv) in data.attribute_table.iter().enumerate() {
        attributes.append_id(i as u32);
        attributes.append_key(&kv.key);
        attributes.append_value(kv.value.as_ref().unwrap());
    }
    let mut units = AttributeUnitsRecordBatchBuilder::new();
    for (i, u) in data.attribute_units.iter().enumerate() {
        units.append(i as u32, u.attribute_key_strindex, u.unit_strindex);
    }

    ProfilesRecords {
        profiles: Some(profiles.finish().unwrap()),
        sample: Some(samples.finish().unwrap()),
        resource_attrs: attrs_batch(resource_attrs),
        scope_attrs: attrs_batch(scope_attrs),
        string_table: Some(strings.finish().unwrap()),
        function_table: Some(functions.finish().unwrap()),
        mapping_table: Some(mappings.finish().unwrap()),
        location_table: Some(locations.finish().unwrap()),
        link_table: Some(links.finish().unwrap()),
        attribute_table: Some(attributes.finish().unwrap()),
        attribute_units: Some(units.finish().unwrap()),
    }
}

fn empty_records() -> ProfilesRecords {
    ProfilesRecords {
        profiles: None,
        sample: None,
        resource_attrs: None,
        scope_attrs: None,
        string_table: None,
        function_table: None,
        mapping_table: None,
        location_table: None,
        link_table: None,
        attribute_table: None,
        attribute_units: None,
    }
}

fn empty_profiles_data() -> ProfilesData {
    ProfilesData {
        resource_profiles: vec![],
        mapping_table: vec![],
        location_table: vec![],
        function_table: vec![],
        link_table: vec![],
        string_table: vec![],
        attribute_table: vec![],
        attribute_units: vec![],
    }
}

#[test]
fn test_profiles_otlp_round_trip_is_byte_identical() {
    let data = profiles_data_full_fidelity();
    let records = encode_records(&data);
    let decoded = profiles_data_from(&records).unwrap();
    assert_eq!(decoded, data);
}

#[test]
fn test_profiles_decode_empty() {
    let result = profiles_data_from(&empty_records()).unwrap();
    assert_eq!(result, empty_profiles_data());
}

#[test]
fn test_profiles_decode_negative_index_is_typed_error() {
    let profiles_data = profiles_data_full_fidelity();
    let mut records = encode_records(&profiles_data);
    records.sample.as_mut().unwrap().link_index = Some(vec![Some(-1), None, None, None]);

    let result = profiles_data_from(&records);
    assert!(
        matches!(
            result,
            Err(Error::InvalidProfilesTableIndex { column, index: -1, table, .. })
                if column.name() == "link_index" && table.name() == "link"
        ),
        "expected typed out-of-range error, got: {result:?}"
    );
}

#[test]
fn test_profiles_decode_out_of_range_index_is_typed_error() {
    let profiles_data = profiles_data_full_fidelity();
    let n_links = profiles_data.link_table.len();
    let mut records = encode_records(&profiles_data);
    records.sample.as_mut().unwrap().link_index = Some(vec![Some(999), None, None, None]);

    let result = profiles_data_from(&records);
    match result {
        Err(Error::InvalidProfilesTableIndex { column, index: 999, table, table_len })
            if column.name() == "link_index" && table.name() == "link" =>
        {
            assert_eq!(table_len, n_links)
        }
        other => panic!("expected typed out-of-range error, got: {other:?}"),
    }
}

#[test]
fn test_profiles_decode_negative_list_index_is_typed_error() {
    let profiles_data = profiles_data_full_fidelity();
    let mut records = encode_records(&profiles_data);
    // 4 sample rows: give the first a negative attribute table index
    records.sample.as_mut().unwrap().attribute_indices =
        Some(vec![Some(vec![Some(-3)]), Some(vec![]), Some(vec![]), Some(vec![])]);

    let result = profiles_data_from(&records);
    assert!(
        matches!(
            result,
            Err(Error::InvalidProfilesTableIndex { column, index: -3, table, .. })
                if column.name() == "attribute_indices" && table.name() == "attribute"
        ),
        "expected typed out-of-range error, got: {result:?}"
    );
}

#[test]
fn decode_refuses_interned_ids_that_are_not_row_positions() {
    let profiles_data = profiles_data_full_fidelity();
    let mut records = encode_records(&profiles_data);
    records.link_table.as_mut().unwrap().id = Some(vec![Some(0), Some(0), Some(2)]);
    let reason = format!(
        "profiles link table: interned ids must be exactly the row positions 0..{}",
        profiles_data.link_table.len()
    );
    assert_eq!(profiles_data_from(&records), Err(Error::UnexpectedRecordBatchState { reason }));
}

#[test]
fn interned_rows_are_read_in_id_order() {
    let mut strings = StringTableRecordBatchBuilder::new();
    strings.append(2, "c");
    strings.append(0, "");
    strings.append(1, "b");
    let mut records = empty_records();
    records.string_table = Some(strings.finish().unwrap());
    let decoded = profiles_data_from(&records).unwrap();
    assert_eq!(decoded.string_table, vec!["".to_string(), "b".to_string(), "c".to_string()]);
}

#[test]
fn out_of_range_string_index_in_function_table_is_reported() {
    let mut functions = FunctionTableRecordBatchBuilder::new();
    functions.append_id(0);
    functions.append_name_strindex(5);
    let mut strings = StringTableRecordBatchBuilder::new();
    strings.append(0, "");
    let mut records = empty_records();
    records.function_table = Some(functions.finish().unwrap());
    records.string_table = Some(strings.finish().unwrap());
    match profiles_data_from(&records) {
        Err(Error::InvalidProfilesTableIndex { column, index: 5, table: ProfilesTable::String, table_len: 1 }) => {
            assert_eq!(column, IndexColumn::NameStrindex)
        }
        other => panic!("expected typed out-of-range error, got: {other:?}"),
    }
}

#[test]
fn the_first_index_in_check_order_is_reported() {
    let profiles_data = profiles_data_full_fidelity();
    let mut records = encode_records(&profiles_data);
    // a bad name index in the function table, and a bad link index in the
    // last sample of the tree: the tree is checked first
    records.function_table.as_mut().unwrap().name_strindex = Some(vec![Some(100), Some(1), Some(8)]);
    records.sample.as_mut().unwrap().link_index = Some(vec![Some(1), None, Some(0), Some(7)]);
    match profiles_data_from(&records) {
        Err(Error::InvalidProfilesTableIndex { column, index: 7, table, table_len: 3 }) => {
            assert_eq!((column, table), (IndexColumn::LinkIndex, ProfilesTable::Link));
        }
        other => panic!("expected the link index error, got: {other:?}"),
    }
    // within one profile, sample types come before samples
    records.sample.as_mut().unwrap().link_index = Some(vec![Some(9), None, Some(0), None]);
    let profiles = records.profiles.as_mut().unwrap();
    let types = profiles.sample_type.as_mut().unwrap();
    types[0].as_mut().unwrap()[1].unit_strindex = Some(-2);
    match profiles_data_from(&records) {
        Err(Error::InvalidProfilesTableIndex { column, index: -2, table, table_len: 9 }) => {
            assert_eq!((column, table), (IndexColumn::SampleType, ProfilesTable::String));
        }
        other => panic!("expected the sample type error, got: {other:?}"),
    }
}

#[test]
fn the_first_table_with_bad_ids_is_reported() {
    let profiles_data = profiles_data_full_fidelity();
    let mut records = encode_records(&profiles_data);
    records.link_table.as_mut().unwrap().id = Some(vec![Some(5), Some(1), Some(2)]);
    records.mapping_table.as_mut().unwrap().id = Some(vec![Some(1), Some(1)]);
    let reason = format!(
        "profiles mapping table: interned ids must be exactly the row positions 0..{}",
        profiles_data.mapping_table.len()
    );
    assert_eq!(profiles_data_from(&records), Err(Error::UnexpectedRecordBatchState { reason }));
}

fn bare_profile(time_nanos: i64) -> Profile {
    Profile {
        sample_type: vec![],
        sample: vec![],
        location_indices: vec![],
        time_nanos,
        duration_nanos: 0,
        period_type: None,
        period: 0,
        comment_strindices: vec![],
        default_sample_type_index: 0,
        profile_id: vec![],
        dropped_attributes_count: 0,
        original_payload_format: String::new(),
        original_payload: vec![],
        attribute_indices: vec![],
    }
}

fn named_scope(name: &str, times: &[i64]) -> ScopeProfiles {
    ScopeProfiles {
        scope: Some(InstrumentationScope {
            name: name.to_string(),
            version: String::new(),
            attributes: vec![],
            dropped_attributes_count: 0,
        }),
        profiles: times.iter().map(|t| bare_profile(*t)).collect(),
        schema_url: format!("scope-url-{name}"),
    }
}

#[test]
fn a_flattened_tree_regroups_into_the_same_tree() {
    let mut data = empty_profiles_data();
    data.resource_profiles = vec![
        ResourceProfiles {
            resource: Some(Resource {
                attributes: vec![KeyValue { key: "host".to_string(), value: Some(AnyValue { value: Some(Value::StringValue("a".to_string())) }) }],
                dropped_attributes_count: 0,
            }),
            scope_profiles: vec![named_scope("s0", &[1, 2, 3]), named_scope("s1", &[4])],
            schema_url: "resource-url-0".to_string(),
        },
        ResourceProfiles {
            resource: None,
            scope_profiles: vec![named_scope("s2", &[5, 6])],
            schema_url: String::new(),
        },
        ResourceProfiles {
            resource: Some(Resource { attributes: vec![], dropped_attributes_count: 7 }),
            scope_profiles: vec![named_scope("s3", &[7]), named_scope("s4", &[8, 9]), named_scope("s5", &[10])],
            schema_url: "resource-url-2".to_string(),
        },
    ];
    let records = encode_records(&data);
    assert_eq!(records.profiles.as_ref().unwrap().num_rows, 10);
    let decoded = profiles_data_from(&records).unwrap();
    assert_eq!(decoded.resource_profiles.len(), 3);
    assert_eq!(decoded.resource_profiles[0].scope_profiles.len(), 2);
    assert_eq!(decoded.resource_profiles[0].scope_profiles[0].profiles.len(), 3);
    assert_eq!(decoded.resource_profiles[2].scope_profiles[1].profiles[1].time_nanos, 9);
    assert_eq!(decoded, data);
}
