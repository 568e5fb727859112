use otap_df_pdata::encode::profiles::{
    AttributeUnitsRecordBatchBuilder, FunctionTableRecordBatchBuilder, LinkTableRecordBatchBuilder,
    LocationTableRecordBatchBuilder, MappingTableRecordBatchBuilder, ProfilesRecordBatchBuilder,
    SampleRecordBatchBuilder, StringTableRecordBatchBuilder,
};
use otap_df_pdata::otap::profiles::{MappingTableBatch, ProfilesRecords};
use otap_df_pdata::otlp::profiles::{interned_table_row_order, profiles_data_from};
use otap_df_pdata::error::{Error, ProfilesTable};
use otap_df_pdata::otap::profiles::ValueTypeRow;
use otap_df_pdata::testing::profiles_fixtures::profiles_data_full_fidelity;
use otap_df_pdata::views::profiles::{
    LineView, LinkView, LocationView, ProfileView, ProfilesDataView, ResourceProfilesView,
    SampleView, ScopeProfilesView, ValueTypeView,
};

#[test]
fn link_ids_of_the_wrong_width_are_appended_as_null() {
    let mut links = LinkTableRecordBatchBuilder::new();
    links.append_id(0);
    links.append_trace_id(&[7u8; 16]).unwrap();
    links.append_span_id(&[1u8; 4]).unwrap();
    links.append_id(1);
    links.append_trace_id(&[]).unwrap();
    links.append_span_id(&[2u8; 8]).unwrap();
    let b = links.finish().unwrap();
    assert_eq!(b.num_rows, 2);
    assert_eq!(b.id, Some(vec![Some(0), Some(1)]));
    assert_eq!(b.trace_id, Some(vec![Some(vec![7u8; 16]), None]));
    assert_eq!(b.span_id, Some(vec![None, Some(vec![2u8; 8])]));
}

#[test]
fn columns_without_rows_are_omitted() {
    let mut functions = FunctionTableRecordBatchBuilder::new();
    functions.append_id(0);
    functions.append_name_strindex(0);
    functions.append_id(1);
    functions.append_name_strindex(3);
    let b = functions.finish().unwrap();
    assert_eq!(b.num_rows, 2);
    assert_eq!(b.name_strindex, Some(vec![Some(0), Some(3)]));
    assert_eq!(b.system_name_strindex, None);
    assert_eq!(b.start_line, None);
    // finishing leaves the builder empty
    let again = functions.finish().unwrap();
    assert_eq!(again.num_rows, 0);
    assert_eq!(again.id, None);
}

#[test]
fn columns_of_different_lengths_are_refused() {
    let mut units = AttributeUnitsRecordBatchBuilder::new();
    units.append(0, 1, 2);
    assert!(units.finish().is_ok());
    let mut functions = FunctionTableRecordBatchBuilder::new();
    functions.append_id(0);
    functions.append_id(1);
    functions.append_start_line(5);
    assert_eq!(
        functions.finish(),
        Err(Error::ColumnLengthMismatch { table: ProfilesTable::Function })
    );
    let mut samples = SampleRecordBatchBuilder::new();
    samples.append_locations_length(1);
    assert_eq!(samples.finish(), Err(Error::ColumnLengthMismatch { table: ProfilesTable::Sample }));
}

#[test]
fn profile_row_presence_rules() {
    let mut profiles = ProfilesRecordBatchBuilder::new();
    profiles.append_id(0);
    profiles.append_profile_id(&[1u8; 15]).unwrap();
    profiles.append_original_payload(&[]);
    profiles.append_period_type(None);
    profiles.append_schema_url(None);
    profiles.append_id(1);
    profiles.append_profile_id(&[1u8; 16]).unwrap();
    profiles.append_original_payload(&[9]);
    profiles.append_period_type(None);
    profiles.append_schema_url(Some("s"));
    let b = profiles.finish().unwrap();
    assert_eq!(b.num_rows, 2);
    assert_eq!(b.profile_id, Some(vec![None, Some(vec![1u8; 16])]));
    assert_eq!(b.original_payload, Some(vec![None, Some(vec![9])]));
    // every period type null: the column is omitted
    assert_eq!(b.period_type, None);
    assert_eq!(b.schema_url, Some(vec![None, Some("s".to_string())]));

    let mut profiles = ProfilesRecordBatchBuilder::new();
    profiles.append_period_type(None);
    profiles.append_period_type(Some((1, 2, 0)));
    let b = profiles.finish().unwrap();
    assert_eq!(
        b.period_type,
        Some(vec![
            None,
            Some(ValueTypeRow { type_strindex: Some(1), unit_strindex: Some(2), aggregation_temporality: Some(0) })
        ])
    );
}

#[test]
fn sample_link_index_keeps_presence() {
    let mut samples = SampleRecordBatchBuilder::new();
    samples.append_parent_id(3);
    samples.append_link_index(Some(0));
    samples.append_parent_id(3);
    samples.append_link_index(None);
    let b = samples.finish().unwrap();
    assert_eq!(b.parent_id, vec![Some(3), Some(3)]);
    assert_eq!(b.link_index, Some(vec![Some(0), None]));
}

#[test]
fn views_hand_out_fields_verbatim() {
    let data = profiles_data_full_fidelity();
    assert_eq!(data.resources().len(), 2);
    assert_eq!(data.string_table()[1], "cpu");
    assert_eq!(data.link_table()[1].trace_id(), &[] as &[u8]);
    let rp = &data.resources()[0];
    assert_eq!(rp.schema_url(), Some("https://resource.schema"));
    assert!(rp.resource().is_some());
    assert_eq!(data.resources()[1].schema_url(), None);
    assert!(data.resources()[1].resource().is_none());
    let sp = &rp.scopes()[0];
    assert_eq!(sp.schema_url(), Some("https://scope.schema"));
    let p = &sp.profiles()[0];
    assert_eq!(p.time_nanos(), 1_000_000_000);
    assert_eq!(p.original_payload_format(), Some("pprof"));
    assert_eq!(sp.profiles()[1].original_payload_format(), None);
    assert_eq!(p.period_type().map(|v| v.aggregation_temporality()), Some(0));
    assert_eq!(p.sample_types()[1].type_strindex(), 8);
    assert_eq!(p.samples()[0].link_index(), Some(1));
    assert_eq!(p.samples()[0].values(), &[100, 1]);
    assert_eq!(p.location_indices(), &[0, 1, 2]);
    let loc = &data.location_table()[0];
    assert_eq!(loc.mapping_index(), Some(0));
    assert_eq!(loc.lines()[1].line(), 20);
    assert_eq!(data.location_table()[1].mapping_index(), None);
}

fn one_mapping_row(functions: bool) -> MappingTableBatch {
    let mut mappings = MappingTableRecordBatchBuilder::new();
    mappings.append_id(0);
    mappings.append_memory_start(0);
    mappings.append_memory_limit(0);
    mappings.append_file_offset(0);
    mappings.append_filename_strindex(0);
    mappings.append_has_functions(functions);
    mappings.append_has_filenames(false);
    mappings.append_has_line_numbers(false);
    mappings.append_has_inline_frames(false);
    mappings.append_attribute_indices(&[]);
    mappings.finish().unwrap()
}

#[test]
fn all_false_flag_columns_are_omitted() {
    let b = one_mapping_row(false);
    assert_eq!(b.num_rows, 1);
    assert_eq!(b.has_functions, None);
    assert_eq!(b.has_filenames, None);
    assert_eq!(b.has_line_numbers, None);
    assert_eq!(b.has_inline_frames, None);
    let b = one_mapping_row(true);
    assert_eq!(b.has_functions, Some(vec![Some(true)]));
    assert_eq!(b.has_filenames, None);

    let mut locations = LocationTableRecordBatchBuilder::new();
    locations.append_id(0);
    locations.append_is_folded(false);
    locations.append_id(1);
    locations.append_is_folded(false);
    let b = locations.finish().unwrap();
    assert_eq!(b.num_rows, 2);
    assert_eq!(b.is_folded, None);
}

#[test]
fn an_omitted_flag_column_reads_back_as_false() {
    let mut strings = StringTableRecordBatchBuilder::new();
    strings.append(0, "");
    let records = ProfilesRecords {
        profiles: None,
        sample: None,
        resource_attrs: None,
        scope_attrs: None,
        string_table: Some(strings.finish().unwrap()),
        function_table: None,
        mapping_table: Some(one_mapping_row(false)),
        location_table: None,
        link_table: None,
        attribute_table: None,
        attribute_units: None,
    };
    let decoded = profiles_data_from(&records).unwrap();
    assert_eq!(decoded.mapping_table.len(), 1);
    let m = &decoded.mapping_table[0];
    assert!(!m.has_functions && !m.has_filenames && !m.has_line_numbers && !m.has_inline_frames);
}

#[test]
fn bad_interned_ids_name_the_table_and_its_rows() {
    let ids = Some(vec![Some(1), Some(1), Some(0)]);
    let r = interned_table_row_order(&ids, 3, ProfilesTable::AttributeUnits);
    assert_eq!(
        r,
        Err(Error::UnexpectedRecordBatchState {
            reason: "profiles attribute-units table: interned ids must be exactly the row positions 0..3".to_string()
        })
    );
    assert_eq!(interned_table_row_order(&ids, 2, ProfilesTable::String).is_err(), true);
}
