//! Laws relating the builders to the decoder: a lookup table transposed into
//! its interned batch by the builders (each row appended with its position
//! as id) reads back as the same table, and a whole payload that holds
//! profiles data (tables so transposed, the tree flattened into root rows)
//! is reconstructed as the same profiles data.
use vstd::prelude::*;
use crate::encode::profiles::{
    byte_column_holds, column_holds, flag_column_holds, line_row, list_column_holds, present, rows_column_holds,
    string_cell_of, string_column_holds,
};
use crate::model::common::{opt_any_value_model, AnyValue, KeyValueModel};
use crate::model::profiles::{AttributeUnit, Function, Line, LinkModel, LocationModel, MappingModel};
use crate::otap::profiles::{
    cell, cell_or, AttributeTableBatch, AttributeUnitsBatch, Column, FunctionTableBatch, LineRow,
    LinkTableBatch, LocationTableBatch, MappingTableBatch, StringTableBatch,
};
use crate::model::profiles::ProfilesDataModel;
use crate::otap::profiles::ProfilesRecords;
use crate::otlp::profiles::{
    attribute_row, attribute_unit_row, bytes_cell, first_invalid_table, function_row, id_is,
    interned_ids_valid, interned_row, lines_cell, link_row, list_cell, location_row, mapping_row,
    reconstructed, string_cell,
};
use crate::otlp::regroup::{flattened, holds_rows, law_flattened_tree_regroups, no_empty_groups};

verus! {

/// The id column of `n` rows in which row `r` holds id `r`.
pub open spec fn positional_ids(n: nat) -> Seq<Option<u32>> {
    Seq::new(n, |r: int| Some(r as u32))
}

/// The row count of a table whose rows the `u32` ids can number.
pub open spec fn numbered_by_ids(n: int) -> bool {
    0 <= n <= u32::MAX + 1
}

/// Law: an id column that holds the row positions (as the builders produce
/// it when each row is appended with its position) is a valid interned id
/// column, and entry `p` of the table is read from row `p`.
pub proof fn law_positional_ids_read_in_row_order(ids: Column<u32>, n: int)
    requires
        numbered_by_ids(n),
        column_holds(ids, positional_ids(n as nat)),
    ensures
        interned_ids_valid(ids, n),
        forall|p: int| 0 <= p < n ==> interned_row(ids, n, p) == p,
{
    if n > 0 {
        assert forall|r: int| 0 <= r < n implies cell(ids, r) == Some(r as u32) && r as u32 == r by {
            assert(positional_ids(n as nat)[r] == Some(r as u32));
        }
        assert forall|p: int| 0 <= p < n implies interned_row(ids, n, p) == p by {
            assert(id_is(ids, p, p));
            let r = interned_row(ids, n, p);
            assert(0 <= r < n && id_is(ids, r, p));
        }
    }
}

/// The function table batch holds `ft`: row `p` holds entry `p`, with id `p`.
pub open spec fn function_batch_holds(b: FunctionTableBatch, ft: Seq<Function>) -> bool {
    &&& numbered_by_ids(ft.len() as int)
    &&& b.num_rows == ft.len()
    &&& column_holds(b.id, positional_ids(ft.len()))
    &&& column_holds(b.name_strindex, ft.map_values(|f: Function| Some(f.name_strindex)))
    &&& column_holds(b.system_name_strindex, ft.map_values(|f: Function| Some(f.system_name_strindex)))
    &&& column_holds(b.filename_strindex, ft.map_values(|f: Function| Some(f.filename_strindex)))
    &&& column_holds(b.start_line, ft.map_values(|f: Function| Some(f.start_line)))
}

/// Law: the function table transposed by the function table builder reads
/// back as the same table.
pub proof fn law_function_table_round_trip(ft: Seq<Function>, b: FunctionTableBatch)
    requires
        function_batch_holds(b, ft),
    ensures
        interned_ids_valid(b.id, b.num_rows as int),
        Seq::new(b.num_rows as nat, |p: int| function_row(b, interned_row(b.id, b.num_rows as int, p))) == ft,
{
    law_positional_ids_read_in_row_order(b.id, ft.len() as int);
    let n = b.num_rows as int;
    assert forall|p: int| 0 <= p < n implies #[trigger] function_row(b, interned_row(b.id, n, p)) == ft[p] by {
        assert(interned_row(b.id, n, p) == p);
        assert(cell(b.name_strindex, p) == Some(ft[p].name_strindex));
        assert(cell(b.system_name_strindex, p) == Some(ft[p].system_name_strindex));
        assert(cell(b.filename_strindex, p) == Some(ft[p].filename_strindex));
        assert(cell(b.start_line, p) == Some(ft[p].start_line));
    }
    assert(Seq::new(b.num_rows as nat, |p: int| function_row(b, interned_row(b.id, n, p))) =~= ft);
}

/// The string table batch holds `st`: row `p` holds entry `p`, with id `p`.
pub open spec fn string_batch_holds(b: StringTableBatch, st: Seq<Seq<char>>) -> bool {
    &&& numbered_by_ids(st.len() as int)
    &&& b.num_rows == st.len()
    &&& column_holds(b.id, positional_ids(st.len()))
    &&& string_column_holds(b.value, st.map_values(|s: Seq<char>| Some(s)))
}

/// Law: the string table transposed by the string table builder reads back
/// as the same table, empty strings included.
pub proof fn law_string_table_round_trip(st: Seq<Seq<char>>, b: StringTableBatch)
    requires
        string_batch_holds(b, st),
    ensures
        interned_ids_valid(b.id, b.num_rows as int),
        Seq::new(b.num_rows as nat, |p: int| string_cell(b.value, interned_row(b.id, b.num_rows as int, p))) == st,
{
    law_positional_ids_read_in_row_order(b.id, st.len() as int);
    let n = b.num_rows as int;
    assert forall|p: int| 0 <= p < n implies #[trigger] string_cell(b.value, interned_row(b.id, n, p)) == st[p] by {
        assert(interned_row(b.id, n, p) == p);
        let v = b.value->0;
        assert(v@.map_values(|x: Option<String>| crate::encode::profiles::string_cell_of(x))[p] == Some(st[p]));
    }
    assert(Seq::new(b.num_rows as nat, |p: int| string_cell(b.value, interned_row(b.id, n, p))) =~= st);
}

/// The attribute units batch holds `ut`: row `p` holds entry `p`, with id `p`.
pub open spec fn attribute_units_batch_holds(b: AttributeUnitsBatch, ut: Seq<AttributeUnit>) -> bool {
    &&& numbered_by_ids(ut.len() as int)
    &&& b.num_rows == ut.len()
    &&& column_holds(b.id, positional_ids(ut.len()))
    &&& column_holds(b.attribute_key_strindex, ut.map_values(|u: AttributeUnit| Some(u.attribute_key_strindex)))
    &&& column_holds(b.unit_strindex, ut.map_values(|u: AttributeUnit| Some(u.unit_strindex)))
}

/// Law: the attribute units table transposed by its builder reads back as
/// the same table.
pub proof fn law_attribute_units_round_trip(ut: Seq<AttributeUnit>, b: AttributeUnitsBatch)
    requires
        attribute_units_batch_holds(b, ut),
    ensures
        interned_ids_valid(b.id, b.num_rows as int),
        Seq::new(b.num_rows as nat, |p: int| attribute_unit_row(b, interned_row(b.id, b.num_rows as int, p))) == ut,
{
    law_positional_ids_read_in_row_order(b.id, ut.len() as int);
    let n = b.num_rows as int;
    assert forall|p: int| 0 <= p < n implies #[trigger] attribute_unit_row(b, interned_row(b.id, n, p)) == ut[p] by {
        assert(interned_row(b.id, n, p) == p);
        assert(cell(b.attribute_key_strindex, p) == Some(ut[p].attribute_key_strindex));
        assert(cell(b.unit_strindex, p) == Some(ut[p].unit_strindex));
    }
    assert(Seq::new(b.num_rows as nat, |p: int| attribute_unit_row(b, interned_row(b.id, n, p))) =~= ut);
}

/// The cell that the link builder appends for an id of fixed `width`: the id
/// when it has that width, null otherwise.
pub open spec fn fixed_width_cell(id: Seq<u8>, width: nat) -> Option<Seq<u8>> {
    if id.len() == width { Some(id) } else { None }
}

/// Every trace id of `lt` is 16 bytes or empty, every span id 8 bytes or empty.
pub open spec fn link_ids_fixed_width(lt: Seq<LinkModel>) -> bool {
    &&& forall|p: int| 0 <= p < lt.len() ==> (#[trigger] lt[p]).trace_id.len() == 16 || lt[p].trace_id.len() == 0
    &&& forall|p: int| 0 <= p < lt.len() ==> (#[trigger] lt[p]).span_id.len() == 8 || lt[p].span_id.len() == 0
}

/// The link table batch holds `lt`, row `p` holding entry `p` with id `p`.
pub open spec fn link_batch_holds(b: LinkTableBatch, lt: Seq<LinkModel>) -> bool {
    &&& numbered_by_ids(lt.len() as int)
    &&& b.num_rows == lt.len()
    &&& column_holds(b.id, positional_ids(lt.len()))
    &&& byte_column_holds(b.trace_id, lt.map_values(|l: LinkModel| fixed_width_cell(l.trace_id, 16)))
    &&& byte_column_holds(b.span_id, lt.map_values(|l: LinkModel| fixed_width_cell(l.span_id, 8)))
}

/// Law: the link table transposed by the link table builder reads back as
/// the same table when every trace id is 16 bytes or empty and every span id
/// 8 bytes or empty (ids of another width are appended as null and read back
/// empty).
pub proof fn law_link_table_round_trip(lt: Seq<LinkModel>, b: LinkTableBatch)
    requires
        link_ids_fixed_width(lt),
        link_batch_holds(b, lt),
    ensures
        interned_ids_valid(b.id, b.num_rows as int),
        Seq::new(b.num_rows as nat, |p: int| link_row(b, interned_row(b.id, b.num_rows as int, p))) == lt,
{
    law_positional_ids_read_in_row_order(b.id, lt.len() as int);
    let n = b.num_rows as int;
    assert forall|p: int| 0 <= p < n implies #[trigger] link_row(b, interned_row(b.id, n, p)) == lt[p] by {
        assert(interned_row(b.id, n, p) == p);
        let t = b.trace_id->0;
        let s = b.span_id->0;
        assert(t@.map_values(|x: Option<Vec<u8>>| crate::encode::profiles::byte_cell_of(x))[p]
            == fixed_width_cell(lt[p].trace_id, 16));
        assert(s@.map_values(|x: Option<Vec<u8>>| crate::encode::profiles::byte_cell_of(x))[p]
            == fixed_width_cell(lt[p].span_id, 8));
        assert(bytes_cell(b.trace_id, p) =~= lt[p].trace_id);
        assert(bytes_cell(b.span_id, p) =~= lt[p].span_id);
    }
    assert(Seq::new(b.num_rows as nat, |p: int| link_row(b, interned_row(b.id, n, p))) =~= lt);
}

/// The mapping table batch holds `mt`: row `p` holds entry `p`, with id `p`.
pub open spec fn mapping_batch_holds(b: MappingTableBatch, mt: Seq<MappingModel>) -> bool {
    &&& numbered_by_ids(mt.len() as int)
    &&& b.num_rows == mt.len()
    &&& column_holds(b.id, positional_ids(mt.len()))
    &&& column_holds(b.memory_start, mt.map_values(|m: MappingModel| Some(m.memory_start)))
    &&& column_holds(b.memory_limit, mt.map_values(|m: MappingModel| Some(m.memory_limit)))
    &&& column_holds(b.file_offset, mt.map_values(|m: MappingModel| Some(m.file_offset)))
    &&& column_holds(b.filename_strindex, mt.map_values(|m: MappingModel| Some(m.filename_strindex)))
    &&& flag_column_holds(b.has_functions, mt.map_values(|m: MappingModel| Some(m.has_functions)))
    &&& flag_column_holds(b.has_filenames, mt.map_values(|m: MappingModel| Some(m.has_filenames)))
    &&& flag_column_holds(b.has_line_numbers, mt.map_values(|m: MappingModel| Some(m.has_line_numbers)))
    &&& flag_column_holds(b.has_inline_frames, mt.map_values(|m: MappingModel| Some(m.has_inline_frames)))
    &&& list_column_holds(b.attribute_indices, mt.map_values(|m: MappingModel| Some(present(m.attribute_indices))))
}

/// Law: the mapping table transposed by the mapping table builder reads back
/// as the same table.
pub proof fn law_mapping_table_round_trip(mt: Seq<MappingModel>, b: MappingTableBatch)
    requires
        mapping_batch_holds(b, mt),
    ensures
        interned_ids_valid(b.id, b.num_rows as int),
        Seq::new(b.num_rows as nat, |p: int| mapping_row(b, interned_row(b.id, b.num_rows as int, p))) == mt,
{
    law_positional_ids_read_in_row_order(b.id, mt.len() as int);
    let n = b.num_rows as int;
    assert forall|p: int| 0 <= p < n implies #[trigger] mapping_row(b, interned_row(b.id, n, p)) == mt[p] by {
        assert(interned_row(b.id, n, p) == p);
        let m = mt[p];
        assert(cell(b.memory_start, p) == Some(m.memory_start));
        assert(cell(b.memory_limit, p) == Some(m.memory_limit));
        assert(cell(b.file_offset, p) == Some(m.file_offset));
        assert(cell(b.filename_strindex, p) == Some(m.filename_strindex));
        assert(mt.map_values(|m: MappingModel| Some(m.has_functions))[p] == Some(m.has_functions));
        assert(cell_or(b.has_functions, p, false) == m.has_functions);
        assert(mt.map_values(|m: MappingModel| Some(m.has_filenames))[p] == Some(m.has_filenames));
        assert(cell_or(b.has_filenames, p, false) == m.has_filenames);
        assert(mt.map_values(|m: MappingModel| Some(m.has_line_numbers))[p] == Some(m.has_line_numbers));
        assert(cell_or(b.has_line_numbers, p, false) == m.has_line_numbers);
        assert(mt.map_values(|m: MappingModel| Some(m.has_inline_frames))[p] == Some(m.has_inline_frames));
        assert(cell_or(b.has_inline_frames, p, false) == m.has_inline_frames);
        let a = b.attribute_indices->0;
        assert(a@.map_values(|x: Option<Vec<Option<i32>>>| crate::encode::profiles::list_cell_of(x))[p]
            == Some(present(m.attribute_indices)));
        assert(list_cell(b.attribute_indices, p, 0i32) =~= m.attribute_indices);
    }
    assert(Seq::new(b.num_rows as nat, |p: int| mapping_row(b, interned_row(b.id, n, p))) =~= mt);
}

/// The location table batch holds `lt`: row `p` holds entry `p`, with id `p`.
pub open spec fn location_batch_holds(b: LocationTableBatch, lt: Seq<LocationModel>) -> bool {
    &&& numbered_by_ids(lt.len() as int)
    &&& b.num_rows == lt.len()
    &&& column_holds(b.id, positional_ids(lt.len()))
    &&& column_holds(b.mapping_index, lt.map_values(|l: LocationModel| l.mapping_index))
    &&& column_holds(b.address, lt.map_values(|l: LocationModel| Some(l.address)))
    &&& flag_column_holds(b.is_folded, lt.map_values(|l: LocationModel| Some(l.is_folded)))
    &&& list_column_holds(b.attribute_indices, lt.map_values(|l: LocationModel| Some(present(l.attribute_indices))))
    &&& rows_column_holds(b.line, lt.map_values(|l: LocationModel| Some(l.line.map_values(|x: Line| line_row(x)))))
}

/// Law: the location table transposed by the location table builder reads
/// back as the same table; an absent `mapping_index` stays absent and
/// `Some(0)` stays `Some(0)`.
pub proof fn law_location_table_round_trip(lt: Seq<LocationModel>, b: LocationTableBatch)
    requires
        location_batch_holds(b, lt),
    ensures
        interned_ids_valid(b.id, b.num_rows as int),
        Seq::new(b.num_rows as nat, |p: int| location_row(b, interned_row(b.id, b.num_rows as int, p))) == lt,
{
    law_positional_ids_read_in_row_order(b.id, lt.len() as int);
    let n = b.num_rows as int;
    assert forall|p: int| 0 <= p < n implies #[trigger] location_row(b, interned_row(b.id, n, p)) == lt[p] by {
        assert(interned_row(b.id, n, p) == p);
        let l = lt[p];
        assert(cell(b.mapping_index, p) == l.mapping_index);
        assert(cell(b.address, p) == Some(l.address));
        assert(lt.map_values(|l: LocationModel| Some(l.is_folded))[p] == Some(l.is_folded));
        assert(cell_or(b.is_folded, p, false) == l.is_folded);
        let a = b.attribute_indices->0;
        assert(a@.map_values(|x: Option<Vec<Option<i32>>>| crate::encode::profiles::list_cell_of(x))[p]
            == Some(present(l.attribute_indices)));
        assert(list_cell(b.attribute_indices, p, 0i32) =~= l.attribute_indices);
        let ls = b.line->0;
        assert(ls@.map_values(|x: Option<Vec<LineRow>>| crate::encode::profiles::rows_cell_of(x))[p]
            == Some(l.line.map_values(|x: Line| line_row(x))));
        assert(lines_cell(b.line, p) =~= l.line);
    }
    assert(Seq::new(b.num_rows as nat, |p: int| location_row(b, interned_row(b.id, n, p))) =~= lt);
}

/// The attribute table batch holds `at`: row `p` holds entry `p`, with id `p`.
pub open spec fn attribute_batch_holds(b: AttributeTableBatch, at: Seq<KeyValueModel>) -> bool {
    &&& numbered_by_ids(at.len() as int)
    &&& b.num_rows == at.len()
    &&& column_holds(b.id, positional_ids(at.len()))
    &&& b.key@.map_values(|c: Option<String>| string_cell_of(c)) == at.map_values(|kv: KeyValueModel| Some(kv.key))
    &&& b.value@.map_values(|c: Option<AnyValue>| opt_any_value_model(c)) == at.map_values(|kv: KeyValueModel| kv.value)
}

/// Law: the attribute table transposed by the attribute table builder reads
/// back as the same table.
pub proof fn law_attribute_table_round_trip(at: Seq<KeyValueModel>, b: AttributeTableBatch)
    requires
        attribute_batch_holds(b, at),
    ensures
        interned_ids_valid(b.id, b.num_rows as int),
        Seq::new(b.num_rows as nat, |p: int| attribute_row(b, interned_row(b.id, b.num_rows as int, p))) == at,
{
    law_positional_ids_read_in_row_order(b.id, at.len() as int);
    let n = b.num_rows as int;
    assert(b.key@.map_values(|c: Option<String>| string_cell_of(c)).len() == b.key@.len());
    assert(at.map_values(|kv: KeyValueModel| Some(kv.key)).len() == at.len());
    assert(b.value@.map_values(|c: Option<AnyValue>| opt_any_value_model(c)).len() == b.value@.len());
    assert(at.map_values(|kv: KeyValueModel| kv.value).len() == at.len());
    assert forall|p: int| 0 <= p < n implies #[trigger] attribute_row(b, interned_row(b.id, n, p)) == at[p] by {
        assert(interned_row(b.id, n, p) == p);
        assert(b.key@.map_values(|c: Option<String>| string_cell_of(c))[p] == Some(at[p].key));
        assert(b.value@.map_values(|c: Option<AnyValue>| opt_any_value_model(c))[p] == at[p].value);
    }
    assert(Seq::new(b.num_rows as nat, |p: int| attribute_row(b, interned_row(b.id, n, p))) =~= at);
}

/// The payload `recs` holds the profiles data `d`: the root rows hold the
/// flattened tree (no root batch for an empty tree), and each lookup table
/// batch holds its table row by row with positional ids (no batch for an
/// empty table).
pub open spec fn payload_holds(recs: ProfilesRecords, d: ProfilesDataModel) -> bool {
    &&& match recs.profiles {
        Some(b) => holds_rows(b, recs.sample, recs.resource_attrs, recs.scope_attrs, flattened(d.resource_profiles)),
        None => d.resource_profiles.len() == 0,
    }
    &&& match recs.mapping_table {
        Some(t) => mapping_batch_holds(t, d.mapping_table),
        None => d.mapping_table.len() == 0,
    }
    &&& match recs.location_table {
        Some(t) => location_batch_holds(t, d.location_table),
        None => d.location_table.len() == 0,
    }
    &&& match recs.function_table {
        Some(t) => function_batch_holds(t, d.function_table),
        None => d.function_table.len() == 0,
    }
    &&& match recs.link_table {
        Some(t) => link_batch_holds(t, d.link_table),
        None => d.link_table.len() == 0,
    }
    &&& match recs.string_table {
        Some(t) => string_batch_holds(t, d.string_table),
        None => d.string_table.len() == 0,
    }
    &&& match recs.attribute_table {
        Some(t) => attribute_batch_holds(t, d.attribute_table),
        None => d.attribute_table.len() == 0,
    }
    &&& match recs.attribute_units {
        Some(t) => attribute_units_batch_holds(t, d.attribute_units),
        None => d.attribute_units.len() == 0,
    }
}

/// Law: a payload that holds profiles data `d` (tree flattened into root
/// rows, tables transposed with positional ids) has valid interned ids and
/// is reconstructed as `d` itself; by the contract of `profiles_data_from`,
/// decoding it then gives back `d`, and succeeds exactly when `d`'s table
/// indices are in range. It holds of every `d` in which
/// each resource has a scope and each scope a profile, every link id has
/// its fixed width or is empty, and the rows fit the `u16` ids.
pub proof fn law_payload_round_trip(d: ProfilesDataModel, recs: ProfilesRecords)
    requires
        no_empty_groups(d.resource_profiles),
        flattened(d.resource_profiles).len() <= u16::MAX + 1,
        link_ids_fixed_width(d.link_table),
        payload_holds(recs, d),
    ensures
        first_invalid_table(recs) is None,
        reconstructed(recs) == d,
{
    let m = reconstructed(recs);
    match recs.profiles {
        Some(b) => {
            law_flattened_tree_regroups(d.resource_profiles, recs);
        },
        None => {
            assert(m.resource_profiles =~= d.resource_profiles);
        },
    }
    match recs.mapping_table {
        Some(t) => { law_mapping_table_round_trip(d.mapping_table, t); },
        None => { assert(m.mapping_table =~= d.mapping_table); },
    }
    match recs.location_table {
        Some(t) => { law_location_table_round_trip(d.location_table, t); },
        None => { assert(m.location_table =~= d.location_table); },
    }
    match recs.function_table {
        Some(t) => { law_function_table_round_trip(d.function_table, t); },
        None => { assert(m.function_table =~= d.function_table); },
    }
    match recs.link_table {
        Some(t) => { law_link_table_round_trip(d.link_table, t); },
        None => { assert(m.link_table =~= d.link_table); },
    }
    match recs.string_table {
        Some(t) => { law_string_table_round_trip(d.string_table, t); },
        None => { assert(m.string_table =~= d.string_table); },
    }
    match recs.attribute_table {
        Some(t) => { law_attribute_table_round_trip(d.attribute_table, t); },
        None => { assert(m.attribute_table =~= d.attribute_table); },
    }
    match recs.attribute_units {
        Some(t) => { law_attribute_units_round_trip(d.attribute_units, t); },
        None => { assert(m.attribute_units =~= d.attribute_units); },
    }
    assert(m == d);
}

} // verus!
