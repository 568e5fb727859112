//! OTAP -> OTLP reconstruction of profiles data.
//!
//! The seven interned lookup tables are transposed back verbatim (row order
//! is index identity: the row with `id == p` becomes table entry `p`), and
//! the resource -> scope -> profile -> sample tree is regrouped from the
//! `Profiles` root rows, visited in `(resource id, scope id, id)` order and
//! split into groups where the resource or scope id changes, together with
//! the parent-id joined `Sample` and resource/scope attribute batches.
use vstd::prelude::*;
use crate::error::{table_name, Error, ProfilesTable};
use crate::testing::text::{append_decimal, decimal};
use crate::model::common::{copy_any_value, key_values_model, lemma_key_values_model, lemma_key_values_model_push, opt_any_value_model, KeyValue, KeyValueModel};
use crate::model::common::{AnyValue, InstrumentationScope, Resource, ResourceModel, ScopeModel, opt_resource_model, opt_scope_model};
use crate::model::profiles::{
    AttributeUnit, Function, Line, LinkModel, Link, Location, LocationModel, Mapping, MappingModel,
    Profile, ProfileModel, Sample, SampleModel, ValueType, ResourceProfiles, ResourceProfilesModel,
    ScopeProfiles, ScopeProfilesModel,
};
use crate::otap::profiles::{
    cell, cell_at, cell_or, AttributeTableBatch, AttributeUnitsBatch, Column, FunctionTableBatch,
    LineRow, LinkTableBatch, LocationTableBatch, MappingTableBatch, ProfilesBatch, StringTableBatch,
    ValueTypeRow, SampleBatch, AttrsBatch, ProfilesRecords,
};
use crate::model::profiles::{ProfilesData, ProfilesDataModel};
use crate::otlp::validate::{all_checks, reports_violation, table_indices_valid, validate_table_indices, verdict};

verus! {

/* ------------------------------ cells ------------------------------ */

/// The list at `row` of a list column with null items read as `default`;
/// empty when the column is absent or the row is null.
pub open spec fn list_cell<T>(col: Column<Vec<Option<T>>>, row: int, default: T) -> Seq<T> {
    match cell(col, row) {
        Some(l) => l@.map_values(|x: Option<T>| match x { Some(v) => v, None => default }),
        None => Seq::empty(),
    }
}

/// The string at `row` of a string column; empty when absent or null.
pub open spec fn string_cell(col: Column<String>, row: int) -> Seq<char> {
    match cell(col, row) {
        Some(s) => s@,
        None => Seq::empty(),
    }
}

/// The bytes at `row` of a binary column; empty when absent or null.
pub open spec fn bytes_cell(col: Column<Vec<u8>>, row: int) -> Seq<u8> {
    match cell(col, row) {
        Some(b) => b@,
        None => Seq::empty(),
    }
}

/// The list at `row` of a list column, null items read as `default`.
pub fn list_at<T: Copy>(col: &Column<Vec<Option<T>>>, row: usize, default: T) -> (r: Vec<T>)
    ensures
        r@ == list_cell(*col, row as int, default),
{
    match col {
        Some(c) => {
            if row < c.len() {
                match &c[row] {
                    Some(l) => {
                        let mut out: Vec<T> = Vec::with_capacity(l.len());
                        let mut i: usize = 0;
                        while i < l.len()
                            invariant
                                i <= l.len(),
                                out@ == l@.subrange(0, i as int).map_values(
                                    |x: Option<T>| match x { Some(v) => v, None => default },
                                ),
                            decreases l.len() - i,
                        {
                            let v = match l[i] {
                                Some(v) => v,
                                None => default,
                            };
                            out.push(v);
                            i += 1;
                            assert(out@ =~= l@.subrange(0, i as int).map_values(
                                |x: Option<T>| match x { Some(v) => v, None => default },
                            ));
                        }
                        assert(l@.subrange(0, l.len() as int) =~= l@);
                        out
                    },
                    None => Vec::new(),
                }
            } else {
                Vec::new()
            }
        },
        None => Vec::new(),
    }
}

/// The string at `row` of a string column (empty when absent or null).
pub fn string_at(col: &Column<String>, row: usize) -> (r: String)
    ensures
        r@ == string_cell(*col, row as int),
{
    match col {
        Some(c) => {
            if row < c.len() {
                match &c[row] {
                    Some(s) => s.clone(),
                    None => String::new(),
                }
            } else {
                String::new()
            }
        },
        None => String::new(),
    }
}

/// The bytes at `row` of a binary column (empty when absent or null).
pub fn bytes_at(col: &Column<Vec<u8>>, row: usize) -> (r: Vec<u8>)
    ensures
        r@ == bytes_cell(*col, row as int),
{
    match col {
        Some(c) => {
            if row < c.len() {
                match &c[row] {
                    Some(b) => crate::model::common::copy_bytes(b),
                    None => Vec::new(),
                }
            } else {
                Vec::new()
            }
        },
        None => Vec::new(),
    }
}

/* ------------------------------ interned row order ------------------------------ */

/// The ids of an interned table are exactly the row positions `0..n`: the
/// column is absent (natural row order), or every row has an id below `n`
/// and no two rows share one.
pub open spec fn interned_ids_valid(ids: Column<u32>, n: int) -> bool {
    ids is None || {
        &&& forall|r: int| 0 <= r < n ==> (#[trigger] cell(ids, r) matches Some(v) && v < n)
        &&& forall|r1: int, r2: int| 0 <= r1 < n && 0 <= r2 < n && r1 != r2 ==> #[trigger] cell(ids, r1) != #[trigger] cell(ids, r2)
    }
}

/// The row that holds table entry `p`: the row whose id is `p` (the `p`-th
/// row when the table has no id column).
pub open spec fn interned_row(ids: Column<u32>, n: int, p: int) -> int {
    if ids is None {
        p
    } else {
        choose|r: int| 0 <= r < n && id_is(ids, r, p)
    }
}

/// Row `r` has id `p`.
pub open spec fn id_is(ids: Column<u32>, r: int, p: int) -> bool {
    cell(ids, r) matches Some(v) && v as int == p
}

/// Some row of the first `n` has id `p`.
pub open spec fn id_taken(ids: Column<u32>, n: int, p: int) -> bool {
    exists|r: int| 0 <= r < n && id_is(ids, r, p)
}

/// With valid ids, every entry position `p < n` is the id of some row.
proof fn lemma_ids_onto(ids: Column<u32>, n: int)
    requires
        ids is Some,
        0 <= n,
        interned_ids_valid(ids, n),
    ensures
        forall|p: int| 0 <= p < n ==> #[trigger] id_taken(ids, n, p),
{
    let f = |r: int| (cell(ids, r)->0) as int;
    let x = vstd::set_lib::set_int_range(0, n);
    let y = x.map(f);
    vstd::set_lib::lemma_int_range(0, n);
    assert(vstd::relations::injective_on(f, x)) by {
        assert forall|a: int, b: int| x.contains(a) && x.contains(b) && #[trigger] f(a) == #[trigger] f(b) implies a == b by {
            if a != b {
                assert(cell(ids, a) != cell(ids, b));
            }
        }
    }
    vstd::set_lib::lemma_map_size(x, y, f);
    assert(y.subset_of(x)) by {
        assert forall|b: int| y.contains(b) implies x.contains(b) by {
            let a = choose|a: int| x.contains(a) && f(a) == b;
            assert(cell(ids, a) matches Some(v) && v < n);
        }
    }
    vstd::set_lib::lemma_subset_equality(y, x);
    assert forall|p: int| 0 <= p < n implies #[trigger] id_taken(ids, n, p) by {
        assert(x.contains(p));
        assert(y.contains(p));
        let a = choose|a: int| x.contains(a) && f(a) == p;
        assert(cell(ids, a) matches Some(v) && v < n);
        assert(id_is(ids, a, p));
    }
}

/// The reason given when the ids of the interned `table` of `n` rows are
/// not exactly its row positions.
pub open spec fn interned_ids_reason(table: ProfilesTable, n: nat) -> Seq<char> {
    "profiles "@ + table_name(table) + " table: interned ids must be exactly the row positions 0.."@ + decimal(n)
}

/// `e` reports that the ids of the interned `table` of `n` rows are not
/// exactly its row positions.
pub open spec fn is_interned_ids_error(e: Error, table: ProfilesTable, n: nat) -> bool {
    e matches Error::UnexpectedRecordBatchState { reason } && reason@ == interned_ids_reason(table, n)
}

/// The error for an interned `table` of `num_rows` rows whose ids are not
/// exactly its row positions.
fn interned_ids_error(table: ProfilesTable, num_rows: usize) -> (e: Error)
    ensures
        is_interned_ids_error(e, table, num_rows as nat),
{
    let mut reason = String::from_str("profiles ");
    reason.append(table.name());
    reason.append(" table: interned ids must be exactly the row positions 0..");
    append_decimal(&mut reason, num_rows as u64);
    Error::UnexpectedRecordBatchState { reason }
}

/// Compute the order in which to visit the rows of an interned table so
/// that visit position == table position: `order[p]` is the row whose id
/// is `p`. Fails unless the ids are exactly the row positions `0..n`.
pub fn interned_table_row_order(ids: &Column<u32>, num_rows: usize, table: ProfilesTable) -> (r: Result<Vec<usize>, Error>)
    ensures
        r is Ok <==> interned_ids_valid(*ids, num_rows as int),
        r matches Err(e) ==> is_interned_ids_error(e, table, num_rows as nat),
        r matches Ok(order) ==> order@.len() == num_rows && forall|p: int| 0 <= p < num_rows
            ==> #[trigger] order@[p] as int == interned_row(*ids, num_rows as int, p),
{
    if ids.is_none() {
        let mut order: Vec<usize> = Vec::with_capacity(num_rows);
        let mut i: usize = 0;
        while i < num_rows
            invariant
                i <= num_rows,
                order@.len() == i,
                forall|p: int| 0 <= p < i ==> #[trigger] order@[p] as int == p,
            decreases num_rows - i,
        {
            order.push(i);
            i += 1;
        }
        return Ok(order);
    }
    let mut slots: Vec<Option<usize>> = Vec::with_capacity(num_rows);
    let mut i: usize = 0;
    while i < num_rows
        invariant
            i <= num_rows,
            slots@.len() == i,
            forall|p: int| 0 <= p < i ==> #[trigger] slots@[p] is None,
        decreases num_rows - i,
    {
        slots.push(None);
        i += 1;
    }
    let mut row: usize = 0;
    while row < num_rows
        invariant
            ids is Some,
            row <= num_rows,
            slots@.len() == num_rows,
            forall|p: int| 0 <= p < num_rows ==> (#[trigger] slots@[p] matches Some(r)
                ==> r < row && id_is(*ids, r as int, p)),
            forall|r: int| 0 <= r < row ==> (#[trigger] cell(*ids, r) matches Some(v) && v < num_rows
                && slots@[v as int] == Some(r as usize)),
        decreases num_rows - row,
    {
        match cell_at(ids, row) {
            Some(v) => {
                if (v as usize) < num_rows && slots[v as usize].is_none() {
                    slots.set(v as usize, Some(row));
                } else {
                    proof {
                        if (v as usize) < num_rows {
                            let r2 = slots@[v as int]->0;
                            assert(cell(*ids, r2 as int) == cell(*ids, row as int));
                        }
                    }
                    return Err(interned_ids_error(table, num_rows));
                }
            },
            None => {
                return Err(interned_ids_error(table, num_rows));
            },
        }
        row += 1;
    }
    proof {
        assert forall|r1: int, r2: int| 0 <= r1 < num_rows && 0 <= r2 < num_rows && r1 != r2
            implies #[trigger] cell(*ids, r1) != #[trigger] cell(*ids, r2) by {
            if cell(*ids, r1) == cell(*ids, r2) {
                let v = cell(*ids, r1)->0;
                assert(slots@[v as int] == Some(r1 as usize));
                assert(slots@[v as int] == Some(r2 as usize));
            }
        }
        lemma_ids_onto(*ids, num_rows as int);
    }
    let mut order: Vec<usize> = Vec::with_capacity(num_rows);
    let mut p: usize = 0;
    while p < num_rows
        invariant
            ids is Some,
            p <= num_rows,
            order@.len() == p,
            slots@.len() == num_rows,
            interned_ids_valid(*ids, num_rows as int),
            forall|q: int| 0 <= q < num_rows ==> (#[trigger] slots@[q] matches Some(r)
                ==> r < num_rows && id_is(*ids, r as int, q)),
            forall|r: int| 0 <= r < num_rows ==> (#[trigger] cell(*ids, r) matches Some(v) && v < num_rows
                && slots@[v as int] == Some(r as usize)),
            forall|q: int| 0 <= q < num_rows ==> #[trigger] id_taken(*ids, num_rows as int, q),
            forall|q: int| 0 <= q < p ==> #[trigger] order@[q] as int == interned_row(*ids, num_rows as int, q),
        decreases num_rows - p,
    {
        proof {
            assert(id_taken(*ids, num_rows as int, p as int));
            let r = choose|r: int| 0 <= r < num_rows && id_is(*ids, r, p as int);
            assert(cell(*ids, r) matches Some(v) && v < num_rows);
        }
        let r = match slots[p] {
            Some(r) => r,
            None => 0,
        };
        proof {
            assert(slots@[p as int] is Some);
            let c = choose|c: int| 0 <= c < num_rows && id_is(*ids, c, p as int);
            assert(interned_row(*ids, num_rows as int, p as int) == c);
            if c != r as int {
                assert(cell(*ids, c) != cell(*ids, r as int));
            }
        }
        order.push(r);
        p += 1;
    }
    Ok(order)
}


/* ------------------------------ interned tables ------------------------------ */

/// The `Function` held by row `r` of the function table batch.
pub open spec fn function_row(b: FunctionTableBatch, r: int) -> Function {
    Function {
        name_strindex: cell_or(b.name_strindex, r, 0i32),
        system_name_strindex: cell_or(b.system_name_strindex, r, 0i32),
        filename_strindex: cell_or(b.filename_strindex, r, 0i32),
        start_line: cell_or(b.start_line, r, 0i64),
    }
}

/// The `Mapping` held by row `r` of the mapping table batch.
pub open spec fn mapping_row(b: MappingTableBatch, r: int) -> MappingModel {
    MappingModel {
        memory_start: cell_or(b.memory_start, r, 0u64),
        memory_limit: cell_or(b.memory_limit, r, 0u64),
        file_offset: cell_or(b.file_offset, r, 0u64),
        filename_strindex: cell_or(b.filename_strindex, r, 0i32),
        attribute_indices: list_cell(b.attribute_indices, r, 0i32),
        has_functions: cell_or(b.has_functions, r, false),
        has_filenames: cell_or(b.has_filenames, r, false),
        has_line_numbers: cell_or(b.has_line_numbers, r, false),
        has_inline_frames: cell_or(b.has_inline_frames, r, false),
    }
}

/// A `Line` read from a line struct row (null fields read as `0`).
pub open spec fn line_of(l: LineRow) -> Line {
    Line {
        function_index: match l.function_index { Some(v) => v, None => 0 },
        line: match l.line { Some(v) => v, None => 0 },
        column: match l.column { Some(v) => v, None => 0 },
    }
}

/// The lines held by row `r` of a `List<Struct{..}>` line column.
pub open spec fn lines_cell(col: Column<Vec<LineRow>>, r: int) -> Seq<Line> {
    match cell(col, r) {
        Some(l) => l@.map_values(|x: LineRow| line_of(x)),
        None => Seq::empty(),
    }
}

/// The `Location` held by row `r` of the location table batch. The
/// `mapping_index` keeps its presence: null reads as `None`, a value
/// (including `0`) as `Some`.
pub open spec fn location_row(b: LocationTableBatch, r: int) -> LocationModel {
    LocationModel {
        mapping_index: cell(b.mapping_index, r),
        address: cell_or(b.address, r, 0u64),
        line: lines_cell(b.line, r),
        is_folded: cell_or(b.is_folded, r, false),
        attribute_indices: list_cell(b.attribute_indices, r, 0i32),
    }
}

/// The `Link` held by row `r` of the link table batch; null ids read as
/// empty bytes.
pub open spec fn link_row(b: LinkTableBatch, r: int) -> LinkModel {
    LinkModel { trace_id: bytes_cell(b.trace_id, r), span_id: bytes_cell(b.span_id, r) }
}

/// The attribute held by a row with the given key and value lanes.
pub open spec fn attribute_of(key: Option<String>, value: Option<crate::model::common::AnyValue>) -> KeyValueModel {
    KeyValueModel {
        key: match key { Some(k) => k@, None => Seq::empty() },
        value: opt_any_value_model(value),
    }
}

/// The attribute held by row `r` of the attribute table batch.
pub open spec fn attribute_row(b: AttributeTableBatch, r: int) -> KeyValueModel {
    attribute_of(
        if 0 <= r < b.key.len() { b.key@[r] } else { None },
        if 0 <= r < b.value.len() { b.value@[r] } else { None },
    )
}

/// The `AttributeUnit` held by row `r` of the attribute units batch.
pub open spec fn attribute_unit_row(b: AttributeUnitsBatch, r: int) -> AttributeUnit {
    AttributeUnit {
        attribute_key_strindex: cell_or(b.attribute_key_strindex, r, 0i32),
        unit_strindex: cell_or(b.unit_strindex, r, 0i32),
    }
}

/// Reconstruct the string table verbatim: entry `p` is the value of the row
/// whose id is `p` (null values read as the empty string).
pub fn decode_string_table(b: &StringTableBatch) -> (r: Result<Vec<String>, Error>)
    ensures
        r is Ok <==> interned_ids_valid(b.id, b.num_rows as int),
        r matches Err(e) ==> is_interned_ids_error(e, ProfilesTable::String, b.num_rows as nat),
        r matches Ok(v) ==> v@.len() == b.num_rows && forall|p: int| 0 <= p < b.num_rows
            ==> (#[trigger] v@[p])@ == string_cell(b.value, interned_row(b.id, b.num_rows as int, p)),
{
    let order = interned_table_row_order(&b.id, b.num_rows, ProfilesTable::String)?;
    let mut out: Vec<String> = Vec::with_capacity(order.len());
    let mut i: usize = 0;
    while i < order.len()
        invariant
            order@.len() == b.num_rows,
            forall|p: int| 0 <= p < b.num_rows ==> #[trigger] order@[p] as int == interned_row(b.id, b.num_rows as int, p),
            i <= order.len(),
            out@.len() == i,
            forall|p: int| 0 <= p < i ==> (#[trigger] out@[p])@ == string_cell(b.value, interned_row(b.id, b.num_rows as int, p)),
        decreases order.len() - i,
    {
        out.push(string_at(&b.value, order[i]));
        i += 1;
    }
    Ok(out)
}

/// Reconstruct the function table verbatim (null fields read as `0`).
pub fn decode_function_table(b: &FunctionTableBatch) -> (r: Result<Vec<Function>, Error>)
    ensures
        r is Ok <==> interned_ids_valid(b.id, b.num_rows as int),
        r matches Err(e) ==> is_interned_ids_error(e, ProfilesTable::Function, b.num_rows as nat),
        r matches Ok(v) ==> v@.len() == b.num_rows && forall|p: int| 0 <= p < b.num_rows
            ==> #[trigger] v@[p] == function_row(*b, interned_row(b.id, b.num_rows as int, p)),
{
    let order = interned_table_row_order(&b.id, b.num_rows, ProfilesTable::Function)?;
    let mut out: Vec<Function> = Vec::with_capacity(order.len());
    let mut i: usize = 0;
    while i < order.len()
        invariant
            order@.len() == b.num_rows,
            forall|p: int| 0 <= p < b.num_rows ==> #[trigger] order@[p] as int == interned_row(b.id, b.num_rows as int, p),
            i <= order.len(),
            out@.len() == i,
            forall|p: int| 0 <= p < i ==> #[trigger] out@[p] == function_row(*b, interned_row(b.id, b.num_rows as int, p)),
        decreases order.len() - i,
    {
        let row = order[i];
        let f = Function {
            name_strindex: match cell_at(&b.name_strindex, row) { Some(v) => v, None => 0 },
            system_name_strindex: match cell_at(&b.system_name_strindex, row) { Some(v) => v, None => 0 },
            filename_strindex: match cell_at(&b.filename_strindex, row) { Some(v) => v, None => 0 },
            start_line: match cell_at(&b.start_line, row) { Some(v) => v, None => 0 },
        };
        out.push(f);
        i += 1;
    }
    Ok(out)
}

/// Reconstruct the mapping table verbatim (null fields read as their
/// default, `0` or `false`).
pub fn decode_mapping_table(b: &MappingTableBatch) -> (r: Result<Vec<Mapping>, Error>)
    ensures
        r is Ok <==> interned_ids_valid(b.id, b.num_rows as int),
        r matches Err(e) ==> is_interned_ids_error(e, ProfilesTable::Mapping, b.num_rows as nat),
        r matches Ok(v) ==> v@.len() == b.num_rows && forall|p: int| 0 <= p < b.num_rows
            ==> (#[trigger] v@[p])@ == mapping_row(*b, interned_row(b.id, b.num_rows as int, p)),
{
    let order = interned_table_row_order(&b.id, b.num_rows, ProfilesTable::Mapping)?;
    let mut out: Vec<Mapping> = Vec::with_capacity(order.len());
    let mut i: usize = 0;
    while i < order.len()
        invariant
            order@.len() == b.num_rows,
            forall|p: int| 0 <= p < b.num_rows ==> #[trigger] order@[p] as int == interned_row(b.id, b.num_rows as int, p),
            i <= order.len(),
            out@.len() == i,
            forall|p: int| 0 <= p < i ==> (#[trigger] out@[p])@ == mapping_row(*b, interned_row(b.id, b.num_rows as int, p)),
        decreases order.len() - i,
    {
        let row = order[i];
        let m = Mapping {
            memory_start: match cell_at(&b.memory_start, row) { Some(v) => v, None => 0 },
            memory_limit: match cell_at(&b.memory_limit, row) { Some(v) => v, None => 0 },
            file_offset: match cell_at(&b.file_offset, row) { Some(v) => v, None => 0 },
            filename_strindex: match cell_at(&b.filename_strindex, row) { Some(v) => v, None => 0 },
            attribute_indices: list_at(&b.attribute_indices, row, 0i32),
            has_functions: match cell_at(&b.has_functions, row) { Some(v) => v, None => false },
            has_filenames: match cell_at(&b.has_filenames, row) { Some(v) => v, None => false },
            has_line_numbers: match cell_at(&b.has_line_numbers, row) { Some(v) => v, None => false },
            has_inline_frames: match cell_at(&b.has_inline_frames, row) { Some(v) => v, None => false },
        };
        out.push(m);
        i += 1;
    }
    Ok(out)
}

/// The lines at `row` of a line list column.
fn lines_at(col: &Column<Vec<LineRow>>, row: usize) -> (r: Vec<Line>)
    ensures
        r@ == lines_cell(*col, row as int),
{
    match col {
        Some(c) => {
            if row < c.len() {
                match &c[row] {
                    Some(l) => {
                        let mut out: Vec<Line> = Vec::with_capacity(l.len());
                        let mut i: usize = 0;
                        while i < l.len()
                            invariant
                                i <= l.len(),
                                out@ == l@.subrange(0, i as int).map_values(|x: LineRow| line_of(x)),
                            decreases l.len() - i,
                        {
                            let x = l[i];
                            out.push(Line {
                                function_index: match x.function_index { Some(v) => v, None => 0 },
                                line: match x.line { Some(v) => v, None => 0 },
                                column: match x.column { Some(v) => v, None => 0 },
                            });
                            i += 1;
                            assert(out@ =~= l@.subrange(0, i as int).map_values(|x: LineRow| line_of(x)));
                        }
                        assert(l@.subrange(0, l.len() as int) =~= l@);
                        out
                    },
                    None => Vec::new(),
                }
            } else {
                Vec::new()
            }
        },
        None => Vec::new(),
    }
}

/// Reconstruct the location table verbatim. `mapping_index` keeps its
/// presence (null => `None`, a value including `0` => `Some`).
pub fn decode_location_table(b: &LocationTableBatch) -> (r: Result<Vec<Location>, Error>)
    ensures
        r is Ok <==> interned_ids_valid(b.id, b.num_rows as int),
        r matches Err(e) ==> is_interned_ids_error(e, ProfilesTable::Location, b.num_rows as nat),
        r matches Ok(v) ==> v@.len() == b.num_rows && forall|p: int| 0 <= p < b.num_rows
            ==> (#[trigger] v@[p])@ == location_row(*b, interned_row(b.id, b.num_rows as int, p)),
{
    let order = interned_table_row_order(&b.id, b.num_rows, ProfilesTable::Location)?;
    let mut out: Vec<Location> = Vec::with_capacity(order.len());
    let mut i: usize = 0;
    while i < order.len()
        invariant
            order@.len() == b.num_rows,
            forall|p: int| 0 <= p < b.num_rows ==> #[trigger] order@[p] as int == interned_row(b.id, b.num_rows as int, p),
            i <= order.len(),
            out@.len() == i,
            forall|p: int| 0 <= p < i ==> (#[trigger] out@[p])@ == location_row(*b, interned_row(b.id, b.num_rows as int, p)),
        decreases order.len() - i,
    {
        let row = order[i];
        let l = Location {
            mapping_index: cell_at(&b.mapping_index, row),
            address: match cell_at(&b.address, row) { Some(v) => v, None => 0 },
            line: lines_at(&b.line, row),
            is_folded: match cell_at(&b.is_folded, row) { Some(v) => v, None => false },
            attribute_indices: list_at(&b.attribute_indices, row, 0i32),
        };
        out.push(l);
        i += 1;
    }
    Ok(out)
}

/// Reconstruct the link table verbatim; null ids decode to empty bytes.
pub fn decode_link_table(b: &LinkTableBatch) -> (r: Result<Vec<Link>, Error>)
    ensures
        r is Ok <==> interned_ids_valid(b.id, b.num_rows as int),
        r matches Err(e) ==> is_interned_ids_error(e, ProfilesTable::Link, b.num_rows as nat),
        r matches Ok(v) ==> v@.len() == b.num_rows && forall|p: int| 0 <= p < b.num_rows
            ==> (#[trigger] v@[p])@ == link_row(*b, interned_row(b.id, b.num_rows as int, p)),
{
    let order = interned_table_row_order(&b.id, b.num_rows, ProfilesTable::Link)?;
    let mut out: Vec<Link> = Vec::with_capacity(order.len());
    let mut i: usize = 0;
    while i < order.len()
        invariant
            order@.len() == b.num_rows,
            forall|p: int| 0 <= p < b.num_rows ==> #[trigger] order@[p] as int == interned_row(b.id, b.num_rows as int, p),
            i <= order.len(),
            out@.len() == i,
            forall|p: int| 0 <= p < i ==> (#[trigger] out@[p])@ == link_row(*b, interned_row(b.id, b.num_rows as int, p)),
        decreases order.len() - i,
    {
        let row = order[i];
        out.push(Link { trace_id: bytes_at(&b.trace_id, row), span_id: bytes_at(&b.span_id, row) });
        i += 1;
    }
    Ok(out)
}

/// The attribute held by a row with the given key and value lanes.
pub fn attribute_at(keys: &Vec<Option<String>>, values: &Vec<Option<crate::model::common::AnyValue>>, row: usize) -> (r: KeyValue)
    ensures
        r@ == attribute_of(
            if row < keys.len() { keys@[row as int] } else { None },
            if row < values.len() { values@[row as int] } else { None },
        ),
{
    let key = if row < keys.len() {
        match &keys[row] {
            Some(k) => k.clone(),
            None => String::new(),
        }
    } else {
        String::new()
    };
    let value = if row < values.len() {
        match &values[row] {
            Some(v) => Some(copy_any_value(v)),
            None => None,
        }
    } else {
        None
    };
    KeyValue { key, value }
}

/// Reconstruct the attribute table verbatim.
pub fn decode_attribute_table(b: &AttributeTableBatch) -> (r: Result<Vec<KeyValue>, Error>)
    ensures
        r is Ok <==> interned_ids_valid(b.id, b.num_rows as int),
        r matches Err(e) ==> is_interned_ids_error(e, ProfilesTable::Attribute, b.num_rows as nat),
        r matches Ok(v) ==> v@.len() == b.num_rows && forall|p: int| 0 <= p < b.num_rows
            ==> (#[trigger] v@[p])@ == attribute_row(*b, interned_row(b.id, b.num_rows as int, p)),
{
    let order = interned_table_row_order(&b.id, b.num_rows, ProfilesTable::Attribute)?;
    let mut out: Vec<KeyValue> = Vec::with_capacity(order.len());
    let mut i: usize = 0;
    while i < order.len()
        invariant
            order@.len() == b.num_rows,
            forall|p: int| 0 <= p < b.num_rows ==> #[trigger] order@[p] as int == interned_row(b.id, b.num_rows as int, p),
            i <= order.len(),
            out@.len() == i,
            forall|p: int| 0 <= p < i ==> (#[trigger] out@[p])@ == attribute_row(*b, interned_row(b.id, b.num_rows as int, p)),
        decreases order.len() - i,
    {
        out.push(attribute_at(&b.key, &b.value, order[i]));
        i += 1;
    }
    Ok(out)
}

/// Reconstruct the attribute units table verbatim (null fields read as `0`).
pub fn decode_attribute_units(b: &AttributeUnitsBatch) -> (r: Result<Vec<AttributeUnit>, Error>)
    ensures
        r is Ok <==> interned_ids_valid(b.id, b.num_rows as int),
        r matches Err(e) ==> is_interned_ids_error(e, ProfilesTable::AttributeUnits, b.num_rows as nat),
        r matches Ok(v) ==> v@.len() == b.num_rows && forall|p: int| 0 <= p < b.num_rows
            ==> #[trigger] v@[p] == attribute_unit_row(*b, interned_row(b.id, b.num_rows as int, p)),
{
    let order = interned_table_row_order(&b.id, b.num_rows, ProfilesTable::AttributeUnits)?;
    let mut out: Vec<AttributeUnit> = Vec::with_capacity(order.len());
    let mut i: usize = 0;
    while i < order.len()
        invariant
            order@.len() == b.num_rows,
            forall|p: int| 0 <= p < b.num_rows ==> #[trigger] order@[p] as int == interned_row(b.id, b.num_rows as int, p),
            i <= order.len(),
            out@.len() == i,
            forall|p: int| 0 <= p < i ==> #[trigger] out@[p] == attribute_unit_row(*b, interned_row(b.id, b.num_rows as int, p)),
        decreases order.len() - i,
    {
        let row = order[i];
        out.push(AttributeUnit {
            attribute_key_strindex: match cell_at(&b.attribute_key_strindex, row) { Some(v) => v, None => 0 },
            unit_strindex: match cell_at(&b.unit_strindex, row) { Some(v) => v, None => 0 },
        });
        i += 1;
    }
    Ok(out)
}


/* ------------------------------ parent-id joins ------------------------------ */

/// The rows among the first `k` whose parent id is `p`, in row order.
pub open spec fn children_upto(parent_ids: Seq<Option<u16>>, p: int, k: int) -> Seq<usize>
    decreases k,
{
    if k <= 0 {
        Seq::empty()
    } else {
        let rest = children_upto(parent_ids, p, k - 1);
        if parent_ids[k - 1] matches Some(q) && q as int == p {
            rest.push((k - 1) as usize)
        } else {
            rest
        }
    }
}

/// The rows whose parent id is `p`, in row order.
pub open spec fn children(parent_ids: Seq<Option<u16>>, p: int) -> Seq<usize> {
    children_upto(parent_ids, p, parent_ids.len() as int)
}

/// Every row of `children_upto` is a row below `k`.
pub proof fn lemma_children_upto_bound(parent_ids: Seq<Option<u16>>, p: int, k: int)
    requires
        0 <= k <= parent_ids.len(),
        parent_ids.len() <= usize::MAX,
    ensures
        forall|j: int| 0 <= j < children_upto(parent_ids, p, k).len()
            ==> (#[trigger] children_upto(parent_ids, p, k)[j] as int) < k,
    decreases k,
{
    if k > 0 {
        lemma_children_upto_bound(parent_ids, p, k - 1);
        let rest = children_upto(parent_ids, p, k - 1);
        let all = children_upto(parent_ids, p, k);
        assert forall|j: int| 0 <= j < all.len() implies (#[trigger] all[j] as int) < k by {
            if j < rest.len() {
                assert(all[j] == rest[j]);
            }
        }
    }
}

/// Row `j` of a child batch has parent id `p`.
pub open spec fn has_parent(parent_ids: Seq<Option<u16>>, j: int, p: int) -> bool {
    parent_ids[j] matches Some(q) && q as int == p
}

/// `rows` lists, in strictly increasing order, exactly the rows below `k`
/// whose parent id is `p`.
pub open spec fn lists_rows_with_parent(rows: Seq<usize>, parent_ids: Seq<Option<u16>>, p: int, k: int) -> bool {
    &&& forall|a: int, c: int| 0 <= a < c < rows.len() ==> #[trigger] rows[a] < #[trigger] rows[c]
    &&& forall|a: int| 0 <= a < rows.len() ==> (#[trigger] rows[a] as int) < k && has_parent(parent_ids, rows[a] as int, p)
    &&& forall|j: int| 0 <= j < k && #[trigger] has_parent(parent_ids, j, p) ==> rows.contains(j as usize)
}

/// Law: the rows among the first `k` whose parent id is `p` are listed in
/// row order, each once, and no other row is.
pub proof fn law_children_upto_are_the_rows_with_that_parent(parent_ids: Seq<Option<u16>>, p: int, k: int)
    requires
        0 <= k <= parent_ids.len(),
        parent_ids.len() <= usize::MAX,
    ensures
        lists_rows_with_parent(children_upto(parent_ids, p, k), parent_ids, p, k),
    decreases k,
{
    if k > 0 {
        law_children_upto_are_the_rows_with_that_parent(parent_ids, p, k - 1);
        let rest = children_upto(parent_ids, p, k - 1);
        let all = children_upto(parent_ids, p, k);
        if parent_ids[k - 1] matches Some(q) && q as int == p {
            assert(all == rest.push((k - 1) as usize));
            assert forall|a: int, c: int| 0 <= a < c < all.len() implies #[trigger] all[a] < #[trigger] all[c] by {
                if c < rest.len() {
                    assert(all[a] == rest[a] && all[c] == rest[c]);
                } else {
                    assert(all[a] == rest[a]);
                }
            }
            assert forall|a: int| 0 <= a < all.len() implies (#[trigger] all[a] as int) < k
                && has_parent(parent_ids, all[a] as int, p) by {
                if a < rest.len() {
                    assert(all[a] == rest[a]);
                }
            }
            assert forall|j: int| 0 <= j < k && #[trigger] has_parent(parent_ids, j, p)
                implies all.contains(j as usize) by {
                if j < k - 1 {
                    assert(rest.contains(j as usize));
                    let a = choose|a: int| 0 <= a < rest.len() && rest[a] == j as usize;
                    assert(all[a] == rest[a]);
                } else {
                    assert(all[rest.len() as int] == j as usize);
                }
            }
        } else {
            assert(all == rest);
            assert forall|j: int| 0 <= j < k && #[trigger] has_parent(parent_ids, j, p)
                implies all.contains(j as usize) by {
                assert(j < k - 1);
            }
        }
    }
}

/// Group the rows of a child batch by parent id: entry `p` of the result
/// lists the rows whose parent id is `p`, in row order (the relative order
/// of a parent's children is preserved).
pub fn group_by_parent_id(parent_ids: &Vec<Option<u16>>) -> (r: Vec<Vec<usize>>)
    ensures
        forall|p: int| 0 <= p < r@.len() ==> (#[trigger] r@[p])@ == children(parent_ids@, p),
        forall|p: int| 0 <= p < r@.len() ==> lists_rows_with_parent((#[trigger] r@[p])@, parent_ids@, p, parent_ids@.len() as int),
        forall|k: int| 0 <= k < parent_ids@.len() ==> (#[trigger] parent_ids@[k] matches Some(q) ==> (q as int) < r@.len()),
{
    let mut max: usize = 0;
    let mut i: usize = 0;
    while i < parent_ids.len()
        invariant
            i <= parent_ids.len(),
            max <= u16::MAX as usize + 1,
            forall|k: int| 0 <= k < i ==> (#[trigger] parent_ids@[k] matches Some(q) ==> (q as int) < max),
        decreases parent_ids.len() - i,
    {
        if let Some(q) = parent_ids[i] {
            if q as usize >= max {
                max = q as usize + 1;
            }
        }
        i += 1;
    }
    let mut groups: Vec<Vec<usize>> = Vec::with_capacity(max);
    let mut p: usize = 0;
    while p < max
        invariant
            p <= max,
            groups@.len() == p,
            forall|q: int| 0 <= q < p ==> (#[trigger] groups@[q])@ == Seq::<usize>::empty(),
        decreases max - p,
    {
        groups.push(Vec::new());
        p += 1;
    }
    let mut row: usize = 0;
    while row < parent_ids.len()
        invariant
            row <= parent_ids.len(),
            groups@.len() == max,
            forall|k: int| 0 <= k < parent_ids@.len() ==> (#[trigger] parent_ids@[k] matches Some(q) ==> (q as int) < max),
            forall|q: int| 0 <= q < max ==> (#[trigger] groups@[q])@ == children_upto(parent_ids@, q, row as int),
        decreases parent_ids.len() - row,
    {
        if let Some(q) = parent_ids[row] {
            let ghost old_groups = groups@;
            let mut bucket: Vec<usize> = Vec::new();
            std::mem::swap(&mut bucket, &mut groups[q as usize]);
            bucket.push(row);
            groups.set(q as usize, bucket);
            proof {
                assert forall|t: int| 0 <= t < max implies (#[trigger] groups@[t])@ == children_upto(parent_ids@, t, row + 1) by {
                    if t != q as int {
                        assert(groups@[t] == old_groups[t]);
                    }
                }
            }
        }
        row += 1;
    }
    proof {
        assert forall|p: int| 0 <= p < groups@.len() implies lists_rows_with_parent((#[trigger] groups@[p])@, parent_ids@, p, parent_ids@.len() as int) by {
            law_children_upto_are_the_rows_with_that_parent(parent_ids@, p, parent_ids@.len() as int);
        }
    }
    groups
}


/* ------------------------------ root visit order ------------------------------ */

/// Rank of an optional id: absent ids order before present ones.
pub open spec fn id_rank(id: Option<u16>) -> int {
    match id {
        Some(v) => v as int + 1,
        None => 0,
    }
}

/// The sort key of root row `r`: `(resource id, scope id, id)`,
/// lexicographically, absent ids first.
pub open spec fn root_rank(b: ProfilesBatch, r: int) -> int {
    id_rank(cell(b.resource.id, r)) * 4295098369 + id_rank(cell(b.scope.id, r)) * 65537
        + id_rank(cell(b.id, r))
}

/// Root row `r1` is visited before root row `r2`: smaller key, or equal
/// keys and smaller row (the order is stable).
pub open spec fn visits_before(b: ProfilesBatch, r1: int, r2: int) -> bool {
    root_rank(b, r1) < root_rank(b, r2) || (root_rank(b, r1) == root_rank(b, r2) && r1 < r2)
}

/// `ord` lists every root row exactly once, in visit order.
pub open spec fn is_visit_order(b: ProfilesBatch, ord: Seq<usize>) -> bool {
    &&& ord.len() == b.num_rows
    &&& forall|i: int| 0 <= i < ord.len() ==> (#[trigger] ord[i] as int) < b.num_rows
    &&& forall|r: int| 0 <= r < b.num_rows ==> #[trigger] ord.contains(r as usize)
    &&& forall|i: int, j: int| 0 <= i < j < ord.len() ==> visits_before(b, #[trigger] ord[i] as int, #[trigger] ord[j] as int)
}

fn id_rank_exec(id: Option<u16>) -> (r: u64)
    ensures
        r as int == id_rank(id),
{
    match id {
        Some(v) => v as u64 + 1,
        None => 0,
    }
}

/// The order in which the root rows are visited: sorted by
/// `(resource id, scope id, id)` with absent ids first, ties kept in row
/// order.
pub fn root_visit_order(b: &ProfilesBatch) -> (ord: Vec<usize>)
    ensures
        is_visit_order(*b, ord@),
{
    let n = b.num_rows;
    let mut keys: Vec<u64> = Vec::with_capacity(n);
    let mut r: usize = 0;
    while r < n
        invariant
            r <= n,
            n == b.num_rows,
            keys@.len() == r,
            forall|k: int| 0 <= k < r ==> #[trigger] keys@[k] as int == root_rank(*b, k),
        decreases n - r,
    {
        let key = id_rank_exec(cell_at(&b.resource.id, r)) * 4295098369
            + id_rank_exec(cell_at(&b.scope.id, r)) * 65537 + id_rank_exec(cell_at(&b.id, r));
        keys.push(key);
        r += 1;
    }
    let mut ord: Vec<usize> = Vec::with_capacity(n);
    let mut i: usize = 0;
    while i < n
        invariant
            i <= n,
            n == b.num_rows,
            keys@.len() == n,
            forall|k: int| 0 <= k < n ==> #[trigger] keys@[k] as int == root_rank(*b, k),
            ord@.len() == i,
            forall|a: int| 0 <= a < ord@.len() ==> (#[trigger] ord@[a] as int) < i,
            forall|x: int| 0 <= x < i ==> #[trigger] ord@.contains(x as usize),
            forall|a: int, c: int| 0 <= a < c < ord@.len() ==> visits_before(*b, #[trigger] ord@[a] as int, #[trigger] ord@[c] as int),
        decreases n - i,
    {
        let key = keys[i];
        let mut pos: usize = 0;
        while pos < ord.len() && keys[ord[pos]] <= key
            invariant
                pos <= ord@.len(),
                ord@.len() == i,
                i < n,
                keys@.len() == n,
                forall|a: int| 0 <= a < ord@.len() ==> (#[trigger] ord@[a] as int) < i,
                forall|a: int| 0 <= a < pos ==> keys@[#[trigger] ord@[a] as int] <= key,
            decreases ord@.len() - pos,
        {
            pos += 1;
        }
        let ghost old_ord = ord@;
        proof {
            old_ord.insert_ensures(pos as int, i);
            if pos < old_ord.len() {
                assert(keys@[old_ord[pos as int] as int] > key);
                assert forall|c: int| pos <= c < old_ord.len() implies keys@[#[trigger] old_ord[c] as int] > key by {
                    if c > pos {
                        assert(visits_before(*b, old_ord[pos as int] as int, old_ord[c] as int));
                    }
                }
            }
        }
        ord.insert(pos, i);
        proof {
            let o = ord@;
            assert(o == old_ord.insert(pos as int, i));
            assert forall|a: int| 0 <= a < o.len() implies (#[trigger] o[a] as int) < i + 1 by {
                if a < pos {
                    assert(o[a] == old_ord[a]);
                } else if a > pos {
                    assert(o[a] == old_ord[a - 1]);
                }
            }
            assert forall|x: int| 0 <= x < i + 1 implies #[trigger] o.contains(x as usize) by {
                if x < i {
                    assert(old_ord.contains(x as usize));
                    let a = choose|a: int| 0 <= a < old_ord.len() && old_ord[a] == x as usize;
                    if a < pos {
                        assert(o[a] == old_ord[a]);
                    } else {
                        assert(o[a + 1] == old_ord[a]);
                    }
                } else {
                    assert(o[pos as int] == i);
                }
            }
            assert forall|a: int, c: int| 0 <= a < c < o.len() implies visits_before(*b, #[trigger] o[a] as int, #[trigger] o[c] as int) by {
                if c < pos {
                    assert(o[a] == old_ord[a] && o[c] == old_ord[c]);
                } else if c == pos {
                    assert(o[a] == old_ord[a]);
                } else if a < pos {
                    assert(o[a] == old_ord[a] && o[c] == old_ord[c - 1]);
                } else if a == pos {
                    assert(o[c] == old_ord[c - 1]);
                } else {
                    assert(o[a] == old_ord[a - 1] && o[c] == old_ord[c - 1]);
                }
            }
        }
        i += 1;
    }
    ord
}


/// No row has parent `p`: then it has no children.
proof fn lemma_no_children(parent_ids: Seq<Option<u16>>, p: int, k: int)
    requires
        0 <= k <= parent_ids.len(),
        forall|j: int| 0 <= j < k ==> !(#[trigger] parent_ids[j] matches Some(q) && q as int == p),
    ensures
        children_upto(parent_ids, p, k) == Seq::<usize>::empty(),
    decreases k,
{
    if k > 0 {
        lemma_no_children(parent_ids, p, k - 1);
    }
}

/// The children of `p` as listed by a grouping of `parent_ids`.
fn children_of<'a>(groups: &'a Vec<Vec<usize>>, parent_ids: &Vec<Option<u16>>, p: u16) -> (r: Vec<usize>)
    requires
        forall|q: int| 0 <= q < groups@.len() ==> (#[trigger] groups@[q])@ == children(parent_ids@, q),
        forall|k: int| 0 <= k < parent_ids@.len() ==> (#[trigger] parent_ids@[k] matches Some(q) ==> (q as int) < groups@.len()),
    ensures
        r@ == children(parent_ids@, p as int),
{
    if (p as usize) < groups.len() {
        groups[p as usize].clone()
    } else {
        proof {
            lemma_no_children(parent_ids@, p as int, parent_ids@.len() as int);
        }
        Vec::new()
    }
}

/* ------------------------------ samples ------------------------------ */

/// The `Sample` held by row `r` of the sample batch. `link_index` keeps its
/// presence: null reads as `None`, a value (including `0`) as `Some`.
pub open spec fn sample_row(b: SampleBatch, r: int) -> SampleModel {
    SampleModel {
        locations_start_index: cell_or(b.locations_start_index, r, 0i32),
        locations_length: cell_or(b.locations_length, r, 0i32),
        value: list_cell(b.value, r, 0i64),
        attribute_indices: list_cell(b.attribute_indices, r, 0i32),
        link_index: cell(b.link_index, r),
        timestamps_unix_nano: list_cell(b.timestamps_unix_nano, r, 0u64),
    }
}

/// The samples of the profile with id `id`: the sample rows whose parent
/// id is `id`, in row order (none when the profile has no id or there is
/// no sample batch).
pub open spec fn samples_of(samples: Option<SampleBatch>, id: Option<u16>) -> Seq<SampleModel> {
    match (samples, id) {
        (Some(sb), Some(p)) => children(sb.parent_id@, p as int).map_values(|r: usize| sample_row(sb, r as int)),
        _ => Seq::empty(),
    }
}

fn sample_at(b: &SampleBatch, row: usize) -> (r: Sample)
    ensures
        r@ == sample_row(*b, row as int),
{
    Sample {
        locations_start_index: match cell_at(&b.locations_start_index, row) { Some(v) => v, None => 0 },
        locations_length: match cell_at(&b.locations_length, row) { Some(v) => v, None => 0 },
        value: list_at(&b.value, row, 0i64),
        attribute_indices: list_at(&b.attribute_indices, row, 0i32),
        link_index: cell_at(&b.link_index, row),
        timestamps_unix_nano: list_at(&b.timestamps_unix_nano, row, 0u64),
    }
}

/// A parent-id joined child batch together with its grouping.
struct Grouped<'a, T> {
    batch: &'a T,
    groups: Vec<Vec<usize>>,
}

fn samples_for(samples: &Option<Grouped<SampleBatch>>, id: Option<u16>) -> (r: Vec<Sample>)
    requires
        samples matches Some(g) ==> {
            &&& forall|q: int| 0 <= q < g.groups@.len() ==> (#[trigger] g.groups@[q])@ == children(g.batch.parent_id@, q)
            &&& forall|k: int| 0 <= k < g.batch.parent_id@.len() ==> (#[trigger] g.batch.parent_id@[k] matches Some(q) ==> (q as int) < g.groups@.len())
        },
    ensures
        r@.map_values(|s: Sample| s@) == samples_of(
            match samples { Some(g) => Some(*g.batch), None => None },
            id,
        ),
{
    match (samples, id) {
        (Some(g), Some(p)) => {
            let rows = children_of(&g.groups, &g.batch.parent_id, p);
            let mut out: Vec<Sample> = Vec::with_capacity(rows.len());
            let mut j: usize = 0;
            while j < rows.len()
                invariant
                    j <= rows@.len(),
                    out@.len() == j,
                    out@.map_values(|s: Sample| s@) == rows@.subrange(0, j as int).map_values(|r: usize| sample_row(*g.batch, r as int)),
                decreases rows.len() - j,
            {
                let smp = sample_at(g.batch, rows[j]);
                let ghost prev = out@;
                out.push(smp);
                j += 1;
                proof {
                    let lhs = out@.map_values(|s: Sample| s@);
                    let rhs = rows@.subrange(0, j as int).map_values(|r: usize| sample_row(*g.batch, r as int));
                    assert forall|k: int| 0 <= k < j implies lhs[k] == rhs[k] by {
                        if k < j - 1 {
                            assert(prev.map_values(|s: Sample| s@)[k] == rows@.subrange(0, j - 1).map_values(|r: usize| sample_row(*g.batch, r as int))[k]);
                        }
                    }
                    assert(lhs =~= rhs);
                }
            }
            assert(rows@.subrange(0, rows@.len() as int) =~= rows@);
            out
        },
        _ => Vec::new(),
    }
}

/* ------------------------------ resource / scope ------------------------------ */

/// The attributes of `parent` in a resource or scope attributes batch, in
/// row order (none when the parent has no id or there is no batch).
pub open spec fn attrs_of(attrs: Option<AttrsBatch>, parent: Option<u16>) -> Seq<KeyValueModel> {
    match (attrs, parent) {
        (Some(a), Some(p)) => children(a.parent_id@, p as int).map_values(|r: usize| attribute_of(
            if (r as int) < a.key.len() { a.key@[r as int] } else { None },
            if (r as int) < a.value.len() { a.value@[r as int] } else { None },
        )),
        _ => Seq::empty(),
    }
}

fn attrs_for(attrs: &Option<Grouped<AttrsBatch>>, parent: Option<u16>) -> (r: Vec<KeyValue>)
    requires
        attrs matches Some(g) ==> {
            &&& forall|q: int| 0 <= q < g.groups@.len() ==> (#[trigger] g.groups@[q])@ == children(g.batch.parent_id@, q)
            &&& forall|k: int| 0 <= k < g.batch.parent_id@.len() ==> (#[trigger] g.batch.parent_id@[k] matches Some(q) ==> (q as int) < g.groups@.len())
        },
    ensures
        key_values_model(r@) == attrs_of(
            match attrs { Some(g) => Some(*g.batch), None => None },
            parent,
        ),
{
    match (attrs, parent) {
        (Some(g), Some(p)) => {
            let rows = children_of(&g.groups, &g.batch.parent_id, p);
            let mut out: Vec<KeyValue> = Vec::with_capacity(rows.len());
            let mut j: usize = 0;
            while j < rows.len()
                invariant
                    j <= rows@.len(),
                    out@.len() == j,
                    key_values_model(out@) == rows@.subrange(0, j as int).map_values(|r: usize| attribute_of(
                        if (r as int) < g.batch.key.len() { g.batch.key@[r as int] } else { None },
                        if (r as int) < g.batch.value.len() { g.batch.value@[r as int] } else { None },
                    )),
                decreases rows.len() - j,
            {
                let kv = attribute_at(&g.batch.key, &g.batch.value, rows[j]);
                proof {
                    lemma_key_values_model_push(out@, kv);
                }
                out.push(kv);
                j += 1;
                assert(key_values_model(out@) =~= rows@.subrange(0, j as int).map_values(|r: usize| attribute_of(
                    if (r as int) < g.batch.key.len() { g.batch.key@[r as int] } else { None },
                    if (r as int) < g.batch.value.len() { g.batch.value@[r as int] } else { None },
                )));
            }
            assert(rows@.subrange(0, rows@.len() as int) =~= rows@);
            out
        },
        _ => Vec::new(),
    }
}

/// The resource of root row `r`. OTAP has no presence bit for the
/// resource, so a resource without attributes and with a zero dropped
/// count reads as `None`.
pub open spec fn resource_row(b: ProfilesBatch, attrs: Option<AttrsBatch>, r: int) -> Option<ResourceModel> {
    let attributes = attrs_of(attrs, cell(b.resource.id, r));
    let dropped = cell_or(b.resource.dropped_attributes_count, r, 0u32);
    if attributes.len() == 0 && dropped == 0 {
        None
    } else {
        Some(ResourceModel { attributes, dropped_attributes_count: dropped })
    }
}

/// The scope of root row `r`; a scope without name, version, attributes
/// and dropped count reads as `None`.
pub open spec fn scope_row(b: ProfilesBatch, attrs: Option<AttrsBatch>, r: int) -> Option<ScopeModel> {
    let name = string_cell(b.scope.name, r);
    let version = string_cell(b.scope.version, r);
    let attributes = attrs_of(attrs, cell(b.scope.id, r));
    let dropped = cell_or(b.scope.dropped_attributes_count, r, 0u32);
    if name.len() == 0 && version.len() == 0 && attributes.len() == 0 && dropped == 0 {
        None
    } else {
        Some(ScopeModel { name, version, attributes, dropped_attributes_count: dropped })
    }
}

fn resource_at(b: &ProfilesBatch, attrs: &Option<Grouped<AttrsBatch>>, row: usize) -> (r: Option<Resource>)
    requires
        attrs matches Some(g) ==> {
            &&& forall|q: int| 0 <= q < g.groups@.len() ==> (#[trigger] g.groups@[q])@ == children(g.batch.parent_id@, q)
            &&& forall|k: int| 0 <= k < g.batch.parent_id@.len() ==> (#[trigger] g.batch.parent_id@[k] matches Some(q) ==> (q as int) < g.groups@.len())
        },
    ensures
        crate::model::common::opt_resource_model(r) == resource_row(
            *b,
            match attrs { Some(g) => Some(*g.batch), None => None },
            row as int,
        ),
{
    let attributes = attrs_for(attrs, cell_at(&b.resource.id, row));
    let dropped = match cell_at(&b.resource.dropped_attributes_count, row) { Some(v) => v, None => 0 };
    proof {
        lemma_key_values_model(attributes@);
    }
    if attributes.len() == 0 && dropped == 0 {
        None
    } else {
        Some(Resource { attributes, dropped_attributes_count: dropped })
    }
}

fn scope_at(b: &ProfilesBatch, attrs: &Option<Grouped<AttrsBatch>>, row: usize) -> (r: Option<InstrumentationScope>)
    requires
        attrs matches Some(g) ==> {
            &&& forall|q: int| 0 <= q < g.groups@.len() ==> (#[trigger] g.groups@[q])@ == children(g.batch.parent_id@, q)
            &&& forall|k: int| 0 <= k < g.batch.parent_id@.len() ==> (#[trigger] g.batch.parent_id@[k] matches Some(q) ==> (q as int) < g.groups@.len())
        },
    ensures
        crate::model::common::opt_scope_model(r) == scope_row(
            *b,
            match attrs { Some(g) => Some(*g.batch), None => None },
            row as int,
        ),
{
    let name = string_at(&b.scope.name, row);
    let version = string_at(&b.scope.version, row);
    let attributes = attrs_for(attrs, cell_at(&b.scope.id, row));
    let dropped = match cell_at(&b.scope.dropped_attributes_count, row) { Some(v) => v, None => 0 };
    proof {
        lemma_key_values_model(attributes@);
    }
    if name.as_str().is_empty() && version.as_str().is_empty() && attributes.len() == 0 && dropped == 0 {
        None
    } else {
        Some(InstrumentationScope { name, version, attributes, dropped_attributes_count: dropped })
    }
}


/* ------------------------------ profiles ------------------------------ */

spec fn samples_grouped_ok(g: Option<Grouped<SampleBatch>>) -> bool {
    g matches Some(g) ==> {
        &&& forall|q: int| 0 <= q < g.groups@.len() ==> (#[trigger] g.groups@[q])@ == children(g.batch.parent_id@, q)
        &&& forall|k: int| 0 <= k < g.batch.parent_id@.len() ==> (#[trigger] g.batch.parent_id@[k] matches Some(q) ==> (q as int) < g.groups@.len())
    }
}

spec fn attrs_grouped_ok(g: Option<Grouped<AttrsBatch>>) -> bool {
    g matches Some(g) ==> {
        &&& forall|q: int| 0 <= q < g.groups@.len() ==> (#[trigger] g.groups@[q])@ == children(g.batch.parent_id@, q)
        &&& forall|k: int| 0 <= k < g.batch.parent_id@.len() ==> (#[trigger] g.batch.parent_id@[k] matches Some(q) ==> (q as int) < g.groups@.len())
    }
}

spec fn batch_of<T>(g: Option<Grouped<T>>) -> Option<T> {
    match g {
        Some(g) => Some(*g.batch),
        None => None,
    }
}

/// A `ValueType` read from a value type struct row (null fields read as `0`).
pub open spec fn value_type_of(v: ValueTypeRow) -> ValueType {
    ValueType {
        type_strindex: match v.type_strindex { Some(x) => x, None => 0 },
        unit_strindex: match v.unit_strindex { Some(x) => x, None => 0 },
        aggregation_temporality: match v.aggregation_temporality { Some(x) => x, None => 0 },
    }
}

/// The sample types held by row `r` of the `sample_type` list column.
pub open spec fn sample_types_cell(col: Column<Vec<ValueTypeRow>>, r: int) -> Seq<ValueType> {
    match cell(col, r) {
        Some(l) => l@.map_values(|v: ValueTypeRow| value_type_of(v)),
        None => Seq::empty(),
    }
}

/// The profile held by root row `r`, with its samples. `period_type`
/// keeps its presence (a null struct row reads as `None`); every other
/// null or absent field reads as its proto default.
pub open spec fn profile_row(b: ProfilesBatch, samples: Option<SampleBatch>, r: int) -> ProfileModel {
    ProfileModel {
        sample_type: sample_types_cell(b.sample_type, r),
        sample: samples_of(samples, cell(b.id, r)),
        location_indices: list_cell(b.location_indices, r, 0i32),
        time_nanos: cell_or(b.time_nanos, r, 0i64),
        duration_nanos: cell_or(b.duration_nanos, r, 0i64),
        period_type: match cell(b.period_type, r) {
            Some(v) => Some(value_type_of(v)),
            None => None,
        },
        period: cell_or(b.period, r, 0i64),
        comment_strindices: list_cell(b.comment_strindices, r, 0i32),
        default_sample_type_index: cell_or(b.default_sample_type_index, r, 0i32),
        profile_id: bytes_cell(b.profile_id, r),
        dropped_attributes_count: cell_or(b.dropped_attributes_count, r, 0u32),
        original_payload_format: string_cell(b.original_payload_format, r),
        original_payload: bytes_cell(b.original_payload, r),
        attribute_indices: list_cell(b.attribute_indices, r, 0i32),
    }
}

fn value_type_at(v: ValueTypeRow) -> (r: ValueType)
    ensures
        r == value_type_of(v),
{
    ValueType {
        type_strindex: match v.type_strindex { Some(x) => x, None => 0 },
        unit_strindex: match v.unit_strindex { Some(x) => x, None => 0 },
        aggregation_temporality: match v.aggregation_temporality { Some(x) => x, None => 0 },
    }
}

fn sample_types_at(col: &Column<Vec<ValueTypeRow>>, row: usize) -> (r: Vec<ValueType>)
    ensures
        r@ == sample_types_cell(*col, row as int),
{
    match col {
        Some(c) => {
            if row < c.len() {
                match &c[row] {
                    Some(l) => {
                        let mut out: Vec<ValueType> = Vec::with_capacity(l.len());
                        let mut i: usize = 0;
                        while i < l.len()
                            invariant
                                i <= l.len(),
                                out@ == l@.subrange(0, i as int).map_values(|v: ValueTypeRow| value_type_of(v)),
                            decreases l.len() - i,
                        {
                            out.push(value_type_at(l[i]));
                            i += 1;
                            assert(out@ =~= l@.subrange(0, i as int).map_values(|v: ValueTypeRow| value_type_of(v)));
                        }
                        assert(l@.subrange(0, l.len() as int) =~= l@);
                        out
                    },
                    None => Vec::new(),
                }
            } else {
                Vec::new()
            }
        },
        None => Vec::new(),
    }
}

fn profile_at(b: &ProfilesBatch, samples: &Option<Grouped<SampleBatch>>, row: usize) -> (r: Profile)
    requires
        samples_grouped_ok(*samples),
    ensures
        r@ == profile_row(*b, batch_of(*samples), row as int),
{
    let smp = samples_for(samples, cell_at(&b.id, row));
    Profile {
        sample_type: sample_types_at(&b.sample_type, row),
        sample: smp,
        location_indices: list_at(&b.location_indices, row, 0i32),
        time_nanos: match cell_at(&b.time_nanos, row) { Some(v) => v, None => 0 },
        duration_nanos: match cell_at(&b.duration_nanos, row) { Some(v) => v, None => 0 },
        period_type: match cell_at(&b.period_type, row) {
            Some(v) => Some(value_type_at(v)),
            None => None,
        },
        period: match cell_at(&b.period, row) { Some(v) => v, None => 0 },
        comment_strindices: list_at(&b.comment_strindices, row, 0i32),
        default_sample_type_index: match cell_at(&b.default_sample_type_index, row) { Some(v) => v, None => 0 },
        profile_id: bytes_at(&b.profile_id, row),
        dropped_attributes_count: match cell_at(&b.dropped_attributes_count, row) { Some(v) => v, None => 0 },
        original_payload_format: string_at(&b.original_payload_format, row),
        original_payload: bytes_at(&b.original_payload, row),
        attribute_indices: list_at(&b.attribute_indices, row, 0i32),
    }
}


/* ------------------------------ tree regrouping ------------------------------ */

/// The end of the run of visited rows, starting at `start`, that share the
/// scope id of row `ord[start]`; `j` is the next position to look at and
/// `end` bounds the run.
pub open spec fn scope_run_end(b: ProfilesBatch, ord: Seq<usize>, start: int, j: int, end: int) -> int
    decreases end - j,
{
    if j >= end || cell(b.scope.id, ord[j] as int) != cell(b.scope.id, ord[start] as int) {
        j
    } else {
        scope_run_end(b, ord, start, j + 1, end)
    }
}

/// The end of the run of visited rows, starting at `start`, that share the
/// resource id of row `ord[start]`.
pub open spec fn resource_run_end(b: ProfilesBatch, ord: Seq<usize>, start: int, j: int, end: int) -> int
    decreases end - j,
{
    if j >= end || cell(b.resource.id, ord[j] as int) != cell(b.resource.id, ord[start] as int) {
        j
    } else {
        resource_run_end(b, ord, start, j + 1, end)
    }
}

pub proof fn lemma_scope_run_end(b: ProfilesBatch, ord: Seq<usize>, start: int, j: int, end: int)
    ensures
        j <= scope_run_end(b, ord, start, j, end),
        j <= end ==> scope_run_end(b, ord, start, j, end) <= end,
    decreases end - j,
{
    if !(j >= end || cell(b.scope.id, ord[j] as int) != cell(b.scope.id, ord[start] as int)) {
        lemma_scope_run_end(b, ord, start, j + 1, end);
    }
}

pub proof fn lemma_resource_run_end(b: ProfilesBatch, ord: Seq<usize>, start: int, j: int, end: int)
    ensures
        j <= resource_run_end(b, ord, start, j, end),
        j <= end ==> resource_run_end(b, ord, start, j, end) <= end,
    decreases end - j,
{
    if !(j >= end || cell(b.resource.id, ord[j] as int) != cell(b.resource.id, ord[start] as int)) {
        lemma_resource_run_end(b, ord, start, j + 1, end);
    }
}

/// One scope group: the visited rows `start..stop`, which share a scope.
/// Scope and schema URL are read from the group's first row.
pub open spec fn scope_group(
    b: ProfilesBatch,
    samples: Option<SampleBatch>,
    scope_attrs: Option<AttrsBatch>,
    ord: Seq<usize>,
    start: int,
    stop: int,
) -> ScopeProfilesModel {
    ScopeProfilesModel {
        scope: scope_row(b, scope_attrs, ord[start] as int),
        profiles: Seq::new((stop - start) as nat, |t: int| profile_row(b, samples, ord[start + t] as int)),
        schema_url: string_cell(b.schema_url, ord[start] as int),
    }
}

/// The visited rows `start..end` split into maximal runs of equal scope id.
pub open spec fn scope_groups(
    b: ProfilesBatch,
    samples: Option<SampleBatch>,
    scope_attrs: Option<AttrsBatch>,
    ord: Seq<usize>,
    start: int,
    end: int,
) -> Seq<ScopeProfilesModel>
    decreases end - start,
{
    if start >= end {
        Seq::empty()
    } else {
        let stop = scope_run_end(b, ord, start, start + 1, end);
        proof {
            lemma_scope_run_end(b, ord, start, start + 1, end);
        }
        seq![scope_group(b, samples, scope_attrs, ord, start, stop)] + scope_groups(b, samples, scope_attrs, ord, stop, end)
    }
}

/// The visited rows from `start` on, split into maximal runs of equal
/// resource id, each split further into scope groups. Resource and schema
/// URL are read from the group's first row.
pub open spec fn resource_groups(
    b: ProfilesBatch,
    samples: Option<SampleBatch>,
    resource_attrs: Option<AttrsBatch>,
    scope_attrs: Option<AttrsBatch>,
    ord: Seq<usize>,
    start: int,
) -> Seq<ResourceProfilesModel>
    decreases ord.len() - start,
{
    if start >= ord.len() {
        Seq::empty()
    } else {
        let stop = resource_run_end(b, ord, start, start + 1, ord.len() as int);
        proof {
            lemma_resource_run_end(b, ord, start, start + 1, ord.len() as int);
        }
        seq![ResourceProfilesModel {
            resource: resource_row(b, resource_attrs, ord[start] as int),
            scope_profiles: scope_groups(b, samples, scope_attrs, ord, start, stop),
            schema_url: string_cell(b.resource.schema_url, ord[start] as int),
        }] + resource_groups(b, samples, resource_attrs, scope_attrs, ord, stop)
    }
}

fn same_id(a: Option<u16>, b: Option<u16>) -> (r: bool)
    ensures
        r == (a == b),
{
    match (a, b) {
        (Some(x), Some(y)) => x == y,
        (None, None) => true,
        _ => false,
    }
}

/// Decode the scope groups of the visited rows `start..end`.
fn decode_scopes(
    b: &ProfilesBatch,
    samples: &Option<Grouped<SampleBatch>>,
    scope_attrs: &Option<Grouped<AttrsBatch>>,
    ord: &Vec<usize>,
    start: usize,
    end: usize,
) -> (r: Vec<ScopeProfiles>)
    requires
        start <= end <= ord@.len(),
        samples_grouped_ok(*samples),
        attrs_grouped_ok(*scope_attrs),
    ensures
        r@.map_values(|s: ScopeProfiles| s@) == scope_groups(*b, batch_of(*samples), batch_of(*scope_attrs), ord@, start as int, end as int),
{
    let ghost all = scope_groups(*b, batch_of(*samples), batch_of(*scope_attrs), ord@, start as int, end as int);
    let mut out: Vec<ScopeProfiles> = Vec::new();
    let mut pos = start;
    while pos < end
        invariant
            start <= pos <= end <= ord@.len(),
            samples_grouped_ok(*samples),
            attrs_grouped_ok(*scope_attrs),
            all == scope_groups(*b, batch_of(*samples), batch_of(*scope_attrs), ord@, start as int, end as int),
            all == out@.map_values(|s: ScopeProfiles| s@)
                + scope_groups(*b, batch_of(*samples), batch_of(*scope_attrs), ord@, pos as int, end as int),
        decreases end - pos,
    {
        let sid = cell_at(&b.scope.id, ord[pos]);
        let mut stop = pos + 1;
        while stop < end && same_id(cell_at(&b.scope.id, ord[stop]), sid)
            invariant
                pos < stop <= end <= ord@.len(),
                sid == cell(b.scope.id, ord@[pos as int] as int),
                scope_run_end(*b, ord@, pos as int, pos + 1, end as int) == scope_run_end(*b, ord@, pos as int, stop as int, end as int),
            decreases end - stop,
        {
            stop += 1;
        }
        let mut profiles: Vec<Profile> = Vec::with_capacity(stop - pos);
        let mut t = pos;
        while t < stop
            invariant
                pos <= t <= stop <= ord@.len(),
                samples_grouped_ok(*samples),
                profiles@.len() == t - pos,
                forall|k: int| 0 <= k < t - pos ==> (#[trigger] profiles@[k])@ == profile_row(*b, batch_of(*samples), ord@[pos + k] as int),
            decreases stop - t,
        {
            profiles.push(profile_at(b, samples, ord[t]));
            t += 1;
        }
        let sp = ScopeProfiles {
            scope: scope_at(b, scope_attrs, ord[pos]),
            profiles,
            schema_url: string_at(&b.schema_url, ord[pos]),
        };
        let ghost prev = out@;
        proof {
            let g = scope_group(*b, batch_of(*samples), batch_of(*scope_attrs), ord@, pos as int, stop as int);
            assert(sp@.profiles =~= g.profiles);
            assert(sp@ == g);
            assert(scope_groups(*b, batch_of(*samples), batch_of(*scope_attrs), ord@, pos as int, end as int)
                == seq![g] + scope_groups(*b, batch_of(*samples), batch_of(*scope_attrs), ord@, stop as int, end as int));
        }
        out.push(sp);
        proof {
            assert(out@.map_values(|s: ScopeProfiles| s@) =~= prev.map_values(|s: ScopeProfiles| s@).push(sp@));
            assert(all =~= out@.map_values(|s: ScopeProfiles| s@)
                + scope_groups(*b, batch_of(*samples), batch_of(*scope_attrs), ord@, stop as int, end as int));
        }
        pos = stop;
    }
    proof {
        assert(all =~= out@.map_values(|s: ScopeProfiles| s@));
    }
    out
}

/// Decode the resource -> scope -> profile tree from the visited root rows.
fn decode_tree(
    b: &ProfilesBatch,
    samples: &Option<Grouped<SampleBatch>>,
    resource_attrs: &Option<Grouped<AttrsBatch>>,
    scope_attrs: &Option<Grouped<AttrsBatch>>,
    ord: &Vec<usize>,
) -> (r: Vec<ResourceProfiles>)
    requires
        samples_grouped_ok(*samples),
        attrs_grouped_ok(*resource_attrs),
        attrs_grouped_ok(*scope_attrs),
    ensures
        r@.map_values(|x: ResourceProfiles| x@) == resource_groups(
            *b,
            batch_of(*samples),
            batch_of(*resource_attrs),
            batch_of(*scope_attrs),
            ord@,
            0,
        ),
{
    let ghost all = resource_groups(*b, batch_of(*samples), batch_of(*resource_attrs), batch_of(*scope_attrs), ord@, 0);
    let mut out: Vec<ResourceProfiles> = Vec::new();
    let mut pos: usize = 0;
    while pos < ord.len()
        invariant
            pos <= ord@.len(),
            samples_grouped_ok(*samples),
            attrs_grouped_ok(*resource_attrs),
            attrs_grouped_ok(*scope_attrs),
            all == resource_groups(*b, batch_of(*samples), batch_of(*resource_attrs), batch_of(*scope_attrs), ord@, 0),
            all == out@.map_values(|x: ResourceProfiles| x@)
                + resource_groups(*b, batch_of(*samples), batch_of(*resource_attrs), batch_of(*scope_attrs), ord@, pos as int),
        decreases ord@.len() - pos,
    {
        let rid = cell_at(&b.resource.id, ord[pos]);
        let mut stop = pos + 1;
        while stop < ord.len() && same_id(cell_at(&b.resource.id, ord[stop]), rid)
            invariant
                pos < stop <= ord@.len(),
                rid == cell(b.resource.id, ord@[pos as int] as int),
                resource_run_end(*b, ord@, pos as int, pos + 1, ord@.len() as int)
                    == resource_run_end(*b, ord@, pos as int, stop as int, ord@.len() as int),
            decreases ord@.len() - stop,
        {
            stop += 1;
        }
        let scopes = decode_scopes(b, samples, scope_attrs, ord, pos, stop);
        let rp = ResourceProfiles {
            resource: resource_at(b, resource_attrs, ord[pos]),
            scope_profiles: scopes,
            schema_url: string_at(&b.resource.schema_url, ord[pos]),
        };
        let ghost prev = out@;
        proof {
            assert(resource_groups(*b, batch_of(*samples), batch_of(*resource_attrs), batch_of(*scope_attrs), ord@, pos as int)
                == seq![rp@] + resource_groups(*b, batch_of(*samples), batch_of(*resource_attrs), batch_of(*scope_attrs), ord@, stop as int));
        }
        out.push(rp);
        proof {
            assert(out@.map_values(|x: ResourceProfiles| x@) =~= prev.map_values(|x: ResourceProfiles| x@).push(rp@));
            assert(all =~= out@.map_values(|x: ResourceProfiles| x@)
                + resource_groups(*b, batch_of(*samples), batch_of(*resource_attrs), batch_of(*scope_attrs), ord@, stop as int));
        }
        pos = stop;
    }
    proof {
        assert(all =~= out@.map_values(|x: ResourceProfiles| x@));
    }
    out
}


/* ------------------------------ the whole payload ------------------------------ */

/// Two visit orders of the same root batch are equal: the visit order is
/// unique.
pub proof fn lemma_visit_order_unique(b: ProfilesBatch, o1: Seq<usize>, o2: Seq<usize>)
    requires
        is_visit_order(b, o1),
        is_visit_order(b, o2),
    ensures
        o1 == o2,
{
    assert forall|i: int| 0 <= i < o1.len() implies o1[i] == o2[i] by {
        lemma_visit_orders_agree(b, o1, o2, i);
    }
    assert(o1 =~= o2);
}

proof fn lemma_visit_orders_agree(b: ProfilesBatch, o1: Seq<usize>, o2: Seq<usize>, i: int)
    requires
        is_visit_order(b, o1),
        is_visit_order(b, o2),
        0 <= i < o1.len(),
    ensures
        forall|k: int| 0 <= k <= i ==> o1[k] == o2[k],
    decreases i,
{
    if i > 0 {
        lemma_visit_orders_agree(b, o1, o2, i - 1);
    }
    let x = o1[i];
    let y = o2[i];
    if x != y {
        assert((o2[i] as int) < b.num_rows);
        assert((o1[i] as int) < b.num_rows);
        assert(o1.contains((y as int) as usize));
        assert(o2.contains((x as int) as usize));
        let j = choose|j: int| 0 <= j < o1.len() && o1[j] == y;
        let k = choose|k: int| 0 <= k < o2.len() && o2[k] == x;
        if visits_before(b, x as int, y as int) {
            if k > i {
                assert(visits_before(b, y as int, x as int));
            } else {
                assert(k < i);
                assert(o1[k] == x);
                assert(visits_before(b, o1[k] as int, o1[i] as int));
            }
        } else {
            assert(visits_before(b, y as int, x as int));
            if j > i {
                assert(visits_before(b, x as int, y as int));
            } else {
                assert(j < i);
                assert(o2[j] == y);
                assert(visits_before(b, o2[j] as int, o2[i] as int));
            }
        }
    }
}

/// The visit order of the root rows of `b`.
pub open spec fn visit_order(b: ProfilesBatch) -> Seq<usize> {
    choose|o: Seq<usize>| is_visit_order(b, o)
}

pub open spec fn mapping_ids_ok(recs: ProfilesRecords) -> bool {
    recs.mapping_table matches Some(t) ==> interned_ids_valid(t.id, t.num_rows as int)
}

pub open spec fn location_ids_ok(recs: ProfilesRecords) -> bool {
    recs.location_table matches Some(t) ==> interned_ids_valid(t.id, t.num_rows as int)
}

pub open spec fn function_ids_ok(recs: ProfilesRecords) -> bool {
    recs.function_table matches Some(t) ==> interned_ids_valid(t.id, t.num_rows as int)
}

pub open spec fn link_ids_ok(recs: ProfilesRecords) -> bool {
    recs.link_table matches Some(t) ==> interned_ids_valid(t.id, t.num_rows as int)
}

pub open spec fn string_ids_ok(recs: ProfilesRecords) -> bool {
    recs.string_table matches Some(t) ==> interned_ids_valid(t.id, t.num_rows as int)
}

pub open spec fn attribute_ids_ok(recs: ProfilesRecords) -> bool {
    recs.attribute_table matches Some(t) ==> interned_ids_valid(t.id, t.num_rows as int)
}

pub open spec fn attribute_units_ids_ok(recs: ProfilesRecords) -> bool {
    recs.attribute_units matches Some(t) ==> interned_ids_valid(t.id, t.num_rows as int)
}

/// The first interned table, in decoding order (mapping, location,
/// function, link, string, attribute, attribute units), whose ids are not
/// exactly its row positions.
pub open spec fn first_invalid_table(recs: ProfilesRecords) -> Option<ProfilesTable> {
    if !mapping_ids_ok(recs) {
        Some(ProfilesTable::Mapping)
    } else if !location_ids_ok(recs) {
        Some(ProfilesTable::Location)
    } else if !function_ids_ok(recs) {
        Some(ProfilesTable::Function)
    } else if !link_ids_ok(recs) {
        Some(ProfilesTable::Link)
    } else if !string_ids_ok(recs) {
        Some(ProfilesTable::String)
    } else if !attribute_ids_ok(recs) {
        Some(ProfilesTable::Attribute)
    } else if !attribute_units_ids_ok(recs) {
        Some(ProfilesTable::AttributeUnits)
    } else {
        None
    }
}

/// The number of rows of the interned table `t` of `recs` (zero when the
/// payload has no such batch).
pub open spec fn interned_table_rows(recs: ProfilesRecords, t: ProfilesTable) -> nat {
    match t {
        ProfilesTable::Mapping => match recs.mapping_table { Some(b) => b.num_rows as nat, None => 0 },
        ProfilesTable::Location => match recs.location_table { Some(b) => b.num_rows as nat, None => 0 },
        ProfilesTable::Function => match recs.function_table { Some(b) => b.num_rows as nat, None => 0 },
        ProfilesTable::Link => match recs.link_table { Some(b) => b.num_rows as nat, None => 0 },
        ProfilesTable::String => match recs.string_table { Some(b) => b.num_rows as nat, None => 0 },
        ProfilesTable::Attribute => match recs.attribute_table { Some(b) => b.num_rows as nat, None => 0 },
        ProfilesTable::AttributeUnits => match recs.attribute_units { Some(b) => b.num_rows as nat, None => 0 },
        _ => 0,
    }
}

/// The profiles data that an OTAP profiles payload holds: each lookup
/// table transposed back in id order (empty when its batch is absent), and
/// the tree regrouped from the root rows in visit order (empty when there
/// is no root batch).
pub open spec fn reconstructed(recs: ProfilesRecords) -> ProfilesDataModel {
    ProfilesDataModel {
        resource_profiles: match recs.profiles {
            Some(b) => resource_groups(b, recs.sample, recs.resource_attrs, recs.scope_attrs, visit_order(b), 0),
            None => Seq::empty(),
        },
        mapping_table: match recs.mapping_table {
            Some(t) => Seq::new(t.num_rows as nat, |p: int| mapping_row(t, interned_row(t.id, t.num_rows as int, p))),
            None => Seq::empty(),
        },
        location_table: match recs.location_table {
            Some(t) => Seq::new(t.num_rows as nat, |p: int| location_row(t, interned_row(t.id, t.num_rows as int, p))),
            None => Seq::empty(),
        },
        function_table: match recs.function_table {
            Some(t) => Seq::new(t.num_rows as nat, |p: int| function_row(t, interned_row(t.id, t.num_rows as int, p))),
            None => Seq::empty(),
        },
        link_table: match recs.link_table {
            Some(t) => Seq::new(t.num_rows as nat, |p: int| link_row(t, interned_row(t.id, t.num_rows as int, p))),
            None => Seq::empty(),
        },
        string_table: match recs.string_table {
            Some(t) => Seq::new(t.num_rows as nat, |p: int| string_cell(t.value, interned_row(t.id, t.num_rows as int, p))),
            None => Seq::empty(),
        },
        attribute_table: match recs.attribute_table {
            Some(t) => Seq::new(t.num_rows as nat, |p: int| attribute_row(t, interned_row(t.id, t.num_rows as int, p))),
            None => Seq::empty(),
        },
        attribute_units: match recs.attribute_units {
            Some(t) => Seq::new(t.num_rows as nat, |p: int| attribute_unit_row(t, interned_row(t.id, t.num_rows as int, p))),
            None => Seq::empty(),
        },
    }
}

fn group_samples<'a>(b: &'a Option<SampleBatch>) -> (r: Option<Grouped<'a, SampleBatch>>)
    ensures
        samples_grouped_ok(r),
        batch_of(r) == *b,
{
    match b {
        Some(sb) => Some(Grouped { batch: sb, groups: group_by_parent_id(&sb.parent_id) }),
        None => None,
    }
}

fn group_attrs<'a>(b: &'a Option<AttrsBatch>) -> (r: Option<Grouped<'a, AttrsBatch>>)
    ensures
        attrs_grouped_ok(r),
        batch_of(r) == *b,
{
    match b {
        Some(ab) => Some(Grouped { batch: ab, groups: group_by_parent_id(&ab.parent_id) }),
        None => None,
    }
}

/// Reconstruct the OTLP profiles data held by an OTAP profiles payload.
///
/// The interned tables are transposed back verbatim; a table whose ids are
/// not exactly its row positions is refused with
/// [`Error::UnexpectedRecordBatchState`], whose reason names the table (the
/// first such table in decoding order).
/// A missing root batch means zero profiles. Every table-referencing index
/// of the result is then validated: an index out of the range of its table
/// yields [`Error::InvalidProfilesTableIndex`].
pub fn profiles_data_from(recs: &ProfilesRecords) -> (r: Result<ProfilesData, Error>)
    ensures
        first_invalid_table(*recs) matches Some(t) ==> (r matches Err(e)
            && is_interned_ids_error(e, t, interned_table_rows(*recs, t))),
        first_invalid_table(*recs) is None ==> (r is Ok <==> table_indices_valid(reconstructed(*recs))),
        first_invalid_table(*recs) is None ==> (r matches Err(e) ==> reports_violation(reconstructed(*recs), e)),
        first_invalid_table(*recs) is None ==> (r matches Err(e)
            ==> Err::<(), Error>(e) == verdict(reconstructed(*recs), all_checks(reconstructed(*recs)))),
        r matches Ok(d) ==> d@ == reconstructed(*recs),
{
    let mapping_table = match &recs.mapping_table {
        Some(t) => decode_mapping_table(t)?,
        None => Vec::new(),
    };
    let location_table = match &recs.location_table {
        Some(t) => decode_location_table(t)?,
        None => Vec::new(),
    };
    let function_table = match &recs.function_table {
        Some(t) => decode_function_table(t)?,
        None => Vec::new(),
    };
    let link_table = match &recs.link_table {
        Some(t) => decode_link_table(t)?,
        None => Vec::new(),
    };
    let string_table = match &recs.string_table {
        Some(t) => decode_string_table(t)?,
        None => Vec::new(),
    };
    let attribute_table = match &recs.attribute_table {
        Some(t) => decode_attribute_table(t)?,
        None => Vec::new(),
    };
    let attribute_units = match &recs.attribute_units {
        Some(t) => decode_attribute_units(t)?,
        None => Vec::new(),
    };

    let resource_profiles = match &recs.profiles {
        Some(b) => {
            let samples = group_samples(&recs.sample);
            let resource_attrs = group_attrs(&recs.resource_attrs);
            let scope_attrs = group_attrs(&recs.scope_attrs);
            let ord = root_visit_order(b);
            proof {
                let o = visit_order(*b);
                assert(is_visit_order(*b, ord@));
                assert(is_visit_order(*b, o));
                lemma_visit_order_unique(*b, ord@, o);
            }
            decode_tree(b, &samples, &resource_attrs, &scope_attrs, &ord)
        },
        None => Vec::new(),
    };

    let data = ProfilesData {
        resource_profiles,
        mapping_table,
        location_table,
        function_table,
        link_table,
        string_table,
        attribute_table,
        attribute_units,
    };
    proof {
        lemma_key_values_model(data.attribute_table@);
        let m = reconstructed(*recs);
        assert(data@.resource_profiles =~= m.resource_profiles);
        assert(data@.mapping_table =~= m.mapping_table);
        assert(data@.location_table =~= m.location_table);
        assert(data@.function_table =~= m.function_table);
        assert(data@.link_table =~= m.link_table);
        assert(data@.string_table =~= m.string_table);
        assert(data@.attribute_table =~= m.attribute_table);
        assert(data@.attribute_units =~= m.attribute_units);
        assert(data@ == m);
    }
    match validate_table_indices(&data) {
        Ok(()) => Ok(data),
        Err(e) => Err(e),
    }
}

/// Encoder from OTAP profiles record batches to OTLP `ProfilesData` protobuf
/// bytes: the bytes are those of the profiles data that
/// [`profiles_data_from`] reconstructs, so the output is always in the
/// canonical protobuf form. The reconstruction is stateless, so the encoder
/// carries no state.
#[derive(Debug, Default)]
pub struct ProfilesProtoBytesEncoder;

impl ProfilesProtoBytesEncoder {
    /// A new encoder.
    pub fn new() -> (r: ProfilesProtoBytesEncoder)
        ensures
            r == ProfilesProtoBytesEncoder,
    {
        ProfilesProtoBytesEncoder
    }
}

} // verus!
