//! Builders of the OTAP profiles record batches.
//!
//! OTLP profiles is already dictionary-normalized, so the builders perform a
//! faithful columnar transposition: each lookup table becomes its interned
//! table with row order kept and `id` equal to the row position, and every
//! index value is copied as-is (index `0` is a valid reference everywhere, so
//! no zero-to-null mapping is applied to index columns). Only the fields
//! that carry presence (`link_index`, `mapping_index`, `period_type`) and the
//! ids that are not of their fixed width are appended as null.
use vstd::prelude::*;
use crate::error::{Error, ProfilesTable};
use crate::model::common::{copy_any_value, opt_any_value_model, AnyValue, AnyValueModel};
use crate::model::profiles::{Line, ValueType};
use crate::otap::profiles::{
    AttributeTableBatch, AttributeUnitsBatch, Column, FunctionTableBatch, LineRow,
    LinkTableBatch, LocationTableBatch, MappingTableBatch, ProfilesBatch, ResourceColumns,
    SampleBatch, ScopeColumns, StringTableBatch, ValueTypeRow,
};

verus! {

/* ------------------------------ cells ------------------------------ */

/// The value of a string cell.
pub open spec fn string_cell_of(c: Option<String>) -> Option<Seq<char>> {
    match c {
        Some(s) => Some(s@),
        None => None,
    }
}

/// The value of a bytes cell.
pub open spec fn byte_cell_of(c: Option<Vec<u8>>) -> Option<Seq<u8>> {
    match c {
        Some(b) => Some(b@),
        None => None,
    }
}

/// The value of a list cell.
pub open spec fn list_cell_of<T>(c: Option<Vec<Option<T>>>) -> Option<Seq<Option<T>>> {
    match c {
        Some(l) => Some(l@),
        None => None,
    }
}

/// The value of a cell holding a list of structs.
pub open spec fn rows_cell_of<R>(c: Option<Vec<R>>) -> Option<Seq<R>> {
    match c {
        Some(l) => Some(l@),
        None => None,
    }
}

/// The items of a list, all present.
pub open spec fn present<T>(s: Seq<T>) -> Seq<Option<T>> {
    s.map_values(|x: T| Some(x))
}

/// The struct row of a line.
pub open spec fn line_row(l: Line) -> LineRow {
    LineRow { function_index: Some(l.function_index), line: Some(l.line), column: Some(l.column) }
}

/// The struct row of a value type.
pub open spec fn value_type_row(v: ValueType) -> ValueTypeRow {
    ValueTypeRow {
        type_strindex: Some(v.type_strindex),
        unit_strindex: Some(v.unit_strindex),
        aggregation_temporality: Some(v.aggregation_temporality),
    }
}

/// `c` holds exactly `cells`: absent when nothing was appended.
pub open spec fn column_holds<T>(c: Column<T>, cells: Seq<Option<T>>) -> bool {
    if cells.len() == 0 {
        c is None
    } else {
        c matches Some(v) && v@ == cells
    }
}

/// A string column holds exactly `cells`: absent when nothing was appended.
pub open spec fn string_column_holds(c: Column<String>, cells: Seq<Option<Seq<char>>>) -> bool {
    if cells.len() == 0 {
        c is None
    } else {
        c matches Some(v) && v@.map_values(|x: Option<String>| string_cell_of(x)) == cells
    }
}

/// A bytes column holds exactly `cells`: absent when nothing was appended.
pub open spec fn byte_column_holds(c: Column<Vec<u8>>, cells: Seq<Option<Seq<u8>>>) -> bool {
    if cells.len() == 0 {
        c is None
    } else {
        c matches Some(v) && v@.map_values(|x: Option<Vec<u8>>| byte_cell_of(x)) == cells
    }
}

/// A list column holds exactly `cells`: absent when nothing was appended.
pub open spec fn list_column_holds<T>(c: Column<Vec<Option<T>>>, cells: Seq<Option<Seq<Option<T>>>>) -> bool {
    if cells.len() == 0 {
        c is None
    } else {
        c matches Some(v) && v@.map_values(|x: Option<Vec<Option<T>>>| list_cell_of(x)) == cells
    }
}

/// A column of struct lists holds exactly `cells`: absent when nothing was
/// appended.
pub open spec fn rows_column_holds<R>(c: Column<Vec<R>>, cells: Seq<Option<Seq<R>>>) -> bool {
    if cells.len() == 0 {
        c is None
    } else {
        c matches Some(v) && v@.map_values(|x: Option<Vec<R>>| rows_cell_of(x)) == cells
    }
}

/// The columns of lengths `lens` can form one batch: the non-empty ones all
/// have the same length.
pub open spec fn lengths_agree(lens: Seq<int>) -> bool {
    forall|i: int, j: int| 0 <= i < lens.len() && 0 <= j < lens.len() && lens[i] > 0 && lens[j] > 0
        ==> #[trigger] lens[i] == #[trigger] lens[j]
}

/// The largest of `lens` (zero when empty).
pub open spec fn longest(lens: Seq<int>) -> int
    decreases lens.len(),
{
    if lens.len() == 0 {
        0
    } else {
        let rest = longest(lens.drop_last());
        if lens.last() > rest { lens.last() } else { rest }
    }
}

fn lengths_agree_of(lens: &Vec<usize>) -> (r: bool)
    ensures
        r == lengths_agree(lens@.map_values(|x: usize| x as int)),
{
    let ghost ls = lens@.map_values(|x: usize| x as int);
    let ghost mut wit: int = 0;
    let mut first: usize = 0;
    let mut i: usize = 0;
    while i < lens.len()
        invariant
            i <= lens.len(),
            ls == lens@.map_values(|x: usize| x as int),
            first > 0 ==> 0 <= wit < i && ls[wit] == first,
            first == 0 ==> forall|k: int| 0 <= k < i ==> ls[k] == 0,
            forall|k: int| 0 <= k < i && ls[k] > 0 ==> ls[k] == first,
        decreases lens.len() - i,
    {
        if lens[i] > 0 {
            if first == 0 {
                first = lens[i];
                proof {
                    wit = i as int;
                }
            } else if lens[i] != first {
                assert(!lengths_agree(ls)) by {
                    assert(ls[wit] > 0 && ls[i as int] > 0 && ls[wit] != ls[i as int]);
                }
                return false;
            }
        }
        i += 1;
    }
    true
}

fn longest_of(lens: &Vec<usize>) -> (r: usize)
    ensures
        r == longest(lens@.map_values(|x: usize| x as int)),
{
    let ghost ls = lens@.map_values(|x: usize| x as int);
    let mut best: usize = 0;
    let mut i: usize = 0;
    while i < lens.len()
        invariant
            i <= lens.len(),
            ls == lens@.map_values(|x: usize| x as int),
            best == longest(ls.subrange(0, i as int)),
        decreases lens.len() - i,
    {
        assert(ls.subrange(0, i + 1).drop_last() =~= ls.subrange(0, i as int));
        if lens[i] > best {
            best = lens[i];
        }
        i += 1;
    }
    assert(ls.subrange(0, lens.len() as int) =~= ls);
    best
}

/// The cells appended so far as a column (absent when there are none); the
/// cells are moved out.
fn finish_cells<T>(v: &mut Vec<Option<T>>) -> (r: Column<T>)
    ensures
        final(v)@ == Seq::<Option<T>>::empty(),
        old(v)@.len() == 0 ==> r is None,
        old(v)@.len() > 0 ==> (r matches Some(c) && c@ == old(v)@),
{
    let mut cells: Vec<Option<T>> = Vec::new();
    std::mem::swap(v, &mut cells);
    if cells.len() == 0 {
        None
    } else {
        Some(cells)
    }
}

/// The cells appended so far; the cells are moved out.
fn take_cells<T>(v: &mut Vec<T>) -> (r: Vec<T>)
    ensures
        final(v)@ == Seq::<T>::empty(),
        r@ == old(v)@,
{
    let mut cells: Vec<T> = Vec::new();
    std::mem::swap(v, &mut cells);
    cells
}

/// The items of a list, all present.
fn present_items<T: Copy>(val: &[T]) -> (r: Vec<Option<T>>)
    ensures
        r@ == present(val@),
{
    let mut out: Vec<Option<T>> = Vec::with_capacity(val.len());
    let mut i: usize = 0;
    while i < val.len()
        invariant
            i <= val.len(),
            out@ == present(val@.subrange(0, i as int)),
        decreases val.len() - i,
    {
        out.push(Some(val[i]));
        i += 1;
        assert(out@ =~= present(val@.subrange(0, i as int)));
    }
    assert(val@.subrange(0, val.len() as int) =~= val@);
    out
}

/// A copy of a byte string.
fn bytes_of(val: &[u8]) -> (r: Vec<u8>)
    ensures
        r@ == val@,
{
    let mut out: Vec<u8> = Vec::with_capacity(val.len());
    let mut i: usize = 0;
    while i < val.len()
        invariant
            i <= val.len(),
            out@ == val@.subrange(0, i as int),
        decreases val.len() - i,
    {
        out.push(val[i]);
        i += 1;
        assert(out@ =~= val@.subrange(0, i as int));
    }
    assert(val@.subrange(0, val.len() as int) =~= val@);
    out
}

/// The struct rows of a list of lines.
fn line_rows(val: &[Line]) -> (r: Vec<LineRow>)
    ensures
        r@ == val@.map_values(|l: Line| line_row(l)),
{
    let mut out: Vec<LineRow> = Vec::with_capacity(val.len());
    let mut i: usize = 0;
    while i < val.len()
        invariant
            i <= val.len(),
            out@ == val@.subrange(0, i as int).map_values(|l: Line| line_row(l)),
        decreases val.len() - i,
    {
        let l = val[i];
        out.push(LineRow { function_index: Some(l.function_index), line: Some(l.line), column: Some(l.column) });
        i += 1;
        assert(out@ =~= val@.subrange(0, i as int).map_values(|l: Line| line_row(l)));
    }
    assert(val@.subrange(0, val.len() as int) =~= val@);
    out
}

/// The struct rows of a list of value types.
fn value_type_rows(val: &[ValueType]) -> (r: Vec<ValueTypeRow>)
    ensures
        r@ == val@.map_values(|v: ValueType| value_type_row(v)),
{
    let mut out: Vec<ValueTypeRow> = Vec::with_capacity(val.len());
    let mut i: usize = 0;
    while i < val.len()
        invariant
            i <= val.len(),
            out@ == val@.subrange(0, i as int).map_values(|v: ValueType| value_type_row(v)),
        decreases val.len() - i,
    {
        let v = val[i];
        out.push(ValueTypeRow {
            type_strindex: Some(v.type_strindex),
            unit_strindex: Some(v.unit_strindex),
            aggregation_temporality: Some(v.aggregation_temporality),
        });
        i += 1;
        assert(out@ =~= val@.subrange(0, i as int).map_values(|v: ValueType| value_type_row(v)));
    }
    assert(val@.subrange(0, val.len() as int) =~= val@);
    out
}

/// Some cell of `cells` is present.
pub open spec fn has_present<T>(cells: Seq<Option<T>>) -> bool {
    exists|i: int| 0 <= i < cells.len() && #[trigger] cells[i] is Some
}

/// A column that is omitted when every cell is null holds exactly `cells`.
pub open spec fn present_column_holds<T>(c: Column<T>, cells: Seq<Option<T>>) -> bool {
    if !has_present(cells) {
        c is None
    } else {
        c matches Some(v) && v@ == cells
    }
}

/// The number of cells when some cell is present, zero otherwise.
fn present_count<T>(v: &Vec<Option<T>>) -> (r: usize)
    ensures
        r == (if has_present(v@) { v@.len() } else { 0 }),
{
    let mut i: usize = 0;
    while i < v.len()
        invariant
            i <= v.len(),
            forall|k: int| 0 <= k < i ==> v@[k] is None,
        decreases v.len() - i,
    {
        if v[i].is_some() {
            return v.len();
        }
        i += 1;
    }
    0
}

/// The cells appended so far as a column that is omitted when every cell is
/// null; the cells are moved out.
fn finish_present_cells<T>(v: &mut Vec<Option<T>>) -> (r: Column<T>)
    ensures
        final(v)@ == Seq::<Option<T>>::empty(),
        present_column_holds(r, old(v)@),
{
    let any = present_count(v) > 0;
    let mut cells: Vec<Option<T>> = Vec::new();
    std::mem::swap(v, &mut cells);
    if any {
        Some(cells)
    } else {
        None
    }
}

/// Some cell of a flag column holds `true`.
pub open spec fn has_true(cells: Seq<Option<bool>>) -> bool {
    exists|i: int| 0 <= i < cells.len() && #[trigger] cells[i] == Some(true)
}

/// A flag column, which is omitted when no cell holds `true` (an omitted
/// flag reads back as `false`), holds exactly `cells`.
pub open spec fn flag_column_holds(c: Column<bool>, cells: Seq<Option<bool>>) -> bool {
    if !has_true(cells) {
        c is None
    } else {
        c matches Some(v) && v@ == cells
    }
}

/// The number of rows that a flag column with `cells` brings to its batch:
/// none when it is omitted.
pub open spec fn flag_len(cells: Seq<Option<bool>>) -> int {
    if has_true(cells) { cells.len() as int } else { 0 }
}

/// The number of cells when some cell holds `true`, zero otherwise.
fn flag_count(v: &Vec<Option<bool>>) -> (r: usize)
    ensures
        r == flag_len(v@),
{
    let mut i: usize = 0;
    while i < v.len()
        invariant
            i <= v.len(),
            forall|k: int| 0 <= k < i ==> v@[k] != Some(true),
        decreases v.len() - i,
    {
        if let Some(true) = v[i] {
            assert(v@[i as int] == Some(true));
            return v.len();
        }
        i += 1;
    }
    0
}

/// The cells appended so far as a flag column, omitted when no cell holds
/// `true`; the cells are moved out.
fn finish_flag_cells(v: &mut Vec<Option<bool>>) -> (r: Column<bool>)
    ensures
        final(v)@ == Seq::<Option<bool>>::empty(),
        flag_column_holds(r, old(v)@),
{
    let any = flag_count(v) > 0;
    let mut cells: Vec<Option<bool>> = Vec::new();
    std::mem::swap(v, &mut cells);
    if any {
        Some(cells)
    } else {
        None
    }
}

/* ------------------------------ builders ------------------------------ */

/// Model of a [`StringTableRecordBatchBuilder`]: the cells appended to each column so far.
#[verifier::ext_equal]
pub struct StringTableCells {
    pub id: Seq<Option<u32>>,
    pub value: Seq<Option<Seq<char>>>,
}

/// Builder for the interned `StringTable` batch: one row per entry of the
/// string table, in table order, with `id` equal to the row position.
pub struct StringTableRecordBatchBuilder {
    id: Vec<Option<u32>>,
    value: Vec<Option<String>>,
}

impl View for StringTableRecordBatchBuilder {
    type V = StringTableCells;

    closed spec fn view(&self) -> StringTableCells {
        StringTableCells {
            id: self.id@,
            value: self.value@.map_values(|c: Option<String>| string_cell_of(c)),
        }
    }
}

/// The model of a [`StringTableRecordBatchBuilder`] with nothing appended.
pub open spec fn no_string_table_cells() -> StringTableCells {
    StringTableCells {
        id: Seq::empty(),
        value: Seq::empty(),
    }
}

impl StringTableRecordBatchBuilder {
    /// A builder with nothing appended.
    pub fn new() -> (r: StringTableRecordBatchBuilder)
        ensures
            r@ == no_string_table_cells(),
    {
        let r = StringTableRecordBatchBuilder { id: Vec::new(), value: Vec::new() };
        assert(r@ =~= no_string_table_cells());
        r
    }

    /// Append a string table entry (verbatim, empty strings included).
    pub fn append(&mut self, id: u32, val: &str)
        ensures
            final(self)@ == (StringTableCells { id: old(self)@.id.push(Some(id)), value: old(self)@.value.push(Some(val@)), ..old(self)@ }),
    {
        self.id.push(Some(id));
        self.value.push(Some(String::from_str(val)));
        assert(self@ =~= (StringTableCells { id: old(self)@.id.push(Some(id)), value: old(self)@.value.push(Some(val@)), ..old(self)@ }));
    }

    /// The record batch of the appended rows, each column holding its cells
    /// as appended; a column to which nothing was appended is omitted. Fails
    /// when two non-empty columns differ in length. The builder is left empty.
    pub fn finish(&mut self) -> (r: Result<StringTableBatch, Error>)
        ensures
            r is Ok <==> lengths_agree(seq![old(self)@.id.len() as int, old(self)@.value.len() as int]),
            r is Err ==> r == Err::<StringTableBatch, Error>(Error::ColumnLengthMismatch { table: ProfilesTable::String }),
            r matches Ok(b) ==> {
                &&& b.num_rows == longest(seq![old(self)@.id.len() as int, old(self)@.value.len() as int])
                &&& column_holds(b.id, old(self)@.id)
                &&& string_column_holds(b.value, old(self)@.value)
            },
            final(self)@ == no_string_table_cells(),
    {
        let lens: Vec<usize> = vec![self.id.len(), self.value.len()];
        proof {
            assert(lens@.map_values(|x: usize| x as int) =~= seq![old(self)@.id.len() as int, old(self)@.value.len() as int]);
        }
        let agree = lengths_agree_of(&lens);
        let n = longest_of(&lens);
        let id = finish_cells(&mut self.id);
        let value = finish_cells(&mut self.value);
        assert(self@ =~= no_string_table_cells());
        if !agree {
            return Err(Error::ColumnLengthMismatch { table: ProfilesTable::String });
        }
        Ok(StringTableBatch { num_rows: n, id, value })
    }
}

/// Model of a [`FunctionTableRecordBatchBuilder`]: the cells appended to each column so far.
#[verifier::ext_equal]
pub struct FunctionTableCells {
    pub id: Seq<Option<u32>>,
    pub name_strindex: Seq<Option<i32>>,
    pub system_name_strindex: Seq<Option<i32>>,
    pub filename_strindex: Seq<Option<i32>>,
    pub start_line: Seq<Option<i64>>,
}

/// Builder for the interned `FunctionTable` batch: one row per entry of the
/// function table, in table order, with `id` equal to the row position.
pub struct FunctionTableRecordBatchBuilder {
    id: Vec<Option<u32>>,
    name_strindex: Vec<Option<i32>>,
    system_name_strindex: Vec<Option<i32>>,
    filename_strindex: Vec<Option<i32>>,
    start_line: Vec<Option<i64>>,
}

impl View for FunctionTableRecordBatchBuilder {
    type V = FunctionTableCells;

    closed spec fn view(&self) -> FunctionTableCells {
        FunctionTableCells {
            id: self.id@,
            name_strindex: self.name_strindex@,
            system_name_strindex: self.system_name_strindex@,
            filename_strindex: self.filename_strindex@,
            start_line: self.start_line@,
        }
    }
}

/// The model of a [`FunctionTableRecordBatchBuilder`] with nothing appended.
pub open spec fn no_function_table_cells() -> FunctionTableCells {
    FunctionTableCells {
        id: Seq::empty(),
        name_strindex: Seq::empty(),
        system_name_strindex: Seq::empty(),
        filename_strindex: Seq::empty(),
        start_line: Seq::empty(),
    }
}

impl FunctionTableRecordBatchBuilder {
    /// A builder with nothing appended.
    pub fn new() -> (r: FunctionTableRecordBatchBuilder)
        ensures
            r@ == no_function_table_cells(),
    {
        let r = FunctionTableRecordBatchBuilder { id: Vec::new(), name_strindex: Vec::new(), system_name_strindex: Vec::new(), filename_strindex: Vec::new(), start_line: Vec::new() };
        assert(r@ =~= no_function_table_cells());
        r
    }

    /// Append a value to the `id` column.
    pub fn append_id(&mut self, val: u32)
        ensures
            final(self)@ == (FunctionTableCells { id: old(self)@.id.push(Some(val)), ..old(self)@ }),
    {
        self.id.push(Some(val));
        assert(self@ =~= (FunctionTableCells { id: old(self)@.id.push(Some(val)), ..old(self)@ }));
    }

    /// Append a value to the `name_strindex` column, verbatim (`0` included).
    pub fn append_name_strindex(&mut self, val: i32)
        ensures
            final(self)@ == (FunctionTableCells { name_strindex: old(self)@.name_strindex.push(Some(val)), ..old(self)@ }),
    {
        self.name_strindex.push(Some(val));
        assert(self@ =~= (FunctionTableCells { name_strindex: old(self)@.name_strindex.push(Some(val)), ..old(self)@ }));
    }

    /// Append a value to the `system_name_strindex` column, verbatim (`0` included).
    pub fn append_system_name_strindex(&mut self, val: i32)
        ensures
            final(self)@ == (FunctionTableCells { system_name_strindex: old(self)@.system_name_strindex.push(Some(val)), ..old(self)@ }),
    {
        self.system_name_strindex.push(Some(val));
        assert(self@ =~= (FunctionTableCells { system_name_strindex: old(self)@.system_name_strindex.push(Some(val)), ..old(self)@ }));
    }

    /// Append a value to the `filename_strindex` column, verbatim (`0` included).
    pub fn append_filename_strindex(&mut self, val: i32)
        ensures
            final(self)@ == (FunctionTableCells { filename_strindex: old(self)@.filename_strindex.push(Some(val)), ..old(self)@ }),
    {
        self.filename_strindex.push(Some(val));
        assert(self@ =~= (FunctionTableCells { filename_strindex: old(self)@.filename_strindex.push(Some(val)), ..old(self)@ }));
    }

    /// Append a value to the `start_line` column, verbatim (`0` included).
    pub fn append_start_line(&mut self, val: i64)
        ensures
            final(self)@ == (FunctionTableCells { start_line: old(self)@.start_line.push(Some(val)), ..old(self)@ }),
    {
        self.start_line.push(Some(val));
        assert(self@ =~= (FunctionTableCells { start_line: old(self)@.start_line.push(Some(val)), ..old(self)@ }));
    }

    /// The record batch of the appended rows, each column holding its cells
    /// as appended; a column to which nothing was appended is omitted. Fails
    /// when two non-empty columns differ in length. The builder is left empty.
    pub fn finish(&mut self) -> (r: Result<FunctionTableBatch, Error>)
        ensures
            r is Ok <==> lengths_agree(seq![old(self)@.id.len() as int, old(self)@.name_strindex.len() as int, old(self)@.system_name_strindex.len() as int, old(self)@.filename_strindex.len() as int, old(self)@.start_line.len() as int]),
            r is Err ==> r == Err::<FunctionTableBatch, Error>(Error::ColumnLengthMismatch { table: ProfilesTable::Function }),
            r matches Ok(b) ==> {
                &&& b.num_rows == longest(seq![old(self)@.id.len() as int, old(self)@.name_strindex.len() as int, old(self)@.system_name_strindex.len() as int, old(self)@.filename_strindex.len() as int, old(self)@.start_line.len() as int])
                &&& column_holds(b.id, old(self)@.id)
                &&& column_holds(b.name_strindex, old(self)@.name_strindex)
                &&& column_holds(b.system_name_strindex, old(self)@.system_name_strindex)
                &&& column_holds(b.filename_strindex, old(self)@.filename_strindex)
                &&& column_holds(b.start_line, old(self)@.start_line)
            },
            final(self)@ == no_function_table_cells(),
    {
        let lens: Vec<usize> = vec![self.id.len(), self.name_strindex.len(), self.system_name_strindex.len(), self.filename_strindex.len(), self.start_line.len()];
        proof {
            assert(lens@.map_values(|x: usize| x as int) =~= seq![old(self)@.id.len() as int, old(self)@.name_strindex.len() as int, old(self)@.system_name_strindex.len() as int, old(self)@.filename_strindex.len() as int, old(self)@.start_line.len() as int]);
        }
        let agree = lengths_agree_of(&lens);
        let n = longest_of(&lens);
        let id = finish_cells(&mut self.id);
        let name_strindex = finish_cells(&mut self.name_strindex);
        let system_name_strindex = finish_cells(&mut self.system_name_strindex);
        let filename_strindex = finish_cells(&mut self.filename_strindex);
        let start_line = finish_cells(&mut self.start_line);
        assert(self@ =~= no_function_table_cells());
        if !agree {
            return Err(Error::ColumnLengthMismatch { table: ProfilesTable::Function });
        }
        Ok(FunctionTableBatch { num_rows: n, id, name_strindex, system_name_strindex, filename_strindex, start_line })
    }
}

/// Model of a [`MappingTableRecordBatchBuilder`]: the cells appended to each column so far.
#[verifier::ext_equal]
pub struct MappingTableCells {
    pub id: Seq<Option<u32>>,
    pub memory_start: Seq<Option<u64>>,
    pub memory_limit: Seq<Option<u64>>,
    pub file_offset: Seq<Option<u64>>,
    pub filename_strindex: Seq<Option<i32>>,
    pub has_functions: Seq<Option<bool>>,
    pub has_filenames: Seq<Option<bool>>,
    pub has_line_numbers: Seq<Option<bool>>,
    pub has_inline_frames: Seq<Option<bool>>,
    pub attribute_indices: Seq<Option<Seq<Option<i32>>>>,
}

/// Builder for the interned `MappingTable` batch: one row per entry of the
/// mapping table, in table order, with `id` equal to the row position.
pub struct MappingTableRecordBatchBuilder {
    id: Vec<Option<u32>>,
    memory_start: Vec<Option<u64>>,
    memory_limit: Vec<Option<u64>>,
    file_offset: Vec<Option<u64>>,
    filename_strindex: Vec<Option<i32>>,
    has_functions: Vec<Option<bool>>,
    has_filenames: Vec<Option<bool>>,
    has_line_numbers: Vec<Option<bool>>,
    has_inline_frames: Vec<Option<bool>>,
    attribute_indices: Vec<Option<Vec<Option<i32>>>>,
}

impl View for MappingTableRecordBatchBuilder {
    type V = MappingTableCells;

    closed spec fn view(&self) -> MappingTableCells {
        MappingTableCells {
            id: self.id@,
            memory_start: self.memory_start@,
            memory_limit: self.memory_limit@,
            file_offset: self.file_offset@,
            filename_strindex: self.filename_strindex@,
            has_functions: self.has_functions@,
            has_filenames: self.has_filenames@,
            has_line_numbers: self.has_line_numbers@,
            has_inline_frames: self.has_inline_frames@,
            attribute_indices: self.attribute_indices@.map_values(|c: Option<Vec<Option<i32>>>| list_cell_of(c)),
        }
    }
}

/// The model of a [`MappingTableRecordBatchBuilder`] with nothing appended.
pub open spec fn no_mapping_table_cells() -> MappingTableCells {
    MappingTableCells {
        id: Seq::empty(),
        memory_start: Seq::empty(),
        memory_limit: Seq::empty(),
        file_offset: Seq::empty(),
        filename_strindex: Seq::empty(),
        has_functions: Seq::empty(),
        has_filenames: Seq::empty(),
        has_line_numbers: Seq::empty(),
        has_inline_frames: Seq::empty(),
        attribute_indices: Seq::empty(),
    }
}

impl MappingTableRecordBatchBuilder {
    /// A builder with nothing appended.
    pub fn new() -> (r: MappingTableRecordBatchBuilder)
        ensures
            r@ == no_mapping_table_cells(),
    {
        let r = MappingTableRecordBatchBuilder { id: Vec::new(), memory_start: Vec::new(), memory_limit: Vec::new(), file_offset: Vec::new(), filename_strindex: Vec::new(), has_functions: Vec::new(), has_filenames: Vec::new(), has_line_numbers: Vec::new(), has_inline_frames: Vec::new(), attribute_indices: Vec::new() };
        assert(r@ =~= no_mapping_table_cells());
        r
    }

    /// Append a value to the `id` column.
    pub fn append_id(&mut self, val: u32)
        ensures
            final(self)@ == (MappingTableCells { id: old(self)@.id.push(Some(val)), ..old(self)@ }),
    {
        self.id.push(Some(val));
        assert(self@ =~= (MappingTableCells { id: old(self)@.id.push(Some(val)), ..old(self)@ }));
    }

    /// Append a value to the `memory_start` column, verbatim (`0` included).
    pub fn append_memory_start(&mut self, val: u64)
        ensures
            final(self)@ == (MappingTableCells { memory_start: old(self)@.memory_start.push(Some(val)), ..old(self)@ }),
    {
        self.memory_start.push(Some(val));
        assert(self@ =~= (MappingTableCells { memory_start: old(self)@.memory_start.push(Some(val)), ..old(self)@ }));
    }

    /// Append a value to the `memory_limit` column, verbatim (`0` included).
    pub fn append_memory_limit(&mut self, val: u64)
        ensures
            final(self)@ == (MappingTableCells { memory_limit: old(self)@.memory_limit.push(Some(val)), ..old(self)@ }),
    {
        self.memory_limit.push(Some(val));
        assert(self@ =~= (MappingTableCells { memory_limit: old(self)@.memory_limit.push(Some(val)), ..old(self)@ }));
    }

    /// Append a value to the `file_offset` column, verbatim (`0` included).
    pub fn append_file_offset(&mut self, val: u64)
        ensures
            final(self)@ == (MappingTableCells { file_offset: old(self)@.file_offset.push(Some(val)), ..old(self)@ }),
    {
        self.file_offset.push(Some(val));
        assert(self@ =~= (MappingTableCells { file_offset: old(self)@.file_offset.push(Some(val)), ..old(self)@ }));
    }

    /// Append a value to the `filename_strindex` column, verbatim (`0` included).
    pub fn append_filename_strindex(&mut self, val: i32)
        ensures
            final(self)@ == (MappingTableCells { filename_strindex: old(self)@.filename_strindex.push(Some(val)), ..old(self)@ }),
    {
        self.filename_strindex.push(Some(val));
        assert(self@ =~= (MappingTableCells { filename_strindex: old(self)@.filename_strindex.push(Some(val)), ..old(self)@ }));
    }

    /// Append a value to the `has_functions` column.
    pub fn append_has_functions(&mut self, val: bool)
        ensures
            final(self)@ == (MappingTableCells { has_functions: old(self)@.has_functions.push(Some(val)), ..old(self)@ }),
    {
        self.has_functions.push(Some(val));
        assert(self@ =~= (MappingTableCells { has_functions: old(self)@.has_functions.push(Some(val)), ..old(self)@ }));
    }

    /// Append a value to the `has_filenames` column.
    pub fn append_has_filenames(&mut self, val: bool)
        ensures
            final(self)@ == (MappingTableCells { has_filenames: old(self)@.has_filenames.push(Some(val)), ..old(self)@ }),
    {
        self.has_filenames.push(Some(val));
        assert(self@ =~= (MappingTableCells { has_filenames: old(self)@.has_filenames.push(Some(val)), ..old(self)@ }));
    }

    /// Append a value to the `has_line_numbers` column.
    pub fn append_has_line_numbers(&mut self, val: bool)
        ensures
            final(self)@ == (MappingTableCells { has_line_numbers: old(self)@.has_line_numbers.push(Some(val)), ..old(self)@ }),
    {
        self.has_line_numbers.push(Some(val));
        assert(self@ =~= (MappingTableCells { has_line_numbers: old(self)@.has_line_numbers.push(Some(val)), ..old(self)@ }));
    }

    /// Append a value to the `has_inline_frames` column.
    pub fn append_has_inline_frames(&mut self, val: bool)
        ensures
            final(self)@ == (MappingTableCells { has_inline_frames: old(self)@.has_inline_frames.push(Some(val)), ..old(self)@ }),
    {
        self.has_inline_frames.push(Some(val));
        assert(self@ =~= (MappingTableCells { has_inline_frames: old(self)@.has_inline_frames.push(Some(val)), ..old(self)@ }));
    }

    /// Append the mapping's attribute indices as one list row (verbatim).
    pub fn append_attribute_indices(&mut self, val: &[i32])
        ensures
            final(self)@ == (MappingTableCells { attribute_indices: old(self)@.attribute_indices.push(Some(present(val@))), ..old(self)@ }),
    {
        self.attribute_indices.push(Some(present_items(val)));
        assert(self@ =~= (MappingTableCells { attribute_indices: old(self)@.attribute_indices.push(Some(present(val@))), ..old(self)@ }));
    }

    /// The record batch of the appended rows, each column holding its cells
    /// as appended; a column to which nothing was appended is omitted, and so
    /// is a `has_*` flag column in which no row is `true` (it reads back as
    /// all `false`). Fails when two non-empty columns of the batch differ in
    /// length. The builder is left empty.
    pub fn finish(&mut self) -> (r: Result<MappingTableBatch, Error>)
        ensures
            r is Ok <==> lengths_agree(seq![old(self)@.id.len() as int, old(self)@.memory_start.len() as int, old(self)@.memory_limit.len() as int, old(self)@.file_offset.len() as int, old(self)@.filename_strindex.len() as int, flag_len(old(self)@.has_functions), flag_len(old(self)@.has_filenames), flag_len(old(self)@.has_line_numbers), flag_len(old(self)@.has_inline_frames), old(self)@.attribute_indices.len() as int]),
            r is Err ==> r == Err::<MappingTableBatch, Error>(Error::ColumnLengthMismatch { table: ProfilesTable::Mapping }),
            r matches Ok(b) ==> {
                &&& b.num_rows == longest(seq![old(self)@.id.len() as int, old(self)@.memory_start.len() as int, old(self)@.memory_limit.len() as int, old(self)@.file_offset.len() as int, old(self)@.filename_strindex.len() as int, flag_len(old(self)@.has_functions), flag_len(old(self)@.has_filenames), flag_len(old(self)@.has_line_numbers), flag_len(old(self)@.has_inline_frames), old(self)@.attribute_indices.len() as int])
                &&& column_holds(b.id, old(self)@.id)
                &&& column_holds(b.memory_start, old(self)@.memory_start)
                &&& column_holds(b.memory_limit, old(self)@.memory_limit)
                &&& column_holds(b.file_offset, old(self)@.file_offset)
                &&& column_holds(b.filename_strindex, old(self)@.filename_strindex)
                &&& flag_column_holds(b.has_functions, old(self)@.has_functions)
                &&& flag_column_holds(b.has_filenames, old(self)@.has_filenames)
                &&& flag_column_holds(b.has_line_numbers, old(self)@.has_line_numbers)
                &&& flag_column_holds(b.has_inline_frames, old(self)@.has_inline_frames)
                &&& list_column_holds(b.attribute_indices, old(self)@.attribute_indices)
            },
            final(self)@ == no_mapping_table_cells(),
    {
        let lens: Vec<usize> = vec![self.id.len(), self.memory_start.len(), self.memory_limit.len(), self.file_offset.len(), self.filename_strindex.len(), flag_count(&self.has_functions), flag_count(&self.has_filenames), flag_count(&self.has_line_numbers), flag_count(&self.has_inline_frames), self.attribute_indices.len()];
        proof {
            assert(lens@.map_values(|x: usize| x as int) =~= seq![old(self)@.id.len() as int, old(self)@.memory_start.len() as int, old(self)@.memory_limit.len() as int, old(self)@.file_offset.len() as int, old(self)@.filename_strindex.len() as int, flag_len(old(self)@.has_functions), flag_len(old(self)@.has_filenames), flag_len(old(self)@.has_line_numbers), flag_len(old(self)@.has_inline_frames), old(self)@.attribute_indices.len() as int]);
        }
        let agree = lengths_agree_of(&lens);
        let n = longest_of(&lens);
        let id = finish_cells(&mut self.id);
        let memory_start = finish_cells(&mut self.memory_start);
        let memory_limit = finish_cells(&mut self.memory_limit);
        let file_offset = finish_cells(&mut self.file_offset);
        let filename_strindex = finish_cells(&mut self.filename_strindex);
        let has_functions = finish_flag_cells(&mut self.has_functions);
        let has_filenames = finish_flag_cells(&mut self.has_filenames);
        let has_line_numbers = finish_flag_cells(&mut self.has_line_numbers);
        let has_inline_frames = finish_flag_cells(&mut self.has_inline_frames);
        let attribute_indices = finish_cells(&mut self.attribute_indices);
        assert(self@ =~= no_mapping_table_cells());
        if !agree {
            return Err(Error::ColumnLengthMismatch { table: ProfilesTable::Mapping });
        }
        Ok(MappingTableBatch { num_rows: n, id, memory_start, memory_limit, file_offset, filename_strindex, has_functions, has_filenames, has_line_numbers, has_inline_frames, attribute_indices })
    }
}

/// Model of a [`LocationTableRecordBatchBuilder`]: the cells appended to each column so far.
#[verifier::ext_equal]
pub struct LocationTableCells {
    pub id: Seq<Option<u32>>,
    pub mapping_index: Seq<Option<i32>>,
    pub address: Seq<Option<u64>>,
    pub is_folded: Seq<Option<bool>>,
    pub attribute_indices: Seq<Option<Seq<Option<i32>>>>,
    pub line: Seq<Option<Seq<LineRow>>>,
}

/// Builder for the interned `LocationTable` batch: one row per entry of the
/// location table, in table order, with `id` equal to the row position.
pub struct LocationTableRecordBatchBuilder {
    id: Vec<Option<u32>>,
    mapping_index: Vec<Option<i32>>,
    address: Vec<Option<u64>>,
    is_folded: Vec<Option<bool>>,
    attribute_indices: Vec<Option<Vec<Option<i32>>>>,
    line: Vec<Option<Vec<LineRow>>>,
}

impl View for LocationTableRecordBatchBuilder {
    type V = LocationTableCells;

    closed spec fn view(&self) -> LocationTableCells {
        LocationTableCells {
            id: self.id@,
            mapping_index: self.mapping_index@,
            address: self.address@,
            is_folded: self.is_folded@,
            attribute_indices: self.attribute_indices@.map_values(|c: Option<Vec<Option<i32>>>| list_cell_of(c)),
            line: self.line@.map_values(|c: Option<Vec<LineRow>>| rows_cell_of(c)),
        }
    }
}

/// The model of a [`LocationTableRecordBatchBuilder`] with nothing appended.
pub open spec fn no_location_table_cells() -> LocationTableCells {
    LocationTableCells {
        id: Seq::empty(),
        mapping_index: Seq::empty(),
        address: Seq::empty(),
        is_folded: Seq::empty(),
        attribute_indices: Seq::empty(),
        line: Seq::empty(),
    }
}

impl LocationTableRecordBatchBuilder {
    /// A builder with nothing appended.
    pub fn new() -> (r: LocationTableRecordBatchBuilder)
        ensures
            r@ == no_location_table_cells(),
    {
        let r = LocationTableRecordBatchBuilder { id: Vec::new(), mapping_index: Vec::new(), address: Vec::new(), is_folded: Vec::new(), attribute_indices: Vec::new(), line: Vec::new() };
        assert(r@ =~= no_location_table_cells());
        r
    }

    /// Append a value to the `id` column.
    pub fn append_id(&mut self, val: u32)
        ensures
            final(self)@ == (LocationTableCells { id: old(self)@.id.push(Some(val)), ..old(self)@ }),
    {
        self.id.push(Some(val));
        assert(self@ =~= (LocationTableCells { id: old(self)@.id.push(Some(val)), ..old(self)@ }));
    }

    /// Append a value to the `mapping_index` column: `None` (field not present) as
    /// null, `Some` values (including `Some(0)`) verbatim.
    pub fn append_mapping_index(&mut self, val: Option<i32>)
        ensures
            final(self)@ == (LocationTableCells { mapping_index: old(self)@.mapping_index.push(val), ..old(self)@ }),
    {
        self.mapping_index.push(val);
        assert(self@ =~= (LocationTableCells { mapping_index: old(self)@.mapping_index.push(val), ..old(self)@ }));
    }

    /// Append a value to the `address` column, verbatim (`0` included).
    pub fn append_address(&mut self, val: u64)
        ensures
            final(self)@ == (LocationTableCells { address: old(self)@.address.push(Some(val)), ..old(self)@ }),
    {
        self.address.push(Some(val));
        assert(self@ =~= (LocationTableCells { address: old(self)@.address.push(Some(val)), ..old(self)@ }));
    }

    /// Append a value to the `is_folded` column.
    pub fn append_is_folded(&mut self, val: bool)
        ensures
            final(self)@ == (LocationTableCells { is_folded: old(self)@.is_folded.push(Some(val)), ..old(self)@ }),
    {
        self.is_folded.push(Some(val));
        assert(self@ =~= (LocationTableCells { is_folded: old(self)@.is_folded.push(Some(val)), ..old(self)@ }));
    }

    /// Append the location's attribute indices as one list row (verbatim).
    pub fn append_attribute_indices(&mut self, val: &[i32])
        ensures
            final(self)@ == (LocationTableCells { attribute_indices: old(self)@.attribute_indices.push(Some(present(val@))), ..old(self)@ }),
    {
        self.attribute_indices.push(Some(present_items(val)));
        assert(self@ =~= (LocationTableCells { attribute_indices: old(self)@.attribute_indices.push(Some(present(val@))), ..old(self)@ }));
    }

    /// Append the location's lines as one list row of
    /// `(function_index, line, column)` structs.
    pub fn append_lines(&mut self, val: &[Line])
        ensures
            final(self)@ == (LocationTableCells { line: old(self)@.line.push(Some(val@.map_values(|l: Line| line_row(l)))), ..old(self)@ }),
    {
        self.line.push(Some(line_rows(val)));
        assert(self@ =~= (LocationTableCells { line: old(self)@.line.push(Some(val@.map_values(|l: Line| line_row(l)))), ..old(self)@ }));
    }

    /// The record batch of the appended rows, each column holding its cells
    /// as appended; a column to which nothing was appended is omitted, and so
    /// is the `is_folded` column when no row is `true` (it reads back as all
    /// `false`). Fails when two non-empty columns of the batch differ in
    /// length. The builder is left empty.
    pub fn finish(&mut self) -> (r: Result<LocationTableBatch, Error>)
        ensures
            r is Ok <==> lengths_agree(seq![old(self)@.id.len() as int, old(self)@.mapping_index.len() as int, old(self)@.address.len() as int, flag_len(old(self)@.is_folded), old(self)@.attribute_indices.len() as int, old(self)@.line.len() as int]),
            r is Err ==> r == Err::<LocationTableBatch, Error>(Error::ColumnLengthMismatch { table: ProfilesTable::Location }),
            r matches Ok(b) ==> {
                &&& b.num_rows == longest(seq![old(self)@.id.len() as int, old(self)@.mapping_index.len() as int, old(self)@.address.len() as int, flag_len(old(self)@.is_folded), old(self)@.attribute_indices.len() as int, old(self)@.line.len() as int])
                &&& column_holds(b.id, old(self)@.id)
                &&& column_holds(b.mapping_index, old(self)@.mapping_index)
                &&& column_holds(b.address, old(self)@.address)
                &&& flag_column_holds(b.is_folded, old(self)@.is_folded)
                &&& list_column_holds(b.attribute_indices, old(self)@.attribute_indices)
                &&& rows_column_holds(b.line, old(self)@.line)
            },
            final(self)@ == no_location_table_cells(),
    {
        let lens: Vec<usize> = vec![self.id.len(), self.mapping_index.len(), self.address.len(), flag_count(&self.is_folded), self.attribute_indices.len(), self.line.len()];
        proof {
            assert(lens@.map_values(|x: usize| x as int) =~= seq![old(self)@.id.len() as int, old(self)@.mapping_index.len() as int, old(self)@.address.len() as int, flag_len(old(self)@.is_folded), old(self)@.attribute_indices.len() as int, old(self)@.line.len() as int]);
        }
        let agree = lengths_agree_of(&lens);
        let n = longest_of(&lens);
        let id = finish_cells(&mut self.id);
        let mapping_index = finish_cells(&mut self.mapping_index);
        let address = finish_cells(&mut self.address);
        let is_folded = finish_flag_cells(&mut self.is_folded);
        let attribute_indices = finish_cells(&mut self.attribute_indices);
        let line = finish_cells(&mut self.line);
        assert(self@ =~= no_location_table_cells());
        if !agree {
            return Err(Error::ColumnLengthMismatch { table: ProfilesTable::Location });
        }
        Ok(LocationTableBatch { num_rows: n, id, mapping_index, address, is_folded, attribute_indices, line })
    }
}

/// Model of a [`LinkTableRecordBatchBuilder`]: the cells appended to each column so far.
#[verifier::ext_equal]
pub struct LinkTableCells {
    pub id: Seq<Option<u32>>,
    pub trace_id: Seq<Option<Seq<u8>>>,
    pub span_id: Seq<Option<Seq<u8>>>,
}

/// Builder for the interned `LinkTable` batch: one row per entry of the link
/// table, in table order, with `id` equal to the row position.
pub struct LinkTableRecordBatchBuilder {
    id: Vec<Option<u32>>,
    trace_id: Vec<Option<Vec<u8>>>,
    span_id: Vec<Option<Vec<u8>>>,
}

impl View for LinkTableRecordBatchBuilder {
    type V = LinkTableCells;

    closed spec fn view(&self) -> LinkTableCells {
        LinkTableCells {
            id: self.id@,
            trace_id: self.trace_id@.map_values(|c: Option<Vec<u8>>| byte_cell_of(c)),
            span_id: self.span_id@.map_values(|c: Option<Vec<u8>>| byte_cell_of(c)),
        }
    }
}

/// The model of a [`LinkTableRecordBatchBuilder`] with nothing appended.
pub open spec fn no_link_table_cells() -> LinkTableCells {
    LinkTableCells {
        id: Seq::empty(),
        trace_id: Seq::empty(),
        span_id: Seq::empty(),
    }
}

impl LinkTableRecordBatchBuilder {
    /// A builder with nothing appended.
    pub fn new() -> (r: LinkTableRecordBatchBuilder)
        ensures
            r@ == no_link_table_cells(),
    {
        let r = LinkTableRecordBatchBuilder { id: Vec::new(), trace_id: Vec::new(), span_id: Vec::new() };
        assert(r@ =~= no_link_table_cells());
        r
    }

    /// Append a value to the `id` column.
    pub fn append_id(&mut self, val: u32)
        ensures
            final(self)@ == (LinkTableCells { id: old(self)@.id.push(Some(val)), ..old(self)@ }),
    {
        self.id.push(Some(val));
        assert(self@ =~= (LinkTableCells { id: old(self)@.id.push(Some(val)), ..old(self)@ }));
    }

    /// Append a value to the `trace_id` column. Values that are not exactly
    /// 16 bytes long (such as the empty default) are appended as null.
    pub fn append_trace_id(&mut self, val: &[u8]) -> (r: Result<(), Error>)
        ensures
            r is Ok,
            final(self)@ == (LinkTableCells {
                trace_id: old(self)@.trace_id.push(if val@.len() == 16 { Some(val@) } else { None }),
                ..old(self)@
            }),
    {
        if val.len() == 16 {
            self.trace_id.push(Some(bytes_of(val)));
        } else {
            self.trace_id.push(None);
        }
        assert(self@ =~= (LinkTableCells {
            trace_id: old(self)@.trace_id.push(if val@.len() == 16 { Some(val@) } else { None }),
            ..old(self)@
        }));
        Ok(())
    }

    /// Append a value to the `span_id` column. Values that are not exactly
    /// 8 bytes long (such as the empty default) are appended as null.
    pub fn append_span_id(&mut self, val: &[u8]) -> (r: Result<(), Error>)
        ensures
            r is Ok,
            final(self)@ == (LinkTableCells {
                span_id: old(self)@.span_id.push(if val@.len() == 8 { Some(val@) } else { None }),
                ..old(self)@
            }),
    {
        if val.len() == 8 {
            self.span_id.push(Some(bytes_of(val)));
        } else {
            self.span_id.push(None);
        }
        assert(self@ =~= (LinkTableCells {
            span_id: old(self)@.span_id.push(if val@.len() == 8 { Some(val@) } else { None }),
            ..old(self)@
        }));
        Ok(())
    }

    /// The record batch of the appended rows, each column holding its cells
    /// as appended; a column to which nothing was appended is omitted. Fails
    /// when two non-empty columns differ in length. The builder is left empty.
    pub fn finish(&mut self) -> (r: Result<LinkTableBatch, Error>)
        ensures
            r is Ok <==> lengths_agree(seq![old(self)@.id.len() as int, old(self)@.trace_id.len() as int, old(self)@.span_id.len() as int]),
            r is Err ==> r == Err::<LinkTableBatch, Error>(Error::ColumnLengthMismatch { table: ProfilesTable::Link }),
            r matches Ok(b) ==> {
                &&& b.num_rows == longest(seq![old(self)@.id.len() as int, old(self)@.trace_id.len() as int, old(self)@.span_id.len() as int])
                &&& column_holds(b.id, old(self)@.id)
                &&& byte_column_holds(b.trace_id, old(self)@.trace_id)
                &&& byte_column_holds(b.span_id, old(self)@.span_id)
            },
            final(self)@ == no_link_table_cells(),
    {
        let lens: Vec<usize> = vec![self.id.len(), self.trace_id.len(), self.span_id.len()];
        proof {
            assert(lens@.map_values(|x: usize| x as int) =~= seq![old(self)@.id.len() as int, old(self)@.trace_id.len() as int, old(self)@.span_id.len() as int]);
        }
        let agree = lengths_agree_of(&lens);
        let n = longest_of(&lens);
        let id = finish_cells(&mut self.id);
        let trace_id = finish_cells(&mut self.trace_id);
        let span_id = finish_cells(&mut self.span_id);
        assert(self@ =~= no_link_table_cells());
        if !agree {
            return Err(Error::ColumnLengthMismatch { table: ProfilesTable::Link });
        }
        Ok(LinkTableBatch { num_rows: n, id, trace_id, span_id })
    }
}

/// Model of a [`AttributeTableRecordBatchBuilder`]: the cells appended to each column so far.
#[verifier::ext_equal]
pub struct AttributeTableCells {
    pub id: Seq<Option<u32>>,
    pub key: Seq<Option<Seq<char>>>,
    pub value: Seq<Option<AnyValueModel>>,
}

/// Builder for the interned `AttributeTable` batch: one row per entry of the
/// attribute table, in table order, with `id` equal to the row position.
pub struct AttributeTableRecordBatchBuilder {
    id: Vec<Option<u32>>,
    key: Vec<Option<String>>,
    value: Vec<Option<AnyValue>>,
}

impl View for AttributeTableRecordBatchBuilder {
    type V = AttributeTableCells;

    closed spec fn view(&self) -> AttributeTableCells {
        AttributeTableCells {
            id: self.id@,
            key: self.key@.map_values(|c: Option<String>| string_cell_of(c)),
            value: self.value@.map_values(|c: Option<AnyValue>| opt_any_value_model(c)),
        }
    }
}

/// The model of a [`AttributeTableRecordBatchBuilder`] with nothing appended.
pub open spec fn no_attribute_table_cells() -> AttributeTableCells {
    AttributeTableCells {
        id: Seq::empty(),
        key: Seq::empty(),
        value: Seq::empty(),
    }
}

impl AttributeTableRecordBatchBuilder {
    /// A builder with nothing appended.
    pub fn new() -> (r: AttributeTableRecordBatchBuilder)
        ensures
            r@ == no_attribute_table_cells(),
    {
        let r = AttributeTableRecordBatchBuilder { id: Vec::new(), key: Vec::new(), value: Vec::new() };
        assert(r@ =~= no_attribute_table_cells());
        r
    }

    /// Append a value to the `id` column.
    pub fn append_id(&mut self, val: u32)
        ensures
            final(self)@ == (AttributeTableCells { id: old(self)@.id.push(Some(val)), ..old(self)@ }),
    {
        self.id.push(Some(val));
        assert(self@ =~= (AttributeTableCells { id: old(self)@.id.push(Some(val)), ..old(self)@ }));
    }

    /// Append an attribute key to the `key` column.
    pub fn append_key(&mut self, val: &str)
        ensures
            final(self)@ == (AttributeTableCells { key: old(self)@.key.push(Some(val@)), ..old(self)@ }),
    {
        self.key.push(Some(String::from_str(val)));
        assert(self@ =~= (AttributeTableCells { key: old(self)@.key.push(Some(val@)), ..old(self)@ }));
    }

    /// Append an attribute value to the value lanes.
    pub fn append_value(&mut self, val: &AnyValue)
        ensures
            final(self)@ == (AttributeTableCells { value: old(self)@.value.push(Some(val@)), ..old(self)@ }),
    {
        self.value.push(Some(copy_any_value(val)));
        assert(self@ =~= (AttributeTableCells { value: old(self)@.value.push(Some(val@)), ..old(self)@ }));
    }

    /// The record batch of the appended rows, each column holding its cells
    /// as appended; a column to which nothing was appended is omitted. Fails
    /// when two non-empty columns differ in length. The builder is left empty.
    pub fn finish(&mut self) -> (r: Result<AttributeTableBatch, Error>)
        ensures
            r is Ok <==> lengths_agree(seq![old(self)@.id.len() as int, old(self)@.key.len() as int, old(self)@.value.len() as int]),
            r is Err ==> r == Err::<AttributeTableBatch, Error>(Error::ColumnLengthMismatch { table: ProfilesTable::Attribute }),
            r matches Ok(b) ==> {
                &&& b.num_rows == longest(seq![old(self)@.id.len() as int, old(self)@.key.len() as int, old(self)@.value.len() as int])
                &&& column_holds(b.id, old(self)@.id)
                &&& b.key@.map_values(|c: Option<String>| string_cell_of(c)) == old(self)@.key
                &&& b.value@.map_values(|c: Option<AnyValue>| opt_any_value_model(c)) == old(self)@.value
            },
            final(self)@ == no_attribute_table_cells(),
    {
        let lens: Vec<usize> = vec![self.id.len(), self.key.len(), self.value.len()];
        proof {
            assert(lens@.map_values(|x: usize| x as int) =~= seq![old(self)@.id.len() as int, old(self)@.key.len() as int, old(self)@.value.len() as int]);
        }
        let agree = lengths_agree_of(&lens);
        let n = longest_of(&lens);
        let id = finish_cells(&mut self.id);
        let key = take_cells(&mut self.key);
        let value = take_cells(&mut self.value);
        assert(self@ =~= no_attribute_table_cells());
        if !agree {
            return Err(Error::ColumnLengthMismatch { table: ProfilesTable::Attribute });
        }
        Ok(AttributeTableBatch { num_rows: n, id, key, value })
    }
}

/// Model of a [`AttributeUnitsRecordBatchBuilder`]: the cells appended to each column so far.
#[verifier::ext_equal]
pub struct AttributeUnitsCells {
    pub id: Seq<Option<u32>>,
    pub attribute_key_strindex: Seq<Option<i32>>,
    pub unit_strindex: Seq<Option<i32>>,
}

/// Builder for the interned `AttributeUnits` batch: one row per entry of the
/// attribute units table, in table order, with `id` equal to the row position.
pub struct AttributeUnitsRecordBatchBuilder {
    id: Vec<Option<u32>>,
    attribute_key_strindex: Vec<Option<i32>>,
    unit_strindex: Vec<Option<i32>>,
}

impl View for AttributeUnitsRecordBatchBuilder {
    type V = AttributeUnitsCells;

    closed spec fn view(&self) -> AttributeUnitsCells {
        AttributeUnitsCells {
            id: self.id@,
            attribute_key_strindex: self.attribute_key_strindex@,
            unit_strindex: self.unit_strindex@,
        }
    }
}

/// The model of a [`AttributeUnitsRecordBatchBuilder`] with nothing appended.
pub open spec fn no_attribute_units_cells() -> AttributeUnitsCells {
    AttributeUnitsCells {
        id: Seq::empty(),
        attribute_key_strindex: Seq::empty(),
        unit_strindex: Seq::empty(),
    }
}

impl AttributeUnitsRecordBatchBuilder {
    /// A builder with nothing appended.
    pub fn new() -> (r: AttributeUnitsRecordBatchBuilder)
        ensures
            r@ == no_attribute_units_cells(),
    {
        let r = AttributeUnitsRecordBatchBuilder { id: Vec::new(), attribute_key_strindex: Vec::new(), unit_strindex: Vec::new() };
        assert(r@ =~= no_attribute_units_cells());
        r
    }

    /// Append an attribute units entry (verbatim).
    pub fn append(&mut self, id: u32, attribute_key_strindex: i32, unit_strindex: i32)
        ensures
            final(self)@ == (AttributeUnitsCells { id: old(self)@.id.push(Some(id)), attribute_key_strindex: old(self)@.attribute_key_strindex.push(Some(attribute_key_strindex)), unit_strindex: old(self)@.unit_strindex.push(Some(unit_strindex)), ..old(self)@ }),
    {
        self.id.push(Some(id));
        self.attribute_key_strindex.push(Some(attribute_key_strindex));
        self.unit_strindex.push(Some(unit_strindex));
        assert(self@ =~= (AttributeUnitsCells { id: old(self)@.id.push(Some(id)), attribute_key_strindex: old(self)@.attribute_key_strindex.push(Some(attribute_key_strindex)), unit_strindex: old(self)@.unit_strindex.push(Some(unit_strindex)), ..old(self)@ }));
    }

    /// The record batch of the appended rows, each column holding its cells
    /// as appended; a column to which nothing was appended is omitted. Fails
    /// when two non-empty columns differ in length. The builder is left empty.
    pub fn finish(&mut self) -> (r: Result<AttributeUnitsBatch, Error>)
        ensures
            r is Ok <==> lengths_agree(seq![old(self)@.id.len() as int, old(self)@.attribute_key_strindex.len() as int, old(self)@.unit_strindex.len() as int]),
            r is Err ==> r == Err::<AttributeUnitsBatch, Error>(Error::ColumnLengthMismatch { table: ProfilesTable::AttributeUnits }),
            r matches Ok(b) ==> {
                &&& b.num_rows == longest(seq![old(self)@.id.len() as int, old(self)@.attribute_key_strindex.len() as int, old(self)@.unit_strindex.len() as int])
                &&& column_holds(b.id, old(self)@.id)
                &&& column_holds(b.attribute_key_strindex, old(self)@.attribute_key_strindex)
                &&& column_holds(b.unit_strindex, old(self)@.unit_strindex)
            },
            final(self)@ == no_attribute_units_cells(),
    {
        let lens: Vec<usize> = vec![self.id.len(), self.attribute_key_strindex.len(), self.unit_strindex.len()];
        proof {
            assert(lens@.map_values(|x: usize| x as int) =~= seq![old(self)@.id.len() as int, old(self)@.attribute_key_strindex.len() as int, old(self)@.unit_strindex.len() as int]);
        }
        let agree = lengths_agree_of(&lens);
        let n = longest_of(&lens);
        let id = finish_cells(&mut self.id);
        let attribute_key_strindex = finish_cells(&mut self.attribute_key_strindex);
        let unit_strindex = finish_cells(&mut self.unit_strindex);
        assert(self@ =~= no_attribute_units_cells());
        if !agree {
            return Err(Error::ColumnLengthMismatch { table: ProfilesTable::AttributeUnits });
        }
        Ok(AttributeUnitsBatch { num_rows: n, id, attribute_key_strindex, unit_strindex })
    }
}

/// Model of a [`SampleRecordBatchBuilder`]: the cells appended to each column so far.
#[verifier::ext_equal]
pub struct SampleCells {
    pub parent_id: Seq<Option<u16>>,
    pub locations_start_index: Seq<Option<i32>>,
    pub locations_length: Seq<Option<i32>>,
    pub value: Seq<Option<Seq<Option<i64>>>>,
    pub attribute_indices: Seq<Option<Seq<Option<i32>>>>,
    pub link_index: Seq<Option<i32>>,
    pub timestamps_unix_nano: Seq<Option<Seq<Option<u64>>>>,
}

/// Builder for the OTAP `Sample` batch: one row per sample, joined to its
/// profile by `parent_id`.
pub struct SampleRecordBatchBuilder {
    parent_id: Vec<Option<u16>>,
    locations_start_index: Vec<Option<i32>>,
    locations_length: Vec<Option<i32>>,
    value: Vec<Option<Vec<Option<i64>>>>,
    attribute_indices: Vec<Option<Vec<Option<i32>>>>,
    link_index: Vec<Option<i32>>,
    timestamps_unix_nano: Vec<Option<Vec<Option<u64>>>>,
}

impl View for SampleRecordBatchBuilder {
    type V = SampleCells;

    closed spec fn view(&self) -> SampleCells {
        SampleCells {
            parent_id: self.parent_id@,
            locations_start_index: self.locations_start_index@,
            locations_length: self.locations_length@,
            value: self.value@.map_values(|c: Option<Vec<Option<i64>>>| list_cell_of(c)),
            attribute_indices: self.attribute_indices@.map_values(|c: Option<Vec<Option<i32>>>| list_cell_of(c)),
            link_index: self.link_index@,
            timestamps_unix_nano: self.timestamps_unix_nano@.map_values(|c: Option<Vec<Option<u64>>>| list_cell_of(c)),
        }
    }
}

/// The model of a [`SampleRecordBatchBuilder`] with nothing appended.
pub open spec fn no_sample_cells() -> SampleCells {
    SampleCells {
        parent_id: Seq::empty(),
        locations_start_index: Seq::empty(),
        locations_length: Seq::empty(),
        value: Seq::empty(),
        attribute_indices: Seq::empty(),
        link_index: Seq::empty(),
        timestamps_unix_nano: Seq::empty(),
    }
}

impl SampleRecordBatchBuilder {
    /// A builder with nothing appended.
    pub fn new() -> (r: SampleRecordBatchBuilder)
        ensures
            r@ == no_sample_cells(),
    {
        let r = SampleRecordBatchBuilder { parent_id: Vec::new(), locations_start_index: Vec::new(), locations_length: Vec::new(), value: Vec::new(), attribute_indices: Vec::new(), link_index: Vec::new(), timestamps_unix_nano: Vec::new() };
        assert(r@ =~= no_sample_cells());
        r
    }

    /// Append a value to the `parent_id` column.
    pub fn append_parent_id(&mut self, val: u16)
        ensures
            final(self)@ == (SampleCells { parent_id: old(self)@.parent_id.push(Some(val)), ..old(self)@ }),
    {
        self.parent_id.push(Some(val));
        assert(self@ =~= (SampleCells { parent_id: old(self)@.parent_id.push(Some(val)), ..old(self)@ }));
    }

    /// Append a value to the `locations_start_index` column, verbatim (`0` included).
    pub fn append_locations_start_index(&mut self, val: i32)
        ensures
            final(self)@ == (SampleCells { locations_start_index: old(self)@.locations_start_index.push(Some(val)), ..old(self)@ }),
    {
        self.locations_start_index.push(Some(val));
        assert(self@ =~= (SampleCells { locations_start_index: old(self)@.locations_start_index.push(Some(val)), ..old(self)@ }));
    }

    /// Append a value to the `locations_length` column, verbatim (`0` included).
    pub fn append_locations_length(&mut self, val: i32)
        ensures
            final(self)@ == (SampleCells { locations_length: old(self)@.locations_length.push(Some(val)), ..old(self)@ }),
    {
        self.locations_length.push(Some(val));
        assert(self@ =~= (SampleCells { locations_length: old(self)@.locations_length.push(Some(val)), ..old(self)@ }));
    }

    /// Append the sample's values as one list row.
    pub fn append_values(&mut self, val: &[i64])
        ensures
            final(self)@ == (SampleCells { value: old(self)@.value.push(Some(present(val@))), ..old(self)@ }),
    {
        self.value.push(Some(present_items(val)));
        assert(self@ =~= (SampleCells { value: old(self)@.value.push(Some(present(val@))), ..old(self)@ }));
    }

    /// Append the sample's attribute indices as one list row (verbatim).
    pub fn append_attribute_indices(&mut self, val: &[i32])
        ensures
            final(self)@ == (SampleCells { attribute_indices: old(self)@.attribute_indices.push(Some(present(val@))), ..old(self)@ }),
    {
        self.attribute_indices.push(Some(present_items(val)));
        assert(self@ =~= (SampleCells { attribute_indices: old(self)@.attribute_indices.push(Some(present(val@))), ..old(self)@ }));
    }

    /// Append a value to the `link_index` column: `None` (field not present) as
    /// null, `Some` values (including `Some(0)`) verbatim.
    pub fn append_link_index(&mut self, val: Option<i32>)
        ensures
            final(self)@ == (SampleCells { link_index: old(self)@.link_index.push(val), ..old(self)@ }),
    {
        self.link_index.push(val);
        assert(self@ =~= (SampleCells { link_index: old(self)@.link_index.push(val), ..old(self)@ }));
    }

    /// Append the sample's timestamps as one list row.
    pub fn append_timestamps_unix_nano(&mut self, val: &[u64])
        ensures
            final(self)@ == (SampleCells { timestamps_unix_nano: old(self)@.timestamps_unix_nano.push(Some(present(val@))), ..old(self)@ }),
    {
        self.timestamps_unix_nano.push(Some(present_items(val)));
        assert(self@ =~= (SampleCells { timestamps_unix_nano: old(self)@.timestamps_unix_nano.push(Some(present(val@))), ..old(self)@ }));
    }

    /// The record batch of the appended rows, each column holding its cells
    /// as appended; a column to which nothing was appended is omitted. Fails
    /// when two non-empty columns differ in length. The builder is left empty.
    pub fn finish(&mut self) -> (r: Result<SampleBatch, Error>)
        ensures
            r is Ok <==> lengths_agree(seq![old(self)@.parent_id.len() as int, old(self)@.locations_start_index.len() as int, old(self)@.locations_length.len() as int, old(self)@.value.len() as int, old(self)@.attribute_indices.len() as int, old(self)@.link_index.len() as int, old(self)@.timestamps_unix_nano.len() as int]) && old(self)@.parent_id.len() == longest(seq![old(self)@.parent_id.len() as int, old(self)@.locations_start_index.len() as int, old(self)@.locations_length.len() as int, old(self)@.value.len() as int, old(self)@.attribute_indices.len() as int, old(self)@.link_index.len() as int, old(self)@.timestamps_unix_nano.len() as int]),
            r is Err ==> r == Err::<SampleBatch, Error>(Error::ColumnLengthMismatch { table: ProfilesTable::Sample }),
            r matches Ok(b) ==> {
                &&& b.num_rows == longest(seq![old(self)@.parent_id.len() as int, old(self)@.locations_start_index.len() as int, old(self)@.locations_length.len() as int, old(self)@.value.len() as int, old(self)@.attribute_indices.len() as int, old(self)@.link_index.len() as int, old(self)@.timestamps_unix_nano.len() as int])
                &&& b.parent_id@ == old(self)@.parent_id
                &&& column_holds(b.locations_start_index, old(self)@.locations_start_index)
                &&& column_holds(b.locations_length, old(self)@.locations_length)
                &&& list_column_holds(b.value, old(self)@.value)
                &&& list_column_holds(b.attribute_indices, old(self)@.attribute_indices)
                &&& column_holds(b.link_index, old(self)@.link_index)
                &&& list_column_holds(b.timestamps_unix_nano, old(self)@.timestamps_unix_nano)
            },
            final(self)@ == no_sample_cells(),
    {
        let lens: Vec<usize> = vec![self.parent_id.len(), self.locations_start_index.len(), self.locations_length.len(), self.value.len(), self.attribute_indices.len(), self.link_index.len(), self.timestamps_unix_nano.len()];
        proof {
            assert(lens@.map_values(|x: usize| x as int) =~= seq![old(self)@.parent_id.len() as int, old(self)@.locations_start_index.len() as int, old(self)@.locations_length.len() as int, old(self)@.value.len() as int, old(self)@.attribute_indices.len() as int, old(self)@.link_index.len() as int, old(self)@.timestamps_unix_nano.len() as int]);
        }
        let agree = lengths_agree_of(&lens);
        let n = longest_of(&lens);
        let agree = agree && self.parent_id.len() == n;
        let parent_id = take_cells(&mut self.parent_id);
        let locations_start_index = finish_cells(&mut self.locations_start_index);
        let locations_length = finish_cells(&mut self.locations_length);
        let value = finish_cells(&mut self.value);
        let attribute_indices = finish_cells(&mut self.attribute_indices);
        let link_index = finish_cells(&mut self.link_index);
        let timestamps_unix_nano = finish_cells(&mut self.timestamps_unix_nano);
        assert(self@ =~= no_sample_cells());
        if !agree {
            return Err(Error::ColumnLengthMismatch { table: ProfilesTable::Sample });
        }
        Ok(SampleBatch { num_rows: n, parent_id, locations_start_index, locations_length, value, attribute_indices, link_index, timestamps_unix_nano })
    }
}

/// Model of a [`ProfilesRecordBatchBuilder`]: the cells appended to each column so far.
#[verifier::ext_equal]
pub struct ProfilesCells {
    pub id: Seq<Option<u16>>,
    pub resource_id: Seq<Option<u16>>,
    pub resource_dropped_attributes_count: Seq<Option<u32>>,
    pub resource_schema_url: Seq<Option<Seq<char>>>,
    pub scope_id: Seq<Option<u16>>,
    pub scope_name: Seq<Option<Seq<char>>>,
    pub scope_version: Seq<Option<Seq<char>>>,
    pub scope_dropped_attributes_count: Seq<Option<u32>>,
    pub schema_url: Seq<Option<Seq<char>>>,
    pub time_nanos: Seq<Option<i64>>,
    pub duration_nanos: Seq<Option<i64>>,
    pub period: Seq<Option<i64>>,
    pub period_type: Seq<Option<ValueTypeRow>>,
    pub default_sample_type_index: Seq<Option<i32>>,
    pub profile_id: Seq<Option<Seq<u8>>>,
    pub dropped_attributes_count: Seq<Option<u32>>,
    pub original_payload_format: Seq<Option<Seq<char>>>,
    pub original_payload: Seq<Option<Seq<u8>>>,
    pub sample_type: Seq<Option<Seq<ValueTypeRow>>>,
    pub location_indices: Seq<Option<Seq<Option<i32>>>>,
    pub comment_strindices: Seq<Option<Seq<Option<i32>>>>,
    pub attribute_indices: Seq<Option<Seq<Option<i32>>>>,
}

/// Builder for the OTAP `Profiles` root batch: one row per profile, with the
/// resource, scope and scope schema URL flattened onto the row.
pub struct ProfilesRecordBatchBuilder {
    id: Vec<Option<u16>>,
    resource_id: Vec<Option<u16>>,
    resource_dropped_attributes_count: Vec<Option<u32>>,
    resource_schema_url: Vec<Option<String>>,
    scope_id: Vec<Option<u16>>,
    scope_name: Vec<Option<String>>,
    scope_version: Vec<Option<String>>,
    scope_dropped_attributes_count: Vec<Option<u32>>,
    schema_url: Vec<Option<String>>,
    time_nanos: Vec<Option<i64>>,
    duration_nanos: Vec<Option<i64>>,
    period: Vec<Option<i64>>,
    period_type: Vec<Option<ValueTypeRow>>,
    default_sample_type_index: Vec<Option<i32>>,
    profile_id: Vec<Option<Vec<u8>>>,
    dropped_attributes_count: Vec<Option<u32>>,
    original_payload_format: Vec<Option<String>>,
    original_payload: Vec<Option<Vec<u8>>>,
    sample_type: Vec<Option<Vec<ValueTypeRow>>>,
    location_indices: Vec<Option<Vec<Option<i32>>>>,
    comment_strindices: Vec<Option<Vec<Option<i32>>>>,
    attribute_indices: Vec<Option<Vec<Option<i32>>>>,
}

impl View for ProfilesRecordBatchBuilder {
    type V = ProfilesCells;

    closed spec fn view(&self) -> ProfilesCells {
        ProfilesCells {
            id: self.id@,
            resource_id: self.resource_id@,
            resource_dropped_attributes_count: self.resource_dropped_attributes_count@,
            resource_schema_url: self.resource_schema_url@.map_values(|c: Option<String>| string_cell_of(c)),
            scope_id: self.scope_id@,
            scope_name: self.scope_name@.map_values(|c: Option<String>| string_cell_of(c)),
            scope_version: self.scope_version@.map_values(|c: Option<String>| string_cell_of(c)),
            scope_dropped_attributes_count: self.scope_dropped_attributes_count@,
            schema_url: self.schema_url@.map_values(|c: Option<String>| string_cell_of(c)),
            time_nanos: self.time_nanos@,
            duration_nanos: self.duration_nanos@,
            period: self.period@,
            period_type: self.period_type@,
            default_sample_type_index: self.default_sample_type_index@,
            profile_id: self.profile_id@.map_values(|c: Option<Vec<u8>>| byte_cell_of(c)),
            dropped_attributes_count: self.dropped_attributes_count@,
            original_payload_format: self.original_payload_format@.map_values(|c: Option<String>| string_cell_of(c)),
            original_payload: self.original_payload@.map_values(|c: Option<Vec<u8>>| byte_cell_of(c)),
            sample_type: self.sample_type@.map_values(|c: Option<Vec<ValueTypeRow>>| rows_cell_of(c)),
            location_indices: self.location_indices@.map_values(|c: Option<Vec<Option<i32>>>| list_cell_of(c)),
            comment_strindices: self.comment_strindices@.map_values(|c: Option<Vec<Option<i32>>>| list_cell_of(c)),
            attribute_indices: self.attribute_indices@.map_values(|c: Option<Vec<Option<i32>>>| list_cell_of(c)),
        }
    }
}

/// The model of a [`ProfilesRecordBatchBuilder`] with nothing appended.
pub open spec fn no_profiles_cells() -> ProfilesCells {
    ProfilesCells {
        id: Seq::empty(),
        resource_id: Seq::empty(),
        resource_dropped_attributes_count: Seq::empty(),
        resource_schema_url: Seq::empty(),
        scope_id: Seq::empty(),
        scope_name: Seq::empty(),
        scope_version: Seq::empty(),
        scope_dropped_attributes_count: Seq::empty(),
        schema_url: Seq::empty(),
        time_nanos: Seq::empty(),
        duration_nanos: Seq::empty(),
        period: Seq::empty(),
        period_type: Seq::empty(),
        default_sample_type_index: Seq::empty(),
        profile_id: Seq::empty(),
        dropped_attributes_count: Seq::empty(),
        original_payload_format: Seq::empty(),
        original_payload: Seq::empty(),
        sample_type: Seq::empty(),
        location_indices: Seq::empty(),
        comment_strindices: Seq::empty(),
        attribute_indices: Seq::empty(),
    }
}

impl ProfilesRecordBatchBuilder {
    /// A builder with nothing appended.
    pub fn new() -> (r: ProfilesRecordBatchBuilder)
        ensures
            r@ == no_profiles_cells(),
    {
        let r = ProfilesRecordBatchBuilder { id: Vec::new(), resource_id: Vec::new(), resource_dropped_attributes_count: Vec::new(), resource_schema_url: Vec::new(), scope_id: Vec::new(), scope_name: Vec::new(), scope_version: Vec::new(), scope_dropped_attributes_count: Vec::new(), schema_url: Vec::new(), time_nanos: Vec::new(), duration_nanos: Vec::new(), period: Vec::new(), period_type: Vec::new(), default_sample_type_index: Vec::new(), profile_id: Vec::new(), dropped_attributes_count: Vec::new(), original_payload_format: Vec::new(), original_payload: Vec::new(), sample_type: Vec::new(), location_indices: Vec::new(), comment_strindices: Vec::new(), attribute_indices: Vec::new() };
        assert(r@ =~= no_profiles_cells());
        r
    }

    /// Append a value to the `id` column.
    pub fn append_id(&mut self, val: u16)
        ensures
            final(self)@ == (ProfilesCells { id: old(self)@.id.push(Some(val)), ..old(self)@ }),
    {
        self.id.push(Some(val));
        assert(self@ =~= (ProfilesCells { id: old(self)@.id.push(Some(val)), ..old(self)@ }));
    }

    /// Append the resource of a row: its id, dropped attributes count and schema URL
    /// (`None` as null).
    pub fn append_resource(&mut self, id: Option<u16>, dropped_attributes_count: u32, schema_url: Option<&str>)
        ensures
            final(self)@ == (ProfilesCells { resource_id: old(self)@.resource_id.push(id), resource_dropped_attributes_count: old(self)@.resource_dropped_attributes_count.push(Some(dropped_attributes_count)), resource_schema_url: old(self)@.resource_schema_url.push(match schema_url { Some(s) => Some(s@), None => None }), ..old(self)@ }),
    {
        self.resource_id.push(id);
        self.resource_dropped_attributes_count.push(Some(dropped_attributes_count));
        self.resource_schema_url.push(match schema_url { Some(s) => Some(String::from_str(s)), None => None });
        assert(self@ =~= (ProfilesCells { resource_id: old(self)@.resource_id.push(id), resource_dropped_attributes_count: old(self)@.resource_dropped_attributes_count.push(Some(dropped_attributes_count)), resource_schema_url: old(self)@.resource_schema_url.push(match schema_url { Some(s) => Some(s@), None => None }), ..old(self)@ }));
    }

    /// Append the scope of a row: its id, name, version (`None` as null) and dropped
    /// attributes count.
    pub fn append_scope(&mut self, id: Option<u16>, name: Option<&str>, version: Option<&str>, dropped_attributes_count: u32)
        ensures
            final(self)@ == (ProfilesCells { scope_id: old(self)@.scope_id.push(id), scope_name: old(self)@.scope_name.push(match name { Some(s) => Some(s@), None => None }), scope_version: old(self)@.scope_version.push(match version { Some(s) => Some(s@), None => None }), scope_dropped_attributes_count: old(self)@.scope_dropped_attributes_count.push(Some(dropped_attributes_count)), ..old(self)@ }),
    {
        self.scope_id.push(id);
        self.scope_name.push(match name { Some(s) => Some(String::from_str(s)), None => None });
        self.scope_version.push(match version { Some(s) => Some(String::from_str(s)), None => None });
        self.scope_dropped_attributes_count.push(Some(dropped_attributes_count));
        assert(self@ =~= (ProfilesCells { scope_id: old(self)@.scope_id.push(id), scope_name: old(self)@.scope_name.push(match name { Some(s) => Some(s@), None => None }), scope_version: old(self)@.scope_version.push(match version { Some(s) => Some(s@), None => None }), scope_dropped_attributes_count: old(self)@.scope_dropped_attributes_count.push(Some(dropped_attributes_count)), ..old(self)@ }));
    }

    /// Append a value to the `schema_url` column (`None` as null).
    pub fn append_schema_url(&mut self, val: Option<&str>)
        ensures
            final(self)@ == (ProfilesCells { schema_url: old(self)@.schema_url.push(match val { Some(s) => Some(s@), None => None }), ..old(self)@ }),
    {
        self.schema_url.push(match val { Some(s) => Some(String::from_str(s)), None => None });
        assert(self@ =~= (ProfilesCells { schema_url: old(self)@.schema_url.push(match val { Some(s) => Some(s@), None => None }), ..old(self)@ }));
    }

    /// Append a value to the `time_nanos` column, verbatim (`0` included).
    pub fn append_time_nanos(&mut self, val: i64)
        ensures
            final(self)@ == (ProfilesCells { time_nanos: old(self)@.time_nanos.push(Some(val)), ..old(self)@ }),
    {
        self.time_nanos.push(Some(val));
        assert(self@ =~= (ProfilesCells { time_nanos: old(self)@.time_nanos.push(Some(val)), ..old(self)@ }));
    }

    /// Append a value to the `duration_nanos` column, verbatim (`0` included).
    pub fn append_duration_nanos(&mut self, val: i64)
        ensures
            final(self)@ == (ProfilesCells { duration_nanos: old(self)@.duration_nanos.push(Some(val)), ..old(self)@ }),
    {
        self.duration_nanos.push(Some(val));
        assert(self@ =~= (ProfilesCells { duration_nanos: old(self)@.duration_nanos.push(Some(val)), ..old(self)@ }));
    }

    /// Append a value to the `period` column, verbatim (`0` included).
    pub fn append_period(&mut self, val: i64)
        ensures
            final(self)@ == (ProfilesCells { period: old(self)@.period.push(Some(val)), ..old(self)@ }),
    {
        self.period.push(Some(val));
        assert(self@ =~= (ProfilesCells { period: old(self)@.period.push(Some(val)), ..old(self)@ }));
    }

    /// Append a `(type_strindex, unit_strindex, aggregation_temporality)` value to
    /// the `period_type` column, or null when the profile has no period type.
    pub fn append_period_type(&mut self, val: Option<(i32, i32, i32)>)
        ensures
            final(self)@ == (ProfilesCells { period_type: old(self)@.period_type.push(match val { Some((t, u, a)) => Some(ValueTypeRow { type_strindex: Some(t), unit_strindex: Some(u), aggregation_temporality: Some(a) }), None => None }), ..old(self)@ }),
    {
        self.period_type.push(match val { Some((t, u, a)) => Some(ValueTypeRow { type_strindex: Some(t), unit_strindex: Some(u), aggregation_temporality: Some(a) }), None => None });
        assert(self@ =~= (ProfilesCells { period_type: old(self)@.period_type.push(match val { Some((t, u, a)) => Some(ValueTypeRow { type_strindex: Some(t), unit_strindex: Some(u), aggregation_temporality: Some(a) }), None => None }), ..old(self)@ }));
    }

    /// Append the profile's sample types as one list row of
    /// `(type_strindex, unit_strindex, aggregation_temporality)` structs.
    pub fn append_sample_types(&mut self, val: &[ValueType])
        ensures
            final(self)@ == (ProfilesCells { sample_type: old(self)@.sample_type.push(Some(val@.map_values(|v: ValueType| value_type_row(v)))), ..old(self)@ }),
    {
        self.sample_type.push(Some(value_type_rows(val)));
        assert(self@ =~= (ProfilesCells { sample_type: old(self)@.sample_type.push(Some(val@.map_values(|v: ValueType| value_type_row(v)))), ..old(self)@ }));
    }

    /// Append a value to the `default_sample_type_index` column, verbatim (`0` included).
    pub fn append_default_sample_type_index(&mut self, val: i32)
        ensures
            final(self)@ == (ProfilesCells { default_sample_type_index: old(self)@.default_sample_type_index.push(Some(val)), ..old(self)@ }),
    {
        self.default_sample_type_index.push(Some(val));
        assert(self@ =~= (ProfilesCells { default_sample_type_index: old(self)@.default_sample_type_index.push(Some(val)), ..old(self)@ }));
    }

    /// Append a value to the `profile_id` column. Values that are not exactly
    /// 16 bytes long (such as the empty default) are appended as null.
    pub fn append_profile_id(&mut self, val: &[u8]) -> (r: Result<(), Error>)
        ensures
            r is Ok,
            final(self)@ == (ProfilesCells {
                profile_id: old(self)@.profile_id.push(if val@.len() == 16 { Some(val@) } else { None }),
                ..old(self)@
            }),
    {
        if val.len() == 16 {
            self.profile_id.push(Some(bytes_of(val)));
        } else {
            self.profile_id.push(None);
        }
        assert(self@ =~= (ProfilesCells {
            profile_id: old(self)@.profile_id.push(if val@.len() == 16 { Some(val@) } else { None }),
            ..old(self)@
        }));
        Ok(())
    }

    /// Append a value to the `original_payload` column; the empty default is
    /// appended as null.
    pub fn append_original_payload(&mut self, val: &[u8])
        ensures
            final(self)@ == (ProfilesCells {
                original_payload: old(self)@.original_payload.push(if val@.len() == 0 { None } else { Some(val@) }),
                ..old(self)@
            }),
    {
        if val.len() == 0 {
            self.original_payload.push(None);
        } else {
            self.original_payload.push(Some(bytes_of(val)));
        }
        assert(self@ =~= (ProfilesCells {
            original_payload: old(self)@.original_payload.push(if val@.len() == 0 { None } else { Some(val@) }),
            ..old(self)@
        }));
    }

    /// Append a value to the `dropped_attributes_count` column.
    pub fn append_dropped_attributes_count(&mut self, val: u32)
        ensures
            final(self)@ == (ProfilesCells { dropped_attributes_count: old(self)@.dropped_attributes_count.push(Some(val)), ..old(self)@ }),
    {
        self.dropped_attributes_count.push(Some(val));
        assert(self@ =~= (ProfilesCells { dropped_attributes_count: old(self)@.dropped_attributes_count.push(Some(val)), ..old(self)@ }));
    }

    /// Append a value to the `original_payload_format` column (`None` as null).
    pub fn append_original_payload_format(&mut self, val: Option<&str>)
        ensures
            final(self)@ == (ProfilesCells { original_payload_format: old(self)@.original_payload_format.push(match val { Some(s) => Some(s@), None => None }), ..old(self)@ }),
    {
        self.original_payload_format.push(match val { Some(s) => Some(String::from_str(s)), None => None });
        assert(self@ =~= (ProfilesCells { original_payload_format: old(self)@.original_payload_format.push(match val { Some(s) => Some(s@), None => None }), ..old(self)@ }));
    }

    /// Append the profile's location indices as one list row (verbatim).
    pub fn append_location_indices(&mut self, val: &[i32])
        ensures
            final(self)@ == (ProfilesCells { location_indices: old(self)@.location_indices.push(Some(present(val@))), ..old(self)@ }),
    {
        self.location_indices.push(Some(present_items(val)));
        assert(self@ =~= (ProfilesCells { location_indices: old(self)@.location_indices.push(Some(present(val@))), ..old(self)@ }));
    }

    /// Append the profile's comment string indices as one list row (verbatim).
    pub fn append_comment_strindices(&mut self, val: &[i32])
        ensures
            final(self)@ == (ProfilesCells { comment_strindices: old(self)@.comment_strindices.push(Some(present(val@))), ..old(self)@ }),
    {
        self.comment_strindices.push(Some(present_items(val)));
        assert(self@ =~= (ProfilesCells { comment_strindices: old(self)@.comment_strindices.push(Some(present(val@))), ..old(self)@ }));
    }

    /// Append the profile's attribute indices as one list row (verbatim).
    pub fn append_attribute_indices(&mut self, val: &[i32])
        ensures
            final(self)@ == (ProfilesCells { attribute_indices: old(self)@.attribute_indices.push(Some(present(val@))), ..old(self)@ }),
    {
        self.attribute_indices.push(Some(present_items(val)));
        assert(self@ =~= (ProfilesCells { attribute_indices: old(self)@.attribute_indices.push(Some(present(val@))), ..old(self)@ }));
    }

    /// The record batch of the appended rows, each column holding its cells
    /// as appended; a column to which nothing was appended is omitted. Fails
    /// when two non-empty columns differ in length. The builder is left empty.
    pub fn finish(&mut self) -> (r: Result<ProfilesBatch, Error>)
        ensures
            r is Ok <==> lengths_agree(seq![old(self)@.id.len() as int, old(self)@.resource_id.len() as int, old(self)@.resource_dropped_attributes_count.len() as int, old(self)@.resource_schema_url.len() as int, old(self)@.scope_id.len() as int, old(self)@.scope_name.len() as int, old(self)@.scope_version.len() as int, old(self)@.scope_dropped_attributes_count.len() as int, old(self)@.schema_url.len() as int, old(self)@.time_nanos.len() as int, old(self)@.duration_nanos.len() as int, old(self)@.period.len() as int, (if has_present(old(self)@.period_type) { old(self)@.period_type.len() as int } else { 0 }), old(self)@.default_sample_type_index.len() as int, old(self)@.profile_id.len() as int, old(self)@.dropped_attributes_count.len() as int, old(self)@.original_payload_format.len() as int, old(self)@.original_payload.len() as int, old(self)@.sample_type.len() as int, old(self)@.location_indices.len() as int, old(self)@.comment_strindices.len() as int, old(self)@.attribute_indices.len() as int]),
            r is Err ==> r == Err::<ProfilesBatch, Error>(Error::ColumnLengthMismatch { table: ProfilesTable::Profiles }),
            r matches Ok(b) ==> {
                &&& b.num_rows == longest(seq![old(self)@.id.len() as int, old(self)@.resource_id.len() as int, old(self)@.resource_dropped_attributes_count.len() as int, old(self)@.resource_schema_url.len() as int, old(self)@.scope_id.len() as int, old(self)@.scope_name.len() as int, old(self)@.scope_version.len() as int, old(self)@.scope_dropped_attributes_count.len() as int, old(self)@.schema_url.len() as int, old(self)@.time_nanos.len() as int, old(self)@.duration_nanos.len() as int, old(self)@.period.len() as int, (if has_present(old(self)@.period_type) { old(self)@.period_type.len() as int } else { 0 }), old(self)@.default_sample_type_index.len() as int, old(self)@.profile_id.len() as int, old(self)@.dropped_attributes_count.len() as int, old(self)@.original_payload_format.len() as int, old(self)@.original_payload.len() as int, old(self)@.sample_type.len() as int, old(self)@.location_indices.len() as int, old(self)@.comment_strindices.len() as int, old(self)@.attribute_indices.len() as int])
                &&& column_holds(b.id, old(self)@.id)
                &&& column_holds(b.resource.id, old(self)@.resource_id)
                &&& column_holds(b.resource.dropped_attributes_count, old(self)@.resource_dropped_attributes_count)
                &&& string_column_holds(b.resource.schema_url, old(self)@.resource_schema_url)
                &&& column_holds(b.scope.id, old(self)@.scope_id)
                &&& string_column_holds(b.scope.name, old(self)@.scope_name)
                &&& string_column_holds(b.scope.version, old(self)@.scope_version)
                &&& column_holds(b.scope.dropped_attributes_count, old(self)@.scope_dropped_attributes_count)
                &&& string_column_holds(b.schema_url, old(self)@.schema_url)
                &&& column_holds(b.time_nanos, old(self)@.time_nanos)
                &&& column_holds(b.duration_nanos, old(self)@.duration_nanos)
                &&& column_holds(b.period, old(self)@.period)
                &&& present_column_holds(b.period_type, old(self)@.period_type)
                &&& (exists|i: int| 0 <= i < old(self)@.period_type.len() && #[trigger] old(self)@.period_type[i] is Some)
                    ==> (b.period_type matches Some(v) && v@ == old(self)@.period_type)
                &&& (forall|i: int| 0 <= i < old(self)@.period_type.len() ==> #[trigger] old(self)@.period_type[i] is None)
                    ==> b.period_type is None
                &&& column_holds(b.default_sample_type_index, old(self)@.default_sample_type_index)
                &&& byte_column_holds(b.profile_id, old(self)@.profile_id)
                &&& column_holds(b.dropped_attributes_count, old(self)@.dropped_attributes_count)
                &&& string_column_holds(b.original_payload_format, old(self)@.original_payload_format)
                &&& byte_column_holds(b.original_payload, old(self)@.original_payload)
                &&& rows_column_holds(b.sample_type, old(self)@.sample_type)
                &&& list_column_holds(b.location_indices, old(self)@.location_indices)
                &&& list_column_holds(b.comment_strindices, old(self)@.comment_strindices)
                &&& list_column_holds(b.attribute_indices, old(self)@.attribute_indices)
            },
            final(self)@ == no_profiles_cells(),
    {
        let lens: Vec<usize> = vec![self.id.len(), self.resource_id.len(), self.resource_dropped_attributes_count.len(), self.resource_schema_url.len(), self.scope_id.len(), self.scope_name.len(), self.scope_version.len(), self.scope_dropped_attributes_count.len(), self.schema_url.len(), self.time_nanos.len(), self.duration_nanos.len(), self.period.len(), present_count(&self.period_type), self.default_sample_type_index.len(), self.profile_id.len(), self.dropped_attributes_count.len(), self.original_payload_format.len(), self.original_payload.len(), self.sample_type.len(), self.location_indices.len(), self.comment_strindices.len(), self.attribute_indices.len()];
        proof {
            assert(lens@.map_values(|x: usize| x as int) =~= seq![old(self)@.id.len() as int, old(self)@.resource_id.len() as int, old(self)@.resource_dropped_attributes_count.len() as int, old(self)@.resource_schema_url.len() as int, old(self)@.scope_id.len() as int, old(self)@.scope_name.len() as int, old(self)@.scope_version.len() as int, old(self)@.scope_dropped_attributes_count.len() as int, old(self)@.schema_url.len() as int, old(self)@.time_nanos.len() as int, old(self)@.duration_nanos.len() as int, old(self)@.period.len() as int, (if has_present(old(self)@.period_type) { old(self)@.period_type.len() as int } else { 0 }), old(self)@.default_sample_type_index.len() as int, old(self)@.profile_id.len() as int, old(self)@.dropped_attributes_count.len() as int, old(self)@.original_payload_format.len() as int, old(self)@.original_payload.len() as int, old(self)@.sample_type.len() as int, old(self)@.location_indices.len() as int, old(self)@.comment_strindices.len() as int, old(self)@.attribute_indices.len() as int]);
        }
        let agree = lengths_agree_of(&lens);
        let n = longest_of(&lens);
        let id = finish_cells(&mut self.id);
        let resource_id = finish_cells(&mut self.resource_id);
        let resource_dropped_attributes_count = finish_cells(&mut self.resource_dropped_attributes_count);
        let resource_schema_url = finish_cells(&mut self.resource_schema_url);
        let scope_id = finish_cells(&mut self.scope_id);
        let scope_name = finish_cells(&mut self.scope_name);
        let scope_version = finish_cells(&mut self.scope_version);
        let scope_dropped_attributes_count = finish_cells(&mut self.scope_dropped_attributes_count);
        let schema_url = finish_cells(&mut self.schema_url);
        let time_nanos = finish_cells(&mut self.time_nanos);
        let duration_nanos = finish_cells(&mut self.duration_nanos);
        let period = finish_cells(&mut self.period);
        let period_type = finish_present_cells(&mut self.period_type);
        let default_sample_type_index = finish_cells(&mut self.default_sample_type_index);
        let profile_id = finish_cells(&mut self.profile_id);
        let dropped_attributes_count = finish_cells(&mut self.dropped_attributes_count);
        let original_payload_format = finish_cells(&mut self.original_payload_format);
        let original_payload = finish_cells(&mut self.original_payload);
        let sample_type = finish_cells(&mut self.sample_type);
        let location_indices = finish_cells(&mut self.location_indices);
        let comment_strindices = finish_cells(&mut self.comment_strindices);
        let attribute_indices = finish_cells(&mut self.attribute_indices);
        assert(self@ =~= no_profiles_cells());
        if !agree {
            return Err(Error::ColumnLengthMismatch { table: ProfilesTable::Profiles });
        }
        Ok(ProfilesBatch {
            num_rows: n,
            id,
            resource: ResourceColumns { id: resource_id, dropped_attributes_count: resource_dropped_attributes_count, schema_url: resource_schema_url },
            scope: ScopeColumns { id: scope_id, name: scope_name, version: scope_version, dropped_attributes_count: scope_dropped_attributes_count },
            schema_url,
            time_nanos,
            duration_nanos,
            period,
            period_type,
            default_sample_type_index,
            profile_id,
            dropped_attributes_count,
            original_payload_format,
            original_payload,
            sample_type,
            location_indices,
            comment_strindices,
            attribute_indices,
        })
    }
}

} // verus!
