//! Validation of every table-referencing index of a [`ProfilesData`]
//! against the length of the table it references.
use vstd::prelude::*;
use crate::error::{Error, IndexColumn, ProfilesTable};
use crate::model::profiles::{
    AttributeUnit, Function, Line, LocationModel, MappingModel, ProfileModel, ProfilesData,
    ProfilesDataModel, ResourceProfilesModel, SampleModel, ScopeProfilesModel, ValueType,
};

verus! {

/* ------------------------------ specification ------------------------------ */

/// `index` addresses an entry of a table of `len` entries.
pub open spec fn in_range(index: int, len: int) -> bool {
    0 <= index < len
}

/// Every index of `s` addresses an entry of a table of `len` entries.
pub open spec fn all_in_range(s: Seq<i32>, len: int) -> bool {
    forall|k: int| 0 <= k < s.len() ==> in_range(#[trigger] s[k] as int, len)
}

/// The number of entries of lookup table `table` in `d` (the row streams,
/// which no index addresses, have none).
pub open spec fn table_size(d: ProfilesDataModel, table: ProfilesTable) -> int {
    match table {
        ProfilesTable::Profiles | ProfilesTable::Sample => 0,
        ProfilesTable::String => d.string_table.len() as int,
        ProfilesTable::Function => d.function_table.len() as int,
        ProfilesTable::Mapping => d.mapping_table.len() as int,
        ProfilesTable::Location => d.location_table.len() as int,
        ProfilesTable::Link => d.link_table.len() as int,
        ProfilesTable::Attribute => d.attribute_table.len() as int,
        ProfilesTable::AttributeUnits => d.attribute_units.len() as int,
    }
}

pub open spec fn value_type_valid(vt: ValueType, d: ProfilesDataModel) -> bool {
    &&& in_range(vt.type_strindex as int, d.string_table.len() as int)
    &&& in_range(vt.unit_strindex as int, d.string_table.len() as int)
}

pub open spec fn sample_valid(s: SampleModel, d: ProfilesDataModel) -> bool {
    &&& all_in_range(s.attribute_indices, d.attribute_table.len() as int)
    &&& (s.link_index matches Some(l) ==> in_range(l as int, d.link_table.len() as int))
}

pub open spec fn profile_valid(p: ProfileModel, d: ProfilesDataModel) -> bool {
    &&& forall|k: int| 0 <= k < p.sample_type.len() ==> value_type_valid(#[trigger] p.sample_type[k], d)
    &&& (p.period_type matches Some(vt) ==> value_type_valid(vt, d))
    &&& all_in_range(p.location_indices, d.location_table.len() as int)
    &&& all_in_range(p.comment_strindices, d.string_table.len() as int)
    &&& all_in_range(p.attribute_indices, d.attribute_table.len() as int)
    &&& forall|k: int| 0 <= k < p.sample.len() ==> sample_valid(#[trigger] p.sample[k], d)
}

pub open spec fn mapping_valid(m: MappingModel, d: ProfilesDataModel) -> bool {
    &&& in_range(m.filename_strindex as int, d.string_table.len() as int)
    &&& all_in_range(m.attribute_indices, d.attribute_table.len() as int)
}

pub open spec fn location_valid(l: LocationModel, d: ProfilesDataModel) -> bool {
    &&& (l.mapping_index matches Some(m) ==> in_range(m as int, d.mapping_table.len() as int))
    &&& all_in_range(l.attribute_indices, d.attribute_table.len() as int)
    &&& forall|k: int| 0 <= k < l.line.len() ==> in_range(
        #[trigger] l.line[k].function_index as int,
        d.function_table.len() as int,
    )
}

pub open spec fn function_valid(f: Function, d: ProfilesDataModel) -> bool {
    &&& in_range(f.name_strindex as int, d.string_table.len() as int)
    &&& in_range(f.system_name_strindex as int, d.string_table.len() as int)
    &&& in_range(f.filename_strindex as int, d.string_table.len() as int)
}

pub open spec fn attribute_unit_valid(u: AttributeUnit, d: ProfilesDataModel) -> bool {
    &&& in_range(u.attribute_key_strindex as int, d.string_table.len() as int)
    &&& in_range(u.unit_strindex as int, d.string_table.len() as int)
}

/// `p` is a profile of the resource -> scope -> profile tree of `d`.
pub open spec fn profile_in_tree(d: ProfilesDataModel, p: ProfileModel) -> bool {
    exists|r: int, s: int, q: int|
        0 <= r < d.resource_profiles.len() && 0 <= s < d.resource_profiles[r].scope_profiles.len()
            && 0 <= q < d.resource_profiles[r].scope_profiles[s].profiles.len()
            && #[trigger] d.resource_profiles[r].scope_profiles[s].profiles[q] == p
}

/// Every profile of the tree of `d` holds valid indices.
pub open spec fn tree_valid(d: ProfilesDataModel) -> bool {
    forall|r: int, s: int, q: int|
        0 <= r < d.resource_profiles.len() && 0 <= s < d.resource_profiles[r].scope_profiles.len()
            && 0 <= q < d.resource_profiles[r].scope_profiles[s].profiles.len()
            ==> profile_valid(#[trigger] d.resource_profiles[r].scope_profiles[s].profiles[q], d)
}

/// Every table-referencing index of `d` addresses an entry of the table it
/// references.
pub open spec fn table_indices_valid(d: ProfilesDataModel) -> bool {
    &&& tree_valid(d)
    &&& forall|k: int| 0 <= k < d.mapping_table.len() ==> mapping_valid(#[trigger] d.mapping_table[k], d)
    &&& forall|k: int| 0 <= k < d.location_table.len() ==> location_valid(#[trigger] d.location_table[k], d)
    &&& forall|k: int| 0 <= k < d.function_table.len() ==> function_valid(#[trigger] d.function_table[k], d)
    &&& forall|k: int| 0 <= k < d.attribute_units.len() ==> attribute_unit_valid(#[trigger] d.attribute_units[k], d)
}

/// `index` is a value of `s`.
pub open spec fn holds(s: Seq<i32>, index: int) -> bool {
    exists|k: int| 0 <= k < s.len() && #[trigger] s[k] as int == index
}

/// `index` is a string index of the value type `vt`.
pub open spec fn value_type_holds(vt: ValueType, index: int) -> bool {
    vt.type_strindex as int == index || vt.unit_strindex as int == index
}

/// `index` is stored in `column` of the profile `p` (or of one of its
/// samples), where `column` refers to `table`.
pub open spec fn profile_occurs(p: ProfileModel, column: IndexColumn, table: ProfilesTable, index: int) -> bool {
    match (column, table) {
        (IndexColumn::SampleType, ProfilesTable::String) => exists|k: int|
            0 <= k < p.sample_type.len() && value_type_holds(#[trigger] p.sample_type[k], index),
        (IndexColumn::PeriodType, ProfilesTable::String) =>
            p.period_type matches Some(vt) && value_type_holds(vt, index),
        (IndexColumn::LocationIndices, ProfilesTable::Location) => holds(p.location_indices, index),
        (IndexColumn::CommentStrindices, ProfilesTable::String) => holds(p.comment_strindices, index),
        (IndexColumn::AttributeIndices, ProfilesTable::Attribute) => {
            ||| holds(p.attribute_indices, index)
            ||| exists|k: int| 0 <= k < p.sample.len() && holds(#[trigger] p.sample[k].attribute_indices, index)
        },
        (IndexColumn::LinkIndex, ProfilesTable::Link) => exists|k: int|
            0 <= k < p.sample.len() && #[trigger] p.sample[k].link_index == Some(index as i32) && in_i32(index),
        _ => false,
    }
}

/// `index` is stored in `column` of one of the lookup tables of `d`, where
/// `column` refers to `table`.
pub open spec fn tables_occurs(d: ProfilesDataModel, column: IndexColumn, table: ProfilesTable, index: int) -> bool {
    match (column, table) {
        (IndexColumn::AttributeIndices, ProfilesTable::Attribute) => {
            ||| exists|k: int| 0 <= k < d.mapping_table.len() && holds(#[trigger] d.mapping_table[k].attribute_indices, index)
            ||| exists|k: int| 0 <= k < d.location_table.len() && holds(#[trigger] d.location_table[k].attribute_indices, index)
        },
        (IndexColumn::FilenameStrindex, ProfilesTable::String) => {
            ||| exists|k: int| 0 <= k < d.mapping_table.len() && #[trigger] d.mapping_table[k].filename_strindex as int == index
            ||| exists|k: int| 0 <= k < d.function_table.len() && #[trigger] d.function_table[k].filename_strindex as int == index
        },
        (IndexColumn::MappingIndex, ProfilesTable::Mapping) => exists|k: int|
            0 <= k < d.location_table.len() && #[trigger] d.location_table[k].mapping_index == Some(index as i32) && in_i32(index),
        (IndexColumn::FunctionIndex, ProfilesTable::Function) => exists|k: int, j: int|
            0 <= k < d.location_table.len() && 0 <= j < d.location_table[k].line.len()
                && #[trigger] d.location_table[k].line[j].function_index as int == index,
        (IndexColumn::NameStrindex, ProfilesTable::String) => exists|k: int|
            0 <= k < d.function_table.len() && #[trigger] d.function_table[k].name_strindex as int == index,
        (IndexColumn::SystemNameStrindex, ProfilesTable::String) => exists|k: int|
            0 <= k < d.function_table.len() && #[trigger] d.function_table[k].system_name_strindex as int == index,
        (IndexColumn::AttributeKeyStrindex, ProfilesTable::String) => exists|k: int|
            0 <= k < d.attribute_units.len() && #[trigger] d.attribute_units[k].attribute_key_strindex as int == index,
        (IndexColumn::UnitStrindex, ProfilesTable::String) => exists|k: int|
            0 <= k < d.attribute_units.len() && #[trigger] d.attribute_units[k].unit_strindex as int == index,
        _ => false,
    }
}

/// `index` is stored in `column` of `d`, where `column` refers to `table`.
pub open spec fn occurs(d: ProfilesDataModel, column: IndexColumn, table: ProfilesTable, index: int) -> bool {
    ||| exists|p: ProfileModel| #[trigger] profile_in_tree(d, p) && profile_occurs(p, column, table, index)
    ||| tables_occurs(d, column, table, index)
}

/// `e` reports an out-of-range index of `table`, stored in `column` of `p`.
pub open spec fn reports_profile_violation(d: ProfilesDataModel, p: ProfileModel, e: Error) -> bool {
    match e {
        Error::InvalidProfilesTableIndex { column, index, table, table_len } => {
            &&& table_len as int == table_size(d, table)
            &&& !in_range(index as int, table_len as int)
            &&& profile_occurs(p, column, table, index as int)
        },
        _ => false,
    }
}

pub open spec fn in_i32(v: int) -> bool {
    i32::MIN <= v <= i32::MAX
}

/// `e` reports an index of `d` that lies outside the table it references.
pub open spec fn reports_violation(d: ProfilesDataModel, e: Error) -> bool {
    match e {
        Error::InvalidProfilesTableIndex { column, index, table, table_len } => {
            &&& table_len as int == table_size(d, table)
            &&& !in_range(index as int, table_len as int)
            &&& occurs(d, column, table, index as int)
        },
        _ => false,
    }
}

/* ------------------------------ check order ------------------------------ */

/// One stored index and the table it must address.
pub struct IndexCheck {
    pub column: IndexColumn,
    pub index: i32,
    pub table: ProfilesTable,
}

/// The check of `index`, stored in `column`, against `table`.
pub open spec fn check_of(column: IndexColumn, index: i32, table: ProfilesTable) -> IndexCheck {
    IndexCheck { column, index, table }
}

/// The checks of the indices `s`, in order.
pub open spec fn checks_of(s: Seq<i32>, column: IndexColumn, table: ProfilesTable) -> Seq<IndexCheck> {
    s.map_values(|i: i32| check_of(column, i, table))
}

/// The checks of a sequence of check lists, one list after the other.
pub open spec fn concat_all(ss: Seq<Seq<IndexCheck>>) -> Seq<IndexCheck>
    decreases ss.len(),
{
    if ss.len() == 0 {
        Seq::empty()
    } else {
        concat_all(ss.drop_last()) + ss.last()
    }
}

/// The checks of a value type: type, then unit.
pub open spec fn value_type_checks(vt: ValueType, column: IndexColumn) -> Seq<IndexCheck> {
    seq![check_of(column, vt.type_strindex, ProfilesTable::String), check_of(column, vt.unit_strindex, ProfilesTable::String)]
}

/// The checks of a sample: attribute indices, then the link index.
pub open spec fn sample_checks(s: SampleModel) -> Seq<IndexCheck> {
    let link = match s.link_index {
        Some(l) => seq![check_of(IndexColumn::LinkIndex, l, ProfilesTable::Link)],
        None => Seq::empty(),
    };
    checks_of(s.attribute_indices, IndexColumn::AttributeIndices, ProfilesTable::Attribute) + link
}

/// The checks of a profile: sample types, period type, location indices,
/// comments, attribute indices, then the checks of each sample.
pub open spec fn profile_checks(p: ProfileModel) -> Seq<IndexCheck> {
    let period = match p.period_type {
        Some(vt) => value_type_checks(vt, IndexColumn::PeriodType),
        None => Seq::empty(),
    };
    concat_all(p.sample_type.map_values(|vt: ValueType| value_type_checks(vt, IndexColumn::SampleType)))
        + period
        + checks_of(p.location_indices, IndexColumn::LocationIndices, ProfilesTable::Location)
        + checks_of(p.comment_strindices, IndexColumn::CommentStrindices, ProfilesTable::String)
        + checks_of(p.attribute_indices, IndexColumn::AttributeIndices, ProfilesTable::Attribute)
        + concat_all(p.sample.map_values(|s: SampleModel| sample_checks(s)))
}

/// The checks of the profiles of a scope.
pub open spec fn scope_checks(s: ScopeProfilesModel) -> Seq<IndexCheck> {
    concat_all(s.profiles.map_values(|p: ProfileModel| profile_checks(p)))
}

/// The checks of the scopes of a resource.
pub open spec fn resource_checks(r: ResourceProfilesModel) -> Seq<IndexCheck> {
    concat_all(r.scope_profiles.map_values(|s: ScopeProfilesModel| scope_checks(s)))
}

/// The checks of a mapping: file name, then attribute indices.
pub open spec fn mapping_checks(m: MappingModel) -> Seq<IndexCheck> {
    seq![check_of(IndexColumn::FilenameStrindex, m.filename_strindex, ProfilesTable::String)]
        + checks_of(m.attribute_indices, IndexColumn::AttributeIndices, ProfilesTable::Attribute)
}

/// The checks of a location: mapping index, attribute indices, then the
/// function of each line.
pub open spec fn location_checks(l: LocationModel) -> Seq<IndexCheck> {
    let mapping = match l.mapping_index {
        Some(m) => seq![check_of(IndexColumn::MappingIndex, m, ProfilesTable::Mapping)],
        None => Seq::empty(),
    };
    mapping
        + checks_of(l.attribute_indices, IndexColumn::AttributeIndices, ProfilesTable::Attribute)
        + l.line.map_values(|x: Line| check_of(IndexColumn::FunctionIndex, x.function_index, ProfilesTable::Function))
}

/// The checks of a function: name, system name, then file name.
pub open spec fn function_checks(f: Function) -> Seq<IndexCheck> {
    seq![
        check_of(IndexColumn::NameStrindex, f.name_strindex, ProfilesTable::String),
        check_of(IndexColumn::SystemNameStrindex, f.system_name_strindex, ProfilesTable::String),
        check_of(IndexColumn::FilenameStrindex, f.filename_strindex, ProfilesTable::String),
    ]
}

/// The checks of an attribute unit: key, then unit.
pub open spec fn unit_checks(u: AttributeUnit) -> Seq<IndexCheck> {
    seq![
        check_of(IndexColumn::AttributeKeyStrindex, u.attribute_key_strindex, ProfilesTable::String),
        check_of(IndexColumn::UnitStrindex, u.unit_strindex, ProfilesTable::String),
    ]
}

/// Every index check of `d`, in the order they are made: the profiles tree
/// (resource by resource, scope by scope, profile by profile), then the
/// mapping, location, function and attribute units tables, entry by entry.
pub open spec fn all_checks(d: ProfilesDataModel) -> Seq<IndexCheck> {
    concat_all(d.resource_profiles.map_values(|r: ResourceProfilesModel| resource_checks(r)))
        + concat_all(d.mapping_table.map_values(|m: MappingModel| mapping_checks(m)))
        + concat_all(d.location_table.map_values(|l: LocationModel| location_checks(l)))
        + concat_all(d.function_table.map_values(|f: Function| function_checks(f)))
        + concat_all(d.attribute_units.map_values(|u: AttributeUnit| unit_checks(u)))
}

/// The first of `cs` whose index lies outside its table in `d`.
pub open spec fn first_failure(d: ProfilesDataModel, cs: Seq<IndexCheck>) -> Option<IndexCheck>
    decreases cs.len(),
{
    if cs.len() == 0 {
        None
    } else if !in_range(cs[0].index as int, table_size(d, cs[0].table)) {
        Some(cs[0])
    } else {
        first_failure(d, cs.drop_first())
    }
}

/// The outcome of making the checks `cs` on `d`: the error of the first
/// failing check, `Ok` when none fails.
pub open spec fn verdict(d: ProfilesDataModel, cs: Seq<IndexCheck>) -> Result<(), Error> {
    match first_failure(d, cs) {
        Some(c) => Err(Error::InvalidProfilesTableIndex {
            column: c.column,
            index: c.index as i64,
            table: c.table,
            table_len: table_size(d, c.table) as usize,
        }),
        None => Ok(()),
    }
}

/// The first failure of two check lists made one after the other.
pub proof fn lemma_first_failure_concat(d: ProfilesDataModel, a: Seq<IndexCheck>, b: Seq<IndexCheck>)
    ensures
        first_failure(d, a + b) == (if first_failure(d, a) is Some { first_failure(d, a) } else { first_failure(d, b) }),
    decreases a.len(),
{
    if a.len() == 0 {
        assert(a + b =~= b);
    } else {
        assert((a + b).drop_first() =~= a.drop_first() + b);
        lemma_first_failure_concat(d, a.drop_first(), b);
    }
}

/// `concat_all` of two sequences of lists.
pub proof fn lemma_concat_all_append(a: Seq<Seq<IndexCheck>>, b: Seq<Seq<IndexCheck>>)
    ensures
        concat_all(a + b) == concat_all(a) + concat_all(b),
    decreases b.len(),
{
    if b.len() == 0 {
        assert(a + b =~= a);
        assert(concat_all(a) + concat_all(b) =~= concat_all(a));
    } else {
        lemma_concat_all_append(a, b.drop_last());
        assert((a + b).drop_last() =~= a + b.drop_last());
        assert(concat_all(a) + concat_all(b.drop_last()) + b.last() =~= concat_all(a) + (concat_all(b.drop_last()) + b.last()));
    }
}


/// Checks after passing checks: when the checks `pre` all pass, the first
/// failure of `pre + mid + post` is that of `mid` if `mid` has one, and
/// `pre + mid` all pass otherwise.
proof fn lemma_verdict_after_passing(d: ProfilesDataModel, pre: Seq<IndexCheck>, mid: Seq<IndexCheck>, post: Seq<IndexCheck>)
    requires
        first_failure(d, pre) is None,
    ensures
        first_failure(d, mid) is Some ==> verdict(d, pre + mid + post) == verdict(d, mid),
        first_failure(d, mid) is None ==> first_failure(d, pre + mid) is None,
{
    lemma_first_failure_concat(d, pre, mid);
    lemma_first_failure_concat(d, pre + mid, post);
    lemma_first_failure_concat(d, mid, post);
}

/// A single check.
proof fn lemma_single_check(d: ProfilesDataModel, c: IndexCheck)
    ensures
        first_failure(d, seq![c]) == (if in_range(c.index as int, table_size(d, c.table)) { None::<IndexCheck> } else { Some(c) }),
{
    assert(seq![c].drop_first() =~= Seq::<IndexCheck>::empty());
    assert(first_failure(d, Seq::<IndexCheck>::empty()) is None);
}

/// `concat_all` taken apart at its first list.
proof fn lemma_concat_all_front(ss: Seq<Seq<IndexCheck>>)
    requires
        ss.len() > 0,
    ensures
        concat_all(ss) == ss[0] + concat_all(ss.drop_first()),
{
    lemma_concat_all_append(seq![ss[0]], ss.drop_first());
    assert(seq![ss[0]] + ss.drop_first() =~= ss);
    assert(seq![ss[0]].drop_last() =~= Seq::<Seq<IndexCheck>>::empty());
    assert(concat_all(Seq::<Seq<IndexCheck>>::empty()) =~= Seq::<IndexCheck>::empty());
    assert(concat_all(seq![ss[0]]) == concat_all(Seq::<Seq<IndexCheck>>::empty()) + ss[0]);
    assert(Seq::<IndexCheck>::empty() + ss[0] =~= ss[0]);
}

/// One step of making the checks `all` in order: `done` all passed, `mid`
/// is made next and `rest` after it.
proof fn lemma_step(d: ProfilesDataModel, all: Seq<IndexCheck>, done: Seq<IndexCheck>, mid: Seq<IndexCheck>, rest: Seq<IndexCheck>)
    requires
        first_failure(d, done) is None,
        all == done + (mid + rest),
    ensures
        first_failure(d, mid) is Some ==> verdict(d, all) == verdict(d, mid),
        first_failure(d, mid) is None ==> first_failure(d, done + mid) is None,
        all == (done + mid) + rest,
{
    assert(done + (mid + rest) =~= done + mid + rest);
    lemma_verdict_after_passing(d, done, mid, rest);
}

/// The lists from `i` on, taken apart at list `i`.
proof fn lemma_lists_from(ss: Seq<Seq<IndexCheck>>, i: int)
    requires
        0 <= i < ss.len(),
    ensures
        concat_all(ss.subrange(i, ss.len() as int)) == ss[i] + concat_all(ss.subrange(i + 1, ss.len() as int)),
{
    lemma_concat_all_front(ss.subrange(i, ss.len() as int));
    assert(ss.subrange(i, ss.len() as int).drop_first() =~= ss.subrange(i + 1, ss.len() as int));
}

/// Law: in profiles data whose indices are valid, every index addresses an
/// existing entry of the table it references: it is at least zero and below
/// that table's length.
pub proof fn law_valid_indices_address_entries(d: ProfilesDataModel)
    requires
        table_indices_valid(d),
    ensures
        forall|r: int, s: int, q: int|
            0 <= r < d.resource_profiles.len() && 0 <= s < d.resource_profiles[r].scope_profiles.len()
            && 0 <= q < d.resource_profiles[r].scope_profiles[s].profiles.len() ==> {
                let p = #[trigger] d.resource_profiles[r].scope_profiles[s].profiles[q];
                &&& forall|k: int| 0 <= k < p.sample_type.len() ==> 0 <= (#[trigger] p.sample_type[k]).type_strindex
                    && p.sample_type[k].type_strindex < d.string_table.len()
                    && 0 <= p.sample_type[k].unit_strindex && p.sample_type[k].unit_strindex < d.string_table.len()
                &&& (p.period_type matches Some(vt) ==> 0 <= vt.type_strindex && vt.type_strindex < d.string_table.len()
                    && 0 <= vt.unit_strindex && vt.unit_strindex < d.string_table.len())
                &&& forall|k: int| 0 <= k < p.location_indices.len() ==> 0 <= #[trigger] p.location_indices[k]
                    && p.location_indices[k] < d.location_table.len()
                &&& forall|k: int| 0 <= k < p.comment_strindices.len() ==> 0 <= #[trigger] p.comment_strindices[k]
                    && p.comment_strindices[k] < d.string_table.len()
                &&& forall|k: int| 0 <= k < p.attribute_indices.len() ==> 0 <= #[trigger] p.attribute_indices[k]
                    && p.attribute_indices[k] < d.attribute_table.len()
                &&& forall|k: int| 0 <= k < p.sample.len() ==> {
                    &&& (#[trigger] p.sample[k]).link_index matches Some(l) ==> 0 <= l && l < d.link_table.len()
                    &&& forall|a: int| 0 <= a < p.sample[k].attribute_indices.len() ==> 0 <= #[trigger] p.sample[k].attribute_indices[a]
                        && p.sample[k].attribute_indices[a] < d.attribute_table.len()
                }
            },
        forall|k: int| 0 <= k < d.mapping_table.len() ==> {
            let m = #[trigger] d.mapping_table[k];
            &&& 0 <= m.filename_strindex && m.filename_strindex < d.string_table.len()
            &&& forall|a: int| 0 <= a < m.attribute_indices.len() ==> 0 <= #[trigger] m.attribute_indices[a]
                && m.attribute_indices[a] < d.attribute_table.len()
        },
        forall|k: int| 0 <= k < d.location_table.len() ==> {
            let l = #[trigger] d.location_table[k];
            &&& l.mapping_index matches Some(mi) ==> 0 <= mi && mi < d.mapping_table.len()
            &&& forall|a: int| 0 <= a < l.attribute_indices.len() ==> 0 <= #[trigger] l.attribute_indices[a]
                && l.attribute_indices[a] < d.attribute_table.len()
            &&& forall|a: int| 0 <= a < l.line.len() ==> 0 <= (#[trigger] l.line[a]).function_index
                && l.line[a].function_index < d.function_table.len()
        },
        forall|k: int| 0 <= k < d.function_table.len() ==> {
            let f = #[trigger] d.function_table[k];
            &&& 0 <= f.name_strindex && f.name_strindex < d.string_table.len()
            &&& 0 <= f.system_name_strindex && f.system_name_strindex < d.string_table.len()
            &&& 0 <= f.filename_strindex && f.filename_strindex < d.string_table.len()
        },
        forall|k: int| 0 <= k < d.attribute_units.len() ==> {
            let u = #[trigger] d.attribute_units[k];
            &&& 0 <= u.attribute_key_strindex && u.attribute_key_strindex < d.string_table.len()
            &&& 0 <= u.unit_strindex && u.unit_strindex < d.string_table.len()
        },
{
    assert forall|r: int, s: int, q: int|
        0 <= r < d.resource_profiles.len() && 0 <= s < d.resource_profiles[r].scope_profiles.len()
        && 0 <= q < d.resource_profiles[r].scope_profiles[s].profiles.len() implies {
            let p = #[trigger] d.resource_profiles[r].scope_profiles[s].profiles[q];
            &&& forall|k: int| 0 <= k < p.sample_type.len() ==> 0 <= (#[trigger] p.sample_type[k]).type_strindex
                && p.sample_type[k].type_strindex < d.string_table.len()
                && 0 <= p.sample_type[k].unit_strindex && p.sample_type[k].unit_strindex < d.string_table.len()
            &&& (p.period_type matches Some(vt) ==> 0 <= vt.type_strindex && vt.type_strindex < d.string_table.len()
                && 0 <= vt.unit_strindex && vt.unit_strindex < d.string_table.len())
            &&& forall|k: int| 0 <= k < p.location_indices.len() ==> 0 <= #[trigger] p.location_indices[k]
                && p.location_indices[k] < d.location_table.len()
            &&& forall|k: int| 0 <= k < p.comment_strindices.len() ==> 0 <= #[trigger] p.comment_strindices[k]
                && p.comment_strindices[k] < d.string_table.len()
            &&& forall|k: int| 0 <= k < p.attribute_indices.len() ==> 0 <= #[trigger] p.attribute_indices[k]
                && p.attribute_indices[k] < d.attribute_table.len()
            &&& forall|k: int| 0 <= k < p.sample.len() ==> {
                &&& (#[trigger] p.sample[k]).link_index matches Some(l) ==> 0 <= l && l < d.link_table.len()
                &&& forall|a: int| 0 <= a < p.sample[k].attribute_indices.len() ==> 0 <= #[trigger] p.sample[k].attribute_indices[a]
                    && p.sample[k].attribute_indices[a] < d.attribute_table.len()
            }
        } by {
        let p = d.resource_profiles[r].scope_profiles[s].profiles[q];
        assert(profile_valid(p, d));
        assert forall|k: int| 0 <= k < p.sample.len() implies {
            &&& (#[trigger] p.sample[k]).link_index matches Some(l) ==> 0 <= l && l < d.link_table.len()
            &&& forall|a: int| 0 <= a < p.sample[k].attribute_indices.len() ==> 0 <= #[trigger] p.sample[k].attribute_indices[a]
                && p.sample[k].attribute_indices[a] < d.attribute_table.len()
        } by {
            assert(sample_valid(p.sample[k], d));
        }
    }
    assert forall|k: int| 0 <= k < d.location_table.len() implies {
        let l = #[trigger] d.location_table[k];
        &&& l.mapping_index matches Some(mi) ==> 0 <= mi && mi < d.mapping_table.len()
        &&& forall|a: int| 0 <= a < l.attribute_indices.len() ==> 0 <= #[trigger] l.attribute_indices[a]
            && l.attribute_indices[a] < d.attribute_table.len()
        &&& forall|a: int| 0 <= a < l.line.len() ==> 0 <= (#[trigger] l.line[a]).function_index
            && l.line[a].function_index < d.function_table.len()
    } by {
        assert(location_valid(d.location_table[k], d));
    }
}

/* ------------------------------ implementation ------------------------------ */

/// Check that `index` addresses an entry of a table of `table_len` entries.
/// A negative index is out of range (it never wraps around).
pub fn check_index(index: i32, table_len: usize, column: IndexColumn, table: ProfilesTable) -> (r: Result<(), Error>)
    ensures
        r is Ok <==> in_range(index as int, table_len as int),
        r is Ok <==> 0 <= index && (index as int) < (table_len as int),
        r is Err ==> r == Err::<(), Error>(Error::InvalidProfilesTableIndex {
            column,
            index: index as i64,
            table,
            table_len,
        }),
{
    if index >= 0 && (index as usize) < table_len {
        Ok(())
    } else {
        Err(Error::InvalidProfilesTableIndex { column, index: index as i64, table, table_len })
    }
}

/// Check both string indices of a value type: type, then unit.
fn check_value_type(vt: &ValueType, n_strings: usize, column: IndexColumn, Ghost(d): Ghost<ProfilesDataModel>) -> (r: Result<(), Error>)
    requires
        n_strings == d.string_table.len(),
    ensures
        r == verdict(d, value_type_checks(*vt, column)),
        r is Ok <==> (in_range(vt.type_strindex as int, n_strings as int) && in_range(vt.unit_strindex as int, n_strings as int)),
        r matches Err(e) ==> (e matches Error::InvalidProfilesTableIndex { column: c, index, table, table_len }
            && c == column && table == ProfilesTable::String && table_len == n_strings
            && !in_range(index as int, n_strings as int)
            && value_type_holds(*vt, index as int)),
{
    let ghost cs = value_type_checks(*vt, column);
    proof {
        assert(cs.drop_first() =~= seq![cs[1]]);
        lemma_single_check(d, cs[1]);
        assert(first_failure(d, cs) == (if !in_range(cs[0].index as int, table_size(d, cs[0].table)) {
            Some(cs[0])
        } else {
            first_failure(d, cs.drop_first())
        }));
        assert(table_size(d, ProfilesTable::String) == n_strings);
    }
    let r = check_index(vt.type_strindex, n_strings, column, ProfilesTable::String);
    if r.is_err() {
        return r;
    }
    let r = check_index(vt.unit_strindex, n_strings, column, ProfilesTable::String);
    if r.is_err() {
        return r;
    }
    Ok(())
}

/// Check every index of `indices`, in order, against a table of
/// `table_len` entries.
fn check_all(indices: &Vec<i32>, table_len: usize, column: IndexColumn, table: ProfilesTable, Ghost(d): Ghost<ProfilesDataModel>) -> (r: Result<(), Error>)
    requires
        table_len == table_size(d, table),
    ensures
        r == verdict(d, checks_of(indices@, column, table)),
        r is Ok <==> all_in_range(indices@, table_len as int),
        r matches Err(e) ==> (e matches Error::InvalidProfilesTableIndex { column: c, index, table: t, table_len: n }
            && c == column && t == table && n == table_len
            && !in_range(index as int, table_len as int)
            && holds(indices@, index as int)),
{
    let ghost all = checks_of(indices@, column, table);
    let mut i: usize = 0;
    while i < indices.len()
        invariant
            i <= indices.len(),
            table_len == table_size(d, table),
            all == checks_of(indices@, column, table),
            forall|k: int| 0 <= k < i ==> in_range(#[trigger] indices@[k] as int, table_len as int),
            first_failure(d, checks_of(indices@.subrange(0, i as int), column, table)) is None,
        decreases indices.len() - i,
    {
        let ghost pre = checks_of(indices@.subrange(0, i as int), column, table);
        let ghost mid = seq![check_of(column, indices@[i as int], table)];
        let ghost post = checks_of(indices@.subrange(i + 1, indices.len() as int), column, table);
        proof {
            assert(all =~= pre + mid + post);
            assert(checks_of(indices@.subrange(0, i + 1), column, table) =~= pre + mid);
            lemma_single_check(d, mid[0]);
            lemma_verdict_after_passing(d, pre, mid, post);
        }
        let r = check_index(indices[i], table_len, column, table);
        if r.is_err() {
            assert(indices@[i as int] as int == indices[i as int] as i64 as int);
            return r;
        }
        i += 1;
    }
    proof {
        assert(indices@.subrange(0, indices.len() as int) =~= indices@);
    }
    Ok(())
}

/// Validate every index held by one profile and its samples, in the order
/// of [`profile_checks`].
fn validate_profile(data: &ProfilesData, p: &crate::model::profiles::Profile) -> (r: Result<(), Error>)
    ensures
        r == verdict(data@, profile_checks(p@)),
        r is Ok <==> profile_valid(p@, data@),
        r matches Err(e) ==> reports_profile_violation(data@, p@, e),
{
    let ghost d = data@;
    let ghost pm = p@;
    let ghost all = profile_checks(pm);
    let ghost st = pm.sample_type.map_values(|vt: ValueType| value_type_checks(vt, IndexColumn::SampleType));
    let ghost period = match pm.period_type {
        Some(vt) => value_type_checks(vt, IndexColumn::PeriodType),
        None => Seq::<IndexCheck>::empty(),
    };
    let ghost c_loc = checks_of(pm.location_indices, IndexColumn::LocationIndices, ProfilesTable::Location);
    let ghost c_com = checks_of(pm.comment_strindices, IndexColumn::CommentStrindices, ProfilesTable::String);
    let ghost c_att = checks_of(pm.attribute_indices, IndexColumn::AttributeIndices, ProfilesTable::Attribute);
    let ghost sm = pm.sample.map_values(|x: SampleModel| sample_checks(x));
    let ghost tail = period + (c_loc + (c_com + (c_att + concat_all(sm))));
    let ghost mut done = Seq::<IndexCheck>::empty();
    proof {
        assert(st.subrange(0, st.len() as int) =~= st);
        assert(all =~= done + (concat_all(st.subrange(0, st.len() as int)) + tail));
    }
    let n_strings = data.string_table.len();
    let n_locations = data.location_table.len();
    let n_links = data.link_table.len();
    let n_attributes = data.attribute_table.len();
    proof {
        crate::model::common::lemma_key_values_model(data.attribute_table@);
    }
    let mut i: usize = 0;
    while i < p.sample_type.len()
        invariant
            i <= p.sample_type.len(),
            d == data@,
            pm == p@,
            st == pm.sample_type.map_values(|vt: ValueType| value_type_checks(vt, IndexColumn::SampleType)),
            n_strings == data@.string_table.len(),
            forall|k: int| 0 <= k < i ==> value_type_valid(#[trigger] p@.sample_type[k], data@),
            first_failure(d, done) is None,
            all == profile_checks(pm),
            all == done + (concat_all(st.subrange(i as int, st.len() as int)) + tail),
        decreases p.sample_type.len() - i,
    {
        let ghost rest = concat_all(st.subrange(i + 1, st.len() as int)) + tail;
        proof {
            lemma_lists_from(st, i as int);
            assert(all == done + (st[i as int] + rest)) by {
                assert(concat_all(st.subrange(i as int, st.len() as int)) + tail =~= st[i as int] + rest);
            }
            lemma_step(d, all, done, st[i as int], rest);
        }
        let r = check_value_type(&p.sample_type[i], n_strings, IndexColumn::SampleType, Ghost(d));
        if let Err(e) = r {
            assert(value_type_holds(p@.sample_type[i as int], e->index as int));
            return Err(e);
        }
        proof {
            done = done + st[i as int];
        }
        i += 1;
    }
    proof {
        assert(concat_all(st.subrange(st.len() as int, st.len() as int)) =~= Seq::<IndexCheck>::empty()) by {
            assert(st.subrange(st.len() as int, st.len() as int) =~= Seq::<Seq<IndexCheck>>::empty());
        }
        assert(all == done + (period + (c_loc + (c_com + (c_att + concat_all(sm)))))) by {
            assert(concat_all(st.subrange(st.len() as int, st.len() as int)) + tail =~= tail);
        }
        lemma_step(d, all, done, period, c_loc + (c_com + (c_att + concat_all(sm))));
    }
    if let Some(vt) = &p.period_type {
        check_value_type(vt, n_strings, IndexColumn::PeriodType, Ghost(d))?;
    } else {
        proof {
            assert(first_failure(d, Seq::<IndexCheck>::empty()) is None);
        }
    }
    proof {
        done = done + period;
        lemma_step(d, all, done, c_loc, c_com + (c_att + concat_all(sm)));
    }
    check_all(&p.location_indices, n_locations, IndexColumn::LocationIndices, ProfilesTable::Location, Ghost(d))?;
    proof {
        done = done + c_loc;
        lemma_step(d, all, done, c_com, c_att + concat_all(sm));
    }
    check_all(&p.comment_strindices, n_strings, IndexColumn::CommentStrindices, ProfilesTable::String, Ghost(d))?;
    proof {
        done = done + c_com;
        lemma_step(d, all, done, c_att, concat_all(sm));
    }
    check_all(&p.attribute_indices, n_attributes, IndexColumn::AttributeIndices, ProfilesTable::Attribute, Ghost(d))?;
    proof {
        done = done + c_att;
        assert(sm.subrange(0, sm.len() as int) =~= sm);
        assert(all == done + concat_all(sm.subrange(0, sm.len() as int)));
    }
    let mut j: usize = 0;
    while j < p.sample.len()
        invariant
            j <= p.sample.len(),
            d == data@,
            pm == p@,
            sm == pm.sample.map_values(|x: SampleModel| sample_checks(x)),
            n_links == data@.link_table.len(),
            n_attributes == data@.attribute_table.len(),
            forall|k: int| 0 <= k < j ==> sample_valid(#[trigger] p@.sample[k], data@),
            first_failure(d, done) is None,
            all == profile_checks(pm),
            all == done + concat_all(sm.subrange(j as int, sm.len() as int)),
        decreases p.sample.len() - j,
    {
        let s = &p.sample[j];
        let ghost c_sat = checks_of(s.attribute_indices@, IndexColumn::AttributeIndices, ProfilesTable::Attribute);
        let ghost c_link = match s.link_index {
            Some(l) => seq![check_of(IndexColumn::LinkIndex, l, ProfilesTable::Link)],
            None => Seq::<IndexCheck>::empty(),
        };
        let ghost rest = concat_all(sm.subrange(j + 1, sm.len() as int));
        proof {
            lemma_lists_from(sm, j as int);
            assert(sm[j as int] == c_sat + c_link);
            assert(all == done + (c_sat + (c_link + rest))) by {
                assert(concat_all(sm.subrange(j as int, sm.len() as int)) =~= c_sat + (c_link + rest));
            }
            lemma_step(d, all, done, c_sat, c_link + rest);
        }
        let r = check_all(&s.attribute_indices, n_attributes, IndexColumn::AttributeIndices, ProfilesTable::Attribute, Ghost(d));
        if let Err(e) = r {
            assert(holds(p@.sample[j as int].attribute_indices, e->index as int));
            return Err(e);
        }
        proof {
            done = done + c_sat;
            lemma_step(d, all, done, c_link, rest);
        }
        if let Some(index) = s.link_index {
            proof {
                lemma_single_check(d, c_link[0]);
            }
            let r = check_index(index, n_links, IndexColumn::LinkIndex, ProfilesTable::Link);
            if let Err(e) = r {
                assert(p@.sample[j as int].link_index == Some(e->index as i32));
                return Err(e);
            }
        } else {
            proof {
                assert(first_failure(d, Seq::<IndexCheck>::empty()) is None);
            }
        }
        proof {
            done = done + c_link;
        }
        j += 1;
    }
    proof {
        assert(sm.subrange(sm.len() as int, sm.len() as int) =~= Seq::<Seq<IndexCheck>>::empty());
        assert(all =~= done);
    }
    Ok(())
}

/// Validate every profile of the resource -> scope -> profile tree, in
/// order.
fn validate_tree(data: &ProfilesData) -> (r: Result<(), Error>)
    ensures
        r == verdict(data@, concat_all(data@.resource_profiles.map_values(|r: ResourceProfilesModel| resource_checks(r)))),
        r is Ok <==> tree_valid(data@),
        r matches Err(e) ==> exists|p: ProfileModel| #[trigger] profile_in_tree(data@, p) && reports_profile_violation(data@, p, e),
{
    let ghost d = data@;
    let ghost rc = d.resource_profiles.map_values(|r: ResourceProfilesModel| resource_checks(r));
    let ghost all = concat_all(rc);
    let ghost mut done = Seq::<IndexCheck>::empty();
    proof {
        assert(rc.subrange(0, rc.len() as int) =~= rc);
        assert(all =~= done + concat_all(rc.subrange(0, rc.len() as int)));
    }
    let mut i: usize = 0;
    while i < data.resource_profiles.len()
        invariant
            i <= data.resource_profiles.len(),
            d == data@,
            rc == d.resource_profiles.map_values(|r: ResourceProfilesModel| resource_checks(r)),
            first_failure(d, done) is None,
            all == concat_all(rc),
            all == done + concat_all(rc.subrange(i as int, rc.len() as int)),
            forall|r: int, s: int, q: int|
                0 <= r < i && 0 <= s < data@.resource_profiles[r].scope_profiles.len()
                    && 0 <= q < data@.resource_profiles[r].scope_profiles[s].profiles.len()
                    ==> profile_valid(#[trigger] data@.resource_profiles[r].scope_profiles[s].profiles[q], data@),
        decreases data.resource_profiles.len() - i,
    {
        let rp = &data.resource_profiles[i];
        let ghost sc = rp@.scope_profiles.map_values(|s: ScopeProfilesModel| scope_checks(s));
        let ghost rest_r = concat_all(rc.subrange(i + 1, rc.len() as int));
        proof {
            lemma_lists_from(rc, i as int);
            assert(rc[i as int] == concat_all(sc));
            assert(sc.subrange(0, sc.len() as int) =~= sc);
        }
        let mut j: usize = 0;
        while j < rp.scope_profiles.len()
            invariant
                i < data.resource_profiles.len(),
                d == data@,
                rp == data.resource_profiles@[i as int],
                sc == rp@.scope_profiles.map_values(|s: ScopeProfilesModel| scope_checks(s)),
                j <= rp.scope_profiles.len(),
                first_failure(d, done) is None,
                all == concat_all(rc),
                rc == d.resource_profiles.map_values(|r: ResourceProfilesModel| resource_checks(r)),
                all == done + (concat_all(sc.subrange(j as int, sc.len() as int)) + rest_r),
                forall|r: int, s: int, q: int|
                    0 <= r < i && 0 <= s < data@.resource_profiles[r].scope_profiles.len()
                        && 0 <= q < data@.resource_profiles[r].scope_profiles[s].profiles.len()
                        ==> profile_valid(#[trigger] data@.resource_profiles[r].scope_profiles[s].profiles[q], data@),
                forall|s: int, q: int|
                    0 <= s < j && 0 <= q < data@.resource_profiles[i as int].scope_profiles[s].profiles.len()
                        ==> profile_valid(#[trigger] data@.resource_profiles[i as int].scope_profiles[s].profiles[q], data@),
            decreases rp.scope_profiles.len() - j,
        {
            let sp = &rp.scope_profiles[j];
            let ghost pc = sp@.profiles.map_values(|p: ProfileModel| profile_checks(p));
            let ghost rest_s = concat_all(sc.subrange(j + 1, sc.len() as int)) + rest_r;
            proof {
                lemma_lists_from(sc, j as int);
                assert(sc[j as int] == concat_all(pc));
                assert(pc.subrange(0, pc.len() as int) =~= pc);
                assert(all == done + (concat_all(pc.subrange(0, pc.len() as int)) + rest_s)) by {
                    assert(concat_all(sc.subrange(j as int, sc.len() as int)) + rest_r
                        =~= concat_all(pc.subrange(0, pc.len() as int)) + rest_s);
                }
            }
            let mut k: usize = 0;
            while k < sp.profiles.len()
                invariant
                    i < data.resource_profiles.len(),
                    d == data@,
                    rp == data.resource_profiles@[i as int],
                    j < rp.scope_profiles.len(),
                    sp == rp.scope_profiles@[j as int],
                    pc == sp@.profiles.map_values(|p: ProfileModel| profile_checks(p)),
                    k <= sp.profiles.len(),
                    first_failure(d, done) is None,
                    all == concat_all(rc),
                rc == d.resource_profiles.map_values(|r: ResourceProfilesModel| resource_checks(r)),
                    all == done + (concat_all(pc.subrange(k as int, pc.len() as int)) + rest_s),
                    forall|r: int, s: int, q: int|
                        0 <= r < i && 0 <= s < data@.resource_profiles[r].scope_profiles.len()
                            && 0 <= q < data@.resource_profiles[r].scope_profiles[s].profiles.len()
                            ==> profile_valid(#[trigger] data@.resource_profiles[r].scope_profiles[s].profiles[q], data@),
                    forall|s: int, q: int|
                        0 <= s < j && 0 <= q < data@.resource_profiles[i as int].scope_profiles[s].profiles.len()
                            ==> profile_valid(#[trigger] data@.resource_profiles[i as int].scope_profiles[s].profiles[q], data@),
                    forall|q: int| 0 <= q < k
                        ==> profile_valid(#[trigger] data@.resource_profiles[i as int].scope_profiles[j as int].profiles[q], data@),
                decreases sp.profiles.len() - k,
            {
                let ghost rest_p = concat_all(pc.subrange(k + 1, pc.len() as int)) + rest_s;
                proof {
                    lemma_lists_from(pc, k as int);
                    assert(all == done + (pc[k as int] + rest_p)) by {
                        assert(concat_all(pc.subrange(k as int, pc.len() as int)) + rest_s =~= pc[k as int] + rest_p);
                    }
                    lemma_step(d, all, done, pc[k as int], rest_p);
                }
                let r = validate_profile(data, &sp.profiles[k]);
                proof {
                    assert(sp@.profiles[k as int] == sp.profiles@[k as int]@);
                    assert(pc[k as int] == profile_checks(sp.profiles@[k as int]@));
                }
                if let Err(e) = r {
                    assert(profile_in_tree(data@, data@.resource_profiles[i as int].scope_profiles[j as int].profiles[k as int]));
                    return Err(e);
                }
                proof {
                    done = done + pc[k as int];
                }
                k += 1;
            }
            proof {
                assert(pc.subrange(pc.len() as int, pc.len() as int) =~= Seq::<Seq<IndexCheck>>::empty());
                assert(concat_all(pc.subrange(pc.len() as int, pc.len() as int)) + rest_s =~= rest_s);
                assert(all == done + (concat_all(sc.subrange(j + 1, sc.len() as int)) + rest_r)) by {
                    assert(concat_all(pc.subrange(pc.len() as int, pc.len() as int)) + rest_s
                        =~= concat_all(sc.subrange(j + 1, sc.len() as int)) + rest_r);
                }
            }
            j += 1;
        }
        proof {
            assert(sc.subrange(sc.len() as int, sc.len() as int) =~= Seq::<Seq<IndexCheck>>::empty());
            assert(all == done + concat_all(rc.subrange(i + 1, rc.len() as int))) by {
                assert(concat_all(sc.subrange(sc.len() as int, sc.len() as int)) + rest_r =~= rest_r);
            }
        }
        i += 1;
    }
    proof {
        assert(rc.subrange(rc.len() as int, rc.len() as int) =~= Seq::<Seq<IndexCheck>>::empty());
        assert(all =~= done);
    }
    Ok(())
}

/// Validate every table-referencing index of `data` against the length of
/// the table it references, in the order of [`all_checks`]: the error of
/// the first index that is out of range, `Ok` when all of them are in range.
pub fn validate_table_indices(data: &ProfilesData) -> (r: Result<(), Error>)
    ensures
        r == verdict(data@, all_checks(data@)),
        r is Ok <==> table_indices_valid(data@),
        r matches Err(e) ==> reports_violation(data@, e),
{
    let ghost d = data@;
    let ghost all = all_checks(d);
    let ghost tree = concat_all(d.resource_profiles.map_values(|r: ResourceProfilesModel| resource_checks(r)));
    let ghost mc = d.mapping_table.map_values(|m: MappingModel| mapping_checks(m));
    let ghost lc = d.location_table.map_values(|l: LocationModel| location_checks(l));
    let ghost fc = d.function_table.map_values(|f: Function| function_checks(f));
    let ghost uc = d.attribute_units.map_values(|u: AttributeUnit| unit_checks(u));
    let ghost mut done = Seq::<IndexCheck>::empty();
    let n_strings = data.string_table.len();
    let n_functions = data.function_table.len();
    let n_mappings = data.mapping_table.len();
    let n_attributes = data.attribute_table.len();
    proof {
        crate::model::common::lemma_key_values_model(data.attribute_table@);
        assert(all =~= done + (tree + (concat_all(mc) + (concat_all(lc) + (concat_all(fc) + concat_all(uc))))));
        lemma_step(d, all, done, tree, concat_all(mc) + (concat_all(lc) + (concat_all(fc) + concat_all(uc))));
    }

    validate_tree(data)?;

    proof {
        done = done + tree;
        assert(mc.subrange(0, mc.len() as int) =~= mc);
    }
    let ghost tail_m = concat_all(lc) + (concat_all(fc) + concat_all(uc));
    let mut i: usize = 0;
    while i < data.mapping_table.len()
        invariant
            i <= data.mapping_table.len(),
            d == data@,
            mc == d.mapping_table.map_values(|m: MappingModel| mapping_checks(m)),
            first_failure(d, done) is None,
            all == all_checks(d),
            all == done + (concat_all(mc.subrange(i as int, mc.len() as int)) + tail_m),
            tree_valid(data@),
            n_strings == data@.string_table.len(),
            n_attributes == data@.attribute_table.len(),
            forall|k: int| 0 <= k < i ==> mapping_valid(#[trigger] data@.mapping_table[k], data@),
        decreases data.mapping_table.len() - i,
    {
        let m = &data.mapping_table[i];
        let ghost c_file = seq![check_of(IndexColumn::FilenameStrindex, m.filename_strindex, ProfilesTable::String)];
        let ghost c_att = checks_of(m.attribute_indices@, IndexColumn::AttributeIndices, ProfilesTable::Attribute);
        let ghost rest = concat_all(mc.subrange(i + 1, mc.len() as int)) + tail_m;
        proof {
            lemma_lists_from(mc, i as int);
            assert(all == done + (c_file + (c_att + rest))) by {
                assert(concat_all(mc.subrange(i as int, mc.len() as int)) + tail_m =~= c_file + (c_att + rest));
            }
            lemma_step(d, all, done, c_file, c_att + rest);
            lemma_single_check(d, c_file[0]);
        }
        let r = check_index(m.filename_strindex, n_strings, IndexColumn::FilenameStrindex, ProfilesTable::String);
        if let Err(e) = r {
            assert(data@.mapping_table[i as int].filename_strindex as int == e->index as int);
            return Err(e);
        }
        proof {
            done = done + c_file;
            lemma_step(d, all, done, c_att, rest);
        }
        let r = check_all(&m.attribute_indices, n_attributes, IndexColumn::AttributeIndices, ProfilesTable::Attribute, Ghost(d));
        if let Err(e) = r {
            assert(holds(data@.mapping_table[i as int].attribute_indices, e->index as int));
            return Err(e);
        }
        proof {
            done = done + c_att;
        }
        i += 1;
    }
    proof {
        assert(mc.subrange(mc.len() as int, mc.len() as int) =~= Seq::<Seq<IndexCheck>>::empty());
        assert(lc.subrange(0, lc.len() as int) =~= lc);
        assert(all == done + (concat_all(lc.subrange(0, lc.len() as int)) + (concat_all(fc) + concat_all(uc)))) by {
            assert(concat_all(mc.subrange(mc.len() as int, mc.len() as int)) + tail_m
                =~= concat_all(lc.subrange(0, lc.len() as int)) + (concat_all(fc) + concat_all(uc)));
        }
    }

    let ghost tail_l = concat_all(fc) + concat_all(uc);
    let mut i: usize = 0;
    while i < data.location_table.len()
        invariant
            i <= data.location_table.len(),
            d == data@,
            lc == d.location_table.map_values(|l: LocationModel| location_checks(l)),
            first_failure(d, done) is None,
            all == all_checks(d),
            all == done + (concat_all(lc.subrange(i as int, lc.len() as int)) + tail_l),
            tree_valid(data@),
            forall|k: int| 0 <= k < data@.mapping_table.len() ==> mapping_valid(#[trigger] data@.mapping_table[k], data@),
            n_mappings == data@.mapping_table.len(),
            n_functions == data@.function_table.len(),
            n_attributes == data@.attribute_table.len(),
            forall|k: int| 0 <= k < i ==> location_valid(#[trigger] data@.location_table[k], data@),
        decreases data.location_table.len() - i,
    {
        let l = &data.location_table[i];
        let ghost c_map = match l.mapping_index {
            Some(m) => seq![check_of(IndexColumn::MappingIndex, m, ProfilesTable::Mapping)],
            None => Seq::<IndexCheck>::empty(),
        };
        let ghost c_att = checks_of(l.attribute_indices@, IndexColumn::AttributeIndices, ProfilesTable::Attribute);
        let ghost c_fn = l@.line.map_values(|x: Line| check_of(IndexColumn::FunctionIndex, x.function_index, ProfilesTable::Function));
        let ghost rest = concat_all(lc.subrange(i + 1, lc.len() as int)) + tail_l;
        proof {
            lemma_lists_from(lc, i as int);
            assert(lc[i as int] == c_map + c_att + c_fn);
            assert(all == done + (c_map + (c_att + (c_fn + rest)))) by {
                assert(concat_all(lc.subrange(i as int, lc.len() as int)) + tail_l =~= c_map + (c_att + (c_fn + rest)));
            }
            lemma_step(d, all, done, c_map, c_att + (c_fn + rest));
        }
        if let Some(index) = l.mapping_index {
            proof {
                lemma_single_check(d, c_map[0]);
            }
            let r = check_index(index, n_mappings, IndexColumn::MappingIndex, ProfilesTable::Mapping);
            if let Err(e) = r {
                assert(data@.location_table[i as int].mapping_index == Some(e->index as i32));
                return Err(e);
            }
        } else {
            proof {
                assert(first_failure(d, Seq::<IndexCheck>::empty()) is None);
            }
        }
        proof {
            done = done + c_map;
            lemma_step(d, all, done, c_att, c_fn + rest);
        }
        let r = check_all(&l.attribute_indices, n_attributes, IndexColumn::AttributeIndices, ProfilesTable::Attribute, Ghost(d));
        if let Err(e) = r {
            assert(holds(data@.location_table[i as int].attribute_indices, e->index as int));
            return Err(e);
        }
        proof {
            done = done + c_att;
        }
        let ghost done_before = done;
        let mut j: usize = 0;
        while j < l.line.len()
            invariant
                i < data.location_table.len(),
                d == data@,
                l == data.location_table@[i as int],
                c_fn == l@.line.map_values(|x: Line| check_of(IndexColumn::FunctionIndex, x.function_index, ProfilesTable::Function)),
                j <= l.line.len(),
                n_functions == data@.function_table.len(),
                forall|k: int| 0 <= k < j ==> in_range(#[trigger] l.line@[k].function_index as int, n_functions as int),
                first_failure(d, done) is None,
                all == all_checks(d),
                all == done + (c_fn.subrange(j as int, c_fn.len() as int) + rest),
            decreases l.line.len() - j,
        {
            let ghost c = seq![c_fn[j as int]];
            proof {
                assert(all == done + (c + (c_fn.subrange(j + 1, c_fn.len() as int) + rest))) by {
                    assert(c_fn.subrange(j as int, c_fn.len() as int) + rest =~= c + (c_fn.subrange(j + 1, c_fn.len() as int) + rest));
                }
                lemma_step(d, all, done, c, c_fn.subrange(j + 1, c_fn.len() as int) + rest);
                lemma_single_check(d, c[0]);
            }
            let r = check_index(l.line[j].function_index, n_functions, IndexColumn::FunctionIndex, ProfilesTable::Function);
            if let Err(e) = r {
                assert(data@.location_table[i as int].line[j as int].function_index as int == e->index as int);
                return Err(e);
            }
            proof {
                done = done + c;
            }
            j += 1;
        }
        proof {
            assert(c_fn.subrange(c_fn.len() as int, c_fn.len() as int) + rest =~= rest);
        }
        i += 1;
    }
    proof {
        assert(lc.subrange(lc.len() as int, lc.len() as int) =~= Seq::<Seq<IndexCheck>>::empty());
        assert(fc.subrange(0, fc.len() as int) =~= fc);
        assert(all == done + (concat_all(fc.subrange(0, fc.len() as int)) + concat_all(uc))) by {
            assert(concat_all(lc.subrange(lc.len() as int, lc.len() as int)) + tail_l
                =~= concat_all(fc.subrange(0, fc.len() as int)) + concat_all(uc));
        }
    }

    let ghost tail_f = concat_all(uc);
    let mut i: usize = 0;
    while i < data.function_table.len()
        invariant
            i <= data.function_table.len(),
            d == data@,
            fc == d.function_table.map_values(|f: Function| function_checks(f)),
            first_failure(d, done) is None,
            all == all_checks(d),
            all == done + (concat_all(fc.subrange(i as int, fc.len() as int)) + tail_f),
            tree_valid(data@),
            forall|k: int| 0 <= k < data@.mapping_table.len() ==> mapping_valid(#[trigger] data@.mapping_table[k], data@),
            forall|k: int| 0 <= k < data@.location_table.len() ==> location_valid(#[trigger] data@.location_table[k], data@),
            n_strings == data@.string_table.len(),
            forall|k: int| 0 <= k < i ==> function_valid(#[trigger] data@.function_table[k], data@),
        decreases data.function_table.len() - i,
    {
        let f = &data.function_table[i];
        let ghost c1 = seq![check_of(IndexColumn::NameStrindex, f.name_strindex, ProfilesTable::String)];
        let ghost c2 = seq![check_of(IndexColumn::SystemNameStrindex, f.system_name_strindex, ProfilesTable::String)];
        let ghost c3 = seq![check_of(IndexColumn::FilenameStrindex, f.filename_strindex, ProfilesTable::String)];
        let ghost rest = concat_all(fc.subrange(i + 1, fc.len() as int)) + tail_f;
        proof {
            lemma_lists_from(fc, i as int);
            assert(all == done + (c1 + (c2 + (c3 + rest)))) by {
                assert(concat_all(fc.subrange(i as int, fc.len() as int)) + tail_f =~= c1 + (c2 + (c3 + rest)));
            }
            lemma_step(d, all, done, c1, c2 + (c3 + rest));
            lemma_single_check(d, c1[0]);
        }
        let r = check_index(f.name_strindex, n_strings, IndexColumn::NameStrindex, ProfilesTable::String);
        if let Err(e) = r {
            assert(data@.function_table[i as int].name_strindex as int == e->index as int);
            return Err(e);
        }
        proof {
            done = done + c1;
            lemma_step(d, all, done, c2, c3 + rest);
            lemma_single_check(d, c2[0]);
        }
        let r = check_index(f.system_name_strindex, n_strings, IndexColumn::SystemNameStrindex, ProfilesTable::String);
        if let Err(e) = r {
            assert(data@.function_table[i as int].system_name_strindex as int == e->index as int);
            return Err(e);
        }
        proof {
            done = done + c2;
            lemma_step(d, all, done, c3, rest);
            lemma_single_check(d, c3[0]);
        }
        let r = check_index(f.filename_strindex, n_strings, IndexColumn::FilenameStrindex, ProfilesTable::String);
        if let Err(e) = r {
            assert(data@.function_table[i as int].filename_strindex as int == e->index as int);
            return Err(e);
        }
        proof {
            done = done + c3;
        }
        i += 1;
    }
    proof {
        assert(fc.subrange(fc.len() as int, fc.len() as int) =~= Seq::<Seq<IndexCheck>>::empty());
        assert(uc.subrange(0, uc.len() as int) =~= uc);
        assert(all == done + concat_all(uc.subrange(0, uc.len() as int))) by {
            assert(concat_all(fc.subrange(fc.len() as int, fc.len() as int)) + tail_f =~= concat_all(uc.subrange(0, uc.len() as int)));
        }
    }

    let mut i: usize = 0;
    while i < data.attribute_units.len()
        invariant
            i <= data.attribute_units.len(),
            d == data@,
            uc == d.attribute_units.map_values(|u: AttributeUnit| unit_checks(u)),
            first_failure(d, done) is None,
            all == all_checks(d),
            all == done + concat_all(uc.subrange(i as int, uc.len() as int)),
            tree_valid(data@),
            forall|k: int| 0 <= k < data@.mapping_table.len() ==> mapping_valid(#[trigger] data@.mapping_table[k], data@),
            forall|k: int| 0 <= k < data@.location_table.len() ==> location_valid(#[trigger] data@.location_table[k], data@),
            forall|k: int| 0 <= k < data@.function_table.len() ==> function_valid(#[trigger] data@.function_table[k], data@),
            n_strings == data@.string_table.len(),
            forall|k: int| 0 <= k < i ==> attribute_unit_valid(#[trigger] data@.attribute_units[k], data@),
        decreases data.attribute_units.len() - i,
    {
        let u = &data.attribute_units[i];
        let ghost c1 = seq![check_of(IndexColumn::AttributeKeyStrindex, u.attribute_key_strindex, ProfilesTable::String)];
        let ghost c2 = seq![check_of(IndexColumn::UnitStrindex, u.unit_strindex, ProfilesTable::String)];
        let ghost rest = concat_all(uc.subrange(i + 1, uc.len() as int));
        proof {
            lemma_lists_from(uc, i as int);
            assert(all == done + (c1 + (c2 + rest))) by {
                assert(concat_all(uc.subrange(i as int, uc.len() as int)) =~= c1 + (c2 + rest));
            }
            lemma_step(d, all, done, c1, c2 + rest);
            lemma_single_check(d, c1[0]);
        }
        let r = check_index(u.attribute_key_strindex, n_strings, IndexColumn::AttributeKeyStrindex, ProfilesTable::String);
        if let Err(e) = r {
            assert(data@.attribute_units[i as int].attribute_key_strindex as int == e->index as int);
            return Err(e);
        }
        proof {
            done = done + c1;
            lemma_step(d, all, done, c2, rest);
            lemma_single_check(d, c2[0]);
        }
        let r = check_index(u.unit_strindex, n_strings, IndexColumn::UnitStrindex, ProfilesTable::String);
        if let Err(e) = r {
            assert(data@.attribute_units[i as int].unit_strindex as int == e->index as int);
            return Err(e);
        }
        proof {
            done = done + c2;
        }
        i += 1;
    }
    proof {
        assert(uc.subrange(uc.len() as int, uc.len() as int) =~= Seq::<Seq<IndexCheck>>::empty());
        assert(all =~= done);
    }
    Ok(())
}

} // verus!
