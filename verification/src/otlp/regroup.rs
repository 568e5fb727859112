//! The law that ties the root-row regrouping to the tree it came from: a
//! resource -> scope -> profile tree laid out as root rows in tree order,
//! with resources and scopes numbered by position, is regrouped by the
//! decoder into the same tree.
use vstd::prelude::*;
use crate::model::profiles::{ProfileModel, ResourceProfilesModel, ScopeProfilesModel};
use crate::otap::profiles::{cell, AttrsBatch, ProfilesBatch, ProfilesRecords, SampleBatch};
use crate::otlp::profiles::{
    is_visit_order, lemma_visit_order_unique, profile_row, reconstructed, resource_groups,
    resource_row, resource_run_end, scope_groups, scope_row, scope_run_end, string_cell,
    visit_order, visits_before,
};

verus! {

/// One root row of a flattened tree: the positions of its resource and of
/// its scope (scopes numbered across the whole tree), and the resource,
/// scope and profile it carries.
pub struct TreeRow {
    pub resource_index: int,
    pub scope_index: int,
    pub resource: ResourceProfilesModel,
    pub scope: ScopeProfilesModel,
    pub profile: ProfileModel,
}

/// The rows of scope `j` of `res`, one per profile; the resource is numbered
/// `ri` and the scope `si`.
pub open spec fn scope_rows(res: ResourceProfilesModel, ri: int, si: int, j: int) -> Seq<TreeRow> {
    let sp = res.scope_profiles[j];
    Seq::new(
        sp.profiles.len(),
        |k: int| TreeRow { resource_index: ri, scope_index: si, resource: res, scope: sp, profile: sp.profiles[k] },
    )
}

/// The rows of the scopes `j..` of `res`, scope `j` numbered `si`.
pub open spec fn resource_rows(res: ResourceProfilesModel, ri: int, si: int, j: int) -> Seq<TreeRow>
    decreases res.scope_profiles.len() - j,
{
    if j < 0 || j >= res.scope_profiles.len() {
        Seq::empty()
    } else {
        scope_rows(res, ri, si, j) + resource_rows(res, ri, si + 1, j + 1)
    }
}

/// The rows of the resources `i..` of `rps`, resource `i` numbered `i` and
/// its first scope `si`.
pub open spec fn tree_rows(rps: Seq<ResourceProfilesModel>, i: int, si: int) -> Seq<TreeRow>
    decreases rps.len() - i,
{
    if i < 0 || i >= rps.len() {
        Seq::empty()
    } else {
        resource_rows(rps[i], i, si, 0) + tree_rows(rps, i + 1, si + rps[i].scope_profiles.len())
    }
}

/// The tree laid out as root rows: resources in order, each resource's
/// scopes in order, each scope's profiles in order.
pub open spec fn flattened(rps: Seq<ResourceProfilesModel>) -> Seq<TreeRow> {
    tree_rows(rps, 0, 0)
}

/// Every resource has a scope and every scope a profile. (A group without
/// rows has no place among the root rows, so flattening would lose it.)
pub open spec fn no_empty_groups(rps: Seq<ResourceProfilesModel>) -> bool {
    forall|i: int| 0 <= i < rps.len() ==> scopes_nonempty(#[trigger] rps[i])
}

/// Every scope of `res` has a profile, and `res` has a scope.
pub open spec fn scopes_nonempty(res: ResourceProfilesModel) -> bool {
    &&& res.scope_profiles.len() > 0
    &&& forall|j: int| 0 <= j < res.scope_profiles.len() ==> (#[trigger] res.scope_profiles[j]).profiles.len() > 0
}

/// Root row `r` of `b` holds `row`: its resource and scope ids are the
/// row's resource and scope positions, its id is `r`, and it reads as the
/// row's resource, scope and profile.
pub open spec fn row_holds(
    b: ProfilesBatch,
    samples: Option<SampleBatch>,
    resource_attrs: Option<AttrsBatch>,
    scope_attrs: Option<AttrsBatch>,
    r: int,
    row: TreeRow,
) -> bool {
    &&& cell(b.resource.id, r) == Some(row.resource_index as u16)
    &&& cell(b.scope.id, r) == Some(row.scope_index as u16)
    &&& cell(b.id, r) == Some(r as u16)
    &&& resource_row(b, resource_attrs, r) == row.resource.resource
    &&& string_cell(b.resource.schema_url, r) == row.resource.schema_url
    &&& scope_row(b, scope_attrs, r) == row.scope.scope
    &&& string_cell(b.schema_url, r) == row.scope.schema_url
    &&& profile_row(b, samples, r) == row.profile
}

/// The root rows of `b` are exactly `rows`, in order.
pub open spec fn holds_rows(
    b: ProfilesBatch,
    samples: Option<SampleBatch>,
    resource_attrs: Option<AttrsBatch>,
    scope_attrs: Option<AttrsBatch>,
    rows: Seq<TreeRow>,
) -> bool {
    &&& b.num_rows == rows.len()
    &&& forall|r: int| 0 <= r < rows.len() ==> row_holds(b, samples, resource_attrs, scope_attrs, r, #[trigger] rows[r])
}

/// The rows of the scopes `j..` of a resource: all carry the resource and
/// its position; the scope positions start at `si`, never decrease, and
/// grow by at most one per row; each scope contributes its profiles.
proof fn lemma_resource_rows_shape(res: ResourceProfilesModel, ri: int, si: int, j: int)
    requires
        scopes_nonempty(res),
        0 <= j,
    ensures
        ({
            let rr = resource_rows(res, ri, si, j);
            &&& j < res.scope_profiles.len() ==> rr.len() > 0 && rr[0].scope_index == si
            &&& rr.len() >= res.scope_profiles.len() - j
            &&& forall|t: int| 0 <= t < rr.len() ==> (#[trigger] rr[t]).resource_index == ri && rr[t].resource == res
            &&& forall|t: int| 0 <= t < rr.len() ==> si <= (#[trigger] rr[t]).scope_index <= si + t
            &&& forall|t: int| 0 <= t < rr.len() ==> (#[trigger] rr[t]).scope_index < si + res.scope_profiles.len() - j
            &&& forall|t1: int, t2: int| 0 <= t1 <= t2 < rr.len() ==> (#[trigger] rr[t1]).scope_index <= (#[trigger] rr[t2]).scope_index
        }),
    decreases res.scope_profiles.len() - j,
{
    if j < res.scope_profiles.len() {
        lemma_resource_rows_shape(res, ri, si + 1, j + 1);
        let s = scope_rows(res, ri, si, j);
        let rest = resource_rows(res, ri, si + 1, j + 1);
        let rr = resource_rows(res, ri, si, j);
        assert(rr == s + rest);
        assert(s.len() > 0);
        assert forall|t: int| 0 <= t < rr.len() implies si <= (#[trigger] rr[t]).scope_index <= si + t
            && rr[t].scope_index < si + res.scope_profiles.len() - j by {
            if t >= s.len() {
                assert(rr[t] == rest[t - s.len()]);
            }
        }
        assert forall|t1: int, t2: int| 0 <= t1 <= t2 < rr.len() implies (#[trigger] rr[t1]).scope_index <= (#[trigger] rr[t2]).scope_index by {
            if t1 >= s.len() {
                assert(rr[t1] == rest[t1 - s.len()]);
                assert(rr[t2] == rest[t2 - s.len()]);
            } else if t2 >= s.len() {
                assert(rr[t2] == rest[t2 - s.len()]);
            }
        }
        assert forall|t: int| 0 <= t < rr.len() implies (#[trigger] rr[t]).resource_index == ri && rr[t].resource == res by {
            if t >= s.len() {
                assert(rr[t] == rest[t - s.len()]);
            }
        }
    }
}

/// The rows of the resources `i..`: resource positions start at `i`, scope
/// positions at `si`; neither decreases, and each grows by at most one per
/// row.
proof fn lemma_tree_rows_shape(rps: Seq<ResourceProfilesModel>, i: int, si: int)
    requires
        no_empty_groups(rps),
        0 <= i,
    ensures
        ({
            let tr = tree_rows(rps, i, si);
            &&& i < rps.len() ==> tr.len() > 0 && tr[0].resource_index == i && tr[0].scope_index == si
            &&& forall|t: int| 0 <= t < tr.len() ==> i <= (#[trigger] tr[t]).resource_index <= i + t
            &&& forall|t: int| 0 <= t < tr.len() ==> si <= (#[trigger] tr[t]).scope_index <= si + t
            &&& forall|t1: int, t2: int| 0 <= t1 <= t2 < tr.len() ==> (#[trigger] tr[t1]).resource_index <= (#[trigger] tr[t2]).resource_index
            &&& forall|t1: int, t2: int| 0 <= t1 <= t2 < tr.len() ==> (#[trigger] tr[t1]).scope_index <= (#[trigger] tr[t2]).scope_index
        }),
    decreases rps.len() - i,
{
    if i < rps.len() {
        let res = rps[i];
        assert(scopes_nonempty(res));
        let nsi = si + res.scope_profiles.len();
        lemma_resource_rows_shape(res, i, si, 0);
        lemma_tree_rows_shape(rps, i + 1, nsi);
        let rr = resource_rows(res, i, si, 0);
        let rest = tree_rows(rps, i + 1, nsi);
        let tr = tree_rows(rps, i, si);
        assert(tr == rr + rest);
        assert forall|t: int| 0 <= t < tr.len() implies i <= (#[trigger] tr[t]).resource_index <= i + t
            && si <= tr[t].scope_index <= si + t by {
            if t >= rr.len() {
                assert(tr[t] == rest[t - rr.len()]);
            } else {
                assert(tr[t] == rr[t]);
            }
        }
        assert forall|t1: int, t2: int| 0 <= t1 <= t2 < tr.len() implies (#[trigger] tr[t1]).resource_index <= (#[trigger] tr[t2]).resource_index
            && tr[t1].scope_index <= tr[t2].scope_index by {
            if t1 >= rr.len() {
                assert(tr[t1] == rest[t1 - rr.len()]);
                assert(tr[t2] == rest[t2 - rr.len()]);
            } else if t2 >= rr.len() {
                assert(tr[t1] == rr[t1]);
                assert(tr[t2] == rest[t2 - rr.len()]);
            } else {
                assert(tr[t1] == rr[t1]);
                assert(tr[t2] == rr[t2]);
            }
        }
    }
}

/// The rows in their own order.
pub open spec fn row_order(n: nat) -> Seq<usize> {
    Seq::new(n, |r: int| r as usize)
}

/// The root rows of a flattened tree are visited in row order.
proof fn lemma_flattened_visit_order(
    rps: Seq<ResourceProfilesModel>,
    b: ProfilesBatch,
    samples: Option<SampleBatch>,
    resource_attrs: Option<AttrsBatch>,
    scope_attrs: Option<AttrsBatch>,
)
    requires
        no_empty_groups(rps),
        flattened(rps).len() <= u16::MAX + 1,
        holds_rows(b, samples, resource_attrs, scope_attrs, flattened(rps)),
    ensures
        visit_order(b) == row_order(b.num_rows as nat),
{
    let rows = flattened(rps);
    let n = b.num_rows as int;
    lemma_tree_rows_shape(rps, 0, 0);
    let ord = row_order(b.num_rows as nat);
    assert forall|r: int| 0 <= r < n implies #[trigger] ord.contains(r as usize) by {
        assert(ord[r] == r as usize);
    }
    assert forall|i: int, j: int| 0 <= i < j < ord.len() implies visits_before(b, #[trigger] ord[i] as int, #[trigger] ord[j] as int) by {
        assert(ord[i] as int == i);
        assert(ord[j] as int == j);
        assert(row_holds(b, samples, resource_attrs, scope_attrs, i, rows[i]));
        assert(row_holds(b, samples, resource_attrs, scope_attrs, j, rows[j]));
        assert(rows[i].resource_index <= rows[j].resource_index);
        assert(rows[i].scope_index <= rows[j].scope_index);
        assert(0 <= rows[j].resource_index <= j);
        assert(0 <= rows[j].scope_index <= j);
        assert(0 <= rows[i].resource_index <= i);
        assert(0 <= rows[i].scope_index <= i);
    }
    assert(is_visit_order(b, ord));
    let o = visit_order(b);
    assert(is_visit_order(b, o));
    lemma_visit_order_unique(b, o, ord);
}

/// A run of visited rows that share the scope id of the run's first row
/// ends where the id first differs (or at `end`).
proof fn lemma_scope_run_end_at(b: ProfilesBatch, ord: Seq<usize>, start: int, j: int, end: int, e: int)
    requires
        j <= e <= end,
        forall|k: int| j <= k < e ==> cell(b.scope.id, #[trigger] ord[k] as int) == cell(b.scope.id, ord[start] as int),
        e < end ==> cell(b.scope.id, ord[e] as int) != cell(b.scope.id, ord[start] as int),
    ensures
        scope_run_end(b, ord, start, j, end) == e,
    decreases e - j,
{
    if j < e {
        lemma_scope_run_end_at(b, ord, start, j + 1, end, e);
    }
}

/// A run of visited rows that share the resource id of the run's first row
/// ends where the id first differs (or at `end`).
proof fn lemma_resource_run_end_at(b: ProfilesBatch, ord: Seq<usize>, start: int, j: int, end: int, e: int)
    requires
        j <= e <= end,
        forall|k: int| j <= k < e ==> cell(b.resource.id, #[trigger] ord[k] as int) == cell(b.resource.id, ord[start] as int),
        e < end ==> cell(b.resource.id, ord[e] as int) != cell(b.resource.id, ord[start] as int),
    ensures
        resource_run_end(b, ord, start, j, end) == e,
    decreases e - j,
{
    if j < e {
        lemma_resource_run_end_at(b, ord, start, j + 1, end, e);
    }
}

/// The root rows of a flattened tree whose positions fit the `u16` ids.
spec fn flattened_rows_ok(
    rps: Seq<ResourceProfilesModel>,
    b: ProfilesBatch,
    samples: Option<SampleBatch>,
    resource_attrs: Option<AttrsBatch>,
    scope_attrs: Option<AttrsBatch>,
) -> bool {
    let rows = flattened(rps);
    &&& no_empty_groups(rps)
    &&& rows.len() <= u16::MAX + 1
    &&& holds_rows(b, samples, resource_attrs, scope_attrs, rows)
    &&& forall|p: int| 0 <= p < rows.len() ==> 0 <= (#[trigger] rows[p]).resource_index <= p && 0 <= rows[p].scope_index <= p
}

/// The visited rows that hold the scopes `j..` of resource `i` regroup into
/// those scopes.
proof fn lemma_scope_groups_regroup(
    rps: Seq<ResourceProfilesModel>,
    b: ProfilesBatch,
    samples: Option<SampleBatch>,
    resource_attrs: Option<AttrsBatch>,
    scope_attrs: Option<AttrsBatch>,
    i: int,
    si: int,
    j: int,
    start: int,
    stop: int,
)
    requires
        flattened_rows_ok(rps, b, samples, resource_attrs, scope_attrs),
        0 <= i < rps.len(),
        0 <= j <= rps[i].scope_profiles.len(),
        0 <= start,
        start + resource_rows(rps[i], i, si, j).len() == stop <= b.num_rows,
        forall|t: int| 0 <= t < resource_rows(rps[i], i, si, j).len()
            ==> flattened(rps)[start + t] == #[trigger] resource_rows(rps[i], i, si, j)[t],
    ensures
        scope_groups(b, samples, scope_attrs, row_order(b.num_rows as nat), start, stop)
            == rps[i].scope_profiles.subrange(j, rps[i].scope_profiles.len() as int),
    decreases rps[i].scope_profiles.len() - j,
{
    let rows = flattened(rps);
    let ord = row_order(b.num_rows as nat);
    let res = rps[i];
    let len = res.scope_profiles.len() as int;
    assert(scopes_nonempty(res));
    if j == len {
        assert(res.scope_profiles.subrange(j, len) =~= Seq::<ScopeProfilesModel>::empty());
    } else {
        let sp = res.scope_profiles[j];
        let s = scope_rows(res, i, si, j);
        let rest = resource_rows(res, i, si + 1, j + 1);
        let rr = resource_rows(res, i, si, j);
        assert(rr == s + rest);
        let m = s.len() as int;
        assert(m > 0);
        lemma_resource_rows_shape(res, i, si + 1, j + 1);
        assert(rows[start] == rr[0]);
        assert(row_holds(b, samples, resource_attrs, scope_attrs, start, rows[start]));
        assert(ord[start] as int == start);
        assert forall|k: int| start + 1 <= k < start + m implies cell(b.scope.id, #[trigger] ord[k] as int) == cell(b.scope.id, ord[start] as int) by {
            assert(ord[k] as int == k);
            assert(rows[k] == rr[k - start]);
            assert(row_holds(b, samples, resource_attrs, scope_attrs, k, rows[k]));
        }
        if start + m < stop {
            let k = start + m;
            assert(ord[k] as int == k);
            assert(rows[k] == rr[m]);
            assert(rr[m] == rest[0]);
            assert(row_holds(b, samples, resource_attrs, scope_attrs, k, rows[k]));
            assert(rows[k].scope_index == si + 1);
            assert(rows[k].scope_index <= k);
        }
        lemma_scope_run_end_at(b, ord, start, start + 1, stop, start + m);
        assert forall|t: int| 0 <= t < rest.len() implies rows[start + m + t] == #[trigger] rest[t] by {
            assert(rows[start + (m + t)] == rr[m + t]);
        }
        lemma_scope_groups_regroup(rps, b, samples, resource_attrs, scope_attrs, i, si + 1, j + 1, start + m, stop);
        let g = crate::otlp::profiles::scope_group(b, samples, scope_attrs, ord, start, start + m);
        assert forall|t: int| 0 <= t < m implies profile_row(b, samples, ord[start + t] as int) == #[trigger] sp.profiles[t] by {
            assert(ord[start + t] as int == start + t);
            assert(rows[start + t] == rr[t]);
            assert(row_holds(b, samples, resource_attrs, scope_attrs, start + t, rows[start + t]));
        }
        assert(g.profiles =~= sp.profiles);
        assert(g == sp);
        assert(res.scope_profiles.subrange(j, len) =~= seq![sp] + res.scope_profiles.subrange(j + 1, len));
    }
}

/// The visited rows from `start` on, which hold the resources `i..`,
/// regroup into those resources.
proof fn lemma_resource_groups_regroup(
    rps: Seq<ResourceProfilesModel>,
    b: ProfilesBatch,
    samples: Option<SampleBatch>,
    resource_attrs: Option<AttrsBatch>,
    scope_attrs: Option<AttrsBatch>,
    i: int,
    si: int,
    start: int,
)
    requires
        flattened_rows_ok(rps, b, samples, resource_attrs, scope_attrs),
        0 <= i <= rps.len(),
        0 <= start,
        start + tree_rows(rps, i, si).len() == b.num_rows,
        forall|t: int| 0 <= t < tree_rows(rps, i, si).len() ==> flattened(rps)[start + t] == #[trigger] tree_rows(rps, i, si)[t],
    ensures
        resource_groups(b, samples, resource_attrs, scope_attrs, row_order(b.num_rows as nat), start)
            == rps.subrange(i, rps.len() as int),
    decreases rps.len() - i,
{
    let rows = flattened(rps);
    let ord = row_order(b.num_rows as nat);
    let n = b.num_rows as int;
    if i == rps.len() {
        assert(rps.subrange(i, rps.len() as int) =~= Seq::<ResourceProfilesModel>::empty());
    } else {
        let res = rps[i];
        assert(scopes_nonempty(res));
        let nsi = si + res.scope_profiles.len();
        let rr = resource_rows(res, i, si, 0);
        let rest = tree_rows(rps, i + 1, nsi);
        let tr = tree_rows(rps, i, si);
        assert(tr == rr + rest);
        lemma_resource_rows_shape(res, i, si, 0);
        lemma_tree_rows_shape(rps, i + 1, nsi);
        let m = rr.len() as int;
        assert(rows[start + 0] == tr[0]);
        assert(tr[0] == rr[0]);
        assert(row_holds(b, samples, resource_attrs, scope_attrs, start, rows[start]));
        assert(ord[start] as int == start);
        assert forall|k: int| start + 1 <= k < start + m implies cell(b.resource.id, #[trigger] ord[k] as int) == cell(b.resource.id, ord[start] as int) by {
            assert(ord[k] as int == k);
            assert(rows[start + (k - start)] == tr[k - start]);
            assert(tr[k - start] == rr[k - start]);
            assert(row_holds(b, samples, resource_attrs, scope_attrs, k, rows[k]));
        }
        if start + m < n {
            let k = start + m;
            assert(ord[k] as int == k);
            assert(rows[k] == tr[m]);
            assert(tr[m] == rest[0]);
            assert(row_holds(b, samples, resource_attrs, scope_attrs, k, rows[k]));
            assert(rows[k].resource_index == i + 1);
            assert(rows[k].resource_index <= k);
        }
        assert(ord.len() == n);
        lemma_resource_run_end_at(b, ord, start, start + 1, n, start + m);
        assert forall|t: int| 0 <= t < rr.len() implies rows[start + t] == #[trigger] rr[t] by {
            assert(rows[start + t] == tr[t]);
        }
        lemma_scope_groups_regroup(rps, b, samples, resource_attrs, scope_attrs, i, si, 0, start, start + m);
        assert(res.scope_profiles.subrange(0, res.scope_profiles.len() as int) =~= res.scope_profiles);
        assert forall|t: int| 0 <= t < rest.len() implies rows[start + m + t] == #[trigger] rest[t] by {
            assert(rows[start + (m + t)] == tr[m + t]);
        }
        lemma_resource_groups_regroup(rps, b, samples, resource_attrs, scope_attrs, i + 1, nsi, start + m);
        assert(rr[0].resource == res);
        assert(rps.subrange(i, rps.len() as int) =~= seq![res] + rps.subrange(i + 1, rps.len() as int));
    }
}

/// Law: a resource -> scope -> profile tree laid out as root rows in tree
/// order (resources, and scopes across the whole tree, numbered by
/// position; each row's id its position; each row reading as its resource,
/// scope and profile) is visited in row order and regrouped by the decoder
/// into the same tree. It holds of every tree in which each resource has a
/// scope and each scope a profile (a group without rows has no root row to
/// come back from), and whose rows the `u16` ids can number.
pub proof fn law_flattened_tree_regroups(rps: Seq<ResourceProfilesModel>, recs: ProfilesRecords)
    requires
        no_empty_groups(rps),
        flattened(rps).len() <= u16::MAX + 1,
        recs.profiles is Some,
        holds_rows(recs.profiles->0, recs.sample, recs.resource_attrs, recs.scope_attrs, flattened(rps)),
    ensures
        visit_order(recs.profiles->0) == row_order(recs.profiles->0.num_rows as nat),
        reconstructed(recs).resource_profiles == rps,
{
    let b = recs.profiles->0;
    let rows = flattened(rps);
    lemma_tree_rows_shape(rps, 0, 0);
    assert forall|p: int| 0 <= p < rows.len() implies 0 <= (#[trigger] rows[p]).resource_index <= p && 0 <= rows[p].scope_index <= p by {
    }
    assert(flattened_rows_ok(rps, b, recs.sample, recs.resource_attrs, recs.scope_attrs));
    lemma_flattened_visit_order(rps, b, recs.sample, recs.resource_attrs, recs.scope_attrs);
    lemma_resource_groups_regroup(rps, b, recs.sample, recs.resource_attrs, recs.scope_attrs, 0, 0, 0);
    assert(rps.subrange(0, rps.len() as int) =~= rps);
}

} // verus!
