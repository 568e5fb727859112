//! Laws on how the decoder visits the root rows and joins samples to
//! profiles: the root rows are visited in `(resource id, scope id, id)`
//! order, and each decoded profile carries exactly the sample rows whose
//! parent id is the profile's id.
use vstd::prelude::*;
use crate::model::profiles::{ProfileModel, SampleModel};
use crate::otap::profiles::{cell, AttrsBatch, ProfilesBatch, ProfilesRecords, SampleBatch};
use crate::otlp::profiles::{
    is_visit_order, law_children_upto_are_the_rows_with_that_parent, lemma_resource_run_end,
    lemma_scope_run_end, lists_rows_with_parent, profile_row, reconstructed, resource_groups,
    resource_run_end, root_rank, sample_row, scope_groups, scope_run_end, visit_order,
    visits_before,
};

verus! {

/* ------------------------------ a visit order exists ------------------------------ */

/// `s` lists rows in visit order.
pub open spec fn in_visit_order(b: ProfilesBatch, s: Seq<usize>) -> bool {
    forall|i: int, j: int| 0 <= i < j < s.len() ==> visits_before(b, #[trigger] s[i] as int, #[trigger] s[j] as int)
}

/// `s` with row `r` inserted before the first row it is visited before.
pub open spec fn insert_row(b: ProfilesBatch, s: Seq<usize>, r: usize) -> Seq<usize>
    decreases s.len(),
{
    if s.len() == 0 {
        seq![r]
    } else if visits_before(b, r as int, s[0] as int) {
        seq![r] + s
    } else {
        seq![s[0]] + insert_row(b, s.drop_first(), r)
    }
}

/// The first `n` rows in visit order.
pub open spec fn sorted_rows(b: ProfilesBatch, n: nat) -> Seq<usize>
    decreases n,
{
    if n == 0 {
        Seq::empty()
    } else {
        insert_row(b, sorted_rows(b, (n - 1) as nat), (n - 1) as usize)
    }
}

proof fn lemma_visits_before_order(b: ProfilesBatch)
    ensures
        forall|x: int, y: int, z: int| #[trigger] visits_before(b, x, y) && #[trigger] visits_before(b, y, z) ==> visits_before(b, x, z),
        forall|x: int, y: int| x != y ==> #[trigger] visits_before(b, x, y) || visits_before(b, y, x),
        forall|x: int| !#[trigger] visits_before(b, x, x),
{
}

proof fn lemma_insert_row(b: ProfilesBatch, s: Seq<usize>, r: usize)
    requires
        in_visit_order(b, s),
        !s.contains(r),
    ensures
        insert_row(b, s, r).len() == s.len() + 1,
        in_visit_order(b, insert_row(b, s, r)),
        forall|x: usize| #[trigger] insert_row(b, s, r).contains(x) <==> (x == r || s.contains(x)),
    decreases s.len(),
{
    lemma_visits_before_order(b);
    let t = insert_row(b, s, r);
    if s.len() == 0 {
        assert(t == seq![r]);
        assert forall|x: usize| #[trigger] t.contains(x) <==> (x == r || s.contains(x)) by {
            if t.contains(x) {
                assert(t[0] == x);
            }
            if x == r {
                assert(t[0] == r);
            }
        }
    } else if visits_before(b, r as int, s[0] as int) {
        assert(t == seq![r] + s);
        assert forall|i: int, j: int| 0 <= i < j < t.len() implies visits_before(b, #[trigger] t[i] as int, #[trigger] t[j] as int) by {
            if i == 0 {
                assert(t[j] == s[j - 1]);
                if j - 1 > 0 {
                    assert(visits_before(b, s[0] as int, s[j - 1] as int));
                }
            } else {
                assert(t[i] == s[i - 1] && t[j] == s[j - 1]);
            }
        }
        assert forall|x: usize| #[trigger] t.contains(x) <==> (x == r || s.contains(x)) by {
            if t.contains(x) {
                let a = choose|a: int| 0 <= a < t.len() && t[a] == x;
                if a > 0 {
                    assert(s[a - 1] == x);
                }
            }
            if x == r {
                assert(t[0] == r);
            }
            if s.contains(x) {
                let a = choose|a: int| 0 <= a < s.len() && s[a] == x;
                assert(t[a + 1] == x);
            }
        }
    } else {
        let tail = s.drop_first();
        assert(in_visit_order(b, tail)) by {
            assert forall|i: int, j: int| 0 <= i < j < tail.len() implies visits_before(b, #[trigger] tail[i] as int, #[trigger] tail[j] as int) by {
                assert(tail[i] == s[i + 1] && tail[j] == s[j + 1]);
            }
        }
        assert(!tail.contains(r)) by {
            if tail.contains(r) {
                let a = choose|a: int| 0 <= a < tail.len() && tail[a] == r;
                assert(s[a + 1] == r);
            }
        }
        lemma_insert_row(b, tail, r);
        let u = insert_row(b, tail, r);
        assert(t == seq![s[0]] + u);
        assert(s[0] != r) by {
            assert(s[0] == s[0]);
        }
        assert(visits_before(b, s[0] as int, r as int));
        assert forall|i: int, j: int| 0 <= i < j < t.len() implies visits_before(b, #[trigger] t[i] as int, #[trigger] t[j] as int) by {
            if i == 0 {
                assert(t[j] == u[j - 1]);
                assert(u.contains(u[j - 1]));
                if u[j - 1] != r {
                    assert(tail.contains(u[j - 1]));
                    let a = choose|a: int| 0 <= a < tail.len() && tail[a] == u[j - 1];
                    assert(s[a + 1] == u[j - 1]);
                }
            } else {
                assert(t[i] == u[i - 1] && t[j] == u[j - 1]);
            }
        }
        assert forall|x: usize| #[trigger] t.contains(x) <==> (x == r || s.contains(x)) by {
            if t.contains(x) {
                let a = choose|a: int| 0 <= a < t.len() && t[a] == x;
                if a > 0 {
                    assert(u[a - 1] == x);
                    assert(u.contains(x));
                    if x != r {
                        assert(tail.contains(x));
                        let c = choose|c: int| 0 <= c < tail.len() && tail[c] == x;
                        assert(s[c + 1] == x);
                    }
                } else {
                    assert(s[0] == x);
                }
            }
            if x == r {
                assert(u.contains(r));
                let a = choose|a: int| 0 <= a < u.len() && u[a] == r;
                assert(t[a + 1] == r);
            }
            if s.contains(x) {
                let a = choose|a: int| 0 <= a < s.len() && s[a] == x;
                if a == 0 {
                    assert(t[0] == x);
                } else {
                    assert(tail[a - 1] == x);
                    assert(u.contains(x));
                    let c = choose|c: int| 0 <= c < u.len() && u[c] == x;
                    assert(t[c + 1] == x);
                }
            }
        }
    }
}

proof fn lemma_sorted_rows(b: ProfilesBatch, n: nat)
    requires
        n <= usize::MAX,
    ensures
        sorted_rows(b, n).len() == n,
        in_visit_order(b, sorted_rows(b, n)),
        forall|x: usize| #[trigger] sorted_rows(b, n).contains(x) <==> (x as int) < n,
    decreases n,
{
    if n > 0 {
        let m = (n - 1) as nat;
        lemma_sorted_rows(b, m);
        let s = sorted_rows(b, m);
        assert(!s.contains((n - 1) as usize));
        lemma_insert_row(b, s, (n - 1) as usize);
    }
}

/// Every root batch has a visit order, so `visit_order` is one.
pub proof fn lemma_visit_order_exists(b: ProfilesBatch)
    ensures
        is_visit_order(b, visit_order(b)),
{
    let n = b.num_rows as nat;
    lemma_sorted_rows(b, n);
    let s = sorted_rows(b, n);
    assert forall|i: int| 0 <= i < s.len() implies (#[trigger] s[i] as int) < b.num_rows by {
        assert(s.contains(s[i]));
    }
    assert forall|r: int| 0 <= r < b.num_rows implies #[trigger] s.contains(r as usize) by {
        assert(((r as usize) as int) < n);
    }
    assert(is_visit_order(b, s));
}

/* ------------------------------ the visit order ------------------------------ */

/// Optional id `a` orders before `c`: absent before present, present ids by
/// value.
pub open spec fn absent_first_lt(a: Option<u16>, c: Option<u16>) -> bool {
    match (a, c) {
        (None, Some(_)) => true,
        (Some(x), Some(y)) => x < y,
        _ => false,
    }
}

/// Root row `r1` comes before root row `r2` in `(resource id, scope id,
/// id)` order, absent ids first, ties broken by row position.
pub open spec fn lexicographically_before(b: ProfilesBatch, r1: int, r2: int) -> bool {
    let (a1, a2) = (cell(b.resource.id, r1), cell(b.resource.id, r2));
    let (s1, s2) = (cell(b.scope.id, r1), cell(b.scope.id, r2));
    let (i1, i2) = (cell(b.id, r1), cell(b.id, r2));
    ||| absent_first_lt(a1, a2)
    ||| a1 == a2 && absent_first_lt(s1, s2)
    ||| a1 == a2 && s1 == s2 && absent_first_lt(i1, i2)
    ||| a1 == a2 && s1 == s2 && i1 == i2 && r1 < r2
}

proof fn lemma_rank_is_lexicographic(b: ProfilesBatch, r1: int, r2: int)
    requires
        visits_before(b, r1, r2),
    ensures
        lexicographically_before(b, r1, r2),
{
    let (a1, a2) = (cell(b.resource.id, r1), cell(b.resource.id, r2));
    let (s1, s2) = (cell(b.scope.id, r1), cell(b.scope.id, r2));
    let (i1, i2) = (cell(b.id, r1), cell(b.id, r2));
    let ka1: int = match a1 { Some(v) => v as int + 1, None => 0 };
    let ka2: int = match a2 { Some(v) => v as int + 1, None => 0 };
    let ks1: int = match s1 { Some(v) => v as int + 1, None => 0 };
    let ks2: int = match s2 { Some(v) => v as int + 1, None => 0 };
    let ki1: int = match i1 { Some(v) => v as int + 1, None => 0 };
    let ki2: int = match i2 { Some(v) => v as int + 1, None => 0 };
    assert(root_rank(b, r1) == ka1 * 4295098369 + ks1 * 65537 + ki1);
    assert(root_rank(b, r2) == ka2 * 4295098369 + ks2 * 65537 + ki2);
    assert(0 <= ks1 * 65537 + ki1 < 4295098369) by (nonlinear_arith)
        requires 0 <= ks1 <= 65536, 0 <= ki1 <= 65536;
    assert(0 <= ks2 * 65537 + ki2 < 4295098369) by (nonlinear_arith)
        requires 0 <= ks2 <= 65536, 0 <= ki2 <= 65536;
    let lo1 = ks1 * 65537 + ki1;
    let lo2 = ks2 * 65537 + ki2;
    assert(ka1 < ka2 || (ka1 == ka2 && lo1 <= lo2)) by (nonlinear_arith)
        requires
            ka1 * 4295098369 + lo1 <= ka2 * 4295098369 + lo2,
            0 <= lo1 < 4295098369,
            0 <= lo2 < 4295098369,
    ;
    if ka1 == ka2 {
        assert(ks1 < ks2 || (ks1 == ks2 && ki1 <= ki2)) by (nonlinear_arith)
            requires
                ks1 * 65537 + ki1 <= ks2 * 65537 + ki2,
                0 <= ki1 <= 65536,
                0 <= ki2 <= 65536,
        ;
    }
}

/// Law: the decoder visits the root rows in `(resource id, scope id, id)`
/// order, absent ids first and ties in row order: every row is visited
/// once, and of two rows with the same resource id and scope ids `s1 < s2`
/// the one with `s1` is visited first.
pub proof fn law_visit_order_is_lexicographic(b: ProfilesBatch)
    ensures
        visit_order(b).len() == b.num_rows,
        forall|r: int| 0 <= r < b.num_rows ==> #[trigger] visit_order(b).contains(r as usize),
        forall|i: int, j: int| 0 <= i < j < visit_order(b).len()
            ==> lexicographically_before(b, #[trigger] visit_order(b)[i] as int, #[trigger] visit_order(b)[j] as int),
{
    lemma_visit_order_exists(b);
    let o = visit_order(b);
    assert forall|i: int, j: int| 0 <= i < j < o.len()
        implies lexicographically_before(b, #[trigger] o[i] as int, #[trigger] o[j] as int) by {
        lemma_rank_is_lexicographic(b, o[i] as int, o[j] as int);
    }
}

/* ------------------------------ samples joined by profile id ------------------------------ */

/// The sample rows `rows` of `s`, decoded.
pub open spec fn decoded_sample_rows(s: SampleBatch, rows: Seq<usize>) -> Seq<SampleModel> {
    rows.map_values(|r: usize| sample_row(s, r as int))
}

/// `samples` are exactly the rows of the sample batch whose parent id is
/// `id`, decoded in row order; none when there is no sample batch or no id.
pub open spec fn samples_joined(samples: Seq<SampleModel>, sb: Option<SampleBatch>, id: Option<u16>) -> bool {
    match (sb, id) {
        (Some(s), Some(p)) => exists|rows: Seq<usize>|
            lists_rows_with_parent(rows, s.parent_id@, p as int, s.parent_id@.len() as int)
                && #[trigger] decoded_sample_rows(s, rows) == samples,
        _ => samples.len() == 0,
    }
}

/// Law: the profile decoded from root row `r` carries exactly the sample
/// rows whose parent id is the value of `r`'s id column (not `r`'s
/// position), in row order.
pub proof fn law_profile_samples_joined_by_id(b: ProfilesBatch, samples: Option<SampleBatch>, r: int)
    ensures
        samples_joined(profile_row(b, samples, r).sample, samples, cell(b.id, r)),
{
    match (samples, cell(b.id, r)) {
        (Some(s), Some(p)) => {
            let ps = s.parent_id@;
            assert(ps.len() == s.parent_id.len());
            law_children_upto_are_the_rows_with_that_parent(ps, p as int, ps.len() as int);
            let rows = crate::otlp::profiles::children(ps, p as int);
            assert(decoded_sample_rows(s, rows) == profile_row(b, samples, r).sample);
        },
        _ => {},
    }
}

/// Profile `p` is decoded from one of the visited rows `ord[lo..hi]`.
pub open spec fn decoded_from(b: ProfilesBatch, samples: Option<SampleBatch>, ord: Seq<usize>, p: ProfileModel, lo: int, hi: int) -> bool {
    exists|x: int| lo <= x < hi && p == #[trigger] profile_row(b, samples, ord[x] as int)
}

proof fn lemma_scope_groups_from_rows(
    b: ProfilesBatch,
    samples: Option<SampleBatch>,
    scope_attrs: Option<AttrsBatch>,
    ord: Seq<usize>,
    start: int,
    end: int,
)
    requires
        0 <= start,
        end <= ord.len(),
    ensures
        forall|j: int, k: int| 0 <= j < scope_groups(b, samples, scope_attrs, ord, start, end).len()
            && 0 <= k < scope_groups(b, samples, scope_attrs, ord, start, end)[j].profiles.len()
            ==> decoded_from(b, samples, ord, #[trigger] scope_groups(b, samples, scope_attrs, ord, start, end)[j].profiles[k], start, end),
    decreases end - start,
{
    if start < end {
        let stop = scope_run_end(b, ord, start, start + 1, end);
        lemma_scope_run_end(b, ord, start, start + 1, end);
        lemma_scope_groups_from_rows(b, samples, scope_attrs, ord, stop, end);
        let sg = scope_groups(b, samples, scope_attrs, ord, start, end);
        let rest = scope_groups(b, samples, scope_attrs, ord, stop, end);
        let g = crate::otlp::profiles::scope_group(b, samples, scope_attrs, ord, start, stop);
        assert(sg == seq![g] + rest);
        assert forall|j: int, k: int| 0 <= j < sg.len() && 0 <= k < sg[j].profiles.len()
            implies decoded_from(b, samples, ord, #[trigger] sg[j].profiles[k], start, end) by {
            if j == 0 {
                assert(sg[j].profiles[k] == profile_row(b, samples, ord[start + k] as int));
            } else {
                assert(sg[j] == rest[j - 1]);
                assert(decoded_from(b, samples, ord, rest[j - 1].profiles[k], stop, end));
                let x = choose|x: int| stop <= x < end && rest[j - 1].profiles[k] == #[trigger] profile_row(b, samples, ord[x] as int);
                assert(sg[j].profiles[k] == profile_row(b, samples, ord[x] as int));
            }
        }
    }
}

proof fn lemma_resource_groups_from_rows(
    b: ProfilesBatch,
    samples: Option<SampleBatch>,
    resource_attrs: Option<AttrsBatch>,
    scope_attrs: Option<AttrsBatch>,
    ord: Seq<usize>,
    start: int,
)
    requires
        0 <= start,
    ensures
        forall|i: int, j: int, k: int| 0 <= i < resource_groups(b, samples, resource_attrs, scope_attrs, ord, start).len()
            && 0 <= j < resource_groups(b, samples, resource_attrs, scope_attrs, ord, start)[i].scope_profiles.len()
            && 0 <= k < resource_groups(b, samples, resource_attrs, scope_attrs, ord, start)[i].scope_profiles[j].profiles.len()
            ==> decoded_from(b, samples, ord,
                #[trigger] resource_groups(b, samples, resource_attrs, scope_attrs, ord, start)[i].scope_profiles[j].profiles[k],
                start, ord.len() as int),
    decreases ord.len() - start,
{
    if start < ord.len() {
        let stop = resource_run_end(b, ord, start, start + 1, ord.len() as int);
        lemma_resource_run_end(b, ord, start, start + 1, ord.len() as int);
        lemma_resource_groups_from_rows(b, samples, resource_attrs, scope_attrs, ord, stop);
        lemma_scope_groups_from_rows(b, samples, scope_attrs, ord, start, stop);
        let rg = resource_groups(b, samples, resource_attrs, scope_attrs, ord, start);
        let rest = resource_groups(b, samples, resource_attrs, scope_attrs, ord, stop);
        let sg = scope_groups(b, samples, scope_attrs, ord, start, stop);
        assert(rg[0].scope_profiles == sg);
        assert forall|i: int, j: int, k: int| 0 <= i < rg.len() && 0 <= j < rg[i].scope_profiles.len()
            && 0 <= k < rg[i].scope_profiles[j].profiles.len()
            implies decoded_from(b, samples, ord, #[trigger] rg[i].scope_profiles[j].profiles[k], start, ord.len() as int) by {
            if i == 0 {
                assert(decoded_from(b, samples, ord, sg[j].profiles[k], start, stop));
                let x = choose|x: int| start <= x < stop && sg[j].profiles[k] == #[trigger] profile_row(b, samples, ord[x] as int);
                assert(rg[i].scope_profiles[j].profiles[k] == profile_row(b, samples, ord[x] as int));
            } else {
                assert(rg[i] == rest[i - 1]);
                assert(decoded_from(b, samples, ord, rest[i - 1].scope_profiles[j].profiles[k], stop, ord.len() as int));
                let x = choose|x: int| stop <= x < ord.len() && rest[i - 1].scope_profiles[j].profiles[k] == #[trigger] profile_row(b, samples, ord[x] as int);
                assert(rg[i].scope_profiles[j].profiles[k] == profile_row(b, samples, ord[x] as int));
            }
        }
    }
}

/// Profile `p` is decoded from root row `r` of the payload: it carries that
/// row's fields, and its samples are exactly the sample rows whose parent id
/// is the value of `r`'s id column, in row order.
pub open spec fn decoded_from_root_row(recs: ProfilesRecords, p: ProfileModel, r: int) -> bool {
    recs.profiles matches Some(b) && {
        &&& 0 <= r < b.num_rows
        &&& p == profile_row(b, recs.sample, r)
        &&& p.time_nanos == (match cell(b.time_nanos, r) { Some(t) => t, None => 0i64 })
        &&& samples_joined(p.sample, recs.sample, cell(b.id, r))
    }
}

/// Law: every profile of the decoded tree is decoded from one root row `r`,
/// whose fields it carries, and its samples are exactly the sample rows
/// whose parent id is the value of `r`'s id column (not `r`'s position), in
/// row order.
pub proof fn law_decoded_profiles_join_samples_by_id(recs: ProfilesRecords, i: int, j: int, k: int)
    requires
        0 <= i < reconstructed(recs).resource_profiles.len(),
        0 <= j < reconstructed(recs).resource_profiles[i].scope_profiles.len(),
        0 <= k < reconstructed(recs).resource_profiles[i].scope_profiles[j].profiles.len(),
    ensures
        exists|r: int| #[trigger] decoded_from_root_row(recs, reconstructed(recs).resource_profiles[i].scope_profiles[j].profiles[k], r),
{
    let b = recs.profiles->0;
    lemma_visit_order_exists(b);
    let ord = visit_order(b);
    lemma_resource_groups_from_rows(b, recs.sample, recs.resource_attrs, recs.scope_attrs, ord, 0);
    let p = reconstructed(recs).resource_profiles[i].scope_profiles[j].profiles[k];
    assert(decoded_from(b, recs.sample, ord, p, 0, ord.len() as int));
    let x = choose|x: int| 0 <= x < ord.len() && p == #[trigger] profile_row(b, recs.sample, ord[x] as int);
    let r = ord[x] as int;
    law_profile_samples_joined_by_id(b, recs.sample, r);
    assert(0 <= r < b.num_rows);
    assert(decoded_from_root_row(recs, p, r));
}

} // verus!
