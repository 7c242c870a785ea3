//! Residence aggregation: the cross product of towns and residence types
//! that fan-out fetching walks, and the fail-fast reduction of the partial
//! results — one failure fails the whole aggregate, and only a full set of
//! successes yields a list.

use vstd::prelude::*;

use crate::error::TibiaError;
use crate::models::Residence;
use crate::models::ResidenceType;
use crate::models::ResidenceView;

verus! {

/// The residence types queried: the explicit filter alone, or both types,
/// houses first.
pub fn residence_types_for_query(filter: Option<ResidenceType>) -> (r: Vec<ResidenceType>)
    ensures
        match filter {
            Some(t) => r@ == seq![t],
            None => r@ == seq![ResidenceType::House, ResidenceType::Guildhall],
        },
{
    match filter {
        Some(t) => {
            let mut v: Vec<ResidenceType> = Vec::new();
            v.push(t);
            proof {
                assert(v@ =~= seq![t]);
            }
            v
        },
        None => {
            let mut v: Vec<ResidenceType> = Vec::new();
            v.push(ResidenceType::House);
            v.push(ResidenceType::Guildhall);
            proof {
                assert(v@ =~= seq![ResidenceType::House, ResidenceType::Guildhall]);
            }
            v
        },
    }
}

/// The towns queried: the explicit filter alone, or the injected cached
/// towns list (the canonical order produced by towns extraction).
pub fn towns_for_query(filter: Option<String>, cached: &Vec<String>) -> (r: Vec<String>)
    ensures
        match filter {
            Some(t) => r.deep_view() == seq![t@],
            None => r.deep_view() == cached.deep_view(),
        },
{
    match filter {
        Some(t) => {
            let ghost tv = t@;
            let mut v: Vec<String> = Vec::new();
            v.push(t);
            proof {
                assert(v.deep_view() =~= seq![tv]);
            }
            v
        },
        None => {
            let mut v: Vec<String> = Vec::new();
            let mut i: usize = 0;
            while i < cached.len()
                invariant
                    i <= cached@.len(),
                    v.deep_view().len() == i,
                    forall|j: int|
                        0 <= j < i ==> #[trigger] v.deep_view()[j] == cached.deep_view()[j],
                decreases cached@.len() - i,
            {
                let ghost prev = v.deep_view();
                v.push(cached[i].clone());
                proof {
                    assert(cached.deep_view()[i as int] == cached@[i as int].deep_view());
                    assert forall|j: int| 0 <= j < i + 1 implies #[trigger] v.deep_view()[j]
                        == cached.deep_view()[j] by {
                        assert(v.deep_view()[j] == v@[j].deep_view());
                        if j < i {
                            assert(v.deep_view()[j] == prev[j]);
                        }
                    }
                }
                i += 1;
            }
            proof {
                assert(v.deep_view() =~= cached.deep_view());
            }
            v
        },
    }
}

/// The (type, town) pairs fetched for towns `ti` onward: town-major, each
/// town paired with every type in order.
pub open spec fn spec_combinations(
    towns: Seq<Seq<char>>,
    types: Seq<ResidenceType>,
    ti: int,
) -> Seq<(ResidenceType, Seq<char>)>
    decreases towns.len() - ti when 0 <= ti <= towns.len()
{
    if ti >= towns.len() {
        Seq::empty()
    } else {
        types.map_values(|t: ResidenceType| (t, towns[ti])) + spec_combinations(
            towns,
            types,
            ti + 1,
        )
    }
}

/// The full fan-out of one residence query: every requested town crossed
/// with every requested type, towns outermost.
#[verifier::loop_isolation(false)]
pub fn residence_combinations(towns: &Vec<String>, types: &Vec<ResidenceType>) -> (r: Vec<
    (ResidenceType, String),
>)
    ensures
        r.deep_view() == spec_combinations(towns.deep_view(), types.deep_view(), 0),
{
    let ghost gt = towns.deep_view();
    let ghost gy = types.deep_view();
    proof {
        assert(gy =~= types@);
    }
    let mut out: Vec<(ResidenceType, String)> = Vec::new();
    let mut ti: usize = 0;
    proof {
        assert(out.deep_view() =~= Seq::<(ResidenceType, Seq<char>)>::empty());
    }
    while ti < towns.len()
        invariant
            ti <= towns@.len(),
            spec_combinations(gt, gy, 0) == out.deep_view() + spec_combinations(gt, gy, ti as int),
        decreases towns@.len() - ti,
    {
        let ghost row = gy.map_values(|t: ResidenceType| (t, gt[ti as int]));
        let ghost entry = out.deep_view();
        let mut tj: usize = 0;
        proof {
            assert(out.deep_view() =~= entry + row.take(0));
        }
        while tj < types.len()
            invariant
                tj <= types@.len(),
                ti < towns@.len(),
                out.deep_view() == entry + row.take(tj as int),
            decreases types@.len() - tj,
        {
            proof {
                assert(gt[ti as int] == towns@[ti as int].deep_view());
            }
            let ghost prevd = out.deep_view();
            out.push((types[tj], towns[ti].clone()));
            proof {
                assert(out.deep_view() =~= prevd.push((gy[tj as int], gt[ti as int])));
                assert(row[tj as int] == (gy[tj as int], gt[ti as int]));
                assert(out.deep_view() =~= entry + row.take(tj + 1));
            }
            tj += 1;
        }
        proof {
            assert(row.take(types@.len() as int) =~= row);
            assert(entry + row + spec_combinations(gt, gy, ti + 1) =~= entry + (row
                + spec_combinations(gt, gy, ti + 1)));
        }
        ti += 1;
    }
    proof {
        assert(out.deep_view() + Seq::<(ResidenceType, Seq<char>)>::empty() =~= out.deep_view());
    }
    out
}

/// The first failure among the per-task results, if any.
pub open spec fn spec_first_err(
    rs: Seq<Result<Vec<Residence>, TibiaError>>,
    i: int,
) -> Option<TibiaError>
    decreases rs.len() - i when 0 <= i <= rs.len()
{
    if i >= rs.len() {
        None
    } else {
        match rs[i] {
            Err(e) => Some(e),
            Ok(_) => spec_first_err(rs, i + 1),
        }
    }
}

/// The concatenation of the per-task result lists, in task order.
pub open spec fn spec_concat_oks(
    rs: Seq<Result<Vec<Residence>, TibiaError>>,
    i: int,
) -> Seq<ResidenceView>
    decreases rs.len() - i when 0 <= i <= rs.len()
{
    if i >= rs.len() {
        Seq::empty()
    } else {
        match rs[i] {
            Err(_) => spec_concat_oks(rs, i + 1),
            Ok(v) => v.deep_view() + spec_concat_oks(rs, i + 1),
        }
    }
}

/// Reduce the per-task results fail-fast: the first failure fails the whole
/// aggregate; only a full set of successes yields the concatenated list. An
/// empty task set yields the empty list, not an error.
#[verifier::loop_isolation(false)]
pub fn collect_residences(results: Vec<Result<Vec<Residence>, TibiaError>>) -> (r: Result<
    Vec<Residence>,
    TibiaError,
>)
    ensures
        match r {
            Ok(v) => spec_first_err(results@, 0) is None && v.deep_view() == spec_concat_oks(
                results@,
                0,
            ),
            Err(e) => spec_first_err(results@, 0) == Some(e),
        },
{
    let ghost grs = results@;
    let mut out: Vec<Residence> = Vec::new();
    let mut i: usize = 0;
    proof {
        assert(out.deep_view() =~= Seq::<ResidenceView>::empty());
    }
    let n: usize = results.len();
    while i < n
        invariant
            i <= n,
            n == grs.len(),
            grs == results@,
            spec_first_err(grs, i as int) is None ==> spec_first_err(grs, 0) is None,
            forall|e: TibiaError|
                spec_first_err(grs, i as int) == Some(e) ==> spec_first_err(grs, 0) == Some(e),
            spec_concat_oks(grs, 0) == out.deep_view() + spec_concat_oks(grs, i as int),
        decreases n - i,
    {
        let cur = &results[i];
        match cur {
            Err(e) => {
                return Err(*e);
            },
            Ok(v) => {
                let ghost prev = out.deep_view();
                let mut j: usize = 0;
                let m: usize = v.len();
                proof {
                    assert(out.deep_view() =~= prev + v.deep_view().take(0));
                }
                while j < m
                    invariant
                        j <= m,
                        m == v@.len(),
                        grs[i as int] matches Ok(vv) && vv@ == v@,
                        out.deep_view() == prev + v.deep_view().take(j as int),
                    decreases m - j,
                {
                    let ghost prevd = out.deep_view();
                    let e = &v[j];
                    out.push(
                        Residence {
                            id: e.id,
                            town: e.town.clone(),
                            residence_type: e.residence_type,
                            name: e.name.clone(),
                            size: e.size,
                            rent: e.rent,
                            status: e.status,
                        },
                    );
                    proof {
                        assert(v.deep_view()[j as int] == v@[j as int].deep_view());
                        assert(out.deep_view() =~= prevd.push(v@[j as int].deep_view()));
                        assert(out.deep_view() =~= prev + v.deep_view().take(j + 1));
                    }
                    j += 1;
                }
                proof {
                    assert(v.deep_view().take(m as int) =~= v.deep_view());
                    assert(prev + v.deep_view() + spec_concat_oks(grs, i + 1) =~= prev + (
                    v.deep_view() + spec_concat_oks(grs, i + 1)));
                }
            },
        }
        i += 1;
    }
    proof {
        assert(out.deep_view() + Seq::<ResidenceView>::empty() =~= out.deep_view());
    }
    Ok(out)
}

/// Aggregation over no tasks at all — an empty town list crossed with any
/// types — yields the empty list, never a failure.
pub proof fn lemma_empty_aggregate(types: Seq<ResidenceType>)
    ensures
        spec_combinations(Seq::empty(), types, 0) =~= Seq::<(ResidenceType, Seq<char>)>::empty(),
        spec_first_err(Seq::empty(), 0) is None,
        spec_concat_oks(Seq::empty(), 0) =~= Seq::<ResidenceView>::empty(),
{
}

/// A single failed task fails the whole aggregate: no partial list is
/// returned.
pub proof fn lemma_aggregate_fail_fast(rs: Seq<Result<Vec<Residence>, TibiaError>>, i: int)
    requires
        0 <= i < rs.len(),
        rs[i] is Err,
    ensures
        spec_first_err(rs, 0) is Some,
    decreases i,
{
    if i == 0 {
    } else {
        match rs[0] {
            Err(_) => {},
            Ok(_) => {
                lemma_aggregate_fail_fast(rs.skip(1), i - 1);
                lemma_first_err_skip(rs, 1, 0);
            },
        }
    }
}

/// Searching from position `p` is searching the dropped-prefix sequence.
proof fn lemma_first_err_skip(rs: Seq<Result<Vec<Residence>, TibiaError>>, p: int, q: int)
    requires
        0 <= p,
        0 <= q <= rs.len() - p,
    ensures
        spec_first_err(rs.skip(p), q) == spec_first_err(rs, p + q),
    decreases rs.len() - p - q,
{
    if q < rs.len() - p {
        assert(rs.skip(p)[q] == rs[p + q]);
        lemma_first_err_skip(rs, p, q + 1);
    }
}

} // verus!
