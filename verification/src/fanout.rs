//! Fan-out search across tenant collections: planning which collections a
//! query visits, and merging the per-collection outcomes. A failing
//! collection contributes no results and never fails the whole search.

use vstd::prelude::*;

use crate::errors::StoreError;
use crate::ranking::{is_ranked_prefix, sorted_desc, top_k, Scored};
use crate::router::{collection_name, spec_collection_name, Kind};

verus! {

/// The collections a fan-out visits: the one collection of a named tenant,
/// or one collection per known tenant when no tenant is given.
pub open spec fn spec_fanout_plan(
    kind: Kind,
    tenant: Option<Seq<char>>,
    all_tenants: Seq<Seq<char>>,
) -> Seq<Seq<char>> {
    match tenant {
        Option::Some(t) if t.len() > 0 => seq![spec_collection_name(kind, t)],
        _ => all_tenants.map_values(|t: Seq<char>| spec_collection_name(kind, t)),
    }
}

/// Plans a fan-out: a non-empty tenant id searches only its own collection;
/// an absent or empty one searches every known tenant's collection.
pub fn fanout_collections(kind: Kind, tenant: &Option<String>, all_tenants: &Vec<String>) -> (r:
    Vec<String>)
    ensures
        r@.map_values(|s: String| s@) == spec_fanout_plan(
            kind,
            match tenant {
                Option::Some(t) => Option::Some(t@),
                Option::None => Option::None,
            },
            all_tenants@.map_values(|s: String| s@),
        ),
{
    let single: Option<&String> = match tenant {
        Option::Some(t) => {
            if t.unicode_len() > 0 {
                Option::Some(t)
            } else {
                Option::None
            }
        },
        Option::None => Option::None,
    };
    match single {
        Option::Some(t) => {
            let mut r: Vec<String> = Vec::new();
            r.push(collection_name(kind, t.as_str()));
            proof {
                assert(r@.map_values(|s: String| s@) =~= seq![
                    spec_collection_name(kind, t@),
                ]);
            }
            r
        },
        Option::None => {
            let ghost names = all_tenants@.map_values(
                |s: String| spec_collection_name(kind, s@),
            );
            let mut r: Vec<String> = Vec::new();
            let n = all_tenants.len();
            let mut i: usize = 0;
            while i < n
                invariant
                    i <= n,
                    n == all_tenants@.len(),
                    names == all_tenants@.map_values(
                        |s: String| spec_collection_name(kind, s@),
                    ),
                    r@.len() == i,
                    forall|k: int| 0 <= k < i ==> (#[trigger] r@[k])@ == names[k],
                decreases n - i,
            {
                r.push(collection_name(kind, all_tenants[i].as_str()));
                i += 1;
            }
            proof {
                assert(r@.map_values(|s: String| s@) =~= all_tenants@.map_values(
                    |s: String| s@,
                ).map_values(|t: Seq<char>| spec_collection_name(kind, t)));
            }
            r
        },
    }
}

/// The tenants a cross-tenant search visits when the system-of-record lookup
/// answers `lookup`: a failed lookup searches nothing (and the search then
/// returns no results rather than an error).
pub fn tenants_or_none(lookup: Result<Vec<String>, StoreError>) -> (r: Vec<String>)
    ensures
        match lookup {
            Result::Ok(v) => r == v,
            Result::Err(_) => r@ == Seq::<String>::empty(),
        },
{
    match lookup {
        Result::Ok(v) => v,
        Result::Err(_) => Vec::new(),
    }
}

/// The results the successful branches of a fan-out contribute, in branch
/// order; a failed branch contributes nothing.
pub open spec fn spec_ok_flat<T>(outs: Seq<Result<Vec<T>, StoreError>>) -> Seq<T>
    decreases outs.len(),
{
    if outs.len() == 0 {
        Seq::<T>::empty()
    } else {
        (match outs.first() {
            Result::Ok(v) => v@,
            Result::Err(_) => Seq::<T>::empty(),
        }) + spec_ok_flat(outs.drop_first())
    }
}

/// Concatenates the successful branches' results, dropping the failures.
fn collect_ok<T>(outcomes: Vec<Result<Vec<T>, StoreError>>) -> (r: Vec<T>)
    ensures
        r@ == spec_ok_flat(outcomes@),
{
    let ghost orig = outcomes@;
    let mut rest = outcomes;
    let mut acc: Vec<T> = Vec::new();
    proof {
        assert(acc@ + spec_ok_flat(rest@) =~= spec_ok_flat(orig));
    }
    while rest.len() > 0
        invariant
            acc@ + spec_ok_flat(rest@) == spec_ok_flat(orig),
        decreases rest.len(),
    {
        let ghost rest0 = rest@;
        let head = rest.remove(0);
        proof {
            assert(rest@ =~= rest0.drop_first());
            assert(head == rest0.first());
        }
        match head {
            Result::Ok(mut v) => {
                let ghost v0 = v@;
                acc.append(&mut v);
                proof {
                    assert(acc@ + spec_ok_flat(rest@) =~= spec_ok_flat(orig));
                }
            },
            Result::Err(_) => {
                proof {
                    assert(acc@ + spec_ok_flat(rest@) =~= spec_ok_flat(orig));
                }
            },
        }
    }
    proof {
        assert(acc@ =~= acc@ + spec_ok_flat(rest@));
    }
    acc
}

/// Merges the per-collection outcomes of a fan-out search: the successful
/// branches' results are pooled, ranked by similarity descending, and cut to
/// `limit`; failing branches contribute nothing, and the merge itself never
/// fails.
pub fn merge_fanout<T: Scored>(outcomes: Vec<Result<Vec<T>, StoreError>>, limit: usize) -> (r:
    Vec<T>)
    ensures
        is_ranked_prefix(spec_ok_flat(outcomes@), r@, limit as int),
        sorted_desc(r@),
        r@.len() == if limit < spec_ok_flat(outcomes@).len() {
            limit as int
        } else {
            spec_ok_flat(outcomes@).len() as int
        },
{
    let pooled = collect_ok(outcomes);
    top_k(pooled, limit)
}

/// A fan-out over one failing and one succeeding branch merges exactly the
/// succeeding branch's results: the failure is isolated.
pub proof fn lemma_failure_isolated<T>(e: StoreError, ok: Vec<T>)
    ensures
        spec_ok_flat(seq![Result::<Vec<T>, StoreError>::Err(e), Result::Ok(ok)]) == ok@,
{
    let outs = seq![Result::<Vec<T>, StoreError>::Err(e), Result::Ok(ok)];
    let tail = seq![Result::<Vec<T>, StoreError>::Ok(ok)];
    let nil = Seq::<Result<Vec<T>, StoreError>>::empty();
    assert(outs.drop_first() =~= tail);
    assert(tail.drop_first() =~= nil);
    assert(spec_ok_flat(nil) == Seq::<T>::empty());
    assert(spec_ok_flat(tail) =~= ok@);
    assert(spec_ok_flat(outs) =~= ok@);
}

} // verus!
