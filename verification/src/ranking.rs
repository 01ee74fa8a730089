//! Ranking of search results: sorting by similarity, descending, and
//! truncation to a caller-supplied limit. Fan-out search concatenates the
//! per-tenant result lists and hands them here.

use vstd::prelude::*;

verus! {

use vstd::multiset::Multiset;

broadcast use vstd::seq_lib::group_to_multiset_ensures;

/// Anything that carries a similarity score and can be ranked.
pub trait Scored: Sized {
    /// The score, as a spec-level value.
    spec fn score(&self) -> u64;

    /// The score, as executable code reads it.
    fn similarity_score(&self) -> (r: u64)
        ensures
            r == self.score(),
    ;
}

/// A search result: a record id and its similarity to the query.
#[derive(Debug, Clone, PartialEq)]
pub struct ScoredId {
    pub id: String,
    pub similarity: u64,
}

impl Scored for ScoredId {
    open spec fn score(&self) -> u64 {
        self.similarity
    }

    fn similarity_score(&self) -> u64 {
        self.similarity
    }
}

/// Scores never increase along the sequence.
pub open spec fn sorted_desc<T: Scored>(s: Seq<T>) -> bool {
    forall|i: int, j: int| 0 <= i < j < s.len()
        ==> (#[trigger] s[i]).score() >= (#[trigger] s[j]).score()
}

/// `r` is what ranking `v` and keeping the best `limit` elements yields:
/// a prefix of some similarity-sorted permutation of `v`.
pub open spec fn is_ranked_prefix<T: Scored>(v: Seq<T>, r: Seq<T>, limit: int) -> bool {
    exists|s: Seq<T>|
        #[trigger] s.to_multiset() == v.to_multiset() && sorted_desc(s)
            && r == s.take(if limit < s.len() { limit } else { s.len() as int })
}

/// Sorts by similarity, descending. The result holds exactly the elements
/// of the input (as a multiset; ties keep no particular order).
pub fn sort_by_score_desc<T: Scored>(v: Vec<T>) -> (r: Vec<T>)
    ensures
        r@.to_multiset() == v@.to_multiset(),
        sorted_desc(r@),
        r@.len() == v@.len(),
{
    let ghost total = v@.to_multiset();
    let mut rest = v;
    let mut out: Vec<T> = Vec::new();
    proof {
        assert(out@.to_multiset().add(rest@.to_multiset()) =~= total);
    }
    while rest.len() > 0
        invariant
            out@.to_multiset().add(rest@.to_multiset()) == total,
            out@.len() + rest@.len() == total.len(),
            sorted_desc(out@),
            forall|i: int, j: int| 0 <= i < out@.len() && 0 <= j < rest@.len()
                ==> (#[trigger] out@[i]).score() >= (#[trigger] rest@[j]).score(),
        decreases rest.len(),
    {
        let mut mi: usize = 0;
        let mut i: usize = 1;
        while i < rest.len()
            invariant
                mi < i,
                i <= rest@.len(),
                forall|k: int| 0 <= k < i
                    ==> (#[trigger] rest@[k]).score() <= rest@[mi as int].score(),
            decreases rest@.len() - i,
        {
            if rest[i].similarity_score() > rest[mi].similarity_score() {
                mi = i;
            }
            i += 1;
        }
        let ghost rest0 = rest@;
        let ghost out0 = out@;
        let x = rest.remove(mi);
        proof {
            assert(rest@ == rest0.remove(mi as int));
            assert(rest0.remove(mi as int).to_multiset() =~= rest0.to_multiset().remove(
                rest0[mi as int],
            ));
            assert(rest0[mi as int] == x);
            assert(rest0.contains(x)) by {
                assert(rest0[mi as int] == x);
            }
            assert(rest0.to_multiset().count(x) > 0);
        }
        out.push(x);
        proof {
            assert(out@ == out0.push(x));
            assert(out0.push(x).to_multiset() =~= out0.to_multiset().insert(x));
            assert(out@.to_multiset().add(rest@.to_multiset()) =~= total) by {
                assert(out0.to_multiset().add(rest0.to_multiset()) == total);
                assert forall|y: T|
                    out@.to_multiset().add(rest@.to_multiset()).count(y) == total.count(
                    y,
                ) by {
                    assert(out@.to_multiset().count(y) == out0.to_multiset().count(y) + (
                    if y == x {
                        1int
                    } else {
                        0int
                    }));
                    assert(rest@.to_multiset().count(y) == rest0.to_multiset().count(y) - (
                    if y == x {
                        1int
                    } else {
                        0int
                    }));
                }
            }
            assert(sorted_desc(out@)) by {
                assert forall|p: int, q: int| 0 <= p < q < out@.len()
                    implies (#[trigger] out@[p]).score() >= (#[trigger] out@[q]).score() by {
                    if q == out@.len() - 1 {
                        assert(out@[q] == x);
                        assert(rest0[mi as int] == x);
                    }
                }
            }
            assert forall|i2: int, j2: int| 0 <= i2 < out@.len() && 0 <= j2 < rest@.len()
                implies (#[trigger] out@[i2]).score() >= (#[trigger] rest@[j2]).score() by {
                let j0 = if j2 < mi { j2 } else { j2 + 1 };
                assert(rest@[j2] == rest0[j0]);
                if i2 == out@.len() - 1 {
                    assert(out@[i2] == x);
                    assert(rest0[j0].score() <= rest0[mi as int].score());
                }
            }
        }
    }
    proof {
        assert(rest@.to_multiset() =~= Multiset::<T>::empty());
        assert(out@.to_multiset().add(Multiset::<T>::empty()) =~= out@.to_multiset());
    }
    out
}

/// Ranks `v` by similarity, descending, and keeps the best `limit` results:
/// the merge step of fan-out search.
pub fn top_k<T: Scored>(v: Vec<T>, limit: usize) -> (r: Vec<T>)
    ensures
        is_ranked_prefix(v@, r@, limit as int),
        sorted_desc(r@),
        r@.len() == if limit < v@.len() { limit as int } else { v@.len() as int },
{
    let ghost orig = v@;
    let mut sorted = sort_by_score_desc(v);
    let ghost s = sorted@;
    if limit < sorted.len() {
        sorted.truncate(limit);
    }
    proof {
        assert(sorted@ =~= s.take(if limit < s.len() { limit as int } else { s.len() as int }));
        assert(sorted_desc(sorted@)) by {
            assert forall|i: int, j: int| 0 <= i < j < sorted@.len()
                implies (#[trigger] sorted@[i]).score() >= (#[trigger] sorted@[j]).score() by {
                assert(sorted@[i] == s[i]);
                assert(sorted@[j] == s[j]);
            }
        }
    }
    sorted
}

/// Every element a ranked prefix keeps scores at least as high as every
/// element it drops: what `top_k` returns really are the best `limit`.
pub proof fn lemma_ranked_prefix_is_best<T: Scored>(v: Seq<T>, r: Seq<T>, limit: int)
    requires
        limit >= 0,
        is_ranked_prefix(v, r, limit),
    ensures
        r.len() == if limit < v.len() { limit } else { v.len() as int },
        forall|x: T| v.to_multiset().count(x) >= #[trigger] r.to_multiset().count(x),
        forall|i: int, x: T|
            #![trigger r[i].score(), v.to_multiset().count(x)]
            0 <= i < r.len() && v.to_multiset().count(x) > r.to_multiset().count(x)
                ==> r[i].score() >= x.score(),
{
    let s = choose|s: Seq<T>|
        #[trigger] s.to_multiset() == v.to_multiset() && sorted_desc(s)
            && r == s.take(if limit < s.len() { limit } else { s.len() as int });
    assert(s.len() == v.len()) by {
        assert(s.to_multiset().len() == v.to_multiset().len());
    }
    let k = if limit < s.len() { limit } else { s.len() as int };
    lemma_take_multiset_le(s, k);
    assert forall|i: int, x: T|
        #![trigger r[i].score(), v.to_multiset().count(x)]
        0 <= i < r.len() && v.to_multiset().count(x) > r.to_multiset().count(x)
        implies r[i].score() >= x.score() by {
        // x occurs more often in s than in its prefix r, so some position of
        // s at or beyond k holds x; sortedness bounds its score.
        lemma_extra_occurrence_in_suffix(s, k, x);
        let j = choose|j: int| k <= j < s.len() && s[j] == x;
        assert(r[i] == s[i]);
        if i < j {
            assert(s[i].score() >= s[j].score());
        }
    }
}

/// A prefix of a sequence holds no element more often than the whole.
proof fn lemma_take_multiset_le<T>(s: Seq<T>, k: int)
    requires
        0 <= k <= s.len(),
    ensures
        forall|x: T| s.take(k).to_multiset().count(x) <= #[trigger] s.to_multiset().count(x),
    decreases s.len() - k,
{
    if k < s.len() {
        lemma_take_multiset_le(s, k + 1);
        assert(s.take(k + 1) =~= s.take(k).push(s[k]));
        assert(forall|x: T| s.take(k).to_multiset().count(x)
            <= #[trigger] s.take(k + 1).to_multiset().count(x)) by {
            assert(s.take(k + 1).to_multiset() =~= s.take(k).to_multiset().insert(s[k]));
        }
    } else {
        assert(s.take(k) =~= s);
    }
}

/// If `x` occurs more often in `s` than in its length-`k` prefix, it occurs
/// at some position at or beyond `k`.
proof fn lemma_extra_occurrence_in_suffix<T>(s: Seq<T>, k: int, x: T)
    requires
        0 <= k <= s.len(),
        s.to_multiset().count(x) > s.take(k).to_multiset().count(x),
    ensures
        exists|j: int| k <= j < s.len() && s[j] == x,
    decreases s.len() - k,
{
    if k < s.len() {
        if s[k] == x {
            assert(k <= k < s.len() && s[k] == x);
        } else {
            assert(s.take(k + 1) =~= s.take(k).push(s[k]));
            assert(s.take(k + 1).to_multiset() =~= s.take(k).to_multiset().insert(s[k]));
            assert(s.take(k + 1).to_multiset().count(x) == s.take(k).to_multiset().count(x));
            lemma_extra_occurrence_in_suffix(s, k + 1, x);
            let j = choose|j: int| k + 1 <= j < s.len() && s[j] == x;
            assert(k <= j < s.len() && s[j] == x);
        }
    } else {
        assert(s.take(k) =~= s);
    }
}

} // verus!
