//! The metadata attached to an embedding record: a flat key-to-value map of
//! strings, numbers, booleans and arrays. The external protocol rejects
//! nulls, so every null is scrubbed into an empty string before a record is
//! sent.

use vstd::prelude::*;

use crate::assoc::{assoc_map, keys_unique, lemma_assoc_map_count, lemma_assoc_map_dom, lemma_assoc_map_index, lemma_assoc_map_remove};
use crate::text::str_eq;

verus! {

/// One scalar metadata value.
#[derive(Debug, Clone, PartialEq)]
pub enum MetaScalar {
    Null,
    Bool(bool),
    Int(i64),
    Str(String),
}

/// One metadata value: a scalar, or an array of scalars.
#[derive(Debug, Clone, PartialEq)]
pub enum MetaValue {
    Scalar(MetaScalar),
    Arr(Vec<MetaScalar>),
}

/// The mathematical form of a scalar metadata value.
pub enum MetaScalarView {
    Null,
    Bool(bool),
    Int(int),
    Str(Seq<char>),
}

/// The mathematical form of a metadata value.
pub enum MetaValueView {
    Scalar(MetaScalarView),
    Arr(Seq<MetaScalarView>),
}

impl View for MetaScalar {
    type V = MetaScalarView;

    open spec fn view(&self) -> MetaScalarView {
        match self {
            MetaScalar::Null => MetaScalarView::Null,
            MetaScalar::Bool(b) => MetaScalarView::Bool(*b),
            MetaScalar::Int(i) => MetaScalarView::Int(*i as int),
            MetaScalar::Str(s) => MetaScalarView::Str(s@),
        }
    }
}

impl View for MetaValue {
    type V = MetaValueView;

    open spec fn view(&self) -> MetaValueView {
        match self {
            MetaValue::Scalar(s) => MetaValueView::Scalar(s@),
            MetaValue::Arr(items) => MetaValueView::Arr(items@.map_values(|s: MetaScalar| s@)),
        }
    }
}

/// What scrubbing does to a scalar: a null becomes the empty string, all
/// else is kept as it is.
pub open spec fn spec_scrub_scalar(v: MetaScalarView) -> MetaScalarView {
    match v {
        MetaScalarView::Null => MetaScalarView::Str(Seq::<char>::empty()),
        _ => v,
    }
}

/// What scrubbing does to a value: scalars directly, arrays element-wise.
pub open spec fn spec_scrub_value(v: MetaValueView) -> MetaValueView {
    match v {
        MetaValueView::Scalar(s) => MetaValueView::Scalar(spec_scrub_scalar(s)),
        MetaValueView::Arr(items) => MetaValueView::Arr(
            items.map_values(|s: MetaScalarView| spec_scrub_scalar(s)),
        ),
    }
}

/// A scalar free of nulls.
pub open spec fn scalar_null_free(v: MetaScalarView) -> bool {
    v != MetaScalarView::Null
}

/// A value free of nulls, at every position of an array.
pub open spec fn value_null_free(v: MetaValueView) -> bool {
    match v {
        MetaValueView::Scalar(s) => scalar_null_free(s),
        MetaValueView::Arr(items) => forall|i: int|
            0 <= i < items.len() ==> scalar_null_free(#[trigger] items[i]),
    }
}

/// Scrubbing always yields a null-free value, and never changes a value
/// that is already null-free.
pub proof fn lemma_scrub_value(v: MetaValueView)
    ensures
        value_null_free(spec_scrub_value(v)),
        value_null_free(v) ==> spec_scrub_value(v) == v,
{
    match v {
        MetaValueView::Scalar(_) => {},
        MetaValueView::Arr(items) => {
            let scrubbed = items.map_values(|s: MetaScalarView| spec_scrub_scalar(s));
            assert(forall|i: int|
                0 <= i < scrubbed.len() ==> scalar_null_free(#[trigger] scrubbed[i]));
            if value_null_free(v) {
                assert(scrubbed =~= items);
            }
        },
    }
}

/// A scrubbed metadata map is null-free at every key: nothing the store
/// writes ever carries a null, as the external protocol requires.
pub proof fn lemma_scrubbed_map_null_free(
    m: Map<Seq<char>, MetaValueView>,
    scrubbed: Map<Seq<char>, MetaValueView>,
)
    requires
        scrubbed == m.map_values(|v: MetaValueView| spec_scrub_value(v)),
    ensures
        forall|k: Seq<char>| scrubbed.contains_key(k)
            ==> value_null_free(#[trigger] scrubbed[k]),
{
    assert forall|k: Seq<char>| scrubbed.contains_key(k)
        implies value_null_free(scrubbed[k]) by {
        lemma_scrub_value(m[k]);
    }
}

fn scrub_scalar(v: MetaScalar) -> (r: MetaScalar)
    ensures
        r@ == spec_scrub_scalar(v@),
{
    match v {
        MetaScalar::Null => MetaScalar::Str(String::new()),
        other => other,
    }
}

/// Rewrites every null in `v` into an empty string, as the external
/// protocol requires.
pub fn scrub_value(v: MetaValue) -> (r: MetaValue)
    ensures
        r@ == spec_scrub_value(v@),
        value_null_free(r@),
{
    proof {
        lemma_scrub_value(v@);
    }
    match v {
        MetaValue::Scalar(s) => MetaValue::Scalar(scrub_scalar(s)),
        MetaValue::Arr(items) => {
            let ghost orig = items@;
            let mut rest = items;
            let mut out: Vec<MetaScalar> = Vec::new();
            while rest.len() > 0
                invariant
                    orig.len() == out.len() + rest.len(),
                    rest@ =~= orig.skip(out.len() as int),
                    forall|k: int| 0 <= k < out.len()
                        ==> #[trigger] out@[k]@ == spec_scrub_scalar(orig[k]@),
                decreases rest.len(),
            {
                let s = rest.remove(0);
                proof {
                    assert(s@ == orig[out.len() as int]@);
                }
                out.push(scrub_scalar(s));
                proof {
                    assert(rest@ =~= orig.skip(out.len() as int));
                }
            }
            proof {
                let f = |s: MetaScalar| s@;
                let g = |s: MetaScalarView| spec_scrub_scalar(s);
                assert(out@.map_values(f) =~= orig.map_values(f).map_values(g));
            }
            MetaValue::Arr(out)
        },
    }
}

/// A flat key-to-value metadata map, the per-record payload of the store.
#[derive(Debug, Clone, PartialEq)]
pub struct Metadata {
    entries: Vec<(String, MetaValue)>,
}

impl View for Metadata {
    type V = Map<Seq<char>, MetaValueView>;

    closed spec fn view(&self) -> Map<Seq<char>, MetaValueView> {
        assoc_map(self.entries@)
    }
}

impl Metadata {
    /// Well-formed: no key occurs twice.
    pub closed spec fn wf(&self) -> bool {
        keys_unique(self.entries@)
    }

    /// An empty metadata map.
    pub fn new() -> (r: Metadata)
        ensures
            r.wf(),
            r@ == Map::<Seq<char>, MetaValueView>::empty(),
    {
        Metadata { entries: Vec::new() }
    }

    /// Looks a key up.
    pub fn get(&self, key: &str) -> (r: Option<&MetaValue>)
        requires
            self.wf(),
        ensures
            r is Some <==> self@.contains_key(key@),
            r is Some ==> r->Some_0@ == self@[key@],
    {
        proof {
            lemma_assoc_map_dom(self.entries@);
        }
        let n = self.entries.len();
        let mut i: usize = 0;
        while i < n
            invariant
                i <= n,
                n == self.entries@.len(),
                self.wf(),
                forall|k: int| 0 <= k < i ==> (#[trigger] self.entries@[k]).0@ != key@,
            decreases n - i,
        {
            if str_eq(self.entries[i].0.as_str(), key) {
                proof {
                    lemma_assoc_map_index(self.entries@, i as int);
                }
                return Some(&self.entries[i].1);
            }
            i += 1;
        }
        proof {
            lemma_assoc_map_dom(self.entries@);
        }
        None
    }

    /// Inserts or replaces the value under `key`.
    pub fn insert(&mut self, key: String, value: MetaValue)
        requires
            old(self).wf(),
        ensures
            final(self).wf(),
            final(self)@ == old(self)@.insert(key@, value@),
    {
        let ghost s0 = self.entries@;
        let n = self.entries.len();
        let mut i: usize = 0;
        while i < n
            invariant
                i <= n,
                n == self.entries@.len(),
                self.entries@ == s0,
                s0 == old(self).entries@,
                keys_unique(s0),
                forall|k: int| 0 <= k < i ==> (#[trigger] s0[k]).0@ != key@,
            decreases n - i,
        {
            if str_eq(self.entries[i].0.as_str(), key.as_str()) {
                proof {
                    lemma_assoc_map_index(s0, i as int);
                    lemma_assoc_map_remove(s0, i as int);
                }
                let _ = self.entries.remove(i);
                let ghost s1 = self.entries@;
                self.entries.push((key, value));
                proof {
                    assert(self.entries@.drop_last() =~= s1);
                    assert(assoc_map(self.entries@)
                        =~= assoc_map(s0).insert(key@, value@));
                    assert(keys_unique(self.entries@)) by {
                        lemma_assoc_map_dom(s1);
                        assert forall|p: int, q: int| 0 <= p < q < self.entries@.len()
                            implies (#[trigger] self.entries@[p]).0@
                                != (#[trigger] self.entries@[q]).0@ by {
                            if q == self.entries@.len() - 1 {
                                assert(s1[p].0@ != key@) by {
                                    let p0 = if p < i { p } else { p + 1 };
                                    assert(s1[p] == s0[p0]);
                                    if s0[p0].0@ == key@ {
                                        assert(s0[i as int].0@ == key@);
                                    }
                                }
                            }
                        }
                    }
                }
                return;
            }
            i += 1;
        }
        proof {
            lemma_assoc_map_dom(s0);
        }
        self.entries.push((key, value));
        proof {
            assert(self.entries@.drop_last() =~= s0);
            assert(keys_unique(self.entries@)) by {
                assert forall|p: int, q: int| 0 <= p < q < self.entries@.len()
                    implies (#[trigger] self.entries@[p]).0@
                        != (#[trigger] self.entries@[q]).0@ by {
                    if q == self.entries@.len() - 1 {
                        assert(s0[p].0@ != key@);
                    }
                }
            }
        }
    }

    /// The number of keys.
    pub fn entry_count(&self) -> (n: usize)
        requires
            self.wf(),
        ensures
            n == self@.dom().len(),
    {
        proof {
            lemma_assoc_map_count(self.entries@);
        }
        self.entries.len()
    }

    /// The entry at a position, for iteration; under `wf` every entry is in
    /// the map and every key appears at exactly one position.
    pub fn entry_at(&self, i: usize) -> (r: &(String, MetaValue))
        requires
            self.wf(),
            i < self@.dom().len(),
        ensures
            self@.contains_key(r.0@),
            self@[r.0@] == r.1@,
    {
        proof {
            lemma_assoc_map_count(self.entries@);
            lemma_assoc_map_index(self.entries@, i as int);
        }
        &self.entries[i]
    }

    /// Scrubs every value: the keys stay, every null inside any value
    /// becomes an empty string, and the result is null-free throughout.
    pub fn scrub(self) -> (r: Metadata)
        requires
            self.wf(),
        ensures
            r.wf(),
            r@ == self@.map_values(|v: MetaValueView| spec_scrub_value(v)),
            r@.dom() == self@.dom(),
            forall|k: Seq<char>| self@.contains_key(k)
                ==> r@[k] == spec_scrub_value(#[trigger] self@[k]),
            forall|k: Seq<char>| r@.contains_key(k)
                ==> value_null_free(#[trigger] r@[k]),
    {
        let ghost s0 = self.entries@;
        let mut rest = self.entries;
        let mut out: Vec<(String, MetaValue)> = Vec::new();
        while rest.len() > 0
            invariant
                s0.len() == out.len() + rest.len(),
                rest@ =~= s0.skip(out.len() as int),
                forall|k: int| 0 <= k < out.len()
                    ==> (#[trigger] out@[k]).0@ == s0[k].0@
                        && out@[k].1@ == spec_scrub_value(s0[k].1@),
            decreases rest.len(),
        {
            let (key, value) = rest.remove(0);
            proof {
                assert(key@ == s0[out.len() as int].0@);
                assert(value@ == s0[out.len() as int].1@);
            }
            out.push((key, scrub_value(value)));
            proof {
                assert(rest@ =~= s0.skip(out.len() as int));
            }
        }
        proof {
            lemma_scrub_entries(s0, out@);
            assert forall|k: Seq<char>| assoc_map(out@).contains_key(k)
                implies value_null_free(#[trigger] assoc_map(out@)[k]) by {
                lemma_assoc_map_dom(s0);
                assert(assoc_map(s0).contains_key(k));
                lemma_scrub_value(assoc_map(s0)[k]);
            }
            assert(assoc_map(out@) =~= assoc_map(s0).map_values(
                |v: MetaValueView| spec_scrub_value(v),
            ));
        }
        Metadata { entries: out }
    }
}

proof fn lemma_scrub_entries(s: Seq<(String, MetaValue)>, t: Seq<(String, MetaValue)>)
    requires
        keys_unique(s),
        t.len() == s.len(),
        forall|k: int| 0 <= k < t.len()
            ==> (#[trigger] t[k]).0@ == s[k].0@ && t[k].1@ == spec_scrub_value(s[k].1@),
    ensures
        keys_unique(t),
        assoc_map(t).dom() == assoc_map(s).dom(),
        forall|k: Seq<char>| assoc_map(s).contains_key(k)
            ==> assoc_map(t)[k] == spec_scrub_value(#[trigger] assoc_map(s)[k]),
    decreases s.len(),
{
    assert(keys_unique(t));
    if s.len() > 0 {
        assert(keys_unique(s.drop_last()));
        lemma_scrub_entries(s.drop_last(), t.drop_last());
        lemma_assoc_map_dom(s);
        lemma_assoc_map_dom(t);
        assert(assoc_map(t).dom() =~= assoc_map(s).dom()) by {
            assert forall|k: Seq<char>| assoc_map(s).contains_key(k)
                implies assoc_map(t).contains_key(k) by {
                let j = choose|j: int| 0 <= j < s.len() && (#[trigger] s[j]).0@ == k;
                assert(t[j].0@ == k);
            }
            assert forall|k: Seq<char>| assoc_map(t).contains_key(k)
                implies assoc_map(s).contains_key(k) by {
                let j = choose|j: int| 0 <= j < t.len() && (#[trigger] t[j]).0@ == k;
                assert(s[j].0@ == k);
            }
        }
        assert forall|k: Seq<char>| assoc_map(s).contains_key(k)
            implies assoc_map(t)[k] == spec_scrub_value(#[trigger] assoc_map(s)[k]) by {
            if k == s.last().0@ {
                assert(assoc_map(t)[k] == t.last().1@);
                assert(assoc_map(s)[k] == s.last().1@);
                assert(t[s.len() - 1].1@ == spec_scrub_value(s[s.len() - 1].1@));
            } else {
                assert(t.last().0@ == s.last().0@);
                assert(assoc_map(s)[k] == assoc_map(s.drop_last())[k]);
                assert(assoc_map(t)[k] == assoc_map(t.drop_last())[k]);
                lemma_assoc_map_dom(s.drop_last());
                assert(assoc_map(s.drop_last()).contains_key(k)) by {
                    let j = choose|j: int| 0 <= j < s.len() && (#[trigger] s[j]).0@ == k;
                    assert(j < s.len() - 1);
                    assert(s.drop_last()[j].0@ == k);
                }
            }
        }
    }
}

} // verus!
