//! The record model of one collection: id-keyed embedding records, with the
//! semantics the external server documents for its collection protocol.
//! Upserting an existing id overwrites it, ids are unique, deleting an
//! absent id is not an error, and a get after a delete finds nothing.

use vstd::prelude::*;

use crate::assoc::{
    assoc_map, keys_unique, lemma_assoc_map_count, lemma_assoc_map_dom, lemma_assoc_map_index,
    lemma_assoc_map_remove,
};
use crate::meta::{
    lemma_scrubbed_map_null_free, spec_scrub_value, value_null_free, MetaValueView, Metadata,
};
use crate::text::str_eq;

verus! {

/// One stored row: the embedding vector (fixed-point components) and the
/// flat metadata map.
#[derive(Debug, Clone, PartialEq)]
pub struct EmbeddingRecord {
    pub vector: Vec<i64>,
    pub metadata: Metadata,
}

/// The mathematical form of a record.
pub struct RecordView {
    pub vector: Seq<i64>,
    pub metadata: Map<Seq<char>, MetaValueView>,
}

impl View for EmbeddingRecord {
    type V = RecordView;

    open spec fn view(&self) -> RecordView {
        RecordView { vector: self.vector@, metadata: self.metadata@ }
    }
}

impl EmbeddingRecord {
    /// Well-formed: the metadata map has no duplicate keys.
    pub open spec fn wf(&self) -> bool {
        self.metadata.wf()
    }
}

/// What an upsert does to a collection's contents: the record is stored
/// under its id, replacing any record the id held before.
pub open spec fn spec_upsert(
    m: Map<Seq<char>, RecordView>,
    id: Seq<char>,
    r: RecordView,
) -> Map<Seq<char>, RecordView> {
    m.insert(id, r)
}

/// What a get returns: the record under the id, if the id is present.
pub open spec fn spec_lookup(m: Map<Seq<char>, RecordView>, id: Seq<char>) -> Option<RecordView> {
    if m.contains_key(id) {
        Option::Some(m[id])
    } else {
        Option::None
    }
}

/// What a delete does: the id is gone afterwards; deleting an absent id
/// changes nothing.
pub open spec fn spec_delete(
    m: Map<Seq<char>, RecordView>,
    id: Seq<char>,
) -> Map<Seq<char>, RecordView> {
    m.remove(id)
}

/// Upsert followed by get for the same id finds exactly the record that was
/// written.
pub proof fn lemma_upsert_then_get(m: Map<Seq<char>, RecordView>, id: Seq<char>, r: RecordView)
    ensures
        spec_lookup(spec_upsert(m, id, r), id) == Option::Some(r),
{
}

/// Get after a delete of the same id finds nothing — an absent record, not
/// an error.
pub proof fn lemma_delete_then_get(m: Map<Seq<char>, RecordView>, id: Seq<char>)
    ensures
        spec_lookup(spec_delete(m, id), id) is None,
{
}

/// The full write round trip: what an upsert built from `vector` and
/// `metadata` stores, a get for the same id returns — the vector exactly as
/// written, and the metadata as written except that every null is observed
/// as an empty string; the stored metadata is null-free throughout.
pub proof fn lemma_upsert_roundtrip_with_scrubbing(
    store: Map<Seq<char>, RecordView>,
    id: Seq<char>,
    vector: Seq<i64>,
    metadata: Map<Seq<char>, MetaValueView>,
)
    ensures
        ({
            let written = RecordView {
                vector,
                metadata: metadata.map_values(|v: MetaValueView| spec_scrub_value(v)),
            };
            &&& spec_lookup(spec_upsert(store, id, written), id) == Option::Some(written)
            &&& written.metadata.dom() == metadata.dom()
            &&& forall|k: Seq<char>| #[trigger] metadata.contains_key(k)
                ==> written.metadata[k] == spec_scrub_value(metadata[k])
            &&& forall|k: Seq<char>| #[trigger] metadata.contains_key(k)
                ==> value_null_free(written.metadata[k])
        }),
{
    let scrubbed = metadata.map_values(|v: MetaValueView| spec_scrub_value(v));
    lemma_scrubbed_map_null_free(metadata, scrubbed);
    assert(scrubbed.dom() =~= metadata.dom());
}

/// One collection's contents, keyed by record id.
#[derive(Debug, Clone, PartialEq)]
pub struct Collection {
    records: Vec<(String, EmbeddingRecord)>,
}

impl View for Collection {
    type V = Map<Seq<char>, RecordView>;

    closed spec fn view(&self) -> Map<Seq<char>, RecordView> {
        assoc_map(self.records@)
    }
}

impl Collection {
    /// Well-formed: ids are unique and every stored record is well-formed.
    pub closed spec fn wf(&self) -> bool {
        &&& keys_unique(self.records@)
        &&& forall|i: int| 0 <= i < self.records@.len()
            ==> (#[trigger] self.records@[i]).1.wf()
    }

    /// An empty collection.
    pub fn new() -> (r: Collection)
        ensures
            r.wf(),
            r@ == Map::<Seq<char>, RecordView>::empty(),
    {
        Collection { records: Vec::new() }
    }

    /// The number of stored records.
    pub fn count(&self) -> (n: usize)
        requires
            self.wf(),
        ensures
            n == self@.dom().len(),
    {
        proof {
            lemma_assoc_map_count(self.records@);
        }
        self.records.len()
    }

    /// Stores `record` under `id`, replacing whatever the id held before.
    pub fn upsert(&mut self, id: String, record: EmbeddingRecord)
        requires
            old(self).wf(),
            record.wf(),
        ensures
            final(self).wf(),
            final(self)@ == spec_upsert(old(self)@, id@, record@),
    {
        let ghost s0 = self.records@;
        let n = self.records.len();
        let mut i: usize = 0;
        while i < n
            invariant
                i <= n,
                n == self.records@.len(),
                self.records@ == s0,
                s0 == old(self).records@,
                old(self).wf(),
                record.wf(),
                keys_unique(s0),
                forall|k: int| 0 <= k < i ==> (#[trigger] s0[k]).0@ != id@,
            decreases n - i,
        {
            if str_eq(self.records[i].0.as_str(), id.as_str()) {
                proof {
                    lemma_assoc_map_remove(s0, i as int);
                }
                let _ = self.records.remove(i);
                let ghost s1 = self.records@;
                self.records.push((id, record));
                proof {
                    assert(self.records@.drop_last() =~= s1);
                    assert(assoc_map(self.records@) =~= assoc_map(s0).insert(id@, record@));
                    assert(keys_unique(self.records@)) by {
                        assert forall|p: int, q: int| 0 <= p < q < self.records@.len()
                            implies (#[trigger] self.records@[p]).0@
                                != (#[trigger] self.records@[q]).0@ by {
                            if q == self.records@.len() - 1 {
                                assert(s1[p].0@ != id@) by {
                                    let p0 = if p < i { p } else { p + 1 };
                                    assert(s1[p] == s0[p0]);
                                    if s0[p0].0@ == id@ {
                                        assert(s0[i as int].0@ == id@);
                                    }
                                }
                            }
                        }
                    }
                    assert forall|j: int| 0 <= j < self.records@.len()
                        implies (#[trigger] self.records@[j]).1.wf() by {
                        if j < self.records@.len() - 1 {
                            let j0 = if j < i { j } else { j + 1 };
                            assert(self.records@[j] == s1[j]);
                            assert(s1[j] == s0[j0]);
                        }
                    }
                }
                return;
            }
            i += 1;
        }
        self.records.push((id, record));
        proof {
            assert(self.records@.drop_last() =~= s0);
            assert(keys_unique(self.records@)) by {
                assert forall|p: int, q: int| 0 <= p < q < self.records@.len()
                    implies (#[trigger] self.records@[p]).0@
                        != (#[trigger] self.records@[q]).0@ by {
                    if q == self.records@.len() - 1 {
                        assert(s0[p].0@ != id@);
                    }
                }
            }
            assert forall|j: int| 0 <= j < self.records@.len()
                implies (#[trigger] self.records@[j]).1.wf() by {
                if j < self.records@.len() - 1 {
                    assert(self.records@[j] == s0[j]);
                }
            }
        }
    }

    /// Finds the record an id holds. An absent id is an absent result, not
    /// an error.
    pub fn get(&self, id: &str) -> (r: Option<&EmbeddingRecord>)
        requires
            self.wf(),
        ensures
            match spec_lookup(self@, id@) {
                Option::Some(v) => r is Some && r->Some_0@ == v && r->Some_0.wf(),
                Option::None => r is None,
            },
    {
        proof {
            lemma_assoc_map_dom(self.records@);
        }
        let n = self.records.len();
        let mut i: usize = 0;
        while i < n
            invariant
                i <= n,
                n == self.records@.len(),
                self.wf(),
                forall|k: int| 0 <= k < i ==> (#[trigger] self.records@[k]).0@ != id@,
            decreases n - i,
        {
            if str_eq(self.records[i].0.as_str(), id) {
                proof {
                    lemma_assoc_map_index(self.records@, i as int);
                }
                return Some(&self.records[i].1);
            }
            i += 1;
        }
        proof {
            lemma_assoc_map_dom(self.records@);
        }
        None
    }

    /// Removes the record an id holds, if any; removing an absent id is a
    /// no-op, not an error.
    pub fn delete(&mut self, id: &str)
        requires
            old(self).wf(),
        ensures
            final(self).wf(),
            final(self)@ == spec_delete(old(self)@, id@),
    {
        let ghost s0 = self.records@;
        let n = self.records.len();
        let mut i: usize = 0;
        while i < n
            invariant
                i <= n,
                n == self.records@.len(),
                self.records@ == s0,
                s0 == old(self).records@,
                old(self).wf(),
                forall|k: int| 0 <= k < i ==> (#[trigger] s0[k]).0@ != id@,
            decreases n - i,
        {
            if str_eq(self.records[i].0.as_str(), id) {
                proof {
                    lemma_assoc_map_remove(s0, i as int);
                }
                let _ = self.records.remove(i);
                proof {
                    assert forall|j: int| 0 <= j < self.records@.len()
                        implies (#[trigger] self.records@[j]).1.wf() by {
                        let j0 = if j < i { j } else { j + 1 };
                        assert(self.records@[j] == s0[j0]);
                    }
                }
                return;
            }
            i += 1;
        }
        proof {
            lemma_assoc_map_dom(s0);
            assert(!assoc_map(s0).contains_key(id@));
            assert(assoc_map(s0).remove(id@) =~= assoc_map(s0));
        }
    }
}

} // verus!
