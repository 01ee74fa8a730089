//! Association lists with string keys, viewed as maps. Both the metadata of
//! a record and the record store of a collection are such lists; the spec
//! functions and lemmas here tie the list representation to the map it
//! denotes.

use vstd::prelude::*;

verus! {

/// No two pairs share a key.
pub open spec fn keys_unique<V>(s: Seq<(String, V)>) -> bool {
    forall|i: int, j: int| 0 <= i < j < s.len() ==> (#[trigger] s[i]).0@ != (#[trigger] s[j]).0@
}

/// The map an association list denotes; a later pair for a key overrides an
/// earlier one.
pub open spec fn assoc_map<V: View>(s: Seq<(String, V)>) -> Map<Seq<char>, V::V>
    decreases s.len(),
{
    if s.len() == 0 {
        Map::empty()
    } else {
        assoc_map(s.drop_last()).insert(s.last().0@, s.last().1@)
    }
}

/// A key is in the map exactly when some pair holds it.
pub proof fn lemma_assoc_map_dom<V: View>(s: Seq<(String, V)>)
    ensures
        forall|k: Seq<char>| assoc_map(s).contains_key(k)
            <==> exists|i: int| 0 <= i < s.len() && (#[trigger] s[i]).0@ == k,
    decreases s.len(),
{
    if s.len() > 0 {
        let dl = s.drop_last();
        lemma_assoc_map_dom(dl);
        assert(assoc_map(s) == assoc_map(dl).insert(s.last().0@, s.last().1@));
        assert forall|k: Seq<char>| assoc_map(s).contains_key(k)
            implies exists|i: int| 0 <= i < s.len() && (#[trigger] s[i]).0@ == k by {
            if k == s.last().0@ {
                assert(s[s.len() - 1].0@ == k);
            } else {
                assert(assoc_map(dl).contains_key(k));
                let i = choose|i: int| 0 <= i < dl.len() && (#[trigger] dl[i]).0@ == k;
                assert(dl[i] == s[i]);
                assert(s[i].0@ == k);
            }
        }
        assert forall|k: Seq<char>|
            (exists|i: int| 0 <= i < s.len() && (#[trigger] s[i]).0@ == k)
            implies assoc_map(s).contains_key(k) by {
            let i = choose|i: int| 0 <= i < s.len() && (#[trigger] s[i]).0@ == k;
            if i < s.len() - 1 {
                assert(dl[i] == s[i]);
                assert(dl[i].0@ == k);
                assert(assoc_map(dl).contains_key(k));
            }
        }
    }
}

/// Under unique keys, each pair is what the map holds for its key.
pub proof fn lemma_assoc_map_index<V: View>(s: Seq<(String, V)>, i: int)
    requires
        keys_unique(s),
        0 <= i < s.len(),
    ensures
        assoc_map(s).contains_key(s[i].0@),
        assoc_map(s)[s[i].0@] == s[i].1@,
    decreases s.len(),
{
    if i == s.len() - 1 {
    } else {
        assert(keys_unique(s.drop_last()));
        assert(s.drop_last()[i] == s[i]);
        lemma_assoc_map_index(s.drop_last(), i);
        assert(s[i].0@ != s.last().0@);
    }
}

/// Removing a pair removes its key from the map, and keeps keys unique.
pub proof fn lemma_assoc_map_remove<V: View>(s: Seq<(String, V)>, i: int)
    requires
        keys_unique(s),
        0 <= i < s.len(),
    ensures
        assoc_map(s.remove(i)) == assoc_map(s).remove(s[i].0@),
        keys_unique(s.remove(i)),
    decreases s.len(),
{
    assert(keys_unique(s.remove(i))) by {
        assert forall|p: int, q: int| 0 <= p < q < s.remove(i).len()
            implies (#[trigger] s.remove(i)[p]).0@ != (#[trigger] s.remove(i)[q]).0@ by {
            let p0 = if p < i { p } else { p + 1 };
            let q0 = if q < i { q } else { q + 1 };
            assert(s.remove(i)[p] == s[p0]);
            assert(s.remove(i)[q] == s[q0]);
        }
    }
    let k = s[i].0@;
    if i == s.len() - 1 {
        assert(s.remove(i) =~= s.drop_last());
        lemma_assoc_map_dom(s.drop_last());
        assert(!assoc_map(s.drop_last()).contains_key(k)) by {
            if exists|j: int| 0 <= j < s.drop_last().len()
                && (#[trigger] s.drop_last()[j]).0@ == k {
                let j = choose|j: int| 0 <= j < s.drop_last().len()
                    && (#[trigger] s.drop_last()[j]).0@ == k;
                assert(s[j].0@ == s[i].0@);
            }
        }
        assert(assoc_map(s).remove(k) =~= assoc_map(s.drop_last()));
    } else {
        assert(keys_unique(s.drop_last()));
        lemma_assoc_map_remove(s.drop_last(), i);
        assert(s.remove(i).drop_last() =~= s.drop_last().remove(i));
        assert(s.remove(i).last() == s.last());
        assert(s.drop_last()[i] == s[i]);
        assert(k != s.last().0@);
        assert(assoc_map(s.remove(i))
            == assoc_map(s.drop_last()).remove(k).insert(s.last().0@, s.last().1@));
        assert(assoc_map(s.drop_last()).remove(k).insert(s.last().0@, s.last().1@)
            =~= assoc_map(s.drop_last()).insert(s.last().0@, s.last().1@).remove(k));
    }
}

/// Under unique keys the map has exactly one key per pair.
pub proof fn lemma_assoc_map_count<V: View>(s: Seq<(String, V)>)
    requires
        keys_unique(s),
    ensures
        assoc_map(s).dom().finite(),
        assoc_map(s).dom().len() == s.len(),
    decreases s.len(),
{
    if s.len() == 0 {
        assert(assoc_map(s).dom() =~= Set::<Seq<char>>::empty());
    } else {
        assert(keys_unique(s.drop_last()));
        lemma_assoc_map_count(s.drop_last());
        lemma_assoc_map_dom(s.drop_last());
        let k = s.last().0@;
        assert(!assoc_map(s.drop_last()).contains_key(k)) by {
            if exists|j: int| 0 <= j < s.drop_last().len()
                && (#[trigger] s.drop_last()[j]).0@ == k {
                let j = choose|j: int| 0 <= j < s.drop_last().len()
                    && (#[trigger] s.drop_last()[j]).0@ == k;
                assert(s[j].0@ == s[s.len() - 1].0@);
            }
        }
        assert(assoc_map(s).dom() =~= assoc_map(s.drop_last()).dom().insert(k));
    }
}

} // verus!
