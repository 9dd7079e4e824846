//! Maps and sets of the catalog, built from their literal entries.

use crate::codec::{map_fits, map_model, set_fits, set_model, Wire, WireKey};
use crate::wire::max_len;
use std::collections::{BTreeMap, BTreeSet, HashMap, HashSet};
use vstd::prelude::*;

verus! {

/// The map that holds the given entries. Where a key occurs twice, the
/// later entry stands.
pub open spec fn map_of<K, V>(entries: Seq<(K, V)>) -> Map<K, V>
    decreases entries.len(),
{
    if entries.len() == 0 {
        Map::empty()
    } else {
        map_of(entries.drop_last()).insert(entries.last().0, entries.last().1)
    }
}

/// The models of a list of string-keyed entries.
pub open spec fn entry_models<V: Wire>(entries: Seq<(String, V)>) -> Seq<(Seq<char>, V::Model)> {
    entries.map_values(|e: (String, V)| (e.0@, e.1.model()))
}

/// The texts of a list of strings.
pub open spec fn texts(items: Seq<String>) -> Seq<Seq<char>> {
    items.map_values(|s: String| s@)
}

/// Whether no two of the entries have the same key.
pub open spec fn distinct_keys<K, V>(entries: Seq<(K, V)>) -> bool {
    forall|i: int, j: int|
        0 <= i < j < entries.len() ==> (#[trigger] entries[i]).0 != (#[trigger] entries[j]).0
}

/// A key is in `map_of(entries)` exactly when an entry has it, and the map
/// has no more keys than there are entries.
pub proof fn lemma_map_of_dom<K, V>(entries: Seq<(K, V)>)
    ensures
        map_of(entries).dom().finite(),
        map_of(entries).dom().len() <= entries.len(),
        forall|k: K|
            map_of(entries).contains_key(k) <==> exists|i: int|
                0 <= i < entries.len() && (#[trigger] entries[i]).0 == k,
        forall|k: K|
            map_of(entries).contains_key(k) ==> exists|i: int|
                0 <= i < entries.len() && (#[trigger] entries[i]).0 == k && map_of(entries)[k]
                    == entries[i].1,
    decreases entries.len(),
{
    if entries.len() > 0 {
        let head = entries.drop_last();
        let last = entries.last();
        lemma_map_of_dom(head);
        assert forall|k: K| map_of(entries).contains_key(k) implies exists|i: int|
            0 <= i < entries.len() && (#[trigger] entries[i]).0 == k && map_of(entries)[k]
                == entries[i].1 by {
            if k == last.0 {
                assert(entries[entries.len() - 1].0 == k);
            } else {
                let i = choose|i: int|
                    0 <= i < head.len() && (#[trigger] head[i]).0 == k && map_of(head)[k]
                        == head[i].1;
                assert(entries[i] == head[i]);
            }
        }
        assert forall|k: K|
            (exists|i: int| 0 <= i < entries.len() && (#[trigger] entries[i]).0 == k) implies map_of(
            entries,
        ).contains_key(k) by {
            let i = choose|i: int| 0 <= i < entries.len() && (#[trigger] entries[i]).0 == k;
            if i < head.len() {
                assert(head[i] == entries[i]);
            }
        }
    }
}

/// With distinct keys, `map_of(entries)` holds every entry and has as many
/// keys as there are entries.
pub proof fn lemma_map_of_distinct<K, V>(entries: Seq<(K, V)>)
    requires
        distinct_keys(entries),
    ensures
        map_of(entries).dom().len() == entries.len(),
        forall|i: int|
            0 <= i < entries.len() ==> map_of(entries).contains_key((#[trigger] entries[i]).0)
                && map_of(entries)[entries[i].0] == entries[i].1,
    decreases entries.len(),
{
    if entries.len() > 0 {
        let head = entries.drop_last();
        let last = entries.last();
        assert forall|i: int, j: int| 0 <= i < j < head.len() implies (#[trigger] head[i]).0 != (
        #[trigger] head[j]).0 by {
            assert(head[i] == entries[i] && head[j] == entries[j]);
        }
        lemma_map_of_distinct(head);
        lemma_map_of_dom(head);
        if map_of(head).contains_key(last.0) {
            let i = choose|i: int| 0 <= i < head.len() && (#[trigger] head[i]).0 == last.0;
            assert(head[i] == entries[i]);
            assert(entries[entries.len() - 1] == last);
        }
        assert forall|i: int| 0 <= i < entries.len() implies map_of(entries).contains_key(
            (#[trigger] entries[i]).0,
        ) && map_of(entries)[entries[i].0] == entries[i].1 by {
            if i < head.len() {
                assert(head[i] == entries[i]);
                assert(entries[entries.len() - 1] == last);
            }
        }
    }
}

/// A map built from entries that can each be encoded can be encoded, unless
/// there are too many of them.
pub proof fn lemma_map_of_fits<K: WireKey, V: Wire>(entries: Seq<(K::Model, V::Model)>)
    requires
        entries.len() <= max_len(),
        forall|i: int|
            0 <= i < entries.len() ==> K::fits((#[trigger] entries[i]).0) && V::fits(entries[i].1),
    ensures
        map_fits::<K, V>(map_of(entries)),
{
    lemma_map_of_dom(entries);
}

/// A set built from members that can each be encoded can be encoded, unless
/// there are too many of them.
pub proof fn lemma_set_of_fits<K: WireKey>(items: Seq<K::Model>)
    requires
        items.len() <= max_len(),
        forall|i: int| 0 <= i < items.len() ==> K::fits(#[trigger] items[i]),
    ensures
        set_fits::<K>(items.to_set()),
{
    vstd::seq_lib::seq_to_set_is_finite(items);
    items.lemma_cardinality_of_set();
}

/// A map from bytes to bytes is its own model.
pub proof fn lemma_byte_map_model(m: Map<u8, u8>)
    ensures
        map_model::<u8, u8>(m) == m,
{
    let mm = map_model::<u8, u8>(m);
    assert forall|k: u8| mm.contains_key(k) <==> m.contains_key(k) by {
        if m.contains_key(k) {
            assert(k.model() == k);
        }
    }
    assert forall|k: u8| mm.contains_key(k) implies mm[k] == m[k] by {
        let w = choose|w: u8| #[trigger] m.contains_key(w) && w.model() == k;
        assert(w == k);
    }
    assert(mm =~= m);
}

/// A set of bytes is its own model.
pub proof fn lemma_byte_set_model(s: Set<u8>)
    ensures
        set_model::<u8>(s) == s,
{
    let sm = set_model::<u8>(s);
    assert forall|k: u8| sm.contains(k) <==> s.contains(k) by {
        if s.contains(k) {
            assert(k.model() == k);
        }
    }
    assert(sm =~= s);
}

/// The hash map that holds `pairs`.
pub fn byte_hash_map<const N: usize>(pairs: &[(u8, u8); N]) -> (m: HashMap<u8, u8>)
    ensures
        m.model() == map_of(pairs@),
{
    let mut m: HashMap<u8, u8> = HashMap::new();
    let mut i: usize = 0;
    while i < N
        invariant
            i <= N,
            pairs@.len() == N,
            m@ == map_of(pairs@.take(i as int)),
        decreases N - i,
    {
        let (k, v) = pairs[i];
        m.insert(k, v);
        proof {
            assert(pairs@.take(i + 1).drop_last() == pairs@.take(i as int));
        }
        i += 1;
    }
    proof {
        assert(pairs@.take(N as int) == pairs@);
        lemma_byte_map_model(m@);
    }
    m
}

/// The ordered map that holds `pairs`.
pub fn byte_btree_map<const N: usize>(pairs: &[(u8, u8); N]) -> (m: BTreeMap<u8, u8>)
    ensures
        m.model() == map_of(pairs@),
{
    let mut m: BTreeMap<u8, u8> = BTreeMap::new();
    let mut i: usize = 0;
    while i < N
        invariant
            i <= N,
            pairs@.len() == N,
            m@ == map_of(pairs@.take(i as int)),
        decreases N - i,
    {
        let (k, v) = pairs[i];
        m.insert(k, v);
        proof {
            assert(pairs@.take(i + 1).drop_last() == pairs@.take(i as int));
        }
        i += 1;
    }
    proof {
        assert(pairs@.take(N as int) == pairs@);
        lemma_byte_map_model(m@);
    }
    m
}

/// The hash set that holds `items`.
pub fn byte_hash_set<const N: usize>(items: &[u8; N]) -> (s: HashSet<u8>)
    ensures
        s.model() == items@.to_set(),
{
    let mut s: HashSet<u8> = HashSet::new();
    let mut i: usize = 0;
    while i < N
        invariant
            i <= N,
            items@.len() == N,
            s@ == items@.take(i as int).to_set(),
        decreases N - i,
    {
        s.insert(items[i]);
        proof {
            assert(items@.take(i + 1) == items@.take(i as int).push(items@[i as int]));
            items@.take(i as int).lemma_push_to_set_commute(items@[i as int]);
        }
        i += 1;
    }
    proof {
        assert(items@.take(N as int) == items@);
        lemma_byte_set_model(s@);
    }
    s
}

/// The ordered set that holds `items`.
pub fn byte_btree_set<const N: usize>(items: &[u8; N]) -> (s: BTreeSet<u8>)
    ensures
        s.model() == items@.to_set(),
{
    let mut s: BTreeSet<u8> = BTreeSet::new();
    let mut i: usize = 0;
    while i < N
        invariant
            i <= N,
            items@.len() == N,
            s@ == items@.take(i as int).to_set(),
        decreases N - i,
    {
        s.insert(items[i]);
        proof {
            assert(items@.take(i + 1) == items@.take(i as int).push(items@[i as int]));
            items@.take(i as int).lemma_push_to_set_commute(items@[i as int]);
        }
        i += 1;
    }
    proof {
        assert(items@.take(N as int) == items@);
        lemma_byte_set_model(s@);
    }
    s
}

/// Calls `HashMap::from` on an array of entries with string keys. The contract
/// claims that, the keys being distinct, the map holds exactly these entries.
#[verifier::external_body]
pub(crate) fn string_hash_map<V: Wire, const N: usize>(entries: [(String, V); N]) -> (m: HashMap<
    String,
    V,
>)
    requires
        distinct_keys(entry_models(entries@)),
    ensures
        m.model() == map_of(entry_models(entries@)),
{
    HashMap::from(entries)
}

/// Calls `HashSet::from` on an array of strings. The contract claims that the
/// set holds exactly these strings.
#[verifier::external_body]
pub(crate) fn string_hash_set<const N: usize>(items: [String; N]) -> (s: HashSet<String>)
    ensures
        s.model() == texts(items@).to_set(),
{
    HashSet::from(items)
}

} // verus!
