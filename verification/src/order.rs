//! Why the entries of a map or set have one order only: a finite set has
//! exactly one ascending listing.

use crate::codec::{ascending, is_ascending_listing, WireKey};
use vstd::prelude::*;

verus! {

/// A listing has no more and no fewer items than the set it lists, and the
/// set is finite.
pub proof fn lemma_listing_len<K: WireKey>(keys: Seq<K::Model>, dom: Set<K::Model>)
    requires
        is_ascending_listing::<K>(keys, dom),
    ensures
        dom.finite(),
        keys.len() == dom.len(),
        keys.no_duplicates(),
{
    assert(keys.no_duplicates()) by {
        assert forall|i: int, j: int| 0 <= i < keys.len() && 0 <= j < keys.len() && i != j implies keys[i]
            != keys[j] by {
            if i < j {
                assert(K::key_le(keys[i], keys[j]) && keys[i] != keys[j]);
            } else {
                assert(K::key_le(keys[j], keys[i]) && keys[j] != keys[i]);
            }
        }
    }
    assert(keys.to_set() =~= dom);
    vstd::seq_lib::seq_to_set_is_finite(keys);
    keys.unique_seq_to_set();
}

/// A finite set that is not empty has a least member.
pub proof fn lemma_least_exists<K: WireKey>(dom: Set<K::Model>) -> (least: K::Model)
    requires
        dom.finite(),
        dom.len() > 0,
    ensures
        dom.contains(least),
        forall|other: K::Model| dom.contains(other) ==> K::key_le(least, other),
    decreases dom.len(),
{
    let x = dom.choose();
    let rest = dom.remove(x);
    K::lemma_key_le_total(x, x);
    if rest.len() == 0 {
        assert forall|other: K::Model| dom.contains(other) implies K::key_le(x, other) by {
            if other != x {
                assert(rest.contains(other));
            }
        }
        x
    } else {
        let y = lemma_least_exists::<K>(rest);
        K::lemma_key_le_total(x, y);
        if K::key_le(x, y) {
            assert forall|other: K::Model| dom.contains(other) implies K::key_le(x, other) by {
                if other != x {
                    assert(rest.contains(other));
                    K::lemma_key_le_trans(x, y, other);
                }
            }
            x
        } else {
            assert forall|other: K::Model| dom.contains(other) implies K::key_le(y, other) by {
                if other != x {
                    assert(rest.contains(other));
                }
            }
            y
        }
    }
}

/// Every finite set has an ascending listing.
pub proof fn lemma_listing_exists<K: WireKey>(dom: Set<K::Model>) -> (keys: Seq<K::Model>)
    requires
        dom.finite(),
    ensures
        is_ascending_listing::<K>(keys, dom),
    decreases dom.len(),
{
    if dom.len() == 0 {
        let keys = Seq::<K::Model>::empty();
        assert forall|k: K::Model| dom.contains(k) <==> keys.contains(k) by {
            if dom.contains(k) {
                assert(dom.len() > 0);
            }
        }
        keys
    } else {
        let least = lemma_least_exists::<K>(dom);
        let tail = lemma_listing_exists::<K>(dom.remove(least));
        let keys = seq![least] + tail;
        assert forall|k: K::Model| dom.contains(k) <==> keys.contains(k) by {
            if dom.contains(k) {
                if k == least {
                    assert(keys[0] == k);
                } else {
                    assert(dom.remove(least).contains(k));
                    let i = choose|i: int| 0 <= i < tail.len() && tail[i] == k;
                    assert(keys[i + 1] == k);
                }
            }
            if keys.contains(k) {
                let i = choose|i: int| 0 <= i < keys.len() && keys[i] == k;
                if i > 0 {
                    assert(tail[i - 1] == k);
                    assert(tail.contains(k));
                }
            }
        }
        assert forall|i: int, j: int| 0 <= i < j < keys.len() implies K::key_le(
            #[trigger] keys[i],
            #[trigger] keys[j],
        ) && keys[i] != keys[j] by {
            assert(keys[j] == tail[j - 1]);
            assert(tail.contains(tail[j - 1]));
            if i > 0 {
                assert(keys[i] == tail[i - 1]);
            }
        }
        keys
    }
}

/// Two ascending listings of one set are the same listing.
pub proof fn lemma_listing_unique<K: WireKey>(a: Seq<K::Model>, b: Seq<K::Model>, dom: Set<K::Model>)
    requires
        is_ascending_listing::<K>(a, dom),
        is_ascending_listing::<K>(b, dom),
    ensures
        a == b,
    decreases a.len(),
{
    lemma_listing_len::<K>(a, dom);
    lemma_listing_len::<K>(b, dom);
    if a.len() == 0 {
        assert(a =~= b);
    } else {
        assert(a.contains(a[0]));
        assert(b.contains(b[0]));
        let i = choose|i: int| 0 <= i < b.len() && b[i] == a[0];
        let j = choose|j: int| 0 <= j < a.len() && a[j] == b[0];
        assert(K::key_le(a[0], b[0])) by {
            if j > 0 {
                assert(K::key_le(a[0], a[j]));
            } else {
                K::lemma_key_le_total(a[0], a[0]);
            }
        }
        assert(K::key_le(b[0], a[0])) by {
            if i > 0 {
                assert(K::key_le(b[0], b[i]));
            } else {
                K::lemma_key_le_total(b[0], b[0]);
            }
        }
        K::lemma_key_le_antisym(a[0], b[0]);
        let rest = dom.remove(a[0]);
        lemma_listing_tail::<K>(a, dom);
        lemma_listing_tail::<K>(b, dom);
        lemma_listing_unique::<K>(a.drop_first(), b.drop_first(), rest);
        assert(a =~= seq![a[0]] + a.drop_first());
        assert(b =~= seq![b[0]] + b.drop_first());
    }
}

/// Without its first item, an ascending listing lists the set without its
/// least member.
pub proof fn lemma_listing_tail<K: WireKey>(keys: Seq<K::Model>, dom: Set<K::Model>)
    requires
        is_ascending_listing::<K>(keys, dom),
        keys.len() > 0,
    ensures
        is_ascending_listing::<K>(keys.drop_first(), dom.remove(keys[0])),
{
    let tail = keys.drop_first();
    let rest = dom.remove(keys[0]);
    assert forall|k: K::Model| rest.contains(k) <==> tail.contains(k) by {
        if rest.contains(k) {
            assert(keys.contains(k));
            let i = choose|i: int| 0 <= i < keys.len() && keys[i] == k;
            assert(tail[i - 1] == k);
        }
        if tail.contains(k) {
            let i = choose|i: int| 0 <= i < tail.len() && tail[i] == k;
            assert(keys[i + 1] == k);
            assert(keys.contains(k));
            assert(K::key_le(keys[0], keys[i + 1]) && keys[0] != keys[i + 1]);
        }
    }
    assert forall|i: int, j: int| 0 <= i < j < tail.len() implies K::key_le(
        #[trigger] tail[i],
        #[trigger] tail[j],
    ) && tail[i] != tail[j] by {
        assert(tail[i] == keys[i + 1] && tail[j] == keys[j + 1]);
    }
}

/// The ascending order of a finite set is an ascending listing of it.
pub proof fn lemma_ascending_lists<K: WireKey>(dom: Set<K::Model>)
    requires
        dom.finite(),
    ensures
        is_ascending_listing::<K>(ascending::<K>(dom), dom),
        ascending::<K>(dom).len() == dom.len(),
{
    let keys = lemma_listing_exists::<K>(dom);
    lemma_listing_len::<K>(ascending::<K>(dom), dom);
}

/// Whatever lists a set in ascending order is its ascending order: the
/// order in which the members were put in does not show.
pub proof fn lemma_ascending_is<K: WireKey>(keys: Seq<K::Model>, dom: Set<K::Model>)
    requires
        is_ascending_listing::<K>(keys, dom),
    ensures
        ascending::<K>(dom) == keys,
{
    lemma_listing_unique::<K>(ascending::<K>(dom), keys, dom);
}

} // verus!
