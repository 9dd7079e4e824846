//! Reading the format back, as a specification: what a correct decoder finds
//! in a byte string. Every shape's encoding is shown to read back as the
//! value that was encoded.

use crate::codec::{all_fit, ascending, wire_each, Wire, WireKey};
use crate::collections::{lemma_map_of_distinct, lemma_map_of_dom, map_of};
use crate::order::lemma_ascending_lists;
use crate::wire::{
    from_twos_complement, le_bytes, le_value, lemma_le_bytes_len, lemma_le_value_of_le_bytes,
    lemma_radix_values, len_prefix, max_len, radix, twos_complement,
};
use std::collections::{BTreeMap, BTreeSet, HashMap, HashSet};
use vstd::prelude::*;
use vstd::utf8::{decode_utf8, encode_utf8, valid_utf8};

verus! {

/// A value shape whose encoding can be read back.
pub trait Decode: Wire {
    /// What a correct decoder reads from the front of `bytes`: a value and
    /// the bytes behind it, or nothing where `bytes` does not begin with the
    /// encoding of a value.
    spec fn decode(bytes: Seq<u8>) -> Option<(Self::Model, Seq<u8>)>;

    /// Reading the encoding of `m`, whatever follows it, gives `m` and what
    /// follows.
    proof fn lemma_decode_wire(m: Self::Model, rest: Seq<u8>)
        requires
            Self::fits(m),
        ensures
            Self::decode(Self::wire(m) + rest) == Some((m, rest)),
    ;
}

/// No two values share an encoding: values with the same bytes are the same
/// value.
pub proof fn lemma_wire_injective<T: Decode>(a: T::Model, b: T::Model)
    requires
        T::fits(a),
        T::fits(b),
        T::wire(a) == T::wire(b),
    ensures
        a == b,
{
    T::lemma_decode_wire(a, Seq::empty());
    T::lemma_decode_wire(b, Seq::empty());
}

/// No encoding is the beginning of another: a decoder that has read a value
/// knows where it ends.
pub proof fn lemma_wire_prefix_free<T: Decode>(a: T::Model, b: T::Model, rest: Seq<u8>)
    requires
        T::fits(a),
        T::fits(b),
        T::wire(a) + rest == T::wire(b),
    ensures
        a == b,
        rest.len() == 0,
{
    T::lemma_decode_wire(a, rest);
    T::lemma_decode_wire(b, Seq::empty());
    assert(T::wire(b) + Seq::<u8>::empty() =~= T::wire(b));
}

/// The first `width` bytes of `bytes` as a little-endian number, and the
/// bytes behind them.
pub open spec fn read_uint(bytes: Seq<u8>, width: nat) -> Option<(nat, Seq<u8>)> {
    if bytes.len() >= width {
        Some((le_value(bytes.take(width as int)), bytes.skip(width as int)))
    } else {
        None
    }
}

/// A length prefix and the bytes behind it.
pub open spec fn read_len(bytes: Seq<u8>) -> Option<(nat, Seq<u8>)> {
    read_uint(bytes, 4)
}

/// `read_uint` reads back what `le_bytes` wrote.
pub proof fn lemma_read_uint(x: nat, width: nat, rest: Seq<u8>)
    requires
        x < radix(width),
    ensures
        read_uint(le_bytes(x, width) + rest, width) == Some((x, rest)),
{
    let written = le_bytes(x, width);
    lemma_le_bytes_len(x, width);
    lemma_le_value_of_le_bytes(x, width);
    assert((written + rest).take(width as int) =~= written);
    assert((written + rest).skip(width as int) =~= rest);
}

/// `read_len` reads back a length prefix.
pub proof fn lemma_read_len(n: nat, rest: Seq<u8>)
    requires
        n <= max_len(),
    ensures
        read_len(len_prefix(n) + rest) == Some((n, rest)),
{
    lemma_radix_values();
    lemma_read_uint(n, 4, rest);
}

impl Decode for u8 {
    open spec fn decode(bytes: Seq<u8>) -> Option<(u8, Seq<u8>)> {
        if bytes.len() >= 1 {
            Some((bytes[0], bytes.skip(1)))
        } else {
            None
        }
    }

    proof fn lemma_decode_wire(m: u8, rest: Seq<u8>) {
        assert((seq![m] + rest).skip(1) =~= rest);
    }
}

impl Decode for u16 {
    open spec fn decode(bytes: Seq<u8>) -> Option<(u16, Seq<u8>)> {
        match read_uint(bytes, 2) {
            Some((n, rest)) => Some((n as u16, rest)),
            None => None,
        }
    }

    proof fn lemma_decode_wire(m: u16, rest: Seq<u8>) {
        lemma_radix_values();
        lemma_read_uint(m as nat, 2, rest);
    }
}

impl Decode for u32 {
    open spec fn decode(bytes: Seq<u8>) -> Option<(u32, Seq<u8>)> {
        match read_uint(bytes, 4) {
            Some((n, rest)) => Some((n as u32, rest)),
            None => None,
        }
    }

    proof fn lemma_decode_wire(m: u32, rest: Seq<u8>) {
        lemma_radix_values();
        lemma_read_uint(m as nat, 4, rest);
    }
}

impl Decode for u128 {
    open spec fn decode(bytes: Seq<u8>) -> Option<(u128, Seq<u8>)> {
        match read_uint(bytes, 16) {
            Some((n, rest)) => Some((n as u128, rest)),
            None => None,
        }
    }

    proof fn lemma_decode_wire(m: u128, rest: Seq<u8>) {
        lemma_radix_values();
        lemma_read_uint(m as nat, 16, rest);
    }
}

impl Decode for i8 {
    open spec fn decode(bytes: Seq<u8>) -> Option<(i8, Seq<u8>)> {
        match read_uint(bytes, 1) {
            Some((n, rest)) => Some((from_twos_complement(n, 1) as i8, rest)),
            None => None,
        }
    }

    proof fn lemma_decode_wire(m: i8, rest: Seq<u8>) {
        lemma_radix_values();
        lemma_read_uint(twos_complement(m as int, 1), 1, rest);
    }
}

impl Decode for i16 {
    open spec fn decode(bytes: Seq<u8>) -> Option<(i16, Seq<u8>)> {
        match read_uint(bytes, 2) {
            Some((n, rest)) => Some((from_twos_complement(n, 2) as i16, rest)),
            None => None,
        }
    }

    proof fn lemma_decode_wire(m: i16, rest: Seq<u8>) {
        lemma_radix_values();
        lemma_read_uint(twos_complement(m as int, 2), 2, rest);
    }
}

impl Decode for i32 {
    open spec fn decode(bytes: Seq<u8>) -> Option<(i32, Seq<u8>)> {
        match read_uint(bytes, 4) {
            Some((n, rest)) => Some((from_twos_complement(n, 4) as i32, rest)),
            None => None,
        }
    }

    proof fn lemma_decode_wire(m: i32, rest: Seq<u8>) {
        lemma_radix_values();
        lemma_read_uint(twos_complement(m as int, 4), 4, rest);
    }
}

impl Decode for i64 {
    open spec fn decode(bytes: Seq<u8>) -> Option<(i64, Seq<u8>)> {
        match read_uint(bytes, 8) {
            Some((n, rest)) => Some((from_twos_complement(n, 8) as i64, rest)),
            None => None,
        }
    }

    proof fn lemma_decode_wire(m: i64, rest: Seq<u8>) {
        lemma_radix_values();
        lemma_read_uint(twos_complement(m as int, 8), 8, rest);
    }
}

impl Decode for String {
    open spec fn decode(bytes: Seq<u8>) -> Option<(Seq<char>, Seq<u8>)> {
        match read_len(bytes) {
            Some((n, rest)) => {
                if rest.len() >= n && valid_utf8(rest.take(n as int)) {
                    Some((decode_utf8(rest.take(n as int)), rest.skip(n as int)))
                } else {
                    None
                }
            },
            None => None,
        }
    }

    proof fn lemma_decode_wire(m: Seq<char>, rest: Seq<u8>) {
        let text = encode_utf8(m);
        lemma_read_len(text.len(), text + rest);
        assert(len_prefix(text.len()) + text + rest =~= len_prefix(text.len()) + (text + rest));
        assert((text + rest).take(text.len() as int) =~= text);
        assert((text + rest).skip(text.len() as int) =~= rest);
        vstd::utf8::encode_utf8_valid_utf8(m);
        vstd::utf8::encode_utf8_decode_utf8(m);
    }
}

impl<T: Decode> Decode for Option<T> {
    open spec fn decode(bytes: Seq<u8>) -> Option<(Option<T::Model>, Seq<u8>)> {
        if bytes.len() == 0 {
            None
        } else if bytes[0] == 0 {
            Some((None, bytes.skip(1)))
        } else if bytes[0] == 1 {
            match T::decode(bytes.skip(1)) {
                Some((x, rest)) => Some((Some(x), rest)),
                None => None,
            }
        } else {
            None
        }
    }

    proof fn lemma_decode_wire(m: Option<T::Model>, rest: Seq<u8>) {
        match m {
            Some(x) => {
                T::lemma_decode_wire(x, rest);
                assert((seq![1u8] + T::wire(x) + rest).skip(1) =~= T::wire(x) + rest);
            },
            None => {
                assert((seq![0u8] + rest).skip(1) =~= rest);
            },
        }
    }
}

/// What a correct decoder reads as `n` values in a row.
pub open spec fn decode_each<T: Decode>(bytes: Seq<u8>, n: nat) -> Option<(Seq<T::Model>, Seq<u8>)>
    decreases n,
{
    if n == 0 {
        Some((Seq::empty(), bytes))
    } else {
        match T::decode(bytes) {
            Some((first, rest)) => match decode_each::<T>(rest, (n - 1) as nat) {
                Some((others, rest)) => Some((seq![first] + others, rest)),
                None => None,
            },
            None => None,
        }
    }
}

/// The encodings of a list of values begin with the encoding of the first.
pub proof fn lemma_wire_each_unfold<T: Wire>(items: Seq<T::Model>)
    requires
        items.len() > 0,
    ensures
        wire_each::<T>(items) == T::wire(items[0]) + wire_each::<T>(items.drop_first()),
{
    let parts = items.map_values(|x: T::Model| T::wire(x));
    assert(parts.drop_first() =~= items.drop_first().map_values(|x: T::Model| T::wire(x)));
}

/// Values written in a row are read back in a row.
pub proof fn lemma_decode_each<T: Decode>(items: Seq<T::Model>, rest: Seq<u8>)
    requires
        all_fit::<T>(items),
    ensures
        decode_each::<T>(wire_each::<T>(items) + rest, items.len()) == Some((items, rest)),
    decreases items.len(),
{
    if items.len() == 0 {
        assert(wire_each::<T>(items) + rest =~= rest);
        assert(items =~= Seq::empty());
    } else {
        let tail = items.drop_first();
        lemma_wire_each_unfold::<T>(items);
        assert(wire_each::<T>(items) + rest =~= T::wire(items[0]) + (wire_each::<T>(tail) + rest));
        T::lemma_decode_wire(items[0], wire_each::<T>(tail) + rest);
        assert forall|i: int| 0 <= i < tail.len() implies T::fits(#[trigger] tail[i]) by {
            assert(tail[i] == items[i + 1]);
        }
        lemma_decode_each::<T>(tail, rest);
        assert(seq![items[0]] + tail =~= items);
    }
}

impl<T: Decode> Decode for Vec<T> {
    open spec fn decode(bytes: Seq<u8>) -> Option<(Seq<T::Model>, Seq<u8>)> {
        match read_len(bytes) {
            Some((n, rest)) => decode_each::<T>(rest, n),
            None => None,
        }
    }

    proof fn lemma_decode_wire(m: Seq<T::Model>, rest: Seq<u8>) {
        lemma_read_len(m.len(), wire_each::<T>(m) + rest);
        assert(len_prefix(m.len()) + wire_each::<T>(m) + rest =~= len_prefix(m.len()) + (
        wire_each::<T>(m) + rest));
        lemma_decode_each::<T>(m, rest);
    }
}

impl Decode for [u8; 32] {
    open spec fn decode(bytes: Seq<u8>) -> Option<(Seq<u8>, Seq<u8>)> {
        if bytes.len() >= 32 {
            Some((bytes.take(32), bytes.skip(32)))
        } else {
            None
        }
    }

    proof fn lemma_decode_wire(m: Seq<u8>, rest: Seq<u8>) {
        assert((m + rest).take(32) =~= m);
        assert((m + rest).skip(32) =~= rest);
    }
}

impl<A: Decode, B: Decode> Decode for (A, B) {
    open spec fn decode(bytes: Seq<u8>) -> Option<((A::Model, B::Model), Seq<u8>)> {
        match A::decode(bytes) {
            Some((a, rest)) => match B::decode(rest) {
                Some((b, rest)) => Some(((a, b), rest)),
                None => None,
            },
            None => None,
        }
    }

    proof fn lemma_decode_wire(m: (A::Model, B::Model), rest: Seq<u8>) {
        assert(A::wire(m.0) + B::wire(m.1) + rest =~= A::wire(m.0) + (B::wire(m.1) + rest));
        A::lemma_decode_wire(m.0, B::wire(m.1) + rest);
        B::lemma_decode_wire(m.1, rest);
    }
}

impl<A: Decode, B: Decode, C: Decode> Decode for (A, B, C) {
    open spec fn decode(bytes: Seq<u8>) -> Option<((A::Model, B::Model, C::Model), Seq<u8>)> {
        match A::decode(bytes) {
            Some((a, rest)) => match B::decode(rest) {
                Some((b, rest)) => match C::decode(rest) {
                    Some((c, rest)) => Some(((a, b, c), rest)),
                    None => None,
                },
                None => None,
            },
            None => None,
        }
    }

    proof fn lemma_decode_wire(m: (A::Model, B::Model, C::Model), rest: Seq<u8>) {
        assert(A::wire(m.0) + B::wire(m.1) + C::wire(m.2) + rest =~= A::wire(m.0) + (B::wire(m.1)
            + (C::wire(m.2) + rest)));
        A::lemma_decode_wire(m.0, B::wire(m.1) + (C::wire(m.2) + rest));
        B::lemma_decode_wire(m.1, C::wire(m.2) + rest);
        C::lemma_decode_wire(m.2, rest);
    }
}

/// Whether the keys of `entries` ascend strictly.
pub open spec fn keys_ascend<K: WireKey, V>(entries: Seq<(K::Model, V)>) -> bool {
    forall|i: int, j: int|
        0 <= i < j < entries.len() ==> K::key_le(
            (#[trigger] entries[i]).0,
            (#[trigger] entries[j]).0,
        ) && entries[i].0 != entries[j].0
}

/// Whether `keys` ascend strictly.
pub open spec fn ascends<K: WireKey>(keys: Seq<K::Model>) -> bool {
    forall|i: int, j: int|
        0 <= i < j < keys.len() ==> K::key_le(#[trigger] keys[i], #[trigger] keys[j]) && keys[i]
            != keys[j]
}

/// What a correct decoder reads as a map: its size, then as many entries,
/// which it accepts only with their keys strictly ascending.
pub open spec fn decode_map<K: WireKey + Decode, V: Decode>(bytes: Seq<u8>) -> Option<
    (Map<K::Model, V::Model>, Seq<u8>),
> {
    match read_len(bytes) {
        Some((n, rest)) => match decode_each::<(K, V)>(rest, n) {
            Some((entries, rest)) => {
                if keys_ascend::<K, V::Model>(entries) {
                    Some((map_of(entries), rest))
                } else {
                    None
                }
            },
            None => None,
        },
        None => None,
    }
}

/// What a correct decoder reads as a set: its size, then as many members,
/// which it accepts only where they ascend strictly.
pub open spec fn decode_set<K: WireKey + Decode>(bytes: Seq<u8>) -> Option<
    (Set<K::Model>, Seq<u8>),
> {
    match read_len(bytes) {
        Some((n, rest)) => match decode_each::<K>(rest, n) {
            Some((keys, rest)) => {
                if ascends::<K>(keys) {
                    Some((keys.to_set(), rest))
                } else {
                    None
                }
            },
            None => None,
        },
        None => None,
    }
}

/// The entries of a map, keys ascending.
pub open spec fn entries_of<K: WireKey, V: Wire>(m: Map<K::Model, V::Model>) -> Seq<
    (K::Model, V::Model),
> {
    ascending::<K>(m.dom()).map_values(|k: K::Model| (k, m[k]))
}

/// The bytes of a map are its size and the encodings of its entries as
/// pairs, keys ascending.
pub proof fn lemma_map_wire_as_pairs<K: WireKey, V: Wire>(m: Map<K::Model, V::Model>)
    ensures
        crate::codec::map_wire::<K, V>(m) == len_prefix(m.dom().len()) + wire_each::<(K, V)>(
            entries_of::<K, V>(m),
        ),
{
    let keys = ascending::<K>(m.dom());
    let by_key = keys.map_values(|k: K::Model| K::wire(k) + V::wire(m[k]));
    let by_pair = entries_of::<K, V>(m).map_values(
        |e: (K::Model, V::Model)| <(K, V) as Wire>::wire(e),
    );
    assert(by_key =~= by_pair);
}

/// A map that can be encoded reads back as itself.
pub proof fn lemma_decode_map<K: WireKey + Decode, V: Decode>(
    m: Map<K::Model, V::Model>,
    rest: Seq<u8>,
)
    requires
        crate::codec::map_fits::<K, V>(m),
    ensures
        decode_map::<K, V>(crate::codec::map_wire::<K, V>(m) + rest) == Some((m, rest)),
{
    let keys = ascending::<K>(m.dom());
    let entries = entries_of::<K, V>(m);
    lemma_ascending_lists::<K>(m.dom());
    lemma_map_wire_as_pairs::<K, V>(m);
    let body = wire_each::<(K, V)>(entries);
    assert(len_prefix(m.dom().len()) + body + rest =~= len_prefix(m.dom().len()) + (body + rest));
    lemma_read_len(m.dom().len(), body + rest);
    assert forall|i: int| 0 <= i < entries.len() implies <(K, V) as Wire>::fits(
        #[trigger] entries[i],
    ) by {
        assert(keys.contains(keys[i]));
        assert(m.contains_key(keys[i]));
    }
    lemma_decode_each::<(K, V)>(entries, rest);
    assert(keys_ascend::<K, V::Model>(entries)) by {
        assert forall|i: int, j: int| 0 <= i < j < entries.len() implies K::key_le(
            (#[trigger] entries[i]).0,
            (#[trigger] entries[j]).0,
        ) && entries[i].0 != entries[j].0 by {
            assert(K::key_le(keys[i], keys[j]) && keys[i] != keys[j]);
        }
    }
    assert(map_of(entries) =~= m) by {
        lemma_map_of_dom(entries);
        lemma_map_of_distinct(entries);
        assert forall|k: K::Model| map_of(entries).contains_key(k) <==> m.contains_key(k) by {
            if map_of(entries).contains_key(k) {
                let i = choose|i: int| 0 <= i < entries.len() && (#[trigger] entries[i]).0 == k;
                assert(keys.contains(keys[i]));
            }
            if m.contains_key(k) {
                assert(keys.contains(k));
                let i = choose|i: int| 0 <= i < keys.len() && keys[i] == k;
                assert(entries[i].0 == k);
            }
        }
        assert forall|k: K::Model| m.contains_key(k) implies map_of(entries)[k] == m[k] by {
            assert(keys.contains(k));
            let i = choose|i: int| 0 <= i < keys.len() && keys[i] == k;
            assert(entries[i] == (k, m[k]));
        }
    }
}

/// A set that can be encoded reads back as itself.
pub proof fn lemma_decode_set<K: WireKey + Decode>(s: Set<K::Model>, rest: Seq<u8>)
    requires
        crate::codec::set_fits::<K>(s),
    ensures
        decode_set::<K>(crate::codec::set_wire::<K>(s) + rest) == Some((s, rest)),
{
    let keys = ascending::<K>(s);
    lemma_ascending_lists::<K>(s);
    let body = wire_each::<K>(keys);
    assert(len_prefix(s.len()) + body + rest =~= len_prefix(s.len()) + (body + rest));
    lemma_read_len(s.len(), body + rest);
    assert forall|i: int| 0 <= i < keys.len() implies K::fits(#[trigger] keys[i]) by {
        assert(keys.contains(keys[i]));
    }
    lemma_decode_each::<K>(keys, rest);
    assert(keys.to_set() =~= s);
}

impl<K: WireKey + Decode, V: Decode> Decode for HashMap<K, V> {
    open spec fn decode(bytes: Seq<u8>) -> Option<(Map<K::Model, V::Model>, Seq<u8>)> {
        decode_map::<K, V>(bytes)
    }

    proof fn lemma_decode_wire(m: Map<K::Model, V::Model>, rest: Seq<u8>) {
        lemma_decode_map::<K, V>(m, rest);
    }
}

impl<K: WireKey + Decode, V: Decode> Decode for BTreeMap<K, V> {
    open spec fn decode(bytes: Seq<u8>) -> Option<(Map<K::Model, V::Model>, Seq<u8>)> {
        decode_map::<K, V>(bytes)
    }

    proof fn lemma_decode_wire(m: Map<K::Model, V::Model>, rest: Seq<u8>) {
        lemma_decode_map::<K, V>(m, rest);
    }
}

impl<K: WireKey + Decode> Decode for HashSet<K> {
    open spec fn decode(bytes: Seq<u8>) -> Option<(Set<K::Model>, Seq<u8>)> {
        decode_set::<K>(bytes)
    }

    proof fn lemma_decode_wire(m: Set<K::Model>, rest: Seq<u8>) {
        lemma_decode_set::<K>(m, rest);
    }
}

impl<K: WireKey + Decode> Decode for BTreeSet<K> {
    open spec fn decode(bytes: Seq<u8>) -> Option<(Set<K::Model>, Seq<u8>)> {
        decode_set::<K>(bytes)
    }

    proof fn lemma_decode_wire(m: Set<K::Model>, rest: Seq<u8>) {
        lemma_decode_set::<K>(m, rest);
    }
}

} // verus!
