//! The binary format of each value shape: what a value stands for (its
//! model), whether it can be encoded at all, and the bytes that encode it.

use crate::wire::{le_bytes, len_prefix, lex_le, max_len, twos_complement};
use std::collections::{BTreeMap, BTreeSet, HashMap, HashSet};
use vstd::prelude::*;
use vstd::utf8::encode_utf8;

verus! {

/// A value shape with a canonical binary encoding.
///
/// The encoding is a function of the model alone: integers are written
/// little-endian in their full width, text as its UTF-8 bytes behind a
/// length prefix, an optional value behind a presence byte, a sequence as
/// its items behind a length prefix, a tuple as its fields in turn, and a
/// map or set as its entries in ascending key order behind a length prefix.
pub trait Wire: Sized {
    /// The mathematical value that an executable value stands for.
    type Model;

    /// The mathematical value of `self`.
    spec fn model(&self) -> Self::Model;

    /// Whether `m` can be encoded: every length in it fits a length prefix.
    spec fn fits(m: Self::Model) -> bool;

    /// The bytes that encode `m`.
    spec fn wire(m: Self::Model) -> Seq<u8>;
}

/// Whether the value `x` can be encoded.
pub open spec fn can_encode<T: Wire>(x: &T) -> bool {
    T::fits(x.model())
}

/// The bytes that encode the value `x`.
pub open spec fn encoding<T: Wire>(x: &T) -> Seq<u8> {
    T::wire(x.model())
}

/// A value shape that can key a map or be a member of a set: its values are
/// written in ascending order.
pub trait WireKey: Wire {
    /// `a` is written no later than `b`.
    spec fn key_le(a: Self::Model, b: Self::Model) -> bool;

    /// Any two keys are comparable.
    proof fn lemma_key_le_total(a: Self::Model, b: Self::Model)
        ensures
            Self::key_le(a, b) || Self::key_le(b, a),
    ;

    /// Keys that precede each other are the same key.
    proof fn lemma_key_le_antisym(a: Self::Model, b: Self::Model)
        requires
            Self::key_le(a, b),
            Self::key_le(b, a),
        ensures
            a == b,
    ;

    /// The order is transitive.
    proof fn lemma_key_le_trans(a: Self::Model, b: Self::Model, c: Self::Model)
        requires
            Self::key_le(a, b),
            Self::key_le(b, c),
        ensures
            Self::key_le(a, c),
    ;
}

impl Wire for u8 {
    type Model = u8;

    open spec fn model(&self) -> u8 {
        *self
    }

    open spec fn fits(m: u8) -> bool {
        true
    }

    open spec fn wire(m: u8) -> Seq<u8> {
        seq![m]
    }
}

impl Wire for u16 {
    type Model = u16;

    open spec fn model(&self) -> u16 {
        *self
    }

    open spec fn fits(m: u16) -> bool {
        true
    }

    open spec fn wire(m: u16) -> Seq<u8> {
        le_bytes(m as nat, 2)
    }
}

impl Wire for u32 {
    type Model = u32;

    open spec fn model(&self) -> u32 {
        *self
    }

    open spec fn fits(m: u32) -> bool {
        true
    }

    open spec fn wire(m: u32) -> Seq<u8> {
        le_bytes(m as nat, 4)
    }
}

impl Wire for u128 {
    type Model = u128;

    open spec fn model(&self) -> u128 {
        *self
    }

    open spec fn fits(m: u128) -> bool {
        true
    }

    open spec fn wire(m: u128) -> Seq<u8> {
        le_bytes(m as nat, 16)
    }
}

impl Wire for i8 {
    type Model = i8;

    open spec fn model(&self) -> i8 {
        *self
    }

    open spec fn fits(m: i8) -> bool {
        true
    }

    open spec fn wire(m: i8) -> Seq<u8> {
        le_bytes(twos_complement(m as int, 1), 1)
    }
}

impl Wire for i16 {
    type Model = i16;

    open spec fn model(&self) -> i16 {
        *self
    }

    open spec fn fits(m: i16) -> bool {
        true
    }

    open spec fn wire(m: i16) -> Seq<u8> {
        le_bytes(twos_complement(m as int, 2), 2)
    }
}

impl Wire for i32 {
    type Model = i32;

    open spec fn model(&self) -> i32 {
        *self
    }

    open spec fn fits(m: i32) -> bool {
        true
    }

    open spec fn wire(m: i32) -> Seq<u8> {
        le_bytes(twos_complement(m as int, 4), 4)
    }
}

impl Wire for i64 {
    type Model = i64;

    open spec fn model(&self) -> i64 {
        *self
    }

    open spec fn fits(m: i64) -> bool {
        true
    }

    open spec fn wire(m: i64) -> Seq<u8> {
        le_bytes(twos_complement(m as int, 8), 8)
    }
}

impl Wire for String {
    type Model = Seq<char>;

    open spec fn model(&self) -> Seq<char> {
        self@
    }

    open spec fn fits(m: Seq<char>) -> bool {
        encode_utf8(m).len() <= max_len()
    }

    open spec fn wire(m: Seq<char>) -> Seq<u8> {
        len_prefix(encode_utf8(m).len()) + encode_utf8(m)
    }
}

/// UTF-8 spends at most four bytes on a character.
pub proof fn lemma_utf8_len_bound(text: Seq<char>)
    ensures
        encode_utf8(text).len() <= 4 * text.len(),
    decreases text.len(),
{
    if text.len() > 0 {
        lemma_utf8_len_bound(text.drop_first());
    }
}

/// Text of up to a thousand million characters can be encoded.
pub proof fn lemma_text_fits(text: Seq<char>)
    requires
        text.len() <= 1_000_000_000,
    ensures
        <String as Wire>::fits(text),
{
    lemma_utf8_len_bound(text);
}

impl<T: Wire> Wire for Option<T> {
    type Model = Option<T::Model>;

    open spec fn model(&self) -> Option<T::Model> {
        match self {
            Some(x) => Some(x.model()),
            None => None,
        }
    }

    open spec fn fits(m: Option<T::Model>) -> bool {
        match m {
            Some(x) => T::fits(x),
            None => true,
        }
    }

    open spec fn wire(m: Option<T::Model>) -> Seq<u8> {
        match m {
            Some(x) => seq![1u8] + T::wire(x),
            None => seq![0u8],
        }
    }
}

/// The encodings of `items`, one after the other.
pub open spec fn wire_each<T: Wire>(items: Seq<T::Model>) -> Seq<u8> {
    items.map_values(|x: T::Model| T::wire(x)).flatten()
}

/// Whether every one of `items` can be encoded.
pub open spec fn all_fit<T: Wire>(items: Seq<T::Model>) -> bool {
    forall|i: int| 0 <= i < items.len() ==> T::fits(#[trigger] items[i])
}

impl<T: Wire> Wire for Vec<T> {
    type Model = Seq<T::Model>;

    open spec fn model(&self) -> Seq<T::Model> {
        self@.map_values(|x: T| x.model())
    }

    open spec fn fits(m: Seq<T::Model>) -> bool {
        m.len() <= max_len() && all_fit::<T>(m)
    }

    open spec fn wire(m: Seq<T::Model>) -> Seq<u8> {
        len_prefix(m.len()) + wire_each::<T>(m)
    }
}

/// Thirty-two raw bytes: a fixed-size array has no length prefix.
impl Wire for [u8; 32] {
    type Model = Seq<u8>;

    open spec fn model(&self) -> Seq<u8> {
        self@
    }

    open spec fn fits(m: Seq<u8>) -> bool {
        m.len() == 32
    }

    open spec fn wire(m: Seq<u8>) -> Seq<u8> {
        m
    }
}

impl<A: Wire, B: Wire> Wire for (A, B) {
    type Model = (A::Model, B::Model);

    open spec fn model(&self) -> (A::Model, B::Model) {
        (self.0.model(), self.1.model())
    }

    open spec fn fits(m: (A::Model, B::Model)) -> bool {
        A::fits(m.0) && B::fits(m.1)
    }

    open spec fn wire(m: (A::Model, B::Model)) -> Seq<u8> {
        A::wire(m.0) + B::wire(m.1)
    }
}

impl<A: Wire, B: Wire, C: Wire> Wire for (A, B, C) {
    type Model = (A::Model, B::Model, C::Model);

    open spec fn model(&self) -> (A::Model, B::Model, C::Model) {
        (self.0.model(), self.1.model(), self.2.model())
    }

    open spec fn fits(m: (A::Model, B::Model, C::Model)) -> bool {
        A::fits(m.0) && B::fits(m.1) && C::fits(m.2)
    }

    open spec fn wire(m: (A::Model, B::Model, C::Model)) -> Seq<u8> {
        A::wire(m.0) + B::wire(m.1) + C::wire(m.2)
    }
}

impl WireKey for u8 {
    open spec fn key_le(a: u8, b: u8) -> bool {
        a <= b
    }

    proof fn lemma_key_le_total(a: u8, b: u8) {
    }

    proof fn lemma_key_le_antisym(a: u8, b: u8) {
    }

    proof fn lemma_key_le_trans(a: u8, b: u8, c: u8) {
    }
}

/// Text is ordered by its UTF-8 bytes, compared lexicographically.
impl WireKey for String {
    open spec fn key_le(a: Seq<char>, b: Seq<char>) -> bool {
        lex_le(encode_utf8(a), encode_utf8(b))
    }

    proof fn lemma_key_le_total(a: Seq<char>, b: Seq<char>) {
        crate::wire::lemma_lex_le_total(encode_utf8(a), encode_utf8(b));
    }

    proof fn lemma_key_le_antisym(a: Seq<char>, b: Seq<char>) {
        crate::wire::lemma_lex_le_antisym(encode_utf8(a), encode_utf8(b));
        vstd::utf8::encode_utf8_decode_utf8(a);
        vstd::utf8::encode_utf8_decode_utf8(b);
    }

    proof fn lemma_key_le_trans(a: Seq<char>, b: Seq<char>, c: Seq<char>) {
        crate::wire::lemma_lex_le_trans(encode_utf8(a), encode_utf8(b), encode_utf8(c));
    }
}

/// Whether `keys` lists exactly the members of `dom`, each once, in strictly
/// ascending order.
pub open spec fn is_ascending_listing<K: WireKey>(keys: Seq<K::Model>, dom: Set<K::Model>) -> bool {
    &&& forall|k: K::Model| dom.contains(k) <==> keys.contains(k)
    &&& forall|i: int, j: int|
        0 <= i < j < keys.len() ==> K::key_le(#[trigger] keys[i], #[trigger] keys[j]) && keys[i]
            != keys[j]
}

/// The members of `dom` in ascending order.
pub open spec fn ascending<K: WireKey>(dom: Set<K::Model>) -> Seq<K::Model> {
    choose|keys: Seq<K::Model>| is_ascending_listing::<K>(keys, dom)
}

/// The model of a map held in memory: keys and values by their models.
pub open spec fn map_model<K: Wire, V: Wire>(m: Map<K, V>) -> Map<K::Model, V::Model> {
    Map::new(
        |mk: K::Model| exists|k: K| #[trigger] m.contains_key(k) && k.model() == mk,
        |mk: K::Model|
            m[choose|k: K| #[trigger] m.contains_key(k) && k.model() == mk].model(),
    )
}

/// The model of a set held in memory: members by their models.
pub open spec fn set_model<K: Wire>(s: Set<K>) -> Set<K::Model> {
    Set::new(|mk: K::Model| exists|k: K| #[trigger] s.contains(k) && k.model() == mk)
}

/// Whether a map can be encoded: it is finite, its size fits a length prefix
/// and so does every key and value.
pub open spec fn map_fits<K: WireKey, V: Wire>(m: Map<K::Model, V::Model>) -> bool {
    &&& m.dom().finite()
    &&& m.dom().len() <= max_len()
    &&& forall|k: K::Model| #[trigger] m.contains_key(k) ==> K::fits(k) && V::fits(m[k])
}

/// The bytes of a map: its size, then each key followed by its value, keys
/// ascending.
pub open spec fn map_wire<K: WireKey, V: Wire>(m: Map<K::Model, V::Model>) -> Seq<u8> {
    len_prefix(m.dom().len()) + ascending::<K>(m.dom()).map_values(
        |k: K::Model| K::wire(k) + V::wire(m[k]),
    ).flatten()
}

/// Whether a set can be encoded: it is finite, its size fits a length prefix
/// and so does every member.
pub open spec fn set_fits<K: WireKey>(s: Set<K::Model>) -> bool {
    &&& s.finite()
    &&& s.len() <= max_len()
    &&& forall|k: K::Model| #[trigger] s.contains(k) ==> K::fits(k)
}

/// The bytes of a set: its size, then its members ascending.
pub open spec fn set_wire<K: WireKey>(s: Set<K::Model>) -> Seq<u8> {
    len_prefix(s.len()) + wire_each::<K>(ascending::<K>(s))
}

impl<K: WireKey, V: Wire> Wire for HashMap<K, V> {
    type Model = Map<K::Model, V::Model>;

    open spec fn model(&self) -> Map<K::Model, V::Model> {
        map_model::<K, V>(self@)
    }

    open spec fn fits(m: Map<K::Model, V::Model>) -> bool {
        map_fits::<K, V>(m)
    }

    open spec fn wire(m: Map<K::Model, V::Model>) -> Seq<u8> {
        map_wire::<K, V>(m)
    }
}

impl<K: WireKey, V: Wire> Wire for BTreeMap<K, V> {
    type Model = Map<K::Model, V::Model>;

    open spec fn model(&self) -> Map<K::Model, V::Model> {
        map_model::<K, V>(self@)
    }

    open spec fn fits(m: Map<K::Model, V::Model>) -> bool {
        map_fits::<K, V>(m)
    }

    open spec fn wire(m: Map<K::Model, V::Model>) -> Seq<u8> {
        map_wire::<K, V>(m)
    }
}

impl<K: WireKey> Wire for HashSet<K> {
    type Model = Set<K::Model>;

    open spec fn model(&self) -> Set<K::Model> {
        set_model::<K>(self@)
    }

    open spec fn fits(m: Set<K::Model>) -> bool {
        set_fits::<K>(m)
    }

    open spec fn wire(m: Set<K::Model>) -> Seq<u8> {
        set_wire::<K>(m)
    }
}

impl<K: WireKey> Wire for BTreeSet<K> {
    type Model = Set<K::Model>;

    open spec fn model(&self) -> Set<K::Model> {
        set_model::<K>(self@)
    }

    open spec fn fits(m: Set<K::Model>) -> bool {
        set_fits::<K>(m)
    }

    open spec fn wire(m: Set<K::Model>) -> Seq<u8> {
        set_wire::<K>(m)
    }
}

} // verus!
