//! Encoding in executable code: every shape in the catalog is handed to the
//! borsh serializer, whose result is claimed, not proved, to be the shape's
//! `wire` bytes.

use crate::codec::{can_encode, encoding, Wire};
use borsh::BorshSerialize;
use std::collections::{BTreeMap, BTreeSet, HashMap, HashSet};
use vstd::prelude::*;

verus! {

/// The error type of the serializer's writer.
#[verifier::external_type_specification]
#[verifier::external_body]
pub struct ExIoError(std::io::Error);

/// A value that can be turned into its canonical bytes.
pub trait Encode: Wire {
    /// The bytes of `self`, or `None` where `self` cannot be encoded.
    fn encode(&self) -> (r: Option<Vec<u8>>)
        ensures
            r is Some <==> Self::fits(self.model()),
            r matches Some(bytes) ==> bytes@ == Self::wire(self.model()),
    ;
}

/// Forgets why a serializer call failed.
fn bytes_or_none(r: Result<Vec<u8>, std::io::Error>) -> (o: Option<Vec<u8>>)
    ensures
        o is Some <==> r is Ok,
        o matches Some(bytes) ==> r matches Ok(written) && bytes == written,
{
    match r {
        Ok(bytes) => Some(bytes),
        Err(_) => None,
    }
}

/// Calls `BorshSerialize::try_to_vec` on a byte. The contract claims that the
/// call always succeeds and yields that one byte.
#[verifier::external_body]
fn serialize_u8(x: &u8) -> (r: Result<Vec<u8>, std::io::Error>)
    ensures
        r is Ok <==> can_encode(x),
        r matches Ok(bytes) ==> bytes@ == encoding(x),
{
    x.try_to_vec()
}

impl Encode for u8 {
    fn encode(&self) -> (r: Option<Vec<u8>>) {
        bytes_or_none(serialize_u8(self))
    }
}

/// Calls `BorshSerialize::try_to_vec` on a `u16`. The contract claims that the
/// call always succeeds and yields its two bytes, low byte first.
#[verifier::external_body]
fn serialize_u16(x: &u16) -> (r: Result<Vec<u8>, std::io::Error>)
    ensures
        r is Ok <==> can_encode(x),
        r matches Ok(bytes) ==> bytes@ == encoding(x),
{
    x.try_to_vec()
}

impl Encode for u16 {
    fn encode(&self) -> (r: Option<Vec<u8>>) {
        bytes_or_none(serialize_u16(self))
    }
}

/// Calls `BorshSerialize::try_to_vec` on a `u32`. The contract claims that the
/// call always succeeds and yields its four bytes, low byte first.
#[verifier::external_body]
fn serialize_u32(x: &u32) -> (r: Result<Vec<u8>, std::io::Error>)
    ensures
        r is Ok <==> can_encode(x),
        r matches Ok(bytes) ==> bytes@ == encoding(x),
{
    x.try_to_vec()
}

impl Encode for u32 {
    fn encode(&self) -> (r: Option<Vec<u8>>) {
        bytes_or_none(serialize_u32(self))
    }
}

/// Calls `BorshSerialize::try_to_vec` on a `u128`. The contract claims that the
/// call always succeeds and yields its sixteen bytes, low byte first.
#[verifier::external_body]
fn serialize_u128(x: &u128) -> (r: Result<Vec<u8>, std::io::Error>)
    ensures
        r is Ok <==> can_encode(x),
        r matches Ok(bytes) ==> bytes@ == encoding(x),
{
    x.try_to_vec()
}

impl Encode for u128 {
    fn encode(&self) -> (r: Option<Vec<u8>>) {
        bytes_or_none(serialize_u128(self))
    }
}

/// Calls `BorshSerialize::try_to_vec` on a string. The contract claims that the
/// call succeeds exactly when the UTF-8 length fits 32 bits, and yields that
/// length in four bytes followed by the UTF-8 bytes.
#[verifier::external_body]
fn serialize_string(x: &String) -> (r: Result<Vec<u8>, std::io::Error>)
    ensures
        r is Ok <==> can_encode(x),
        r matches Ok(bytes) ==> bytes@ == encoding(x),
{
    x.try_to_vec()
}

impl Encode for String {
    fn encode(&self) -> (r: Option<Vec<u8>>) {
        bytes_or_none(serialize_string(self))
    }
}

/// Calls `BorshSerialize::try_to_vec` on an array of 32 bytes. The contract
/// claims that the call always succeeds and yields the 32 bytes as they are,
/// with no length in front.
#[verifier::external_body]
fn serialize_byte_array(x: &[u8; 32]) -> (r: Result<Vec<u8>, std::io::Error>)
    ensures
        r is Ok <==> can_encode(x),
        r matches Ok(bytes) ==> bytes@ == encoding(x),
{
    x.try_to_vec()
}

impl Encode for [u8; 32] {
    fn encode(&self) -> (r: Option<Vec<u8>>) {
        bytes_or_none(serialize_byte_array(self))
    }
}

/// Calls `BorshSerialize::try_to_vec` on an optional string. The contract
/// claims that the call yields the byte 0 for `None`, and the byte 1 followed
/// by the string's encoding for `Some`, failing only where the string's
/// encoding fails.
#[verifier::external_body]
fn serialize_option_string(x: &Option<String>) -> (r: Result<Vec<u8>, std::io::Error>)
    ensures
        r is Ok <==> can_encode(x),
        r matches Ok(bytes) ==> bytes@ == encoding(x),
{
    x.try_to_vec()
}

impl Encode for Option<String> {
    fn encode(&self) -> (r: Option<Vec<u8>>) {
        bytes_or_none(serialize_option_string(self))
    }
}

/// Calls `BorshSerialize::try_to_vec` on an optional byte. The contract claims
/// that the call always succeeds and yields the byte 0 for `None`, and the byte
/// 1 followed by the byte for `Some`.
#[verifier::external_body]
fn serialize_option_u8(x: &Option<u8>) -> (r: Result<Vec<u8>, std::io::Error>)
    ensures
        r is Ok <==> can_encode(x),
        r matches Ok(bytes) ==> bytes@ == encoding(x),
{
    x.try_to_vec()
}

impl Encode for Option<u8> {
    fn encode(&self) -> (r: Option<Vec<u8>>) {
        bytes_or_none(serialize_option_u8(self))
    }
}

/// Calls `BorshSerialize::try_to_vec` on a vector of strings. The contract
/// claims that the call succeeds exactly when the count and every string's
/// length fit 32 bits, and yields the count in four bytes followed by each
/// string's encoding in order.
#[verifier::external_body]
fn serialize_vec_string(x: &Vec<String>) -> (r: Result<Vec<u8>, std::io::Error>)
    ensures
        r is Ok <==> can_encode(x),
        r matches Ok(bytes) ==> bytes@ == encoding(x),
{
    x.try_to_vec()
}

impl Encode for Vec<String> {
    fn encode(&self) -> (r: Option<Vec<u8>>) {
        bytes_or_none(serialize_vec_string(self))
    }
}

/// Calls `BorshSerialize::try_to_vec` on a vector of bytes. The contract claims
/// that the call succeeds exactly when the count fits 32 bits, and yields the
/// count in four bytes followed by the bytes.
#[verifier::external_body]
fn serialize_vec_u8(x: &Vec<u8>) -> (r: Result<Vec<u8>, std::io::Error>)
    ensures
        r is Ok <==> can_encode(x),
        r matches Ok(bytes) ==> bytes@ == encoding(x),
{
    x.try_to_vec()
}

impl Encode for Vec<u8> {
    fn encode(&self) -> (r: Option<Vec<u8>>) {
        bytes_or_none(serialize_vec_u8(self))
    }
}

/// Calls `BorshSerialize::try_to_vec` on a vector of optional bytes. The
/// contract claims that the call succeeds exactly when the count fits 32 bits,
/// and yields the count in four bytes followed by each item's encoding in
/// order.
#[verifier::external_body]
fn serialize_vec_option_u8(x: &Vec<Option<u8>>) -> (r: Result<Vec<u8>, std::io::Error>)
    ensures
        r is Ok <==> can_encode(x),
        r matches Ok(bytes) ==> bytes@ == encoding(x),
{
    x.try_to_vec()
}

impl Encode for Vec<Option<u8>> {
    fn encode(&self) -> (r: Option<Vec<u8>>) {
        bytes_or_none(serialize_vec_option_u8(self))
    }
}

/// Calls `BorshSerialize::try_to_vec` on an optional vector of bytes. The
/// contract claims that the call yields the byte 0 for `None`, and the byte 1
/// followed by the vector's encoding for `Some`, failing only where the
/// vector's encoding fails.
#[verifier::external_body]
fn serialize_option_vec_u8(x: &Option<Vec<u8>>) -> (r: Result<Vec<u8>, std::io::Error>)
    ensures
        r is Ok <==> can_encode(x),
        r matches Ok(bytes) ==> bytes@ == encoding(x),
{
    x.try_to_vec()
}

impl Encode for Option<Vec<u8>> {
    fn encode(&self) -> (r: Option<Vec<u8>>) {
        bytes_or_none(serialize_option_vec_u8(self))
    }
}

/// Calls `BorshSerialize::try_to_vec` on a pair of bytes. The contract claims
/// that the call always succeeds and yields the two bytes in order.
#[verifier::external_body]
fn serialize_u8_u8(x: &(u8, u8)) -> (r: Result<Vec<u8>, std::io::Error>)
    ensures
        r is Ok <==> can_encode(x),
        r matches Ok(bytes) ==> bytes@ == encoding(x),
{
    x.try_to_vec()
}

impl Encode for (u8, u8) {
    fn encode(&self) -> (r: Option<Vec<u8>>) {
        bytes_or_none(serialize_u8_u8(self))
    }
}

/// Calls `BorshSerialize::try_to_vec` on a `(u8, i16, u32)` triple. The
/// contract claims that the call always succeeds and yields the three fields'
/// encodings in order, each little-endian, the signed one in two's complement.
#[verifier::external_body]
fn serialize_u8_i16_u32(x: &(u8, i16, u32)) -> (r: Result<Vec<u8>, std::io::Error>)
    ensures
        r is Ok <==> can_encode(x),
        r matches Ok(bytes) ==> bytes@ == encoding(x),
{
    x.try_to_vec()
}

impl Encode for (u8, i16, u32) {
    fn encode(&self) -> (r: Option<Vec<u8>>) {
        bytes_or_none(serialize_u8_i16_u32(self))
    }
}

/// Calls `BorshSerialize::try_to_vec` on a `(u8, String)` pair. The contract
/// claims that the call yields the byte followed by the string's encoding,
/// failing only where the string's encoding fails.
#[verifier::external_body]
fn serialize_u8_string(x: &(u8, String)) -> (r: Result<Vec<u8>, std::io::Error>)
    ensures
        r is Ok <==> can_encode(x),
        r matches Ok(bytes) ==> bytes@ == encoding(x),
{
    x.try_to_vec()
}

impl Encode for (u8, String) {
    fn encode(&self) -> (r: Option<Vec<u8>>) {
        bytes_or_none(serialize_u8_string(self))
    }
}

/// Calls `BorshSerialize::try_to_vec` on a `(String, u16)` pair. The contract
/// claims that the call yields the string's encoding followed by the two bytes
/// of the number, failing only where the string's encoding fails.
#[verifier::external_body]
fn serialize_string_u16(x: &(String, u16)) -> (r: Result<Vec<u8>, std::io::Error>)
    ensures
        r is Ok <==> can_encode(x),
        r matches Ok(bytes) ==> bytes@ == encoding(x),
{
    x.try_to_vec()
}

impl Encode for (String, u16) {
    fn encode(&self) -> (r: Option<Vec<u8>>) {
        bytes_or_none(serialize_string_u16(self))
    }
}

/// Calls `BorshSerialize::try_to_vec` on a `(u8, Vec<i32>, i8)` triple. The
/// contract claims that the call yields the three fields' encodings in order,
/// failing only where the vector's count does not fit 32 bits.
#[verifier::external_body]
fn serialize_u8_vec_i32_i8(x: &(u8, Vec<i32>, i8)) -> (r: Result<Vec<u8>, std::io::Error>)
    ensures
        r is Ok <==> can_encode(x),
        r matches Ok(bytes) ==> bytes@ == encoding(x),
{
    x.try_to_vec()
}

impl Encode for (u8, Vec<i32>, i8) {
    fn encode(&self) -> (r: Option<Vec<u8>>) {
        bytes_or_none(serialize_u8_vec_i32_i8(self))
    }
}

/// Calls `BorshSerialize::try_to_vec` on a vector of byte pairs. The contract
/// claims that the call succeeds exactly when the count fits 32 bits, and
/// yields the count in four bytes followed by each pair's two bytes.
#[verifier::external_body]
fn serialize_vec_u8_u8(x: &Vec<(u8, u8)>) -> (r: Result<Vec<u8>, std::io::Error>)
    ensures
        r is Ok <==> can_encode(x),
        r matches Ok(bytes) ==> bytes@ == encoding(x),
{
    x.try_to_vec()
}

impl Encode for Vec<(u8, u8)> {
    fn encode(&self) -> (r: Option<Vec<u8>>) {
        bytes_or_none(serialize_vec_u8_u8(self))
    }
}

/// Calls `BorshSerialize::try_to_vec` on a vector of `(u8, String)` pairs. The
/// contract claims that the call succeeds exactly when the count and every
/// string's length fit 32 bits, and yields the count in four bytes followed by
/// each pair's encoding in order.
#[verifier::external_body]
fn serialize_vec_u8_string(x: &Vec<(u8, String)>) -> (r: Result<Vec<u8>, std::io::Error>)
    ensures
        r is Ok <==> can_encode(x),
        r matches Ok(bytes) ==> bytes@ == encoding(x),
{
    x.try_to_vec()
}

impl Encode for Vec<(u8, String)> {
    fn encode(&self) -> (r: Option<Vec<u8>>) {
        bytes_or_none(serialize_vec_u8_string(self))
    }
}

/// Calls `BorshSerialize::try_to_vec` on a hash map from bytes to bytes. The
/// contract claims that the call succeeds exactly when the size fits 32 bits,
/// and yields the size in four bytes followed by each key and its value, keys
/// ascending, whatever order the map is walked in.
#[verifier::external_body]
fn serialize_hash_map_u8_u8(x: &HashMap<u8, u8>) -> (r: Result<Vec<u8>, std::io::Error>)
    ensures
        r is Ok <==> can_encode(x),
        r matches Ok(bytes) ==> bytes@ == encoding(x),
{
    x.try_to_vec()
}

impl Encode for HashMap<u8, u8> {
    fn encode(&self) -> (r: Option<Vec<u8>>) {
        bytes_or_none(serialize_hash_map_u8_u8(self))
    }
}

/// Calls `BorshSerialize::try_to_vec` on an ordered map from bytes to bytes.
/// The contract claims that the call succeeds exactly when the size fits 32
/// bits, and yields the size in four bytes followed by each key and its value,
/// keys ascending.
#[verifier::external_body]
fn serialize_btree_map_u8_u8(x: &BTreeMap<u8, u8>) -> (r: Result<Vec<u8>, std::io::Error>)
    ensures
        r is Ok <==> can_encode(x),
        r matches Ok(bytes) ==> bytes@ == encoding(x),
{
    x.try_to_vec()
}

impl Encode for BTreeMap<u8, u8> {
    fn encode(&self) -> (r: Option<Vec<u8>>) {
        bytes_or_none(serialize_btree_map_u8_u8(self))
    }
}

/// Calls `BorshSerialize::try_to_vec` on a hash map from strings to `i32`. The
/// contract claims that the call succeeds exactly when the size and every key's
/// length fit 32 bits, and yields the size in four bytes followed by each key's
/// and value's encoding, keys ascending by their bytes.
#[verifier::external_body]
fn serialize_hash_map_string_i32(x: &HashMap<String, i32>) -> (r: Result<Vec<u8>, std::io::Error>)
    ensures
        r is Ok <==> can_encode(x),
        r matches Ok(bytes) ==> bytes@ == encoding(x),
{
    x.try_to_vec()
}

impl Encode for HashMap<String, i32> {
    fn encode(&self) -> (r: Option<Vec<u8>>) {
        bytes_or_none(serialize_hash_map_string_i32(self))
    }
}

/// Calls `BorshSerialize::try_to_vec` on a hash map from strings to vectors of
/// `i8`. The contract claims that the call succeeds exactly when the size and
/// every length inside fit 32 bits, and yields the size in four bytes followed
/// by each key's and value's encoding, keys ascending by their bytes.
#[verifier::external_body]
fn serialize_hash_map_string_vec_i8(x: &HashMap<String, Vec<i8>>) -> (r: Result<Vec<u8>, std::io::Error>)
    ensures
        r is Ok <==> can_encode(x),
        r matches Ok(bytes) ==> bytes@ == encoding(x),
{
    x.try_to_vec()
}

impl Encode for HashMap<String, Vec<i8>> {
    fn encode(&self) -> (r: Option<Vec<u8>>) {
        bytes_or_none(serialize_hash_map_string_vec_i8(self))
    }
}

/// Calls `BorshSerialize::try_to_vec` on a vector of hash maps from strings to
/// `i64`. The contract claims that the call succeeds exactly when the count and
/// every length inside fit 32 bits, and yields the count in four bytes followed
/// by each map's encoding in order.
#[verifier::external_body]
fn serialize_vec_hash_map_string_i64(x: &Vec<HashMap<String, i64>>) -> (r: Result<Vec<u8>, std::io::Error>)
    ensures
        r is Ok <==> can_encode(x),
        r matches Ok(bytes) ==> bytes@ == encoding(x),
{
    x.try_to_vec()
}

impl Encode for Vec<HashMap<String, i64>> {
    fn encode(&self) -> (r: Option<Vec<u8>>) {
        bytes_or_none(serialize_vec_hash_map_string_i64(self))
    }
}

/// Calls `BorshSerialize::try_to_vec` on a hash set of bytes. The contract
/// claims that the call succeeds exactly when the size fits 32 bits, and yields
/// the size in four bytes followed by the members ascending, whatever order the
/// set is walked in.
#[verifier::external_body]
fn serialize_hash_set_u8(x: &HashSet<u8>) -> (r: Result<Vec<u8>, std::io::Error>)
    ensures
        r is Ok <==> can_encode(x),
        r matches Ok(bytes) ==> bytes@ == encoding(x),
{
    x.try_to_vec()
}

impl Encode for HashSet<u8> {
    fn encode(&self) -> (r: Option<Vec<u8>>) {
        bytes_or_none(serialize_hash_set_u8(self))
    }
}

/// Calls `BorshSerialize::try_to_vec` on an ordered set of bytes. The contract
/// claims that the call succeeds exactly when the size fits 32 bits, and yields
/// the size in four bytes followed by the members ascending.
#[verifier::external_body]
fn serialize_btree_set_u8(x: &BTreeSet<u8>) -> (r: Result<Vec<u8>, std::io::Error>)
    ensures
        r is Ok <==> can_encode(x),
        r matches Ok(bytes) ==> bytes@ == encoding(x),
{
    x.try_to_vec()
}

impl Encode for BTreeSet<u8> {
    fn encode(&self) -> (r: Option<Vec<u8>>) {
        bytes_or_none(serialize_btree_set_u8(self))
    }
}

/// Calls `BorshSerialize::try_to_vec` on a hash set of strings. The contract
/// claims that the call succeeds exactly when the size and every member's
/// length fit 32 bits, and yields the size in four bytes followed by each
/// member's encoding, members ascending by their bytes.
#[verifier::external_body]
fn serialize_hash_set_string(x: &HashSet<String>) -> (r: Result<Vec<u8>, std::io::Error>)
    ensures
        r is Ok <==> can_encode(x),
        r matches Ok(bytes) ==> bytes@ == encoding(x),
{
    x.try_to_vec()
}

impl Encode for HashSet<String> {
    fn encode(&self) -> (r: Option<Vec<u8>>) {
        bytes_or_none(serialize_hash_set_string(self))
    }
}

/// Calls `BorshSerialize::try_to_vec` on a vector of hash sets of strings. The
/// contract claims that the call succeeds exactly when the count and every
/// length inside fit 32 bits, and yields the count in four bytes followed by
/// each set's encoding in order.
#[verifier::external_body]
fn serialize_vec_hash_set_string(x: &Vec<HashSet<String>>) -> (r: Result<Vec<u8>, std::io::Error>)
    ensures
        r is Ok <==> can_encode(x),
        r matches Ok(bytes) ==> bytes@ == encoding(x),
{
    x.try_to_vec()
}

impl Encode for Vec<HashSet<String>> {
    fn encode(&self) -> (r: Option<Vec<u8>>) {
        bytes_or_none(serialize_vec_hash_set_string(self))
    }
}

} // verus!
