//! Golden fixtures for a binary-format compatibility suite: typed values
//! paired with their canonical little-endian, length-prefixed encoding.
//!
//! Every category of values has a module with its catalog of literals and a
//! producer that returns the catalog as rows of value and bytes. The bytes
//! come from the borsh serializer; what they must be is written down in
//! [`codec`], shape by shape, and [`decode`] shows that they read back as the
//! value that was encoded.

pub mod codec;
pub mod collections;
pub mod composites;
pub mod data_enums;
pub mod decode;
pub mod encode;
pub mod enums;
pub mod maps;
pub mod options;
pub mod order;
pub mod samples;
pub mod sets;
pub mod simple;
pub mod text;
pub mod tuples;
pub mod vecs;
pub mod wire;
