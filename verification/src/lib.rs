//! Canonical, bit-exact encode/decode for the algebraic values of a
//! curve-cycle proving stack: scalar and base field elements and group
//! elements (affine, projective and compressed) of the Bn256 and Grumpkin
//! curves.
//!
//! Each value kind has one canonical fixed-size 32-byte representation, and
//! two wire renderings of it chosen by the caller's serialization context: a
//! compact binary one and a human-readable hexadecimal one. Decoding fully
//! validates its input and rejects every byte string that does not encode a
//! valid value; the modulus and curve-equation checks themselves are
//! delegated to the backing field/group library, never reimplemented.

pub mod backend;
pub mod bn256;
pub mod grumpkin;
pub mod wire;
