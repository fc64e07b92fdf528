//! The Bn256 role binding and its canonical codec.
//!
//! The five type roles of the Bn256 member of the curve cycle, and for each
//! value kind the validated encode/decode pair over both wire modes. The
//! cycle property — this curve's scalar field is Grumpkin's base field and
//! vice versa — is encoded structurally: `crate::grumpkin` defines its field
//! roles as aliases of these.

use vstd::prelude::*;

use crate::backend::{
    bn_affine_bytes, bn_affine_from_bytes, bn_affine_of, bn_affine_to_bytes, bn_from_affine,
    bn_identity_affine, bn_to_affine, fq_from_repr, fq_repr, fq_to_repr, fr_from_repr, fr_repr,
    fr_to_repr,
};
use crate::wire::{
    framed, infinity_bytes, lemma_wire_round_trip, wire_of, DecodeError, WireMode, decode_repr,
    encode_repr,
};

verus! {

/// The scalar field role of Bn256 (the order of its point group).
pub type Scalar = halo2curves::bn256::Fr;

/// The base field role of Bn256 (the field its coordinates live in).
pub type Base = halo2curves::bn256::Fq;

/// The projective point role of Bn256.
pub type Point = halo2curves::bn256::G1;

/// The affine point role of Bn256.
pub type Affine = halo2curves::bn256::G1Affine;

/// The compressed point role of Bn256: the canonical compressed 32 bytes of
/// some Bn256 point. Values come from decoding, which validates them, so the
/// kind is never mixed with Grumpkin's compressed kind.
#[derive(Clone, Debug)]
pub struct Compressed {
    pub bytes: Vec<u8>,
}

impl Compressed {
    /// Well-formedness: exactly the canonical compression of some point.
    pub open spec fn wf(self) -> bool {
        self.bytes@.len() == 32 && (exists|a: Affine| bn_affine_bytes(a) == self.bytes@)
    }
}

/// Encodes a scalar field element: its canonical 32 bytes, rendered in the
/// chosen wire mode.
pub fn encode_scalar(v: &Scalar, m: WireMode) -> (r: Vec<u8>)
    ensures
        r@ == wire_of(fr_repr(*v), m),
        fr_repr(*v).len() == 32,
{
    let b = fr_to_repr(v);
    encode_repr(&b, m)
}

/// Decodes a scalar field element, accepting exactly the well-framed wire
/// renderings of canonical representations: a framing fault is
/// `MalformedEncoding`, well-framed bytes at or above the modulus are
/// `InvalidFieldElement`.
pub fn decode_scalar(input: &Vec<u8>, m: WireMode) -> (r: Result<Scalar, DecodeError>)
    ensures
        framed(input@, m) is None ==> r == Err::<Scalar, DecodeError>(
            DecodeError::MalformedEncoding,
        ),
        framed(input@, m) matches Some(b) ==> match r {
            Ok(e) => fr_repr(e) == b,
            Err(er) => er == DecodeError::InvalidFieldElement && (forall|e: Scalar|
                #[trigger] fr_repr(e) != b),
        },
        forall|e: Scalar| framed(input@, m) == Some(#[trigger] fr_repr(e)) ==> r == Ok::<
            Scalar,
            DecodeError,
        >(e),
{
    match decode_repr(input, m) {
        Err(er) => Err(er),
        Ok(b) => match fr_from_repr(&b) {
            Some(e) => Ok(e),
            None => Err(DecodeError::InvalidFieldElement),
        },
    }
}

/// Encodes a base field element: its canonical 32 bytes, rendered in the
/// chosen wire mode.
pub fn encode_base(v: &Base, m: WireMode) -> (r: Vec<u8>)
    ensures
        r@ == wire_of(fq_repr(*v), m),
        fq_repr(*v).len() == 32,
{
    let b = fq_to_repr(v);
    encode_repr(&b, m)
}

/// Decodes a base field element, accepting exactly the well-framed wire
/// renderings of canonical representations.
pub fn decode_base(input: &Vec<u8>, m: WireMode) -> (r: Result<Base, DecodeError>)
    ensures
        framed(input@, m) is None ==> r == Err::<Base, DecodeError>(
            DecodeError::MalformedEncoding,
        ),
        framed(input@, m) matches Some(b) ==> match r {
            Ok(e) => fq_repr(e) == b,
            Err(er) => er == DecodeError::InvalidFieldElement && (forall|e: Base|
                #[trigger] fq_repr(e) != b),
        },
        forall|e: Base| framed(input@, m) == Some(#[trigger] fq_repr(e)) ==> r == Ok::<
            Base,
            DecodeError,
        >(e),
{
    match decode_repr(input, m) {
        Err(er) => Err(er),
        Ok(b) => match fq_from_repr(&b) {
            Some(e) => Ok(e),
            None => Err(DecodeError::InvalidFieldElement),
        },
    }
}

/// Encodes an affine point: its canonical compressed 32 bytes, rendered in
/// the chosen wire mode.
pub fn encode_affine(a: &Affine, m: WireMode) -> (r: Vec<u8>)
    ensures
        r@ == wire_of(bn_affine_bytes(*a), m),
        bn_affine_bytes(*a).len() == 32,
{
    let b = bn_affine_to_bytes(a);
    encode_repr(&b, m)
}

/// Decodes an affine point, accepting exactly the well-framed wire renderings
/// of canonical compressed encodings: a framing fault is
/// `MalformedEncoding`, well-framed bytes off the curve (or with inconsistent
/// flag bits) are `InvalidCurvePoint`.
pub fn decode_affine(input: &Vec<u8>, m: WireMode) -> (r: Result<Affine, DecodeError>)
    ensures
        framed(input@, m) is None ==> r == Err::<Affine, DecodeError>(
            DecodeError::MalformedEncoding,
        ),
        framed(input@, m) matches Some(b) ==> match r {
            Ok(a) => bn_affine_bytes(a) == b,
            Err(er) => er == DecodeError::InvalidCurvePoint && (forall|a: Affine|
                #[trigger] bn_affine_bytes(a) != b),
        },
        forall|a: Affine| framed(input@, m) == Some(#[trigger] bn_affine_bytes(a)) ==> r == Ok::<
            Affine,
            DecodeError,
        >(a),
{
    match decode_repr(input, m) {
        Err(er) => Err(er),
        Ok(b) => match bn_affine_from_bytes(&b) {
            Some(a) => Ok(a),
            None => Err(DecodeError::InvalidCurvePoint),
        },
    }
}

/// Encodes a projective point: the canonical compressed bytes of its unique
/// affine representative — there is no separate projective wire format.
pub fn encode_point(p: &Point, m: WireMode) -> (r: Vec<u8>)
    ensures
        r@ == wire_of(bn_affine_bytes(bn_affine_of(*p)), m),
        bn_affine_bytes(bn_affine_of(*p)).len() == 32,
{
    let a = bn_to_affine(p);
    encode_affine(&a, m)
}

/// Decodes a projective point: decodes the affine point and lifts it, which
/// always succeeds once the affine decode has.
pub fn decode_point(input: &Vec<u8>, m: WireMode) -> (r: Result<Point, DecodeError>)
    ensures
        framed(input@, m) is None ==> r == Err::<Point, DecodeError>(
            DecodeError::MalformedEncoding,
        ),
        framed(input@, m) matches Some(b) ==> match r {
            Ok(p) => bn_affine_bytes(bn_affine_of(p)) == b,
            Err(er) => er == DecodeError::InvalidCurvePoint && (forall|a: Affine|
                #[trigger] bn_affine_bytes(a) != b),
        },
        forall|a: Affine|
            framed(input@, m) == Some(#[trigger] bn_affine_bytes(a)) ==> (r matches Ok(p)
                && bn_affine_of(p) == a),
{
    match decode_affine(input, m) {
        Err(er) => Err(er),
        Ok(a) => Ok(bn_from_affine(&a)),
    }
}

/// Encodes a compressed point: its 32 bytes, rendered in the chosen wire
/// mode — the bytes already are the canonical form.
pub fn encode_compressed(c: &Compressed, m: WireMode) -> (r: Vec<u8>)
    requires
        c.bytes@.len() == 32,
    ensures
        r@ == wire_of(c.bytes@, m),
{
    encode_repr(&c.bytes, m)
}

/// Decodes a compressed point, accepting exactly the well-framed wire
/// renderings of canonical compressed encodings: the framed bytes must
/// decompress to a point, else `InvalidCurvePoint`; on success the value
/// carries those bytes unchanged.
pub fn decode_compressed(input: &Vec<u8>, m: WireMode) -> (r: Result<Compressed, DecodeError>)
    ensures
        framed(input@, m) is None ==> (r matches Err(er) && er == DecodeError::MalformedEncoding),
        framed(input@, m) matches Some(b) ==> match r {
            Ok(c) => c.bytes@ == b && c.wf(),
            Err(er) => er == DecodeError::InvalidCurvePoint && (forall|a: Affine|
                #[trigger] bn_affine_bytes(a) != b),
        },
        forall|a: Affine|
            framed(input@, m) == Some(#[trigger] bn_affine_bytes(a)) ==> (r matches Ok(c)
                && c.bytes@ == bn_affine_bytes(a)),
{
    match decode_repr(input, m) {
        Err(er) => Err(er),
        Ok(b) => match bn_affine_from_bytes(&b) {
            Some(a) => {
                proof {
                    assert(bn_affine_bytes(a) == b@);
                }
                Ok(Compressed { bytes: b })
            },
            None => Err(DecodeError::InvalidCurvePoint),
        },
    }
}

/// Round-trip law for scalar field elements: decoding an encoding yields the
/// element that was encoded, in either wire mode.
pub fn scalar_round_trip(v: &Scalar, m: WireMode) -> (r: Result<Scalar, DecodeError>)
    ensures
        r == Ok::<Scalar, DecodeError>(*v),
{
    let enc = encode_scalar(v, m);
    proof {
        lemma_wire_round_trip(fr_repr(*v), m);
    }
    decode_scalar(&enc, m)
}

/// Round-trip law for base field elements: decoding an encoding yields the
/// element that was encoded, in either wire mode.
pub fn base_round_trip(v: &Base, m: WireMode) -> (r: Result<Base, DecodeError>)
    ensures
        r == Ok::<Base, DecodeError>(*v),
{
    let enc = encode_base(v, m);
    proof {
        lemma_wire_round_trip(fq_repr(*v), m);
    }
    decode_base(&enc, m)
}

/// Round-trip law for affine points: decoding an encoding yields the point
/// that was encoded, in either wire mode.
pub fn affine_round_trip(a: &Affine, m: WireMode) -> (r: Result<Affine, DecodeError>)
    ensures
        r == Ok::<Affine, DecodeError>(*a),
{
    let enc = encode_affine(a, m);
    proof {
        lemma_wire_round_trip(bn_affine_bytes(*a), m);
    }
    decode_affine(&enc, m)
}

/// Round-trip law for projective points: decoding an encoding yields a point
/// with the same affine representative — projective coordinates themselves
/// are not part of the wire format.
pub fn point_round_trip(p: &Point, m: WireMode) -> (r: Result<Point, DecodeError>)
    ensures
        r matches Ok(q) && bn_affine_of(q) == bn_affine_of(*p),
{
    let enc = encode_point(p, m);
    proof {
        lemma_wire_round_trip(bn_affine_bytes(bn_affine_of(*p)), m);
    }
    decode_point(&enc, m)
}

/// Round-trip law for compressed points: decoding an encoding of a
/// well-formed value yields the same 32 bytes, in either wire mode.
pub fn compressed_round_trip(c: &Compressed, m: WireMode) -> (r: Result<Compressed, DecodeError>)
    requires
        c.wf(),
    ensures
        r matches Ok(d) && d.bytes@ == c.bytes@,
{
    let enc = encode_compressed(c, m);
    proof {
        lemma_wire_round_trip(c.bytes@, m);
    }
    decode_compressed(&enc, m)
}

/// Infinity law: the point at infinity encodes to the fixed 32-byte pattern
/// and decodes back to itself, in either wire mode.
pub fn infinity_round_trip(m: WireMode) -> (r: Result<Affine, DecodeError>)
    ensures
        r matches Ok(a) && bn_affine_bytes(a) == infinity_bytes(),
{
    let id = bn_identity_affine();
    affine_round_trip(&id, m)
}

} // verus!
