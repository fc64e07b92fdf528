//! The Grumpkin role binding and its canonical codec.
//!
//! Grumpkin is the other member of the curve cycle: its scalar field is
//! Bn256's base field and its base field is Bn256's scalar field. The field
//! roles below are therefore aliases of `crate::bn256`'s, so the cycle
//! property holds by construction rather than by convention.

use vstd::prelude::*;

use crate::backend::{
    fq_from_repr, fq_repr, fq_to_repr, fr_from_repr, fr_repr, fr_to_repr,
    grumpkin_affine_bytes, grumpkin_affine_from_bytes, grumpkin_affine_of,
    grumpkin_affine_to_bytes, grumpkin_from_affine, grumpkin_identity_affine, grumpkin_to_affine,
};
use crate::wire::{
    framed, infinity_bytes, lemma_wire_round_trip, wire_of, DecodeError, WireMode, decode_repr,
    encode_repr,
};

verus! {

/// The scalar field role of Grumpkin: Bn256's base field (the cycle).
pub type Scalar = crate::bn256::Base;

/// The base field role of Grumpkin: Bn256's scalar field (the cycle).
pub type Base = crate::bn256::Scalar;

/// The projective point role of Grumpkin.
pub type Point = halo2curves::grumpkin::G1;

/// The affine point role of Grumpkin.
pub type Affine = halo2curves::grumpkin::G1Affine;

/// The compressed point role of Grumpkin: the canonical compressed 32 bytes
/// of some Grumpkin point. Values come from decoding, which validates them,
/// so the kind is never mixed with Bn256's compressed kind.
#[derive(Clone, Debug)]
pub struct Compressed {
    pub bytes: Vec<u8>,
}

impl Compressed {
    /// Well-formedness: exactly the canonical compression of some point.
    pub open spec fn wf(self) -> bool {
        self.bytes@.len() == 32 && (exists|a: Affine| grumpkin_affine_bytes(a) == self.bytes@)
    }
}

/// Encodes a scalar field element: its canonical 32 bytes, rendered in the
/// chosen wire mode.
pub fn encode_scalar(v: &Scalar, m: WireMode) -> (r: Vec<u8>)
    ensures
        r@ == wire_of(fq_repr(*v), m),
        fq_repr(*v).len() == 32,
{
    let b = fq_to_repr(v);
    encode_repr(&b, m)
}

/// Decodes a scalar field element, accepting exactly the well-framed wire
/// renderings of canonical representations: a framing fault is
/// `MalformedEncoding`, well-framed bytes at or above the modulus are
/// `InvalidFieldElement`.
pub fn decode_scalar(input: &Vec<u8>, m: WireMode) -> (r: Result<Scalar, DecodeError>)
    ensures
        framed(input@, m) is None ==> r == Err::<Scalar, DecodeError>(
            DecodeError::MalformedEncoding,
        ),
        framed(input@, m) matches Some(b) ==> match r {
            Ok(e) => fq_repr(e) == b,
            Err(er) => er == DecodeError::InvalidFieldElement && (forall|e: Scalar|
                #[trigger] fq_repr(e) != b),
        },
        forall|e: Scalar| framed(input@, m) == Some(#[trigger] fq_repr(e)) ==> r == Ok::<
            Scalar,
            DecodeError,
        >(e),
{
    match decode_repr(input, m) {
        Err(er) => Err(er),
        Ok(b) => match fq_from_repr(&b) {
            Some(e) => Ok(e),
            None => Err(DecodeError::InvalidFieldElement),
        },
    }
}

/// Encodes a base field element: its canonical 32 bytes, rendered in the
/// chosen wire mode.
pub fn encode_base(v: &Base, m: WireMode) -> (r: Vec<u8>)
    ensures
        r@ == wire_of(fr_repr(*v), m),
        fr_repr(*v).len() == 32,
{
    let b = fr_to_repr(v);
    encode_repr(&b, m)
}

/// Decodes a base field element, accepting exactly the well-framed wire
/// renderings of canonical representations.
pub fn decode_base(input: &Vec<u8>, m: WireMode) -> (r: Result<Base, DecodeError>)
    ensures
        framed(input@, m) is None ==> r == Err::<Base, DecodeError>(
            DecodeError::MalformedEncoding,
        ),
        framed(input@, m) matches Some(b) ==> match r {
            Ok(e) => fr_repr(e) == b,
            Err(er) => er == DecodeError::InvalidFieldElement && (forall|e: Base|
                #[trigger] fr_repr(e) != b),
        },
        forall|e: Base| framed(input@, m) == Some(#[trigger] fr_repr(e)) ==> r == Ok::<
            Base,
            DecodeError,
        >(e),
{
    match decode_repr(input, m) {
        Err(er) => Err(er),
        Ok(b) => match fr_from_repr(&b) {
            Some(e) => Ok(e),
            None => Err(DecodeError::InvalidFieldElement),
        },
    }
}

/// Encodes an affine point: its canonical compressed 32 bytes, rendered in
/// the chosen wire mode.
pub fn encode_affine(a: &Affine, m: WireMode) -> (r: Vec<u8>)
    ensures
        r@ == wire_of(grumpkin_affine_bytes(*a), m),
        grumpkin_affine_bytes(*a).len() == 32,
{
    let b = grumpkin_affine_to_bytes(a);
    encode_repr(&b, m)
}

/// Decodes an affine point, accepting exactly the well-framed wire renderings
/// of canonical compressed encodings: a framing fault is
/// `MalformedEncoding`, well-framed bytes off the curve (or with inconsistent
/// flag bits) are `InvalidCurvePoint`.
pub fn decode_affine(input: &Vec<u8>, m: WireMode) -> (r: Result<Affine, DecodeError>)
    ensures
        framed(input@, m) is None ==> r == Err::<Affine, DecodeError>(
            DecodeError::MalformedEncoding,
        ),
        framed(input@, m) matches Some(b) ==> match r {
            Ok(a) => grumpkin_affine_bytes(a) == b,
            Err(er) => er == DecodeError::InvalidCurvePoint && (forall|a: Affine|
                #[trigger] grumpkin_affine_bytes(a) != b),
        },
        forall|a: Affine|
            framed(input@, m) == Some(#[trigger] grumpkin_affine_bytes(a)) ==> r == Ok::<
                Affine,
                DecodeError,
            >(a),
{
    match decode_repr(input, m) {
        Err(er) => Err(er),
        Ok(b) => match grumpkin_affine_from_bytes(&b) {
            Some(a) => Ok(a),
            None => Err(DecodeError::InvalidCurvePoint),
        },
    }
}

/// Encodes a projective point: the canonical compressed bytes of its unique
/// affine representative — there is no separate projective wire format.
pub fn encode_point(p: &Point, m: WireMode) -> (r: Vec<u8>)
    ensures
        r@ == wire_of(grumpkin_affine_bytes(grumpkin_affine_of(*p)), m),
        grumpkin_affine_bytes(grumpkin_affine_of(*p)).len() == 32,
{
    let a = grumpkin_to_affine(p);
    encode_affine(&a, m)
}

/// Decodes a projective point: decodes the affine point and lifts it, which
/// always succeeds once the affine decode has.
pub fn decode_point(input: &Vec<u8>, m: WireMode) -> (r: Result<Point, DecodeError>)
    ensures
        framed(input@, m) is None ==> r == Err::<Point, DecodeError>(
            DecodeError::MalformedEncoding,
        ),
        framed(input@, m) matches Some(b) ==> match r {
            Ok(p) => grumpkin_affine_bytes(grumpkin_affine_of(p)) == b,
            Err(er) => er == DecodeError::InvalidCurvePoint && (forall|a: Affine|
                #[trigger] grumpkin_affine_bytes(a) != b),
        },
        forall|a: Affine|
            framed(input@, m) == Some(#[trigger] grumpkin_affine_bytes(a)) ==> (r matches Ok(p)
                && grumpkin_affine_of(p) == a),
{
    match decode_affine(input, m) {
        Err(er) => Err(er),
        Ok(a) => Ok(grumpkin_from_affine(&a)),
    }
}

/// Encodes a compressed point: its 32 bytes, rendered in the chosen wire
/// mode — the bytes already are the canonical form.
pub fn encode_compressed(c: &Compressed, m: WireMode) -> (r: Vec<u8>)
    requires
        c.bytes@.len() == 32,
    ensures
        r@ == wire_of(c.bytes@, m),
{
    encode_repr(&c.bytes, m)
}

/// Decodes a compressed point, accepting exactly the well-framed wire
/// renderings of canonical compressed encodings: the framed bytes must
/// decompress to a point, else `InvalidCurvePoint`; on success the value
/// carries those bytes unchanged.
pub fn decode_compressed(input: &Vec<u8>, m: WireMode) -> (r: Result<Compressed, DecodeError>)
    ensures
        framed(input@, m) is None ==> (r matches Err(er) && er == DecodeError::MalformedEncoding),
        framed(input@, m) matches Some(b) ==> match r {
            Ok(c) => c.bytes@ == b && c.wf(),
            Err(er) => er == DecodeError::InvalidCurvePoint && (forall|a: Affine|
                #[trigger] grumpkin_affine_bytes(a) != b),
        },
        forall|a: Affine|
            framed(input@, m) == Some(#[trigger] grumpkin_affine_bytes(a)) ==> (r matches Ok(c)
                && c.bytes@ == grumpkin_affine_bytes(a)),
{
    match decode_repr(input, m) {
        Err(er) => Err(er),
        Ok(b) => match grumpkin_affine_from_bytes(&b) {
            Some(a) => {
                proof {
                    assert(grumpkin_affine_bytes(a) == b@);
                }
                Ok(Compressed { bytes: b })
            },
            None => Err(DecodeError::InvalidCurvePoint),
        },
    }
}

/// Round-trip law for scalar field elements: decoding an encoding yields the
/// element that was encoded, in either wire mode.
pub fn scalar_round_trip(v: &Scalar, m: WireMode) -> (r: Result<Scalar, DecodeError>)
    ensures
        r == Ok::<Scalar, DecodeError>(*v),
{
    let enc = encode_scalar(v, m);
    proof {
        lemma_wire_round_trip(fq_repr(*v), m);
    }
    decode_scalar(&enc, m)
}

/// Round-trip law for base field elements: decoding an encoding yields the
/// element that was encoded, in either wire mode.
pub fn base_round_trip(v: &Base, m: WireMode) -> (r: Result<Base, DecodeError>)
    ensures
        r == Ok::<Base, DecodeError>(*v),
{
    let enc = encode_base(v, m);
    proof {
        lemma_wire_round_trip(fr_repr(*v), m);
    }
    decode_base(&enc, m)
}

/// Round-trip law for affine points: decoding an encoding yields the point
/// that was encoded, in either wire mode.
pub fn affine_round_trip(a: &Affine, m: WireMode) -> (r: Result<Affine, DecodeError>)
    ensures
        r == Ok::<Affine, DecodeError>(*a),
{
    let enc = encode_affine(a, m);
    proof {
        lemma_wire_round_trip(grumpkin_affine_bytes(*a), m);
    }
    decode_affine(&enc, m)
}

/// Round-trip law for projective points: decoding an encoding yields a point
/// with the same affine representative — projective coordinates themselves
/// are not part of the wire format.
pub fn point_round_trip(p: &Point, m: WireMode) -> (r: Result<Point, DecodeError>)
    ensures
        r matches Ok(q) && grumpkin_affine_of(q) == grumpkin_affine_of(*p),
{
    let enc = encode_point(p, m);
    proof {
        lemma_wire_round_trip(grumpkin_affine_bytes(grumpkin_affine_of(*p)), m);
    }
    decode_point(&enc, m)
}

/// Round-trip law for compressed points: decoding an encoding of a
/// well-formed value yields the same 32 bytes, in either wire mode.
pub fn compressed_round_trip(c: &Compressed, m: WireMode) -> (r: Result<Compressed, DecodeError>)
    requires
        c.wf(),
    ensures
        r matches Ok(d) && d.bytes@ == c.bytes@,
{
    let enc = encode_compressed(c, m);
    proof {
        lemma_wire_round_trip(c.bytes@, m);
    }
    decode_compressed(&enc, m)
}

/// Infinity law: the point at infinity encodes to the fixed 32-byte pattern
/// and decodes back to itself, in either wire mode.
pub fn infinity_round_trip(m: WireMode) -> (r: Result<Affine, DecodeError>)
    ensures
        r matches Ok(a) && grumpkin_affine_bytes(a) == infinity_bytes(),
{
    let id = grumpkin_identity_affine();
    affine_round_trip(&id, m)
}

} // verus!
