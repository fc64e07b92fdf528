//! The trusted boundary to the backing field/group library (`halo2curves`,
//! through the `ff` and `group` trait vocabulary).
//!
//! The library never reimplements field or curve arithmetic: each canonical
//! 32-byte representation, each modulus check and each curve-membership check
//! is obtained from `halo2curves`. The uninterpreted functions below name the
//! canonical forms that the backing library defines; the wrappers state, over
//! those names, exactly what the backing library's source shows:
//!
//! - `to_repr` / `from_repr` are mutually inverse bijections between field
//!   elements and the little-endian byte strings whose integer value is below
//!   the field modulus.
//! - `to_bytes` / `from_bytes` are mutually inverse bijections between affine
//!   points and their canonical compressed encodings (x-coordinate bytes with
//!   a sign bit, or the distinguished infinity pattern); `from_bytes` rejects
//!   every other byte string.
//! - `to_affine` normalizes a projective point to its unique affine
//!   representative and inverts the affine-to-projective lift.

use vstd::prelude::*;
use ff::PrimeField;
use group::Curve;
use group::GroupEncoding;
use group::prime::PrimeCurveAffine;

use crate::wire::infinity_bytes;

verus! {

#[verifier::external_type_specification]
#[verifier::external_body]
pub struct ExBnScalar(halo2curves::bn256::Fr);

#[verifier::external_type_specification]
#[verifier::external_body]
pub struct ExBnBase(halo2curves::bn256::Fq);

#[verifier::external_type_specification]
#[verifier::external_body]
pub struct ExBnPoint(halo2curves::bn256::G1);

#[verifier::external_type_specification]
#[verifier::external_body]
pub struct ExBnAffine(halo2curves::bn256::G1Affine);

#[verifier::external_type_specification]
#[verifier::external_body]
pub struct ExGrumpkinPoint(halo2curves::grumpkin::G1);

#[verifier::external_type_specification]
#[verifier::external_body]
pub struct ExGrumpkinAffine(halo2curves::grumpkin::G1Affine);

/// The canonical 32-byte representation of a Bn256 scalar field element, as
/// `bn256::Fr::to_repr` defines it.
pub uninterp spec fn fr_repr(e: halo2curves::bn256::Fr) -> Seq<u8>;

/// The canonical 32-byte representation of a Bn256 base field element, as
/// `bn256::Fq::to_repr` defines it.
pub uninterp spec fn fq_repr(e: halo2curves::bn256::Fq) -> Seq<u8>;

/// The canonical compressed 32-byte encoding of a Bn256 affine point, as
/// `bn256::G1Affine::to_bytes` defines it.
pub uninterp spec fn bn_affine_bytes(a: halo2curves::bn256::G1Affine) -> Seq<u8>;

/// The canonical compressed 32-byte encoding of a Grumpkin affine point, as
/// `grumpkin::G1Affine::to_bytes` defines it.
pub uninterp spec fn grumpkin_affine_bytes(a: halo2curves::grumpkin::G1Affine) -> Seq<u8>;

/// The unique affine representative of a Bn256 projective point, as
/// `bn256::G1::to_affine` defines it.
pub uninterp spec fn bn_affine_of(p: halo2curves::bn256::G1) -> halo2curves::bn256::G1Affine;

/// The unique affine representative of a Grumpkin projective point, as
/// `grumpkin::G1::to_affine` defines it.
pub uninterp spec fn grumpkin_affine_of(
    p: halo2curves::grumpkin::G1,
) -> halo2curves::grumpkin::G1Affine;

/// Relies on `bn256::Fr::to_repr`: 32 canonical little-endian bytes, a
/// function of the element alone.
#[verifier::external_body]
pub(crate) fn fr_to_repr(e: &halo2curves::bn256::Fr) -> (r: Vec<u8>)
    ensures
        r@ == fr_repr(*e),
        r@.len() == 32,
{
    e.to_repr().inner().to_vec()
}

/// Relies on `bn256::Fr::from_repr`: it accepts exactly the canonical
/// representations (little-endian integer value below the modulus) and
/// inverts `to_repr` on them.
#[verifier::external_body]
pub(crate) fn fr_from_repr(b: &Vec<u8>) -> (r: Option<halo2curves::bn256::Fr>)
    requires
        b@.len() == 32,
    ensures
        r matches Some(e) ==> fr_repr(e) == b@,
        forall|e: halo2curves::bn256::Fr| #[trigger] fr_repr(e) == b@ ==> r == Some(e),
{
    let arr: [u8; 32] = b.as_slice().try_into().unwrap();
    Option::from(halo2curves::bn256::Fr::from_repr(arr.into()))
}

/// Relies on `bn256::Fq::to_repr`: 32 canonical little-endian bytes, a
/// function of the element alone.
#[verifier::external_body]
pub(crate) fn fq_to_repr(e: &halo2curves::bn256::Fq) -> (r: Vec<u8>)
    ensures
        r@ == fq_repr(*e),
        r@.len() == 32,
{
    e.to_repr().inner().to_vec()
}

/// Relies on `bn256::Fq::from_repr`: it accepts exactly the canonical
/// representations (little-endian integer value below the modulus) and
/// inverts `to_repr` on them.
#[verifier::external_body]
pub(crate) fn fq_from_repr(b: &Vec<u8>) -> (r: Option<halo2curves::bn256::Fq>)
    requires
        b@.len() == 32,
    ensures
        r matches Some(e) ==> fq_repr(e) == b@,
        forall|e: halo2curves::bn256::Fq| #[trigger] fq_repr(e) == b@ ==> r == Some(e),
{
    let arr: [u8; 32] = b.as_slice().try_into().unwrap();
    Option::from(halo2curves::bn256::Fq::from_repr(arr.into()))
}

/// Relies on `bn256::G1Affine::to_bytes`: the canonical compressed 32-byte
/// encoding, a function of the point alone.
#[verifier::external_body]
pub(crate) fn bn_affine_to_bytes(a: &halo2curves::bn256::G1Affine) -> (r: Vec<u8>)
    ensures
        r@ == bn_affine_bytes(*a),
        r@.len() == 32,
{
    a.to_bytes().inner().to_vec()
}

/// Relies on `bn256::G1Affine::from_bytes`: it accepts exactly the canonical
/// compressed encodings (the flag bits consistent, the x-coordinate below the
/// modulus and on the curve) and inverts `to_bytes` on them.
#[verifier::external_body]
pub(crate) fn bn_affine_from_bytes(b: &Vec<u8>) -> (r: Option<halo2curves::bn256::G1Affine>)
    requires
        b@.len() == 32,
    ensures
        r matches Some(a) ==> bn_affine_bytes(a) == b@,
        forall|a: halo2curves::bn256::G1Affine| #[trigger] bn_affine_bytes(a) == b@ ==> r == Some(
            a,
        ),
{
    let arr: [u8; 32] = b.as_slice().try_into().unwrap();
    let repr: halo2curves::bn256::G1Compressed = arr.into();
    Option::from(halo2curves::bn256::G1Affine::from_bytes(&repr))
}

/// Relies on `grumpkin::G1Affine::to_bytes`: the canonical compressed 32-byte
/// encoding, a function of the point alone.
#[verifier::external_body]
pub(crate) fn grumpkin_affine_to_bytes(a: &halo2curves::grumpkin::G1Affine) -> (r: Vec<u8>)
    ensures
        r@ == grumpkin_affine_bytes(*a),
        r@.len() == 32,
{
    a.to_bytes().inner().to_vec()
}

/// Relies on `grumpkin::G1Affine::from_bytes`: it accepts exactly the
/// canonical compressed encodings and inverts `to_bytes` on them.
#[verifier::external_body]
pub(crate) fn grumpkin_affine_from_bytes(b: &Vec<u8>) -> (r: Option<
    halo2curves::grumpkin::G1Affine,
>)
    requires
        b@.len() == 32,
    ensures
        r matches Some(a) ==> grumpkin_affine_bytes(a) == b@,
        forall|a: halo2curves::grumpkin::G1Affine|
            #[trigger] grumpkin_affine_bytes(a) == b@ ==> r == Some(a),
{
    let arr: [u8; 32] = b.as_slice().try_into().unwrap();
    let repr: halo2curves::grumpkin::G1Compressed = arr.into();
    Option::from(halo2curves::grumpkin::G1Affine::from_bytes(&repr))
}

/// Relies on `bn256::G1::to_affine`: the unique affine representative, a
/// function of the point alone.
#[verifier::external_body]
pub(crate) fn bn_to_affine(p: &halo2curves::bn256::G1) -> (r: halo2curves::bn256::G1Affine)
    ensures
        r == bn_affine_of(*p),
{
    p.to_affine()
}

/// Relies on `From<bn256::G1Affine> for bn256::G1`: the projective lift,
/// which `to_affine` maps back to the given affine point.
#[verifier::external_body]
pub(crate) fn bn_from_affine(a: &halo2curves::bn256::G1Affine) -> (r: halo2curves::bn256::G1)
    ensures
        bn_affine_of(r) == *a,
{
    halo2curves::bn256::G1::from(*a)
}

/// Relies on `grumpkin::G1::to_affine`: the unique affine representative, a
/// function of the point alone.
#[verifier::external_body]
pub(crate) fn grumpkin_to_affine(p: &halo2curves::grumpkin::G1) -> (r:
    halo2curves::grumpkin::G1Affine)
    ensures
        r == grumpkin_affine_of(*p),
{
    p.to_affine()
}

/// Relies on `From<grumpkin::G1Affine> for grumpkin::G1`: the projective
/// lift, which `to_affine` maps back to the given affine point.
#[verifier::external_body]
pub(crate) fn grumpkin_from_affine(a: &halo2curves::grumpkin::G1Affine) -> (r:
    halo2curves::grumpkin::G1)
    ensures
        grumpkin_affine_of(r) == *a,
{
    halo2curves::grumpkin::G1::from(*a)
}

/// Relies on `bn256::G1Affine::identity` and its `to_bytes`: the point at
/// infinity encodes to 31 zero bytes and the infinity flag bit.
#[verifier::external_body]
pub(crate) fn bn_identity_affine() -> (r: halo2curves::bn256::G1Affine)
    ensures
        bn_affine_bytes(r) == infinity_bytes(),
{
    halo2curves::bn256::G1Affine::identity()
}

/// Relies on `grumpkin::G1Affine::identity` and its `to_bytes`: the point at
/// infinity encodes to 31 zero bytes and the infinity flag bit.
#[verifier::external_body]
pub(crate) fn grumpkin_identity_affine() -> (r: halo2curves::grumpkin::G1Affine)
    ensures
        grumpkin_affine_bytes(r) == infinity_bytes(),
{
    halo2curves::grumpkin::G1Affine::identity()
}

} // verus!
