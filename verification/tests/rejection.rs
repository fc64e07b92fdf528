//! Rejection behaviour: malformed frames, out-of-range field bytes,
//! non-curve points, and cross-curve isolation.

use ff::Field;
use ff::PrimeField;
use grumpkin_codec::bn256 as bn_codec;
use grumpkin_codec::grumpkin as grumpkin_codec_mod;
use grumpkin_codec::wire::DecodeError;
use grumpkin_codec::wire::WireMode;

#[test]
fn all_ones_rejected_as_field_element() {
    // 2^256 - 1 exceeds both moduli of the cycle.
    let bytes = vec![0xffu8; 32];
    assert_eq!(
        bn_codec::decode_scalar(&bytes, WireMode::Compact),
        Err(DecodeError::InvalidFieldElement)
    );
    assert_eq!(
        bn_codec::decode_base(&bytes, WireMode::Compact),
        Err(DecodeError::InvalidFieldElement)
    );
    assert_eq!(
        grumpkin_codec_mod::decode_scalar(&bytes, WireMode::Compact),
        Err(DecodeError::InvalidFieldElement)
    );
    assert_eq!(
        grumpkin_codec_mod::decode_base(&bytes, WireMode::Compact),
        Err(DecodeError::InvalidFieldElement)
    );
    let hex = vec![b'f'; 64];
    assert_eq!(
        bn_codec::decode_scalar(&hex, WireMode::HumanReadable),
        Err(DecodeError::InvalidFieldElement)
    );
}

#[test]
fn malformed_lengths_rejected_for_every_kind() {
    for len in [31usize, 33usize] {
        let bytes = vec![1u8; len];
        assert_eq!(
            bn_codec::decode_scalar(&bytes, WireMode::Compact),
            Err(DecodeError::MalformedEncoding)
        );
        assert_eq!(
            bn_codec::decode_base(&bytes, WireMode::Compact),
            Err(DecodeError::MalformedEncoding)
        );
        assert_eq!(
            bn_codec::decode_affine(&bytes, WireMode::Compact),
            Err(DecodeError::MalformedEncoding)
        );
        assert_eq!(
            bn_codec::decode_point(&bytes, WireMode::Compact),
            Err(DecodeError::MalformedEncoding)
        );
        assert!(matches!(
            bn_codec::decode_compressed(&bytes, WireMode::Compact),
            Err(DecodeError::MalformedEncoding)
        ));
        assert_eq!(
            grumpkin_codec_mod::decode_scalar(&bytes, WireMode::Compact),
            Err(DecodeError::MalformedEncoding)
        );
        assert_eq!(
            grumpkin_codec_mod::decode_affine(&bytes, WireMode::Compact),
            Err(DecodeError::MalformedEncoding)
        );
    }
    for len in [63usize, 65usize] {
        let hex = vec![b'0'; len];
        assert_eq!(
            bn_codec::decode_scalar(&hex, WireMode::HumanReadable),
            Err(DecodeError::MalformedEncoding)
        );
        assert_eq!(
            bn_codec::decode_affine(&hex, WireMode::HumanReadable),
            Err(DecodeError::MalformedEncoding)
        );
        assert_eq!(
            grumpkin_codec_mod::decode_point(&hex, WireMode::HumanReadable),
            Err(DecodeError::MalformedEncoding)
        );
        assert!(matches!(
            grumpkin_codec_mod::decode_compressed(&hex, WireMode::HumanReadable),
            Err(DecodeError::MalformedEncoding)
        ));
    }
}

#[test]
fn non_hex_characters_rejected() {
    let mut hex = vec![b'0'; 64];
    hex[10] = b'g';
    assert_eq!(
        bn_codec::decode_scalar(&hex, WireMode::HumanReadable),
        Err(DecodeError::MalformedEncoding)
    );
    let mut hex = vec![b'a'; 64];
    hex[0] = b' ';
    assert_eq!(
        grumpkin_codec_mod::decode_base(&hex, WireMode::HumanReadable),
        Err(DecodeError::MalformedEncoding)
    );
}

#[test]
fn zero_bytes_are_a_field_element_but_not_a_point() {
    // All-zero bytes encode the field element 0, but as a point they carry
    // x = 0 without the infinity flag, which both curves reject.
    let bytes = vec![0u8; 32];
    assert!(bn_codec::decode_base(&bytes, WireMode::Compact).is_ok());
    assert_eq!(
        bn_codec::decode_affine(&bytes, WireMode::Compact),
        Err(DecodeError::InvalidCurvePoint)
    );
    assert_eq!(
        bn_codec::decode_point(&bytes, WireMode::Compact),
        Err(DecodeError::InvalidCurvePoint)
    );
    assert_eq!(
        grumpkin_codec_mod::decode_affine(&bytes, WireMode::Compact),
        Err(DecodeError::InvalidCurvePoint)
    );
    assert!(matches!(
        bn_codec::decode_compressed(&bytes, WireMode::Compact),
        Err(DecodeError::InvalidCurvePoint)
    ));
    assert!(matches!(
        grumpkin_codec_mod::decode_compressed(&bytes, WireMode::Compact),
        Err(DecodeError::InvalidCurvePoint)
    ));
}

#[test]
fn cross_curve_isolation_of_compressed_points() {
    // The two curves accept different byte strings as compressed points:
    // find a small x-coordinate on one curve but not the other, both ways.
    let mut bn_only = false;
    let mut gr_only = false;
    for x in 1u64..200 {
        let mut bytes = vec![0u8; 32];
        bytes[..8].copy_from_slice(&x.to_le_bytes());
        let bn = bn_codec::decode_compressed(&bytes, WireMode::Compact);
        let gr = grumpkin_codec_mod::decode_compressed(&bytes, WireMode::Compact);
        match (bn.is_ok(), gr.is_ok()) {
            (true, false) => {
                assert!(matches!(gr, Err(DecodeError::InvalidCurvePoint)));
                bn_only = true;
            }
            (false, true) => {
                assert!(matches!(bn, Err(DecodeError::InvalidCurvePoint)));
                gr_only = true;
            }
            _ => {}
        }
        if bn_only && gr_only {
            break;
        }
    }
    assert!(bn_only && gr_only);
}

#[test]
fn inconsistent_infinity_flags_rejected() {
    // Infinity flag together with a sign bit.
    let mut bytes = vec![0u8; 32];
    bytes[31] = 0xc0;
    assert_eq!(
        bn_codec::decode_affine(&bytes, WireMode::Compact),
        Err(DecodeError::InvalidCurvePoint)
    );
    // Infinity flag together with a non-zero x-coordinate.
    let mut bytes = vec![0u8; 32];
    bytes[0] = 1;
    bytes[31] = 0x40;
    assert_eq!(
        grumpkin_codec_mod::decode_affine(&bytes, WireMode::Compact),
        Err(DecodeError::InvalidCurvePoint)
    );
}

#[test]
fn valid_field_bytes_with_no_matching_point_rejected() {
    // Find a small x whose curve equation value has no square root: its
    // encoding is a valid base field element but not a point compression.
    let b = halo2curves::bn256::Fq::from(3u64);
    let mut found = false;
    for x in 1u64..64 {
        let xe = halo2curves::bn256::Fq::from(x);
        let y2 = xe.square() * xe + b;
        if bool::from(y2.sqrt().is_none()) {
            let mut bytes = vec![0u8; 32];
            bytes[..8].copy_from_slice(&x.to_le_bytes());
            assert!(bn_codec::decode_base(&bytes, WireMode::Compact).is_ok());
            assert_eq!(
                bn_codec::decode_affine(&bytes, WireMode::Compact),
                Err(DecodeError::InvalidCurvePoint)
            );
            found = true;
            break;
        }
    }
    assert!(found);
}

#[test]
fn cross_curve_isolation_of_field_moduli() {
    // The integer r (Bn256's scalar modulus) is below q (its base modulus):
    // its bytes are a valid base field encoding but an out-of-range scalar
    // encoding. The same bytes swap acceptance across the cycle.
    let r_minus_one = halo2curves::bn256::Fr::from(0u64) - halo2curves::bn256::Fr::from(1u64);
    let mut r_bytes = r_minus_one.to_repr().inner().to_vec();
    assert_eq!(r_bytes[0], 0);
    r_bytes[0] = 1;

    assert_eq!(
        bn_codec::decode_scalar(&r_bytes, WireMode::Compact),
        Err(DecodeError::InvalidFieldElement)
    );
    let as_base = bn_codec::decode_base(&r_bytes, WireMode::Compact).unwrap();
    assert_eq!(bn_codec::encode_base(&as_base, WireMode::Compact), r_bytes);

    // Grumpkin's roles are the same fields swapped.
    assert_eq!(
        grumpkin_codec_mod::decode_base(&r_bytes, WireMode::Compact),
        Err(DecodeError::InvalidFieldElement)
    );
    assert!(grumpkin_codec_mod::decode_scalar(&r_bytes, WireMode::Compact).is_ok());
}
