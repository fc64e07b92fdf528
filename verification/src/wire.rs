//! Wire-level framing shared by every value kind: the two wire modes, the
//! decode error taxonomy, and the hexadecimal text form.
//!
//! Every value kind is carried on the wire as a fixed 32-byte canonical
//! representation. In `Compact` mode those bytes travel unchanged; in
//! `HumanReadable` mode they travel as 64 lowercase hexadecimal characters
//! (decoding also accepts uppercase digits). Framing is independent of the
//! field/curve semantics: a framing failure is always `MalformedEncoding`.

use vstd::prelude::*;

verus! {

/// How a value is written on the wire; chosen by the serialization context,
/// never inferred from the payload.
#[derive(Clone, Copy, Debug, PartialEq, Eq, Structural)]
pub enum WireMode {
    /// 64 hexadecimal characters, lowercase on encode.
    HumanReadable,
    /// The raw 32 canonical bytes.
    Compact,
}

/// Why a decode was rejected.
#[derive(Clone, Copy, Debug, PartialEq, Eq, Structural)]
pub enum DecodeError {
    /// The input's length or character set does not fit the fixed frame.
    MalformedEncoding,
    /// Well-framed bytes whose integer value is not below the field modulus.
    InvalidFieldElement,
    /// Well-framed bytes that do not decompress to a point on the curve.
    InvalidCurvePoint,
}

/// The lowercase ASCII hexadecimal digit for a nibble below 16.
pub open spec fn nibble_char(n: u8) -> u8 {
    if n < 10 {
        (48 + n) as u8
    } else {
        (87 + n) as u8
    }
}

/// An ASCII hexadecimal digit, either case.
pub open spec fn is_hex_digit(c: u8) -> bool {
    (48 <= c && c <= 57) || (97 <= c && c <= 102) || (65 <= c && c <= 70)
}

/// An ASCII digit `0`-`9` or lowercase `a`-`f`.
pub open spec fn is_lower_hex_digit(c: u8) -> bool {
    (48 <= c && c <= 57) || (97 <= c && c <= 102)
}

/// The nibble value of an ASCII hexadecimal digit.
pub open spec fn hex_val(c: u8) -> u8 {
    if c <= 57 {
        (c - 48) as u8
    } else if c <= 70 {
        (c - 55) as u8
    } else {
        (c - 87) as u8
    }
}

/// The lowercase hexadecimal rendering of a byte sequence: two digits per
/// byte, high nibble first, no prefix and no separators.
pub open spec fn hex_seq(b: Seq<u8>) -> Seq<u8> {
    Seq::new(
        b.len() * 2,
        |i: int| if i % 2 == 0 { nibble_char(b[i / 2] / 16) } else { nibble_char(b[i / 2] % 16) },
    )
}

/// The bytes read back from a sequence of hexadecimal digits.
pub open spec fn unhex_seq(s: Seq<u8>) -> Seq<u8> {
    Seq::new(s.len() / 2, |i: int| ((hex_val(s[2 * i]) * 16 + hex_val(s[2 * i + 1])) as u8))
}

/// What 32 canonical bytes look like on the wire in the given mode.
pub open spec fn wire_of(b: Seq<u8>, m: WireMode) -> Seq<u8> {
    match m {
        WireMode::HumanReadable => hex_seq(b),
        WireMode::Compact => b,
    }
}

/// The 32 canonical bytes carried by a well-framed wire input, or nothing if
/// the input's length or character set breaks the frame.
pub open spec fn framed(input: Seq<u8>, m: WireMode) -> Option<Seq<u8>> {
    match m {
        WireMode::HumanReadable => if input.len() == 64 && (forall|i: int|
            0 <= i < input.len() ==> is_hex_digit(#[trigger] input[i])) {
            Some(unhex_seq(input))
        } else {
            None
        },
        WireMode::Compact => if input.len() == 32 {
            Some(input)
        } else {
            None
        },
    }
}

/// The fixed wire pattern of the point at infinity: 31 zero bytes and the
/// infinity flag bit in the last byte.
pub open spec fn infinity_bytes() -> Seq<u8> {
    Seq::new(32, |i: int| if i == 31 { 64u8 } else { 0u8 })
}

fn nibble_to_ascii(n: u8) -> (r: u8)
    requires
        n < 16,
    ensures
        r == nibble_char(n),
{
    if n < 10 {
        48 + n
    } else {
        87 + n
    }
}

/// The nibble value of an ASCII byte, or nothing if it is not a hexadecimal
/// digit.
fn ascii_hex_val(c: u8) -> (r: Option<u8>)
    ensures
        match r {
            Some(v) => is_hex_digit(c) && v == hex_val(c) && v < 16,
            None => !is_hex_digit(c),
        },
{
    if 48 <= c && c <= 57 {
        Some(c - 48)
    } else if 97 <= c && c <= 102 {
        Some(c - 87)
    } else if 65 <= c && c <= 70 {
        Some(c - 55)
    } else {
        None
    }
}

/// Renders bytes as lowercase hexadecimal text.
pub fn hex_encode(b: &Vec<u8>) -> (r: Vec<u8>)
    ensures
        r@ == hex_seq(b@),
{
    let mut out: Vec<u8> = Vec::new();
    let mut i: usize = 0;
    while i < b.len()
        invariant
            i <= b@.len(),
            out@.len() == 2 * i,
            forall|j: int| 0 <= j < out@.len() ==> out@[j] == #[trigger] hex_seq(b@)[j],
        decreases b@.len() - i,
    {
        let byte = b[i];
        out.push(nibble_to_ascii(byte / 16));
        out.push(nibble_to_ascii(byte % 16));
        i = i + 1;
    }
    assert(out@ =~= hex_seq(b@));
    out
}

/// Reads hexadecimal text (either case) back into bytes; rejects any input
/// that holds a character outside `[0-9a-fA-F]`.
pub fn hex_decode(s: &Vec<u8>) -> (r: Option<Vec<u8>>)
    requires
        s@.len() % 2 == 0,
    ensures
        match r {
            Some(b) => (forall|i: int| 0 <= i < s@.len() ==> is_hex_digit(#[trigger] s@[i]))
                && b@ == unhex_seq(s@),
            None => !(forall|i: int| 0 <= i < s@.len() ==> is_hex_digit(#[trigger] s@[i])),
        },
{
    let mut out: Vec<u8> = Vec::new();
    let n: usize = s.len();
    let pairs: usize = n / 2;
    let mut i: usize = 0;
    while i < pairs
        invariant
            s@.len() % 2 == 0,
            n == s@.len(),
            pairs == s@.len() / 2,
            i <= pairs,
            out@.len() == i,
            forall|j: int| 0 <= j < 2 * i ==> is_hex_digit(#[trigger] s@[j]),
            forall|j: int| 0 <= j < out@.len() ==> out@[j] == #[trigger] unhex_seq(s@)[j],
        decreases pairs - i,
    {
        assert(2 * i + 1 < s@.len());
        let hi = match ascii_hex_val(s[2 * i]) {
            Some(v) => v,
            None => {
                return None;
            },
        };
        let lo = match ascii_hex_val(s[2 * i + 1]) {
            Some(v) => v,
            None => {
                return None;
            },
        };
        out.push(hi * 16 + lo);
        i = i + 1;
    }
    assert(out@ =~= unhex_seq(s@));
    Some(out)
}

/// Copies the canonical bytes unchanged.
fn copy_bytes(b: &Vec<u8>) -> (r: Vec<u8>)
    ensures
        r@ == b@,
{
    let mut out: Vec<u8> = Vec::new();
    let mut i: usize = 0;
    while i < b.len()
        invariant
            i <= b@.len(),
            out@ == b@.subrange(0, i as int),
        decreases b@.len() - i,
    {
        out.push(b[i]);
        i = i + 1;
    }
    assert(out@ =~= b@);
    out
}

/// Renders 32 canonical bytes in the chosen wire mode.
pub fn encode_repr(b: &Vec<u8>, m: WireMode) -> (r: Vec<u8>)
    requires
        b@.len() == 32,
    ensures
        r@ == wire_of(b@, m),
{
    match m {
        WireMode::HumanReadable => hex_encode(b),
        WireMode::Compact => copy_bytes(b),
    }
}

/// Recovers the 32 canonical bytes from a wire input, rejecting any input
/// whose length or character set breaks the fixed frame.
pub fn decode_repr(input: &Vec<u8>, m: WireMode) -> (r: Result<Vec<u8>, DecodeError>)
    ensures
        framed(input@, m) is None ==> r == Err::<Vec<u8>, DecodeError>(
            DecodeError::MalformedEncoding,
        ),
        framed(input@, m) matches Some(b) ==> r matches Ok(v) && v@ == b && v@.len() == 32,
{
    match m {
        WireMode::HumanReadable => {
            if input.len() != 64 {
                Err(DecodeError::MalformedEncoding)
            } else {
                match hex_decode(input) {
                    Some(b) => Ok(b),
                    None => Err(DecodeError::MalformedEncoding),
                }
            }
        },
        WireMode::Compact => {
            if input.len() != 32 {
                Err(DecodeError::MalformedEncoding)
            } else {
                Ok(copy_bytes(input))
            }
        },
    }
}

/// Reading a hexadecimal digit back undoes writing a nibble.
proof fn lemma_hex_val_nibble(n: u8)
    requires
        n < 16,
    ensures
        hex_val(nibble_char(n)) == n,
        is_lower_hex_digit(nibble_char(n)),
{
}

/// Reading hexadecimal text back undoes rendering it.
pub proof fn lemma_unhex_hex(b: Seq<u8>)
    ensures
        unhex_seq(hex_seq(b)) == b,
{
    let h = hex_seq(b);
    assert forall|i: int| 0 <= i < b.len() implies #[trigger] unhex_seq(h)[i] == b[i] by {
        assert(h[2 * i] == nibble_char(b[i] / 16));
        assert(h[2 * i + 1] == nibble_char(b[i] % 16));
        lemma_hex_val_nibble(b[i] / 16);
        lemma_hex_val_nibble(b[i] % 16);
    }
    assert(unhex_seq(hex_seq(b)) =~= b);
}

/// Canonicity of the wire forms: the compact form is exactly 32 bytes, and
/// the human-readable form is exactly 64 lowercase hexadecimal digits.
pub proof fn lemma_wire_canonical(b: Seq<u8>)
    requires
        b.len() == 32,
    ensures
        wire_of(b, WireMode::Compact).len() == 32,
        wire_of(b, WireMode::HumanReadable).len() == 64,
        forall|i: int|
            0 <= i < 64 ==> is_lower_hex_digit(#[trigger] wire_of(b, WireMode::HumanReadable)[i]),
{
    assert forall|i: int| 0 <= i < 64 implies is_lower_hex_digit(
        #[trigger] wire_of(b, WireMode::HumanReadable)[i],
    ) by {
        if i % 2 == 0 {
            lemma_hex_val_nibble(b[i / 2] / 16);
        } else {
            lemma_hex_val_nibble(b[i / 2] % 16);
        }
    }
}

/// Decoding a wire rendering recovers exactly the bytes that were rendered,
/// in either mode: the framing layer round-trips.
pub proof fn lemma_wire_round_trip(b: Seq<u8>, m: WireMode)
    requires
        b.len() == 32,
    ensures
        framed(wire_of(b, m), m) == Some(b),
{
    match m {
        WireMode::HumanReadable => {
            let h = hex_seq(b);
            assert forall|i: int| 0 <= i < h.len() implies is_hex_digit(#[trigger] h[i]) by {
                if i % 2 == 0 {
                    lemma_hex_val_nibble(b[i / 2] / 16);
                } else {
                    lemma_hex_val_nibble(b[i / 2] % 16);
                }
            }
            lemma_unhex_hex(b);
        },
        WireMode::Compact => {},
    }
}

} // verus!

