//! Hex encoding and decoding of byte strings.
//!
//! The embedded secret record stores its nonce, ciphertext and application
//! identifier as hex strings.  Encoding and decoding are done by the `hex`
//! crate behind trusted wrappers; the spec functions here state exactly what
//! those calls return, so everything built on them is verified against a full
//! mathematical description of the format.

use vstd::prelude::*;

use crate::encryption::Error;

verus! {

/// The value of one hex digit, or `None` for any other character.
/// Both letter cases are accepted, as the `hex` crate accepts them.
pub open spec fn hex_digit_value(c: char) -> Option<u8> {
    let i = c as int;
    if 48 <= i && i <= 57 {
        Some((i - 48) as u8)
    } else if 97 <= i && i <= 102 {
        Some((i - 87) as u8)
    } else if 65 <= i && i <= 70 {
        Some((i - 55) as u8)
    } else {
        None
    }
}

/// A well-formed hex string: an even number of hex digits.
pub open spec fn is_hex_seq(s: Seq<char>) -> bool {
    &&& s.len() % 2 == 0
    &&& forall|i: int| 0 <= i < s.len() ==> (#[trigger] hex_digit_value(s[i])) is Some
}

/// The byte encoded by a pair of hex digits, high digit first.
pub open spec fn hex_pair_value(hi: char, lo: char) -> u8 {
    (hex_digit_value(hi).unwrap() * 16 + hex_digit_value(lo).unwrap()) as u8
}

/// The bytes encoded by a hex string, two digits per byte.
pub open spec fn hex_decode_seq(s: Seq<char>) -> Seq<u8>
    decreases s.len(),
{
    if s.len() < 2 {
        Seq::empty()
    } else {
        seq![hex_pair_value(s[0], s[1])] + hex_decode_seq(s.skip(2))
    }
}

/// The lower-case hex digit for a value below sixteen.
pub open spec fn hex_digit_char(v: u8) -> char {
    if v < 10 {
        ((v + 48) as u8) as char
    } else {
        ((v + 87) as u8) as char
    }
}

/// The lower-case hex string encoding a byte string, two digits per byte.
pub open spec fn hex_encode_seq(b: Seq<u8>) -> Seq<char>
    decreases b.len(),
{
    if b.len() == 0 {
        Seq::empty()
    } else {
        seq![hex_digit_char(b[0] / 16), hex_digit_char(b[0] % 16)] + hex_encode_seq(b.skip(1))
    }
}

/// Relies on `hex::decode`: it returns the encoded bytes for an even-length
/// string of hex digits of either case, and an error for any other input.
#[verifier::external_body]
pub(crate) fn hex_decode(s: &str) -> (r: Result<Vec<u8>, Error>)
    ensures
        match r {
            Ok(v) => is_hex_seq(s@) && v@ == hex_decode_seq(s@),
            Err(e) => !is_hex_seq(s@) && e == Error::Cipher,
        },
{
    hex::decode(s).map_err(|_| Error::Cipher)
}

/// Relies on `hex::encode`: it returns the lower-case hex encoding of the
/// bytes, two digits per byte.
#[verifier::external_body]
pub(crate) fn hex_encode(b: &[u8]) -> (r: String)
    ensures
        r@ == hex_encode_seq(b@),
{
    hex::encode(b)
}

/// A hex digit character always decodes back to the value it encodes.
proof fn lemma_hex_digit_round_trip(v: u8)
    requires
        v < 16,
    ensures
        hex_digit_value(hex_digit_char(v)) == Some(v),
{
}

/// Law: decoding inverts encoding.  Every byte string comes back unchanged
/// from its hex encoding, and the encoding is always a well-formed hex string.
pub proof fn lemma_hex_round_trip(b: Seq<u8>)
    ensures
        is_hex_seq(hex_encode_seq(b)),
        hex_decode_seq(hex_encode_seq(b)) == b,
        hex_encode_seq(b).len() == 2 * b.len(),
    decreases b.len(),
{
    if b.len() == 0 {
        assert(hex_decode_seq(hex_encode_seq(b)) =~= b);
    } else {
        let hi = hex_digit_char(b[0] / 16);
        let lo = hex_digit_char(b[0] % 16);
        let rest = hex_encode_seq(b.skip(1));
        lemma_hex_round_trip(b.skip(1));
        lemma_hex_digit_round_trip(b[0] / 16);
        lemma_hex_digit_round_trip(b[0] % 16);
        let s = hex_encode_seq(b);
        assert(s == seq![hi, lo] + rest);
        assert forall|i: int| 0 <= i < s.len() implies (#[trigger] hex_digit_value(s[i])) is Some by {
            if i >= 2 {
                assert(s[i] == rest[i - 2]);
            }
        }
        assert(hex_pair_value(hi, lo) == b[0]);
        assert(s.skip(2) =~= rest);
        assert(hex_decode_seq(s) =~= b);
    }
}

} // verus!
