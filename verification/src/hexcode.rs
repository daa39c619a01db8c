//! Hexadecimal notation for byte strings: the encoding produced by
//! `hex::encode` (lowercase, two digits per byte) and the decoding accepted
//! by `hex::decode` (an even number of digits of either case).

use vstd::prelude::*;

verus! {

/// The lowercase character for one hexadecimal digit value.
pub open spec fn hex_digit_char(d: nat) -> char {
    if d < 10 {
        crate::decimal::digit_char(d)
    } else if d == 10 {
        'a'
    } else if d == 11 {
        'b'
    } else if d == 12 {
        'c'
    } else if d == 13 {
        'd'
    } else if d == 14 {
        'e'
    } else {
        'f'
    }
}

/// The lowercase hexadecimal representation of a byte string,
/// two digits per byte, most significant digit first.
pub open spec fn hex_chars_of(b: Seq<u8>) -> Seq<char>
    decreases b.len(),
{
    if b.len() == 0 {
        Seq::empty()
    } else {
        seq![
            hex_digit_char((b[0] / 16) as nat),
            hex_digit_char((b[0] % 16) as nat),
        ] + hex_chars_of(b.drop_first())
    }
}

/// A hexadecimal digit, of either case.
pub open spec fn is_hex_digit_char(c: char) -> bool {
    ||| 48 <= c as u32 <= 57
    ||| 97 <= c as u32 <= 102
    ||| 65 <= c as u32 <= 70
}

/// The value of a hexadecimal digit of either case.
pub open spec fn hex_digit_val(c: char) -> nat {
    if 48 <= c as u32 <= 57 {
        (c as u32 - 48) as nat
    } else if 97 <= c as u32 <= 102 {
        (c as u32 - 87) as nat
    } else if 65 <= c as u32 <= 70 {
        (c as u32 - 55) as nat
    } else {
        0
    }
}

/// The strings `hex::decode` accepts: an even number of hex digits.
pub open spec fn valid_hex_chars(s: Seq<char>) -> bool {
    &&& s.len() % 2 == 0
    &&& forall|i: int| 0 <= i < s.len() ==> is_hex_digit_char(#[trigger] s[i])
}

/// The bytes a string of hexadecimal digit pairs denotes.
pub open spec fn hex_decode_chars(s: Seq<char>) -> Seq<u8>
    decreases s.len(),
{
    if s.len() < 2 {
        Seq::empty()
    } else {
        seq![(hex_digit_val(s[0]) * 16 + hex_digit_val(s[1])) as u8] + hex_decode_chars(s.skip(2))
    }
}

/// Relies on `hex::encode`: lowercase hexadecimal, two digits per byte.
#[verifier::external_body]
pub fn hex_encode(data: &[u8]) -> (r: String)
    ensures
        r@ == hex_chars_of(data@),
{
    hex::encode(data)
}

/// Relies on `hex::decode`: succeeds exactly on an even number of
/// hexadecimal digits of either case (all such characters are ASCII, so the
/// character-level condition coincides with the byte-level one the crate
/// checks), and returns the bytes the digit pairs denote.
#[verifier::external_body]
pub fn hex_decode(s: &str) -> (r: Option<Vec<u8>>)
    ensures
        r is Some <==> valid_hex_chars(s@),
        r matches Some(b) ==> b@ == hex_decode_chars(s@),
{
    match hex::decode(s) {
        Ok(b) => Some(b),
        Err(_) => None,
    }
}

/// The hexadecimal representation is exactly twice as long as the bytes.
pub proof fn lemma_hex_chars_len(b: Seq<u8>)
    ensures
        hex_chars_of(b).len() == 2 * b.len(),
    decreases b.len(),
{
    if b.len() > 0 {
        lemma_hex_chars_len(b.drop_first());
    }
}

/// Decoding inverts encoding: the hexadecimal representation of any byte
/// string is itself valid, and denotes the original bytes.
pub proof fn lemma_hex_round_trip(b: Seq<u8>)
    ensures
        valid_hex_chars(hex_chars_of(b)),
        hex_decode_chars(hex_chars_of(b)) == b,
    decreases b.len(),
{
    if b.len() == 0 {
        assert(hex_decode_chars(hex_chars_of(b)) =~= b);
    } else {
        lemma_hex_round_trip(b.drop_first());
        let s = hex_chars_of(b);
        assert(s.skip(2) =~= hex_chars_of(b.drop_first()));
        assert(hex_digit_val(hex_digit_char((b[0] / 16) as nat)) == b[0] / 16);
        assert(hex_digit_val(hex_digit_char((b[0] % 16) as nat)) == b[0] % 16);
        assert((b[0] / 16) * 16 + b[0] % 16 == b[0]) by {
            vstd::arithmetic::div_mod::lemma_fundamental_div_mod(b[0] as int, 16);
        }
        assert(hex_decode_chars(s) =~= b);
    }
}

} // verus!
