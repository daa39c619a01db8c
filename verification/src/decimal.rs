//! Decimal notation for unsigned integers: formatting a `u64` as its decimal
//! string, and parsing the decimal syntax accepted by `str::parse::<u64>`
//! (an optional leading `+`, then one or more ASCII digits).

use vstd::prelude::*;
use vstd::string::StringExecFns;
use vstd::utf8::encode_utf8;

verus! {

/// The character for one decimal digit value.
pub open spec fn digit_char(d: nat) -> char {
    if d == 0 {
        '0'
    } else if d == 1 {
        '1'
    } else if d == 2 {
        '2'
    } else if d == 3 {
        '3'
    } else if d == 4 {
        '4'
    } else if d == 5 {
        '5'
    } else if d == 6 {
        '6'
    } else if d == 7 {
        '7'
    } else if d == 8 {
        '8'
    } else {
        '9'
    }
}

/// The decimal representation of `n`, most significant digit first,
/// with no sign and no leading zeros (a single `'0'` for zero).
pub open spec fn dec_chars_of(n: nat) -> Seq<char>
    decreases n,
{
    if n < 10 {
        seq![digit_char(n)]
    } else {
        dec_chars_of(n / 10) + seq![digit_char(n % 10)]
    }
}

fn digit_to_str(d: u64) -> (s: &'static str)
    requires
        d < 10,
    ensures
        s@ == seq![digit_char(d as nat)],
{
    proof {
        reveal_strlit("0");
        reveal_strlit("1");
        reveal_strlit("2");
        reveal_strlit("3");
        reveal_strlit("4");
        reveal_strlit("5");
        reveal_strlit("6");
        reveal_strlit("7");
        reveal_strlit("8");
        reveal_strlit("9");
    }
    let s: &'static str = if d == 0 {
        "0"
    } else if d == 1 {
        "1"
    } else if d == 2 {
        "2"
    } else if d == 3 {
        "3"
    } else if d == 4 {
        "4"
    } else if d == 5 {
        "5"
    } else if d == 6 {
        "6"
    } else if d == 7 {
        "7"
    } else if d == 8 {
        "8"
    } else {
        "9"
    };
    proof {
        assert(s@ =~= seq![digit_char(d as nat)]);
    }
    s
}

/// Appends the decimal representation of `v` to `s`.
pub fn push_dec_chars(s: &mut String, v: u64)
    ensures
        final(s)@ == old(s)@ + dec_chars_of(v as nat),
    decreases v,
{
    if v >= 10 {
        push_dec_chars(s, v / 10);
        let ds = digit_to_str(v % 10);
        s.append(ds);
        proof {
            assert(final(s)@ =~= old(s)@ + dec_chars_of(v as nat));
        }
    } else {
        let ds = digit_to_str(v);
        s.append(ds);
        proof {
            assert(final(s)@ =~= old(s)@ + dec_chars_of(v as nat));
        }
    }
}

/// The decimal string of `v`, as `u64`'s `Display` would print it.
pub fn u64_to_dec_string(v: u64) -> (s: String)
    ensures
        s@ == dec_chars_of(v as nat),
{
    let mut s = String::new();
    push_dec_chars(&mut s, v);
    proof {
        assert(s@ =~= dec_chars_of(v as nat));
    }
    s
}

/// Every character of a decimal rendering is a digit.
proof fn lemma_dec_chars_digits(n: nat)
    ensures
        dec_chars_of(n).len() >= 1,
        forall|i: int|
            0 <= i < dec_chars_of(n).len() ==> '0' <= #[trigger] dec_chars_of(n)[i] <= '9',
    decreases n,
{
    if n >= 10 {
        lemma_dec_chars_digits(n / 10);
    }
}

/// An ASCII decimal digit, as a byte.
pub open spec fn is_digit_byte(b: u8) -> bool {
    48 <= b <= 57
}

pub open spec fn digit_byte_val(b: u8) -> nat {
    (b - 48) as nat
}

pub open spec fn all_digits(s: Seq<u8>) -> bool {
    forall|i: int| 0 <= i < s.len() ==> is_digit_byte(#[trigger] s[i])
}

/// The value of a string of decimal digit bytes, most significant first.
pub open spec fn dec_val(s: Seq<u8>) -> nat
    decreases s.len(),
{
    if s.len() == 0 {
        0
    } else {
        dec_val(s.drop_last()) * 10 + digit_byte_val(s.last())
    }
}

/// The input with one leading `'+'` removed, if present: `str::parse`
/// for unsigned integers accepts an optional leading plus sign.
pub open spec fn strip_plus(s: Seq<u8>) -> Seq<u8> {
    if s.len() > 0 && s[0] == 43 {
        s.drop_first()
    } else {
        s
    }
}

/// Whether `str::parse::<u64>` accepts these bytes.
pub open spec fn u64_parses(s: Seq<u8>) -> bool {
    &&& strip_plus(s).len() > 0
    &&& all_digits(strip_plus(s))
    &&& dec_val(strip_plus(s)) <= u64::MAX
}

/// The number the bytes denote, when `u64_parses` holds.
pub open spec fn u64_value(s: Seq<u8>) -> nat {
    dec_val(strip_plus(s))
}

/// The UTF-8 bytes of a decimal rendering are its digits, byte for byte,
/// and fold back to the rendered number.
proof fn lemma_dec_val_of_dec_bytes(n: nat)
    ensures
        encode_utf8(dec_chars_of(n)).len() == dec_chars_of(n).len(),
        all_digits(encode_utf8(dec_chars_of(n))),
        dec_val(encode_utf8(dec_chars_of(n))) == n,
    decreases n,
{
    let chars = dec_chars_of(n);
    lemma_dec_chars_digits(n);
    assert(vstd::utf8::is_ascii_chars(chars));
    vstd::utf8::is_ascii_chars_encode_utf8(chars);
    let bytes = encode_utf8(chars);
    assert forall|i: int| 0 <= i < bytes.len() implies is_digit_byte(#[trigger] bytes[i]) by {
        assert(bytes[i] == chars[i] as u8);
    }
    if n < 10 {
        assert(bytes =~= seq![(48 + n) as u8]);
        assert(bytes.drop_last() =~= Seq::<u8>::empty());
        assert(dec_val(bytes.drop_last()) == 0);
        assert(dec_val(bytes) == digit_byte_val((48 + n) as u8));
    } else {
        lemma_dec_val_of_dec_bytes(n / 10);
        let prefix = encode_utf8(dec_chars_of(n / 10));
        lemma_dec_chars_digits(n / 10);
        vstd::utf8::is_ascii_chars_encode_utf8(dec_chars_of(n / 10));
        assert(bytes.drop_last() =~= prefix);
        assert(bytes.last() == digit_char(n % 10) as u8);
        assert(dec_val(bytes) == n / 10 * 10 + n % 10);
        assert(n / 10 * 10 + n % 10 == n) by {
            vstd::arithmetic::div_mod::lemma_fundamental_div_mod(n as int, 10);
        }
    }
}

/// The decimal rendering of `v` parses back to `v`: what the signer prints
/// into the timestamp header, the verifier reads as the same number.
pub proof fn lemma_dec_round_trip(v: u64)
    ensures
        u64_parses(encode_utf8(dec_chars_of(v as nat))),
        u64_value(encode_utf8(dec_chars_of(v as nat))) == v,
{
    lemma_dec_val_of_dec_bytes(v as nat);
    let bytes = encode_utf8(dec_chars_of(v as nat));
    assert(is_digit_byte(bytes[0]));
    assert(strip_plus(bytes) == bytes);
}

/// A digit string's value only grows as more digits follow.
proof fn lemma_dec_val_prefix_le(s: Seq<u8>, i: int)
    requires
        0 <= i <= s.len(),
    ensures
        dec_val(s.subrange(0, i)) <= dec_val(s),
    decreases s.len() - i,
{
    if i < s.len() {
        let t = s.subrange(0, i + 1);
        assert(t.drop_last() =~= s.subrange(0, i));
        lemma_dec_val_prefix_le(s, i + 1);
        assert(dec_val(s.subrange(0, i + 1)) == dec_val(s.subrange(0, i)) * 10 + digit_byte_val(
            s[i],
        ));
    } else {
        assert(s.subrange(0, i) =~= s);
    }
}

/// Parses the decimal syntax of `str::parse::<u64>`: an optional
/// leading `'+'`, then one or more digits, with the value within range.
pub fn parse_u64_dec(s: &[u8]) -> (r: Option<u64>)
    ensures
        r is Some <==> u64_parses(s@),
        r matches Some(v) ==> v as nat == u64_value(s@),
{
    let n = s.len();
    let start: usize = if n > 0 && s[0] == 43 {
        1
    } else {
        0
    };
    proof {
        assert(strip_plus(s@) =~= s@.subrange(start as int, n as int));
    }
    if start >= n {
        return None;
    }
    let ghost digits = s@.subrange(start as int, n as int);
    proof {
        assert(digits == strip_plus(s@));
    }
    let mut val: u64 = 0;
    let mut i: usize = start;
    while i < n
        invariant
            start <= i <= n,
            n == s@.len(),
            digits == s@.subrange(start as int, n as int),
            digits == strip_plus(s@),
            all_digits(s@.subrange(start as int, i as int)),
            val as nat == dec_val(s@.subrange(start as int, i as int)),
        decreases n - i,
    {
        let b = s[i];
        if b < 48 || b > 57 {
            proof {
                assert(digits[i - start] == s@[i as int]);
                assert(!is_digit_byte(digits[i - start]));
            }
            return None;
        }
        let d = (b - 48) as u64;
        proof {
            assert(s@.subrange(start as int, i + 1).drop_last() =~= s@.subrange(
                start as int,
                i as int,
            ));
            assert(dec_val(s@.subrange(start as int, i + 1)) == dec_val(
                s@.subrange(start as int, i as int),
            ) * 10 + digit_byte_val(s@[i as int]));
        }
        if val > (u64::MAX - d) / 10 {
            proof {
                assert(val * 10 + d > u64::MAX) by (nonlinear_arith)
                    requires
                        val > (u64::MAX - d) / 10,
                        d <= 9,
                ;
                lemma_dec_val_prefix_le(digits, i + 1 - start);
                assert(digits.subrange(0, i + 1 - start) =~= s@.subrange(start as int, i + 1));
                assert(dec_val(digits) > u64::MAX);
            }
            return None;
        }
        proof {
            assert(val * 10 + d <= u64::MAX) by (nonlinear_arith)
                requires
                    val <= (u64::MAX - d) / 10,
                    d <= 9,
            ;
        }
        val = val * 10 + d;
        i += 1;
    }
    proof {
        assert(s@.subrange(start as int, n as int) =~= digits);
        assert(u64_parses(s@));
    }
    Some(val)
}

} // verus!
