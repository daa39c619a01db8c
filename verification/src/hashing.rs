//! Content identifiers for payload records: the BLAKE3 hash of a
//! concatenation of a record's identifying fields, rendered in lowercase
//! hexadecimal. The concatenations themselves are built and specified
//! here, byte for byte; only the hash is the outside crate's.

use crate::decimal::{dec_chars_of, u64_to_dec_string};
use crate::hexcode::hex_chars_of;
use vstd::prelude::*;
use vstd::string::{StrSliceExecFns, StringSliceAdditionalSpecFns};
use vstd::utf8::encode_utf8;

verus! {

/// The BLAKE3 hash of a byte string: 32 bytes determined by the input
/// alone. The value stands for what `blake3::Hasher` computes; nothing
/// here defines it.
pub uninterp spec fn blake3_of(data: Seq<u8>) -> Seq<u8>;

/// Relies on `blake3::Hasher` (`new`/`update`/`finalize`) and
/// `Hash::to_hex`: the hash is a function of the input bytes alone, and
/// `to_hex` renders its 32 bytes as 64 lowercase hexadecimal characters.
#[verifier::external_body]
pub fn blake3_hex(data: &[u8]) -> (r: String)
    ensures
        r@ == hex_chars_of(blake3_of(data@)),
        r@.len() == 64,
{
    let mut hasher = blake3::Hasher::new();
    hasher.update(data);
    hasher.finalize().to_hex().to_string()
}

/// Appends a string's UTF-8 bytes to the buffer.
pub fn push_str_bytes(buf: &mut Vec<u8>, s: &str)
    ensures
        final(buf)@ == old(buf)@ + encode_utf8(s@),
{
    buf.extend_from_slice(s.as_bytes());
}

/// Appends the decimal rendering of `v`, as `Display` would print it.
pub fn push_dec_bytes(buf: &mut Vec<u8>, v: u64)
    ensures
        final(buf)@ == old(buf)@ + encode_utf8(dec_chars_of(v as nat)),
{
    let s = u64_to_dec_string(v);
    buf.extend_from_slice(s.as_str().as_bytes());
}

/// The UTF-8 bytes of an optional string; nothing when absent.
pub open spec fn opt_str_bytes(o: Option<String>) -> Seq<u8> {
    match o {
        Some(s) => encode_utf8(s@),
        None => Seq::empty(),
    }
}

/// The decimal rendering of an optional number; nothing when absent.
pub open spec fn opt_dec_bytes(o: Option<u32>) -> Seq<u8> {
    match o {
        Some(v) => encode_utf8(dec_chars_of(v as nat)),
        None => Seq::empty(),
    }
}

/// The four little-endian bytes of a `u32`, as `u32::to_le_bytes` lays
/// them out.
pub open spec fn le_bytes_of_u32(v: u32) -> Seq<u8> {
    seq![
        (v % 256) as u8,
        ((v / 256) % 256) as u8,
        ((v / 65536) % 256) as u8,
        ((v / 16777216) % 256) as u8,
    ]
}

/// Appends the four little-endian bytes of `v`.
pub fn push_le_bytes_u32(buf: &mut Vec<u8>, v: u32)
    ensures
        final(buf)@ == old(buf)@ + le_bytes_of_u32(v),
{
    buf.push((v % 256) as u8);
    buf.push(((v / 256) % 256) as u8);
    buf.push(((v / 65536) % 256) as u8);
    buf.push(((v / 16777216) % 256) as u8);
    proof {
        assert(buf@ =~= old(buf)@ + le_bytes_of_u32(v));
    }
}

} // verus!
