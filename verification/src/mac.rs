//! The keyed hash behind the request signatures: HMAC-SHA256 as computed
//! by the `hmac` and `sha2` crates, named at the specification level and
//! reached through two trusted wrappers.

use hmac::{Hmac, Mac};
use sha2::Sha256;
use vstd::prelude::*;
use vstd::string::StringSliceAdditionalSpecFns;

verus! {

/// The HMAC-SHA256 authentication tag of a message under a key: 32 bytes
/// determined by the key and message bytes alone. The value stands for
/// what `Hmac<Sha256>` computes; nothing here defines it.
pub uninterp spec fn hmac_sha256_of(key: Seq<u8>, msg: Seq<u8>) -> Seq<u8>;

/// Relies on `Hmac::<Sha256>::new_from_slice`, `Mac::update` and
/// `Mac::finalize`: the tag is a function of the key and message bytes
/// alone, SHA-256 wide (32 bytes); `new_from_slice` accepts a key of any
/// length, so the `expect` cannot fire.
#[verifier::external_body]
pub fn hmac_sha256_tag(secret: &str, message: &str) -> (r: Vec<u8>)
    ensures
        r@ == hmac_sha256_of(secret.spec_bytes(), message.spec_bytes()),
        r@.len() == 32,
{
    let mut m = <Hmac<Sha256> as Mac>::new_from_slice(secret.as_bytes())
        .expect("HMAC accepts a key of any size");
    m.update(message.as_bytes());
    m.finalize().into_bytes().to_vec()
}

/// Relies on `Mac::verify_slice`: a constant-time comparison that succeeds
/// exactly when `tag` equals the full computed HMAC-SHA256 tag (a slice of
/// any other length or content is rejected).
#[verifier::external_body]
pub fn hmac_sha256_matches(secret: &str, message: &str, tag: &[u8]) -> (r: bool)
    ensures
        r == (tag@ == hmac_sha256_of(secret.spec_bytes(), message.spec_bytes())),
{
    let mut m = <Hmac<Sha256> as Mac>::new_from_slice(secret.as_bytes())
        .expect("HMAC accepts a key of any size");
    m.update(message.as_bytes());
    m.verify_slice(tag).is_ok()
}

} // verus!
