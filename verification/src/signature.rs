//! The authentication check itself: HMAC-SHA256 signature generation and
//! verification over `timestamp || request_id`, replay-window enforcement
//! against the verifier's clock, and the single accept/reject decision over
//! a request's credential headers.
//!
//! The replay window is symmetric: a claimed timestamp may lie up to
//! [`REPLAY_WINDOW_SECS`] seconds on either side of the verifier's clock,
//! tolerating clock skew in both directions. Verification that bypasses the
//! window is a separately named entry point,
//! [`verify_signature_no_timestamp_check`], never a default.

use crate::decimal::{dec_chars_of, parse_u64_dec, u64_parses, u64_to_dec_string, u64_value};
use crate::headers::{lookup, HeaderMap};
use crate::hexcode::{
    hex_chars_of, hex_decode, hex_decode_chars, hex_encode, lemma_hex_chars_len,
    lemma_hex_round_trip, valid_hex_chars,
};
use crate::mac::{hmac_sha256_matches, hmac_sha256_of, hmac_sha256_tag};
use crate::version::{backend_version_chars, backend_version_string, verify_version,
    version_compatible};
use vstd::prelude::*;
use vstd::string::{StringExecFns, StringSliceAdditionalSpecFns, StrSliceExecFns};
use vstd::utf8::encode_utf8;

verus! {

/// Why a request was rejected. The reasons carry only safe diagnostic
/// context: never the expected signature, never secret material.
pub enum AuthError {
    /// A required header was absent; the payload names it.
    MissingHeader(String),
    /// The claimed version is not compatible with the backend's version.
    VersionIncompatible { received: String, required: String },
    /// The signature header was present but empty.
    EmptySignature,
    /// The signature was not a hexadecimal string.
    SignatureDecodeError,
    /// The decoded signature differs from the recomputed tag.
    SignatureMismatch,
    /// The claimed timestamp lies outside the replay window; the payload
    /// is its distance from the verifier's clock, in seconds.
    TimestampOutOfWindow { delta: u64 },
}

/// The replay window, in seconds, on either side of the verifier's clock.
pub const REPLAY_WINDOW_SECS: u64 = 300;

/// The distance in seconds between the verifier's clock and the claimed
/// timestamp.
pub open spec fn time_delta(now: u64, timestamp: u64) -> u64 {
    if now >= timestamp {
        (now - timestamp) as u64
    } else {
        (timestamp - now) as u64
    }
}

/// The symmetric replay window: the claimed timestamp lies within
/// [`REPLAY_WINDOW_SECS`] of the verifier's clock, in either direction.
pub open spec fn in_window(now: u64, timestamp: u64) -> bool {
    time_delta(now, timestamp) <= REPLAY_WINDOW_SECS
}

/// The signed material: the decimal timestamp immediately followed by the
/// request id, with no separator.
pub open spec fn material_chars(timestamp: u64, request_id: Seq<char>) -> Seq<char> {
    dec_chars_of(timestamp as nat) + request_id
}

/// The HMAC-SHA256 tag the signer and the verifier both compute: keyed by
/// the secret's UTF-8 bytes, over the signed material's UTF-8 bytes.
pub open spec fn expected_tag(secret: Seq<char>, timestamp: u64, request_id: Seq<char>) -> Seq<
    u8,
> {
    hmac_sha256_of(encode_utf8(secret), encode_utf8(material_chars(timestamp, request_id)))
}

/// A received signature passes the cryptographic check: it is hexadecimal
/// and its decoded bytes equal the expected tag.
pub open spec fn signature_accepted(
    secret: Seq<char>,
    timestamp: u64,
    request_id: Seq<char>,
    signature: Seq<char>,
) -> bool {
    &&& valid_hex_chars(signature)
    &&& hex_decode_chars(signature) == expected_tag(secret, timestamp, request_id)
}

/// The exact verdict of signature verification against a clock reading
/// `now`: success exactly on an in-window timestamp and an accepted
/// signature, and otherwise the specific rejection, decided in this order:
/// the window first, then hexadecimal decoding, then the tag comparison.
pub open spec fn signature_verdict(
    r: Result<(), AuthError>,
    secret: Seq<char>,
    timestamp: u64,
    request_id: Seq<char>,
    signature: Seq<char>,
    now: u64,
) -> bool {
    &&& (r is Ok <==> in_window(now, timestamp) && signature_accepted(
        secret,
        timestamp,
        request_id,
        signature,
    ))
    &&& (!in_window(now, timestamp) ==> (r matches Err(AuthError::TimestampOutOfWindow { delta })
        && delta == time_delta(now, timestamp)))
    &&& (in_window(now, timestamp) && !valid_hex_chars(signature) ==> r matches Err(
        AuthError::SignatureDecodeError,
    ))
    &&& (in_window(now, timestamp) && valid_hex_chars(signature) && hex_decode_chars(signature)
        != expected_tag(secret, timestamp, request_id) ==> r matches Err(
        AuthError::SignatureMismatch,
    ))
}

/// Relies on chrono's `Utc::now`: the verifier's wall clock, in whole
/// seconds since the Unix epoch. Nothing is promised of the reading.
#[verifier::external_body]
fn now_unix_seconds() -> u64 {
    chrono::Utc::now().timestamp() as u64
}

/// The cryptographic part of verification: decode the received signature
/// and compare it, in constant time, against the recomputed tag.
fn verify_signature_tag(
    secret: &str,
    timestamp: u64,
    request_id: &str,
    received_signature: &str,
) -> (r: Result<(), AuthError>)
    ensures
        r is Ok <==> signature_accepted(secret@, timestamp, request_id@, received_signature@),
        !valid_hex_chars(received_signature@) ==> r matches Err(AuthError::SignatureDecodeError),
        valid_hex_chars(received_signature@) && hex_decode_chars(received_signature@)
            != expected_tag(secret@, timestamp, request_id@) ==> r matches Err(
            AuthError::SignatureMismatch,
        ),
{
    let mut material = u64_to_dec_string(timestamp);
    material.append(request_id);
    match hex_decode(received_signature) {
        None => Err(AuthError::SignatureDecodeError),
        Some(decoded) => {
            if hmac_sha256_matches(secret, material.as_str(), decoded.as_slice()) {
                Ok(())
            } else {
                Err(AuthError::SignatureMismatch)
            }
        },
    }
}

/// Verifies a request signature against an explicit clock reading, so that
/// the replay window can be checked deterministically.
pub fn verify_signature_at(
    secret: &str,
    timestamp: u64,
    request_id: &str,
    received_signature: &str,
    now: u64,
) -> (r: Result<(), AuthError>)
    ensures
        signature_verdict(r, secret@, timestamp, request_id@, received_signature@, now),
{
    let delta = if now >= timestamp {
        now - timestamp
    } else {
        timestamp - now
    };
    if delta > REPLAY_WINDOW_SECS {
        return Err(AuthError::TimestampOutOfWindow { delta });
    }
    verify_signature_tag(secret, timestamp, request_id, received_signature)
}

/// Verifies a request signature against the verifier's wall clock. The
/// verdict is exact for whatever the clock read; in particular a signature
/// that fails the cryptographic check is rejected at every clock reading.
pub fn verify_signature(
    secret: &str,
    timestamp: u64,
    request_id: &str,
    received_signature: &str,
) -> (r: Result<(), AuthError>)
    ensures
        exists|now: u64|
            #[trigger] signature_verdict(
                r,
                secret@,
                timestamp,
                request_id@,
                received_signature@,
                now,
            ),
{
    let now = now_unix_seconds();
    verify_signature_at(secret, timestamp, request_id, received_signature, now)
}

/// Verifies a request signature with the replay window bypassed: the
/// explicit entry point for re-verifying an already-accepted request.
pub fn verify_signature_no_timestamp_check(
    secret: &str,
    timestamp: u64,
    request_id: &str,
    received_signature: &str,
) -> (r: Result<(), AuthError>)
    ensures
        r is Ok <==> signature_accepted(secret@, timestamp, request_id@, received_signature@),
        !valid_hex_chars(received_signature@) ==> r matches Err(AuthError::SignatureDecodeError),
        valid_hex_chars(received_signature@) && hex_decode_chars(received_signature@)
            != expected_tag(secret@, timestamp, request_id@) ==> r matches Err(
            AuthError::SignatureMismatch,
        ),
{
    verify_signature_tag(secret, timestamp, request_id, received_signature)
}

/// A freshly generated credential pair: the decimal rendering of the
/// timestamp, and the lowercase hexadecimal of the expected tag.
pub open spec fn generated_pair(
    secret: Seq<char>,
    request_id: Seq<char>,
    timestamp: u64,
    ts: Seq<char>,
    sig: Seq<char>,
) -> bool {
    &&& ts == dec_chars_of(timestamp as nat)
    &&& sig == hex_chars_of(expected_tag(secret, timestamp, request_id))
}

/// Builds the credential pair for an explicit timestamp: the timestamp as
/// a decimal string, and the signature as lowercase hexadecimal of the
/// HMAC-SHA256 tag over `timestamp || request_id`.
pub fn generate_signature_at(secret: &str, request_id: &str, timestamp: u64) -> (r: (
    String,
    String,
))
    ensures
        generated_pair(secret@, request_id@, timestamp, r.0@, r.1@),
        r.1@.len() == 64,
{
    let ts = u64_to_dec_string(timestamp);
    let mut material = ts.clone();
    material.append(request_id);
    let tag = hmac_sha256_tag(secret, material.as_str());
    let sig = hex_encode(tag.as_slice());
    proof {
        lemma_hex_chars_len(tag@);
    }
    (ts, sig)
}

/// Builds a credential pair against the verifier's wall clock: a fresh
/// timestamp is read on every call.
pub fn generate_signature(secret: &str, request_id: &str) -> (r: (String, String))
    ensures
        exists|timestamp: u64| #[trigger] generated_pair(
            secret@,
            request_id@,
            timestamp,
            r.0@,
            r.1@,
        ),
{
    let timestamp = now_unix_seconds();
    generate_signature_at(secret, request_id, timestamp)
}

/// The header carrying the caller's protocol version.
pub open spec fn version_key() -> Seq<char> {
    "x-edamame-version"@
}

/// The header carrying the decimal timestamp.
pub open spec fn timestamp_key() -> Seq<char> {
    "x-edamame-timestamp"@
}

/// The header carrying the caller-chosen request identifier.
pub open spec fn request_id_key() -> Seq<char> {
    "x-edamame-request-id"@
}

/// The header carrying the hexadecimal signature.
pub open spec fn signature_key() -> Seq<char> {
    "x-edamame-signature"@
}

/// The timestamp a header denotes: its parsed value, or zero where it does
/// not parse as a decimal `u64`.
pub open spec fn u64_or_zero(s: Seq<u8>) -> u64 {
    if u64_parses(s) {
        u64_value(s) as u64
    } else {
        0
    }
}

/// The exact verdict over a header map against a clock reading `now`,
/// decided in this order: the four required headers (each absence is the
/// distinct failure naming that header), the version gate, the non-empty
/// signature check, and finally the signature verdict itself.
pub open spec fn header_verdict(
    r: Result<(), AuthError>,
    secret: Seq<char>,
    h: Seq<(String, String)>,
    now: u64,
) -> bool {
    let v = lookup(h, version_key());
    let ts = lookup(h, timestamp_key());
    let rid = lookup(h, request_id_key());
    let sig = lookup(h, signature_key());
    let all_present = v is Some && ts is Some && rid is Some && sig is Some;
    let compatible = version_compatible(encode_utf8(v.unwrap()));
    let t0 = u64_or_zero(encode_utf8(ts.unwrap()));
    &&& (v is None ==> (r matches Err(AuthError::MissingHeader(n)) && n@ == version_key()))
    &&& (v is Some && ts is None ==> (r matches Err(AuthError::MissingHeader(n)) && n@
        == timestamp_key()))
    &&& (v is Some && ts is Some && rid is None ==> (r matches Err(AuthError::MissingHeader(n))
        && n@ == request_id_key()))
    &&& (v is Some && ts is Some && rid is Some && sig is None ==> (r matches Err(
        AuthError::MissingHeader(n),
    ) && n@ == signature_key()))
    &&& (all_present && !compatible ==> (r matches Err(
        AuthError::VersionIncompatible { received, required },
    ) && received@ == v.unwrap() && required@ == backend_version_chars()))
    &&& (all_present && compatible && sig.unwrap().len() == 0 ==> r matches Err(
        AuthError::EmptySignature,
    ))
    &&& (all_present && compatible && sig.unwrap().len() > 0 ==> signature_verdict(
        r,
        secret,
        t0,
        rid.unwrap(),
        sig.unwrap(),
        now,
    ))
    &&& (r is Ok <==> all_present && compatible && sig.unwrap().len() > 0 && in_window(now, t0)
        && signature_accepted(secret, t0, rid.unwrap(), sig.unwrap()))
}

/// Authenticates a request from its header map against an explicit clock
/// reading: extraction, version gate, non-empty signature check, replay
/// window and HMAC verification, short-circuiting on the first failure.
pub fn verify_header_at(secret: &str, headers: &HeaderMap, now: u64) -> (r: Result<
    (),
    AuthError,
>)
    ensures
        header_verdict(r, secret@, headers@, now),
{
    let version = match headers.get("x-edamame-version") {
        Some(v) => v,
        None => {
            return Err(AuthError::MissingHeader("x-edamame-version".to_owned()));
        },
    };
    let timestamp = match headers.get("x-edamame-timestamp") {
        Some(t) => t,
        None => {
            return Err(AuthError::MissingHeader("x-edamame-timestamp".to_owned()));
        },
    };
    let request_id = match headers.get("x-edamame-request-id") {
        Some(rid) => rid,
        None => {
            return Err(AuthError::MissingHeader("x-edamame-request-id".to_owned()));
        },
    };
    let received_signature = match headers.get("x-edamame-signature") {
        Some(s) => s,
        None => {
            return Err(AuthError::MissingHeader("x-edamame-signature".to_owned()));
        },
    };
    if !verify_version(version.as_str()) {
        return Err(
            AuthError::VersionIncompatible {
                received: version.clone(),
                required: backend_version_string(),
            },
        );
    }
    if received_signature.as_str().unicode_len() == 0 {
        return Err(AuthError::EmptySignature);
    }
    let t: u64 = match parse_u64_dec(timestamp.as_str().as_bytes()) {
        Some(v) => v,
        None => 0,
    };
    verify_signature_at(secret, t, request_id.as_str(), received_signature.as_str(), now)
}

/// Authenticates a request from its header map against the verifier's wall
/// clock. Every failure before the replay-window check is exact whatever
/// the clock read.
pub fn verify_header(secret: &str, headers: &HeaderMap) -> (r: Result<(), AuthError>)
    ensures
        exists|now: u64| #[trigger] header_verdict(r, secret@, headers@, now),
{
    let now = now_unix_seconds();
    verify_header_at(secret, headers, now)
}

/// Round trip: the credential pair that `generate_signature_at` builds for
/// a timestamp passes `verify_signature_at` under any clock reading within
/// the replay window — the hexadecimal signature is valid and decodes back
/// to the expected tag, so every verdict on it is `Ok`.
pub proof fn lemma_generate_then_verify(
    secret: Seq<char>,
    request_id: Seq<char>,
    timestamp: u64,
    now: u64,
)
    requires
        in_window(now, timestamp),
    ensures
        signature_accepted(
            secret,
            timestamp,
            request_id,
            hex_chars_of(expected_tag(secret, timestamp, request_id)),
        ),
        forall|r: Result<(), AuthError>|
            #[trigger] signature_verdict(
                r,
                secret,
                timestamp,
                request_id,
                hex_chars_of(expected_tag(secret, timestamp, request_id)),
                now,
            ) ==> r is Ok,
{
    lemma_hex_round_trip(expected_tag(secret, timestamp, request_id));
}

/// End to end at the header level: a header map carrying a compatible
/// version, the decimal timestamp and 64-character hexadecimal signature
/// that `generate_signature_at` builds, and the matching request id, is
/// accepted under any clock reading within the replay window. (That the
/// tag is non-empty is what the HMAC wrapper states of every call: the tag
/// is 32 bytes, so the signature has 64 characters.)
pub proof fn lemma_generated_headers_accepted(
    r: Result<(), AuthError>,
    secret: Seq<char>,
    h: Seq<(String, String)>,
    request_id: Seq<char>,
    timestamp: u64,
    now: u64,
)
    requires
        in_window(now, timestamp),
        expected_tag(secret, timestamp, request_id).len() > 0,
        lookup(h, version_key()) matches Some(v) && version_compatible(encode_utf8(v)),
        lookup(h, timestamp_key()) == Some(dec_chars_of(timestamp as nat)),
        lookup(h, request_id_key()) == Some(request_id),
        lookup(h, signature_key()) == Some(
            hex_chars_of(expected_tag(secret, timestamp, request_id)),
        ),
        header_verdict(r, secret, h, now),
    ensures
        r is Ok,
{
    crate::decimal::lemma_dec_round_trip(timestamp);
    lemma_hex_round_trip(expected_tag(secret, timestamp, request_id));
    lemma_hex_chars_len(expected_tag(secret, timestamp, request_id));
}

/// A signature whose decoded bytes differ from the expected tag — a single
/// altered byte suffices — is rejected at every clock reading. Only this
/// direction is stated: that altering the secret or the request id changes
/// the tag itself is a property of HMAC, which nothing here defines.
pub proof fn lemma_altered_signature_rejected(
    secret: Seq<char>,
    timestamp: u64,
    request_id: Seq<char>,
    signature: Seq<char>,
    now: u64,
    r: Result<(), AuthError>,
)
    requires
        hex_decode_chars(signature) != expected_tag(secret, timestamp, request_id),
        signature_verdict(r, secret, timestamp, request_id, signature, now),
    ensures
        r is Err,
{
}

} // verus!
