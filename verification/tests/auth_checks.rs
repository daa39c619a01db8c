use edamame_backend::headers::HeaderMap;
use edamame_backend::signature::{
    generate_signature, generate_signature_at, verify_header_at, verify_signature_at,
    verify_signature_no_timestamp_check, AuthError,
};

const SECRET: &str = "test_secret";
const REQUEST_ID: &str = "test_request";

fn full_headers(version: &str, timestamp: u64) -> HeaderMap {
    let (ts, sig) = generate_signature_at(SECRET, REQUEST_ID, timestamp);
    let mut headers = HeaderMap::new();
    headers.insert("x-edamame-version".to_string(), version.to_string());
    headers.insert("x-edamame-timestamp".to_string(), ts);
    headers.insert("x-edamame-request-id".to_string(), REQUEST_ID.to_string());
    headers.insert("x-edamame-signature".to_string(), sig);
    headers
}

#[test]
fn generated_signature_has_known_value() {
    // HMAC-SHA256 with key "test_secret" over "42test_request".
    let (ts, sig) = generate_signature_at(SECRET, REQUEST_ID, 42);
    assert_eq!(ts, "42");
    assert_eq!(
        sig,
        "6589b6540dfb6f7cb2a6010dd27b22ba5ee5c2105c0dec23f92fdf666c676cb8"
    );
}

#[test]
fn round_trip_at_same_instant() {
    let (ts, sig) = generate_signature_at(SECRET, REQUEST_ID, 1_700_000_000);
    let t: u64 = ts.parse().unwrap();
    assert!(verify_signature_at(SECRET, t, REQUEST_ID, &sig, t).is_ok());
}

#[test]
fn window_boundary_is_inclusive_on_both_sides() {
    let t: u64 = 1_700_000_000;
    let (_, sig) = generate_signature_at(SECRET, REQUEST_ID, t);
    // Exactly 300 seconds of skew passes, in either direction.
    assert!(verify_signature_at(SECRET, t, REQUEST_ID, &sig, t + 300).is_ok());
    assert!(verify_signature_at(SECRET, t, REQUEST_ID, &sig, t - 300).is_ok());
    // 301 seconds fails, in either direction, reporting the distance.
    let late = verify_signature_at(SECRET, t, REQUEST_ID, &sig, t + 301);
    assert!(matches!(
        late,
        Err(AuthError::TimestampOutOfWindow { delta: 301 })
    ));
    let early = verify_signature_at(SECRET, t, REQUEST_ID, &sig, t - 301);
    assert!(matches!(
        early,
        Err(AuthError::TimestampOutOfWindow { delta: 301 })
    ));
}

#[test]
fn bypass_entry_point_ignores_clock() {
    let t: u64 = 12;
    let (_, sig) = generate_signature_at(SECRET, REQUEST_ID, t);
    // A timestamp from long ago still verifies through the explicit
    // no-timestamp-check entry point.
    assert!(verify_signature_no_timestamp_check(SECRET, t, REQUEST_ID, &sig).is_ok());
}

#[test]
fn mutating_secret_fails_verification() {
    let t: u64 = 1_700_000_000;
    let (_, sig) = generate_signature_at(SECRET, REQUEST_ID, t);
    let r = verify_signature_at("test_secreu", t, REQUEST_ID, &sig, t);
    assert!(matches!(r, Err(AuthError::SignatureMismatch)));
}

#[test]
fn mutating_request_id_fails_verification() {
    let t: u64 = 1_700_000_000;
    let (_, sig) = generate_signature_at(SECRET, REQUEST_ID, t);
    let r = verify_signature_at(SECRET, t, "test_requesu", &sig, t);
    assert!(matches!(r, Err(AuthError::SignatureMismatch)));
}

#[test]
fn mutating_signature_bytes_fails_verification() {
    let t: u64 = 1_700_000_000;
    let (_, sig) = generate_signature_at(SECRET, REQUEST_ID, t);
    // Flip one hex digit: still valid hex, different decoded byte.
    let mut chars: Vec<char> = sig.chars().collect();
    chars[0] = if chars[0] == '0' { '1' } else { '0' };
    let corrupted: String = chars.iter().collect();
    let r = verify_signature_at(SECRET, t, REQUEST_ID, &corrupted, t);
    assert!(matches!(r, Err(AuthError::SignatureMismatch)));
}

#[test]
fn corrupt_hex_gives_decode_error() {
    let t: u64 = 1_700_000_000;
    let r = verify_signature_at(SECRET, t, REQUEST_ID, "not-hex!", t);
    assert!(matches!(r, Err(AuthError::SignatureDecodeError)));
    // Odd length is rejected as a decode error too.
    let r = verify_signature_at(SECRET, t, REQUEST_ID, "abc", t);
    assert!(matches!(r, Err(AuthError::SignatureDecodeError)));
}

#[test]
fn empty_signature_is_a_mismatch_not_a_decode_error() {
    // An empty string is valid hex denoting no bytes; it can never match
    // the 32-byte tag.
    let t: u64 = 1_700_000_000;
    let r = verify_signature_at(SECRET, t, REQUEST_ID, "", t);
    assert!(matches!(r, Err(AuthError::SignatureMismatch)));
}

#[test]
fn uppercase_hex_signature_is_accepted() {
    let t: u64 = 1_700_000_000;
    let (_, sig) = generate_signature_at(SECRET, REQUEST_ID, t);
    let upper = sig.to_uppercase();
    assert!(verify_signature_at(SECRET, t, REQUEST_ID, &upper, t).is_ok());
}

#[test]
fn missing_version_header_is_named() {
    let t: u64 = 1_700_000_000;
    let (ts, sig) = generate_signature_at(SECRET, REQUEST_ID, t);
    let mut headers = HeaderMap::new();
    headers.insert("x-edamame-timestamp".to_string(), ts);
    headers.insert("x-edamame-request-id".to_string(), REQUEST_ID.to_string());
    headers.insert("x-edamame-signature".to_string(), sig);
    let r = verify_header_at(SECRET, &headers, t);
    assert!(matches!(r, Err(AuthError::MissingHeader(n)) if n == "x-edamame-version"));
}

#[test]
fn missing_timestamp_header_is_named() {
    let t: u64 = 1_700_000_000;
    let (_, sig) = generate_signature_at(SECRET, REQUEST_ID, t);
    let mut headers = HeaderMap::new();
    headers.insert("x-edamame-version".to_string(), "0.3.4".to_string());
    headers.insert("x-edamame-request-id".to_string(), REQUEST_ID.to_string());
    headers.insert("x-edamame-signature".to_string(), sig);
    let r = verify_header_at(SECRET, &headers, t);
    assert!(matches!(r, Err(AuthError::MissingHeader(n)) if n == "x-edamame-timestamp"));
}

#[test]
fn missing_request_id_header_is_named() {
    let t: u64 = 1_700_000_000;
    let (ts, sig) = generate_signature_at(SECRET, REQUEST_ID, t);
    let mut headers = HeaderMap::new();
    headers.insert("x-edamame-version".to_string(), "0.3.4".to_string());
    headers.insert("x-edamame-timestamp".to_string(), ts);
    headers.insert("x-edamame-signature".to_string(), sig);
    let r = verify_header_at(SECRET, &headers, t);
    assert!(matches!(r, Err(AuthError::MissingHeader(n)) if n == "x-edamame-request-id"));
}

#[test]
fn missing_signature_header_is_named() {
    let t: u64 = 1_700_000_000;
    let (ts, _) = generate_signature_at(SECRET, REQUEST_ID, t);
    let mut headers = HeaderMap::new();
    headers.insert("x-edamame-version".to_string(), "0.3.4".to_string());
    headers.insert("x-edamame-timestamp".to_string(), ts);
    headers.insert("x-edamame-request-id".to_string(), REQUEST_ID.to_string());
    let r = verify_header_at(SECRET, &headers, t);
    assert!(matches!(r, Err(AuthError::MissingHeader(n)) if n == "x-edamame-signature"));
}

#[test]
fn full_header_map_verifies_end_to_end() {
    let t: u64 = 1_700_000_000;
    let headers = full_headers("0.3.4", t);
    assert!(verify_header_at(SECRET, &headers, t).is_ok());
}

#[test]
fn corrupted_signature_header_reports_decode_or_mismatch() {
    let t: u64 = 1_700_000_000;
    let (ts, sig) = generate_signature_at(SECRET, REQUEST_ID, t);

    // Corruption that stays valid hex: a mismatch.
    let mut chars: Vec<char> = sig.chars().collect();
    chars[0] = if chars[0] == '0' { '1' } else { '0' };
    let still_hex: String = chars.iter().collect();
    let mut headers = HeaderMap::new();
    headers.insert("x-edamame-version".to_string(), "0.3.4".to_string());
    headers.insert("x-edamame-timestamp".to_string(), ts.clone());
    headers.insert("x-edamame-request-id".to_string(), REQUEST_ID.to_string());
    headers.insert("x-edamame-signature".to_string(), still_hex);
    let r = verify_header_at(SECRET, &headers, t);
    assert!(matches!(r, Err(AuthError::SignatureMismatch)));

    // Corruption that breaks the hex alphabet: a decode error.
    let mut headers = HeaderMap::new();
    headers.insert("x-edamame-version".to_string(), "0.3.4".to_string());
    headers.insert("x-edamame-timestamp".to_string(), ts);
    headers.insert("x-edamame-request-id".to_string(), REQUEST_ID.to_string());
    headers.insert("x-edamame-signature".to_string(), format!("zz{}", &sig[2..]));
    let r = verify_header_at(SECRET, &headers, t);
    assert!(matches!(r, Err(AuthError::SignatureDecodeError)));
}

#[test]
fn empty_signature_header_is_distinct() {
    let t: u64 = 1_700_000_000;
    let (ts, _) = generate_signature_at(SECRET, REQUEST_ID, t);
    let mut headers = HeaderMap::new();
    headers.insert("x-edamame-version".to_string(), "0.3.4".to_string());
    headers.insert("x-edamame-timestamp".to_string(), ts);
    headers.insert("x-edamame-request-id".to_string(), REQUEST_ID.to_string());
    headers.insert("x-edamame-signature".to_string(), String::new());
    let r = verify_header_at(SECRET, &headers, t);
    assert!(matches!(r, Err(AuthError::EmptySignature)));
}

#[test]
fn incompatible_version_reports_both_versions() {
    let t: u64 = 1_700_000_000;
    let headers = full_headers("0.2.3", t);
    let r = verify_header_at(SECRET, &headers, t);
    assert!(
        matches!(r, Err(AuthError::VersionIncompatible { received, required })
            if received == "0.2.3" && required == "0.3.4")
    );
}

#[test]
fn unparseable_timestamp_header_reads_as_zero() {
    // A non-numeric timestamp header is treated as zero, so the window
    // check reports its distance from the clock.
    let t: u64 = 1_700_000_000;
    let (_, sig) = generate_signature_at(SECRET, REQUEST_ID, t);
    let mut headers = HeaderMap::new();
    headers.insert("x-edamame-version".to_string(), "0.3.4".to_string());
    headers.insert(
        "x-edamame-timestamp".to_string(),
        "not-a-number".to_string(),
    );
    headers.insert("x-edamame-request-id".to_string(), REQUEST_ID.to_string());
    headers.insert("x-edamame-signature".to_string(), sig);
    let r = verify_header_at(SECRET, &headers, t);
    assert!(matches!(
        r,
        Err(AuthError::TimestampOutOfWindow { delta }) if delta == t
    ));
}

#[test]
fn fresh_generation_verifies_within_window() {
    // The clock-reading entry points agree with each other moments apart.
    let (ts, sig) = generate_signature(SECRET, REQUEST_ID);
    let t: u64 = ts.parse().unwrap();
    let mut headers = HeaderMap::new();
    headers.insert("x-edamame-version".to_string(), "0.3.4".to_string());
    headers.insert("x-edamame-timestamp".to_string(), ts);
    headers.insert("x-edamame-request-id".to_string(), REQUEST_ID.to_string());
    headers.insert("x-edamame-signature".to_string(), sig);
    assert!(verify_header_at(SECRET, &headers, t).is_ok());
}
