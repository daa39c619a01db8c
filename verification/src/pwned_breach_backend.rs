//! The breach-detail record carried as a payload once a request has been
//! authenticated; the authentication layer never inspects it.

use crate::hashing::{blake3_hex, blake3_of, push_str_bytes};
use crate::hexcode::hex_chars_of;
use vstd::prelude::*;
use vstd::utf8::encode_utf8;

verus! {

#[derive(Debug, Ord, PartialOrd, Eq, PartialEq, Clone)]
pub enum PwnedCriticalityBackend {
    Unknown,
    Low,
    Medium,
    High,
}

/// The display name of a criticality level.
pub open spec fn criticality_label_chars(c: PwnedCriticalityBackend) -> Seq<char> {
    match c {
        PwnedCriticalityBackend::Unknown => "Unknown"@,
        PwnedCriticalityBackend::Low => "Low"@,
        PwnedCriticalityBackend::Medium => "Medium"@,
        PwnedCriticalityBackend::High => "High"@,
    }
}

impl PwnedCriticalityBackend {
    /// The display name of the level, as it is printed.
    pub fn label(&self) -> (s: String)
        ensures
            s@ == criticality_label_chars(*self),
    {
        match self {
            PwnedCriticalityBackend::Unknown => "Unknown".to_owned(),
            PwnedCriticalityBackend::Low => "Low".to_owned(),
            PwnedCriticalityBackend::Medium => "Medium".to_owned(),
            PwnedCriticalityBackend::High => "High".to_owned(),
        }
    }
}

#[derive(Debug, Clone, Ord, PartialOrd, Eq, PartialEq)]
pub struct BreachDetailBackend {
    pub name: String,
    pub title: String,
    pub domain: String,
    pub breachdate: String,
    pub count: u64,
    pub description: String,
    // Invariant
    pub short_data_classes: Vec<String>,
    pub data_classes: Vec<String>,
    pub is_verified: bool,
    pub is_sensitive: bool,
    pub criticality: PwnedCriticalityBackend,
}

/// The bytes whose BLAKE3 hash identifies a breach record: the locale, the
/// user's skill level, the breach name, and the description (the one field
/// expected to change between revisions of the same breach).
pub open spec fn breach_uid_input(
    b: BreachDetailBackend,
    language: Seq<char>,
    user_skills: Seq<char>,
) -> Seq<u8> {
    encode_utf8(language) + encode_utf8(user_skills) + encode_utf8(b.name@) + encode_utf8(
        b.description@,
    )
}

impl BreachDetailBackend {
    /// A stable identifier for the record under the given locale and user
    /// skill level: the BLAKE3 hash of [`breach_uid_input`], in lowercase
    /// hexadecimal.
    pub fn uid(&self, language: &str, user_skills: &str) -> (r: String)
        ensures
            r@ == hex_chars_of(blake3_of(breach_uid_input(*self, language@, user_skills@))),
    {
        let mut buf: Vec<u8> = Vec::new();
        push_str_bytes(&mut buf, language);
        push_str_bytes(&mut buf, user_skills);
        push_str_bytes(&mut buf, self.name.as_str());
        // Description has a possibility of change, so we include it
        push_str_bytes(&mut buf, self.description.as_str());
        proof {
            assert(buf@ =~= breach_uid_input(*self, language@, user_skills@));
        }
        blake3_hex(buf.as_slice())
    }
}

} // verus!
