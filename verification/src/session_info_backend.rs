//! The network-session record carried as a payload once a request has been
//! authenticated. The authentication layer never inspects it; the record
//! only offers a stable content identifier.

use crate::hashing::{
    blake3_hex, blake3_of, opt_dec_bytes, opt_str_bytes, push_dec_bytes, push_str_bytes,
};
use crate::decimal::dec_chars_of;
use crate::hexcode::hex_chars_of;
use vstd::prelude::*;
use vstd::utf8::encode_utf8;

verus! {

#[derive(Debug, Clone)]
pub struct SessionInfoBackend {
    pub ip: String,
    pub port: u16,
    pub protocol: String,
    pub domain: Option<String>,
    pub asn_number: Option<u32>,
    pub asn_country: Option<String>,
    pub asn_owner: Option<String>,
    pub criticality: String,
    pub service: Option<String>,
    pub l7_process_name: Option<String>,
    pub l7_process_path: Option<String>,
    pub l7_process_user: Option<String>,
}

/// The bytes whose BLAKE3 hash identifies a session record: the locale,
/// then the record's fields in declaration order, numbers in decimal,
/// optional fields contributing nothing when absent.
pub open spec fn session_uid_input(s: SessionInfoBackend, language: Seq<char>) -> Seq<u8> {
    encode_utf8(language) + encode_utf8(s.ip@) + encode_utf8(dec_chars_of(s.port as nat))
        + encode_utf8(s.protocol@) + opt_str_bytes(s.domain) + opt_dec_bytes(s.asn_number)
        + opt_str_bytes(s.asn_country) + opt_str_bytes(s.asn_owner) + encode_utf8(s.criticality@)
        + opt_str_bytes(s.service) + opt_str_bytes(s.l7_process_name) + opt_str_bytes(
        s.l7_process_path,
    ) + opt_str_bytes(s.l7_process_user)
}

impl SessionInfoBackend {
    /// A stable identifier for the record under the given locale: the
    /// BLAKE3 hash of [`session_uid_input`], in lowercase hexadecimal.
    pub fn uid(&self, language: &str) -> (r: String)
        ensures
            r@ == hex_chars_of(blake3_of(session_uid_input(*self, language@))),
    {
        let mut buf: Vec<u8> = Vec::new();
        push_str_bytes(&mut buf, language);
        push_str_bytes(&mut buf, self.ip.as_str());
        push_dec_bytes(&mut buf, self.port as u64);
        push_str_bytes(&mut buf, self.protocol.as_str());
        if let Some(domain) = &self.domain {
            push_str_bytes(&mut buf, domain.as_str());
        }
        if let Some(asn_number) = self.asn_number {
            push_dec_bytes(&mut buf, asn_number as u64);
        }
        if let Some(asn_country) = &self.asn_country {
            push_str_bytes(&mut buf, asn_country.as_str());
        }
        if let Some(asn_owner) = &self.asn_owner {
            push_str_bytes(&mut buf, asn_owner.as_str());
        }
        push_str_bytes(&mut buf, self.criticality.as_str());
        if let Some(service) = &self.service {
            push_str_bytes(&mut buf, service.as_str());
        }
        if let Some(l7_process_name) = &self.l7_process_name {
            push_str_bytes(&mut buf, l7_process_name.as_str());
        }
        if let Some(l7_process_path) = &self.l7_process_path {
            push_str_bytes(&mut buf, l7_process_path.as_str());
        }
        if let Some(l7_process_user) = &self.l7_process_user {
            push_str_bytes(&mut buf, l7_process_user.as_str());
        }
        proof {
            assert(buf@ =~= session_uid_input(*self, language@));
        }
        blake3_hex(buf.as_slice())
    }
}

} // verus!
