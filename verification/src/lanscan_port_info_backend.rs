//! The scanned-port payload schema, carried opaquely once a request has
//! been authenticated.

use crate::lanscan_vulnerability_info_backend::VulnerabilityInfoBackend;
use vstd::prelude::*;

verus! {

#[derive(Debug, Clone, Ord, Eq, PartialEq, PartialOrd)]
pub struct PortInfoBackend {
    pub port: u16,
    pub protocol: String,
    pub service: String,
    pub banner: String,
    pub vulnerabilities: Vec<VulnerabilityInfoBackend>,
}

} // verus!
