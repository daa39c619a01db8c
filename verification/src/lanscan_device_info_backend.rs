//! The scanned-device payload schema, carried opaquely once a request has
//! been authenticated. The device's content identifier hashes the derived
//! `Debug` rendering of its sorted vulnerability and port lists, so the
//! application layer computes it.

use crate::lanscan_port_info_backend::PortInfoBackend;
use crate::lanscan_vulnerability_info_backend::VulnerabilityInfoBackend;
use vstd::prelude::*;

verus! {

#[derive(Debug, Clone)]
pub struct DeviceInfoBackend {
    pub mdns_services: Vec<String>,
    pub device_vendor: String,
    pub vulnerabilities: Vec<VulnerabilityInfoBackend>,
    pub open_ports: Vec<PortInfoBackend>,
}

} // verus!
