//! The disliked-device report payload schema, carried opaquely once a
//! request has been authenticated.

use crate::lanscan_port_info_backend::PortInfoBackend;
use vstd::prelude::*;

verus! {

#[derive(Debug, Clone)]
pub struct DislikeDeviceInfoBackend {
    pub device_type: String,
    pub open_ports: Vec<PortInfoBackend>,
    pub mdns_services: Vec<String>,
    pub device_vendor: String,
    pub hostname: String,
    /// User comment
    pub note: String,
}

} // verus!
