//! Shared-secret request authentication for the backend wire protocol.
//!
//! The core of the crate is the authentication check in [`signature`]:
//! extraction of the credential headers, HMAC-SHA256 signature generation
//! and verification, replay-window enforcement, and protocol-version
//! gating. The remaining modules declare the payload schemas that travel
//! over the wire once a request has been authenticated; the authentication
//! layer never inspects them.

pub mod advisor_todos_backend;
pub mod agentic_backend;
pub mod decimal;
pub mod hashing;
pub mod headers;
pub mod helper_state_backend;
pub mod hexcode;
pub mod lanscan_device_info_backend;
pub mod lanscan_dislike_device_info_backend;
pub mod lanscan_port_info_backend;
pub mod lanscan_vulnerability_info_backend;
pub mod mac;
pub mod order_backend;
pub mod order_type_backend;
pub mod pwned_breach_backend;
pub mod session_info_backend;
pub mod signature;
pub mod threat_backend;
pub mod version;
