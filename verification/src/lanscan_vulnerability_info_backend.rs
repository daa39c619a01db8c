//! The vulnerability record attached to scanned ports and devices, carried
//! opaquely once a request has been authenticated.

use vstd::prelude::*;

verus! {

#[derive(Debug, Clone, Ord, Eq, PartialEq, PartialOrd)]
pub struct VulnerabilityInfoBackend {
    pub name: String,
    pub description: String,
}

} // verus!
