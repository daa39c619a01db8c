//! The helper-state payload schema, carried opaquely once a request has
//! been authenticated.

use vstd::prelude::*;

verus! {

#[derive(Debug, PartialEq, Eq, Clone, Copy, PartialOrd)]
pub enum HelperStateBackend {
    Disabled,
    Enabled,
    EnabledFullDisk,
    Outdated,
    Fatal,
    Unsupported,
}

} // verus!
