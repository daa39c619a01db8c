//! The metric-order kind, carried opaquely once a request has been
//! authenticated.

use vstd::prelude::*;

verus! {

#[derive(Debug, Clone, PartialEq, PartialOrd)]
pub enum MetricOrderTypeBackend {
    Capture,
    Remediate,
    Rollback,
}

} // verus!
