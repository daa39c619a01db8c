//! The metric-order result payload schema, carried opaquely once a request
//! has been authenticated.

use crate::order_type_backend::MetricOrderTypeBackend;
use vstd::prelude::*;

verus! {

// Compact version of a metric-order result to transmit to the backend
#[derive(Debug, Clone, PartialEq, PartialOrd)]
pub struct MetricOrderResultBackend {
    pub metricname: String,
    pub ordertype: MetricOrderTypeBackend,
    pub timestamp: String,
    pub success: bool,
    pub validated: bool,
    pub output: String,
}

} // verus!
