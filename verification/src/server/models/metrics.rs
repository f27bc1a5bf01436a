//! Metrics records and query parameters that hold no measurements.
use vstd::prelude::*;

verus! {

/// One mounted disk of a host sample.
#[derive(Debug, Clone, PartialEq, Eq)]
pub struct DiskSample {
    pub name: String,
    pub path: Option<String>,
    pub used_bytes: Option<i64>,
    pub total_bytes: Option<i64>,
}

/// Query parameters of the metrics history.
#[derive(Debug, Clone)]
pub struct MetricsHistoryQuery {
    pub host: Option<String>,
    pub service: Option<String>,
    pub from: Option<String>,
    pub to: Option<String>,
    pub limit: Option<i64>,
    /// "host" or "service" (default service if a service filter is set, else host)
    pub kind: Option<String>,
}

/// Query parameters of the capacity view.
#[derive(Debug, Clone)]
pub struct CapacityQuery {
    pub host: String,
}

} // verus!
