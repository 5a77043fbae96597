//! The fixed configuration of the router: where the backends are, when the
//! primary counts as full, and how long each wait may last.

use vstd::prelude::*;

verus! {

/// The primary is full when its utilization ratio is at least
/// `CAPACITY_THRESHOLD_NUM / CAPACITY_THRESHOLD_DEN`, that is seven tenths.
pub const CAPACITY_THRESHOLD_NUM: u64 = 7;

pub const CAPACITY_THRESHOLD_DEN: u64 = 10;

/// Where the primary backend publishes its metrics.
pub const METRICS_URL: &'static str = "http://0.0.0.0:8002/metrics";

/// The generation endpoint of the primary backend.
pub const PRIMARY_URL: &'static str = "http://192.168.1.18:8000/v2/models/ensemble/generate";

/// The generation endpoint of the fallback backend.
pub const FALLBACK_URL: &'static str =
    "http://192.168.1.13:8003/v2/models/tensorrt_llm_bls/generate";

/// The local port on which requests come in.
pub const LISTEN_PORT: u16 = 8080;

/// The pause between two polls of the metrics, in seconds.
pub const POLL_INTERVAL_SECS: u64 = 10;

/// The longest that one fetch of the metrics may take, in seconds. A fetch
/// that takes longer has failed.
pub const METRICS_TIMEOUT_SECS: u64 = 10;

/// The longest that a backend may take to respond to a forwarded request, in
/// seconds.
pub const BACKEND_TIMEOUT_SECS: u64 = 500;

} // verus!
