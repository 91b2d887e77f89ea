//! The remote-fetch policy: the fixed retrieval rules every outbound
//! request must follow, and the classification of what came back.
//!
//! The network call itself lives outside this crate; it hands the origin's
//! status code and body (or a transport-level cause) to the functions here,
//! which decide what the pipeline sees.

use crate::model::FetchOutcome;
use vstd::prelude::*;

verus! {

/// Hard wall-clock limit, in seconds, on a single remote fetch: connection
/// establishment plus full body transfer. Exceeding it must surface as
/// `TransportCause::Timeout`.
pub const FETCH_TIMEOUT_SECS: u64 = 3;

/// Capacity of the idle-connection pool the outbound HTTP client keeps per
/// host, for connection reuse across requests.
pub const POOL_MAX_IDLE_PER_HOST: usize = 10;

/// Whether `status` is a 2xx origin status.
pub open spec fn is_success_status(status: u16) -> bool {
    200 <= status < 300
}

/// Classifies an origin HTTP response. A 2xx status succeeds with the full
/// body; every other status collapses to `NotFound` — the pipeline
/// deliberately cannot tell an origin 404 from an origin 500.
pub fn classify_origin_response(status: u16, body: Vec<u8>) -> (out: FetchOutcome)
    ensures
        is_success_status(status) ==> (out matches FetchOutcome::Success(b) && b@ == body@),
        !is_success_status(status) ==> out is NotFound,
{
    if 200 <= status && status < 300 {
        FetchOutcome::Success(body)
    } else {
        FetchOutcome::NotFound
    }
}

} // verus!
