//! The liveness endpoint's payload. The endpoint itself is a separate
//! route that performs no image logic; its body is a fixed JSON shape
//! around a timestamp that the caller supplies.

use vstd::prelude::*;
use vstd::string::StringExecFns;

verus! {

/// The liveness payload around `timestamp`: a constant JSON object whose
/// only varying field is the timestamp itself.
pub open spec fn spec_warmup_body(timestamp: Seq<char>) -> Seq<char> {
    "{\"status\":\"warm\",\"function\":\"hero-image\",\"timestamp\":\""@ + timestamp + "\"}"@
}

/// Builds the liveness payload for `timestamp`, verbatim as
/// [`spec_warmup_body`] lays it out.
pub fn warmup_body(timestamp: &str) -> (body: String)
    ensures
        body@ == spec_warmup_body(timestamp@),
{
    let mut body = "{\"status\":\"warm\",\"function\":\"hero-image\",\"timestamp\":\"".to_owned();
    body.append(timestamp);
    body.append("\"}");
    proof {
        assert(body@ =~= spec_warmup_body(timestamp@));
    }
    body
}

} // verus!
