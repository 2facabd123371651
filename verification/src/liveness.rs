//! The stream liveness probe: one byte of the stream is asked for, and the
//! stream counts as live unless the server says that it is not there.

use vstd::prelude::*;
use crate::request::{HttpRequest, HttpRequestView, Outcome, OutcomeView};
use crate::status::NOT_FOUND;

verus! {

/// Redirects the probe follows at most.
pub const PROBE_MAX_REDIRECTS: u32 = 5;

/// Name of the header that asks for a part of the resource.
pub const RANGE: &'static str = "Range";

/// The part the probe asks for: the first byte.
pub const FIRST_BYTE: &'static str = "bytes=0-0";

/// The error for a probe that got no response.
pub const FETCH_FAILED: &'static str = "fetch failed";

/// The request that probes `url`.
pub open spec fn liveness_request_view(url: Seq<char>) -> HttpRequestView {
    HttpRequestView::get(url, PROBE_MAX_REDIRECTS).with_header(RANGE@, FIRST_BYTE@)
}

/// What the probe returns for the outcome of its request.
pub open spec fn live_view(outcome: OutcomeView) -> Result<bool, Seq<char>> {
    match outcome {
        OutcomeView::ClientFailed(why) => Err(why),
        OutcomeView::RequestFailed(_) => Err(FETCH_FAILED@),
        OutcomeView::Responded { status } => Ok(status != NOT_FOUND),
    }
}

/// Builds the request that probes `url`: a `GET` of its first byte, over at
/// most five redirects.
pub fn liveness_request(url: String) -> (request: HttpRequest)
    ensures
        request@ == liveness_request_view(url@),
{
    HttpRequest::get(url, PROBE_MAX_REDIRECTS).with_header(RANGE, FIRST_BYTE)
}

/// Draws the verdict from the outcome of the probe's request. Any status
/// but 404 means live, error statuses too: the probe tells "absent" from
/// "present", nothing more. A request that got no response fails with a
/// fixed message, whatever the transport said of it; a client that could
/// not be built fails with what the transport said.
pub fn check_stream_live(outcome: Outcome) -> (verdict: Result<bool, String>)
    ensures
        match verdict {
            Ok(live) => live_view(outcome@) == Ok::<bool, Seq<char>>(live),
            Err(message) => live_view(outcome@) == Err::<bool, Seq<char>>(message@),
        },
{
    match outcome {
        Outcome::ClientFailed(why) => Err(why),
        Outcome::RequestFailed(_) => Err(FETCH_FAILED.to_owned()),
        Outcome::Responded { status } => Ok(status != NOT_FOUND),
    }
}

} // verus!
