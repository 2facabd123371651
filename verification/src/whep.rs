//! The WHEP signalling relay: the offer is posted to the media server as it
//! came, and the server's answer is handed back as it came.

use vstd::prelude::*;
use crate::decimal::{decimal, push_decimal};
use crate::request::{HttpRequest, HttpRequestView, Outcome, OutcomeView};
use crate::status::{is_success, status_is_success};

verus! {

/// Redirects the relay follows at most.
pub const WHEP_MAX_REDIRECTS: u32 = 10;

/// Name of the header that declares the body's type.
pub const CONTENT_TYPE: &'static str = "Content-Type";

/// Media type of a session description.
pub const SDP_MEDIA_TYPE: &'static str = "application/sdp";

/// What the error for a refused offer begins with; the status follows.
pub const STATUS_ERROR_PREFIX: &'static str = "WHEP returned status ";

/// The request that relays the offer `sdp` to `url`.
pub open spec fn whep_request_view(url: Seq<char>, sdp: Seq<char>) -> HttpRequestView {
    HttpRequestView::get(url, WHEP_MAX_REDIRECTS).with_header(
        CONTENT_TYPE@,
        SDP_MEDIA_TYPE@,
    ).posting(sdp)
}

/// The error for an answer with a status outside the success class.
pub open spec fn status_error(status: u16) -> Seq<char> {
    STATUS_ERROR_PREFIX@ + decimal(status as nat)
}

/// Whether the relay's result depends on the body of the answer: only for
/// a response in the success class.
pub open spec fn body_wanted(outcome: OutcomeView) -> bool {
    outcome matches OutcomeView::Responded { status } && is_success(status)
}

/// What the relay returns for the outcome of its request and, where the
/// body is wanted, for what reading the body gave: the text, or the
/// transport's description of why it could not be read.
pub open spec fn whep_reply_view(
    outcome: OutcomeView,
    body: Result<Seq<char>, Seq<char>>,
) -> Result<Seq<char>, Seq<char>> {
    match outcome {
        OutcomeView::ClientFailed(why) => Err(why),
        OutcomeView::RequestFailed(why) => Err(why),
        OutcomeView::Responded { status } => if is_success(status) {
            body
        } else {
            Err(status_error(status))
        },
    }
}

/// The model of what reading a body gave.
pub open spec fn body_view(body: Result<String, String>) -> Result<Seq<char>, Seq<char>> {
    match body {
        Ok(text) => Ok(text@),
        Err(why) => Err(why@),
    }
}

/// Builds the request that relays the offer `sdp` to `url`: a `POST` of the
/// offer, declared as a session description, over at most ten redirects.
pub fn whep_request(url: String, sdp: String) -> (request: HttpRequest)
    ensures
        request@ == whep_request_view(url@, sdp@),
{
    HttpRequest::get(url, WHEP_MAX_REDIRECTS).with_header(CONTENT_TYPE, SDP_MEDIA_TYPE).posting(sdp)
}

/// Tells whether the body of the answer has to be read: only that of a
/// response in the success class is ever looked at.
pub fn wants_body(outcome: &Outcome) -> (wanted: bool)
    ensures
        wanted == body_wanted(outcome@),
{
    match outcome {
        Outcome::Responded { status } => status_is_success(*status),
        _ => false,
    }
}

/// Draws the relay's result from the outcome of its request and from what
/// reading the body gave. A response in the success class yields the body
/// untouched, or the reason why it could not be read. A response with any
/// other status yields an error that names the status. A request that
/// failed yields the transport's description of the failure. Where the body
/// is not wanted, `body` is not looked at.
pub fn whep_reply(outcome: Outcome, body: Result<String, String>) -> (reply: Result<
    String,
    String,
>)
    ensures
        body_view(reply) == whep_reply_view(outcome@, body_view(body)),
{
    match outcome {
        Outcome::ClientFailed(why) => Err(why),
        Outcome::RequestFailed(why) => Err(why),
        Outcome::Responded { status } => {
            if status_is_success(status) {
                body
            } else {
                let mut message = STATUS_ERROR_PREFIX.to_owned();
                push_decimal(&mut message, status as u64);
                Err(message)
            }
        },
    }
}

/// The error for a refused offer ends with the status in decimal notation,
/// and so contains it.
pub proof fn lemma_status_error_names_status(status: u16)
    ensures
        status_error(status).len() == STATUS_ERROR_PREFIX@.len() + decimal(status as nat).len(),
        status_error(status).subrange(
            STATUS_ERROR_PREFIX@.len() as int,
            status_error(status).len() as int,
        ) == decimal(status as nat),
{
    assert(status_error(status).subrange(
        STATUS_ERROR_PREFIX@.len() as int,
        status_error(status).len() as int,
    ) =~= decimal(status as nat));
}

} // verus!
