//! Helpers shared by the workflows.

use crate::protocol::{Event, EventView, Reply, ReplyView, Response, ResponseView, StatusCode};
use vstd::prelude::*;

verus! {

/// The report of a fault on the server's side, with the detail behind it.
pub open spec fn internal_error_report(detail: Seq<char>) -> Seq<char> {
    "Internal server error: "@ + detail
}

/// The answer to a request that met a fault on the server's side: status
/// 500, and the detail for the log alone.
pub open spec fn spec_e500(detail: Seq<char>) -> ResponseView {
    ResponseView {
        reply: ReplyView::Status(StatusCode::InternalServerError),
        report: Some(internal_error_report(detail)),
    }
}

/// Answers a request that met a fault on the server's side: the client sees
/// status 500 and nothing of the fault, which goes to the log.
pub fn e500(detail: &str) -> (response: Response)
    ensures
        response@ == spec_e500(detail@),
{
    Response {
        reply: Reply::Status(StatusCode::InternalServerError),
        report: Some(String::from_str("Internal server error: ").concat(detail)),
    }
}

/// An answer with nothing to report.
pub open spec fn spec_plain(reply: ReplyView) -> ResponseView {
    ResponseView { reply, report: None }
}

/// An answer with nothing to report.
pub fn plain(reply: Reply) -> (response: Response)
    ensures
        response@ == spec_plain(reply@),
{
    Response { reply, report: None }
}

/// What an event tells of a fault: the description that came with a failed
/// call, and a fixed text for a reply of a kind that was not expected.
pub open spec fn fault_detail(event: EventView) -> Seq<char> {
    match event {
        EventView::Failed(detail) => detail,
        _ => "unexpected reply"@,
    }
}

/// What an event tells of a fault.
pub fn detail_of(event: Event) -> (detail: String)
    ensures
        detail@ == fault_detail(event@),
{
    match event {
        Event::Failed(detail) => detail,
        _ => String::from_str("unexpected reply"),
    }
}

} // verus!
