//! Decisions of the result submission endpoint.

use crate::dispatcher::{AppState, Submission};
use crate::protocol::{
    error_text, text_reply, Body, BodyView, BridgeError, BridgeErrorView, Reply, ReplyView,
    RunCommandResponse, STATUS_NOT_FOUND, STATUS_OK,
};
use vstd::prelude::*;

verus! {

/// The reply to a result submission, given whether a correlation entry
/// exists for its identifier.
pub open spec fn submission_reply_spec(accepted: bool) -> ReplyView {
    if accepted {
        ReplyView { status: STATUS_OK, body: BodyView::Empty }
    } else {
        text_reply(STATUS_NOT_FOUND, error_text(BridgeErrorView::UnknownIdentifier))
    }
}

/// Builds the reply to a result submission. A result that found its entry
/// but no listener any more is still answered as a success.
pub fn submission_reply(outcome: Submission) -> (reply: Reply)
    ensures
        reply@ == submission_reply_spec(!(outcome is UnknownIdentifier)),
{
    match outcome {
        Submission::UnknownIdentifier => Reply {
            status: STATUS_NOT_FOUND,
            body: Body::Text(BridgeError::UnknownIdentifier.message()),
        },
        Submission::Delivered => Reply { status: STATUS_OK, body: Body::Empty },
        Submission::Dropped => Reply { status: STATUS_OK, body: Body::Empty },
    }
}

/// The result submission endpoint, to be called with the lock held: hands
/// the result to the bridge call that waits for it and answers with 200, or
/// with 404 where no correlation entry exists for the identifier.
pub fn response_handler(state: &AppState, payload: RunCommandResponse) -> (reply: Reply)
    ensures
        reply@ == submission_reply_spec(state@.accepts(payload.id)),
{
    submission_reply(state.submit(payload))
}

} // verus!
