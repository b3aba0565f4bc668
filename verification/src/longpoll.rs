//! Decisions of the long-poll pickup endpoint.
//!
//! A pickup request looks at the queue with `AppState::pickup`. While the
//! queue is empty it waits on the receiver it was handed, without the lock,
//! until the notifier fires, the notifier is gone, or the bound of
//! `LONG_POLL_SECONDS` has elapsed since the request came in. After each
//! wake-up without an end it looks at the queue again.

use crate::channel::Waiter;
use crate::dispatcher::{AppState, DispatcherView, Pickup};
use crate::protocol::{
    Body, BodyView, Reply, ReplyView, ToolCall, ToolCallView, STATUS_ACCEPTED,
    STATUS_INTERNAL_SERVER_ERROR, STATUS_OK,
};
use vstd::prelude::*;

verus! {

/// What ended a wait on the notifier.
#[derive(Clone, Copy, Debug, PartialEq, Eq)]
pub enum WaitEnd {
    /// The notifier fired: the queue may hold an item now.
    Changed,
    /// The notifier is gone: no change will ever be reported.
    NotifierClosed,
    /// The bound of the request elapsed.
    Elapsed,
}

/// How a pickup request ends.
#[derive(Clone, Debug, PartialEq, Eq)]
pub enum PickupOutcome {
    /// The next item; the worker now holds its identifier.
    Found(ToolCall),
    /// No work came within the bound. The worker asks again.
    TimedOut,
    /// The wait itself failed.
    InternalError,
}

/// Mathematical value of a `PickupOutcome`.
pub enum PickupOutcomeView {
    Found(ToolCallView),
    TimedOut,
    InternalError,
}

impl View for PickupOutcome {
    type V = PickupOutcomeView;

    open spec fn view(&self) -> PickupOutcomeView {
        match self {
            PickupOutcome::Found(item) => PickupOutcomeView::Found(item@),
            PickupOutcome::TimedOut => PickupOutcomeView::TimedOut,
            PickupOutcome::InternalError => PickupOutcomeView::InternalError,
        }
    }
}

/// What a pickup request does after a wait: `None` stands for another look
/// at the queue, `Some` for the end of the request.
pub open spec fn after_wait_spec(end: WaitEnd) -> Option<PickupOutcomeView> {
    match end {
        WaitEnd::Changed => None,
        WaitEnd::NotifierClosed => Some(PickupOutcomeView::InternalError),
        WaitEnd::Elapsed => Some(PickupOutcomeView::TimedOut),
    }
}

/// Text of the reply to a pickup whose wait failed.
pub open spec fn internal_error_text() -> Seq<char> {
    "Error: Long poll timed out internally"@
}

/// The reply that ends a pickup request.
pub open spec fn pickup_reply_spec(outcome: PickupOutcomeView) -> ReplyView {
    match outcome {
        PickupOutcomeView::Found(item) => ReplyView {
            status: STATUS_OK,
            body: BodyView::Task(item),
        },
        PickupOutcomeView::TimedOut => ReplyView { status: STATUS_ACCEPTED, body: BodyView::Empty },
        PickupOutcomeView::InternalError => ReplyView {
            status: STATUS_INTERNAL_SERVER_ERROR,
            body: BodyView::Text(internal_error_text()),
        },
    }
}

/// Decides what a pickup request does after a wait on the notifier. A
/// wake-up promises no item, so the request looks at the queue again.
pub fn after_wait(end: WaitEnd) -> (next: Option<PickupOutcome>)
    ensures
        match next {
            Some(outcome) => after_wait_spec(end) == Some(outcome@),
            None => after_wait_spec(end) is None,
        },
{
    match end {
        WaitEnd::Changed => None,
        WaitEnd::NotifierClosed => Some(PickupOutcome::InternalError),
        WaitEnd::Elapsed => Some(PickupOutcome::TimedOut),
    }
}

/// Builds the reply that ends a pickup request.
pub fn pickup_reply(outcome: PickupOutcome) -> (reply: Reply)
    ensures
        reply@ == pickup_reply_spec(outcome@),
{
    match outcome {
        PickupOutcome::Found(item) => Reply { status: STATUS_OK, body: Body::Task(item) },
        PickupOutcome::TimedOut => Reply { status: STATUS_ACCEPTED, body: Body::Empty },
        PickupOutcome::InternalError => Reply {
            status: STATUS_INTERNAL_SERVER_ERROR,
            body: Body::Text("Error: Long poll timed out internally".to_owned()),
        },
    }
}

/// What a pickup request does after one turn.
pub enum PollStep {
    /// The request ends with this reply.
    Respond(Reply),
    /// Nothing is queued: wait on the receiver, without the lock, and come
    /// back with what ended the wait.
    Wait(Waiter),
}

/// How a turn of a pickup request ends where it ends the request: with what
/// the wait decided or, on arrival and after a wake-up, with the oldest
/// queued item. `None` where the turn ends in another wait.
pub open spec fn turn_outcome(state: DispatcherView, woken_by: Option<WaitEnd>) -> Option<
    PickupOutcomeView,
> {
    match woken_by {
        Some(WaitEnd::NotifierClosed) => Some(PickupOutcomeView::InternalError),
        Some(WaitEnd::Elapsed) => Some(PickupOutcomeView::TimedOut),
        _ => match state.next_item() {
            Some(item) => Some(PickupOutcomeView::Found(item)),
            None => None,
        },
    }
}

/// The dispatcher after a turn of a pickup request. Only a turn that looks
/// at the queue can change it.
pub open spec fn turn_state(state: DispatcherView, woken_by: Option<WaitEnd>) -> DispatcherView {
    match woken_by {
        Some(WaitEnd::NotifierClosed) => state,
        Some(WaitEnd::Elapsed) => state,
        _ => state.pickup(),
    }
}

/// One turn of a pickup request, to be taken with the lock held. `woken_by`
/// is `None` when the request arrives, and afterwards what ended its last
/// wait. On arrival and after every wake-up the turn looks at the queue
/// anew: it takes the oldest item if there is one and waits again if there
/// is none. The end of the bound and the loss of the notifier end the
/// request without a look at the queue.
pub fn request_handler(state: &mut AppState, woken_by: Option<WaitEnd>) -> (step: PollStep)
    ensures
        final(state)@ == turn_state(old(state)@, woken_by),
        match step {
            PollStep::Respond(reply) => {
                &&& turn_outcome(old(state)@, woken_by) matches Some(outcome)
                &&& reply@ == pickup_reply_spec(outcome)
            },
            PollStep::Wait(_) => turn_outcome(old(state)@, woken_by) is None,
        },
{
    let ended = match woken_by {
        Some(end) => after_wait(end),
        None => None,
    };
    match ended {
        Some(outcome) => PollStep::Respond(pickup_reply(outcome)),
        None => match state.pickup() {
            Pickup::Found(item) => PollStep::Respond(pickup_reply(PickupOutcome::Found(item))),
            Pickup::Wait(waiter) => PollStep::Wait(waiter),
        },
    }
}

/// A pickup whose bound elapses on an empty queue ends with "no work yet",
/// which is no error: its reply has status 202 and an empty body.
pub proof fn lemma_elapsed_is_no_error()
    ensures
        after_wait_spec(WaitEnd::Elapsed) == Some(PickupOutcomeView::TimedOut),
        pickup_reply_spec(PickupOutcomeView::TimedOut) == (ReplyView {
            status: 202,
            body: BodyView::Empty,
        }),
        forall|state: DispatcherView| #[trigger]
            turn_outcome(state, Some(WaitEnd::Elapsed)) == Some(PickupOutcomeView::TimedOut),
{
}

} // verus!
