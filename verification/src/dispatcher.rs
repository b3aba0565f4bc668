//! The dispatcher state: work queue, correlation table and change notifier.

use crate::channel::{
    deliver, delivery_channel, fresh_id, is_random_uuid, notifier, notify, subscribe, Delivery,
    DeliveryReceiver, DeliverySender, Trigger, Waiter,
};
use crate::protocol::{
    ArgumentsView, BridgeError, RunCommandResponse, ToolArgumentValues, ToolCall, ToolCallView,
};
use std::collections::{HashMap, VecDeque};
use vstd::prelude::*;

verus! {

/// Mathematical value of the dispatcher: the queued work items, oldest
/// first, and the identifiers that have a correlation entry.
pub struct DispatcherView {
    pub queue: Seq<ToolCallView>,
    pub pending: Set<u128>,
}

impl DispatcherView {
    /// The dispatcher with nothing queued and nobody waiting.
    pub open spec fn empty() -> DispatcherView {
        DispatcherView { queue: Seq::empty(), pending: Set::empty() }
    }

    /// The work item that an enqueue with `id` and `args` makes.
    pub open spec fn item(id: u128, args: ArgumentsView) -> ToolCallView {
        ToolCallView { args, id: Some(id) }
    }

    /// Appends the item to the queue and registers its identifier.
    pub open spec fn enqueue(self, id: u128, args: ArgumentsView) -> DispatcherView {
        DispatcherView {
            queue: self.queue.push(Self::item(id, args)),
            pending: self.pending.insert(id),
        }
    }

    /// The item that the next pickup returns, if any is queued.
    pub open spec fn next_item(self) -> Option<ToolCallView> {
        if self.queue.len() > 0 {
            Some(self.queue[0])
        } else {
            None
        }
    }

    /// The dispatcher after a pickup: the oldest item is gone. The
    /// correlation table is as it was.
    pub open spec fn pickup(self) -> DispatcherView {
        if self.queue.len() > 0 {
            DispatcherView { queue: self.queue.skip(1), pending: self.pending }
        } else {
            self
        }
    }

    /// A result submitted for `id` is accepted.
    pub open spec fn accepts(self, id: u128) -> bool {
        self.pending.contains(id)
    }

    /// The dispatcher after the bridge call for `id` has ended.
    pub open spec fn finish(self, id: u128) -> DispatcherView {
        DispatcherView { queue: self.queue, pending: self.pending.remove(id) }
    }
}

/// Queue, correlation table and notifier. One lock around a value of this
/// type makes every method below one critical section.
pub struct AppState {
    /// Work items that no pickup has taken yet, oldest first.
    process_queue: VecDeque<Queued>,
    /// The sending end of the channel of every bridge call that has not
    /// ended, under the identifier of its work item.
    output_map: HashMap<u128, DeliverySender>,
    /// A receiver that is never waited on: it keeps the notifier open while
    /// no pickup waits.
    waiter: Waiter,
    /// Fired by every enqueue.
    trigger: Trigger,
}

/// A work item while it waits in the queue.
struct Queued {
    id: u128,
    args: ToolArgumentValues,
}

impl View for Queued {
    type V = ToolCallView;

    closed spec fn view(&self) -> ToolCallView {
        DispatcherView::item(self.id, self.args@)
    }
}

/// What a bridge call holds between its enqueue and its end.
pub struct Ticket {
    pub id: u128,
    pub receiver: DeliveryReceiver,
}

/// One look at the queue by a pickup request.
pub enum Pickup {
    /// The oldest queued item, now taken off the queue.
    Found(ToolCall),
    /// Nothing is queued. The receiver reports the next change of the queue.
    Wait(Waiter),
}

/// How a result submission ended.
#[derive(Clone, Copy, Debug, PartialEq, Eq)]
pub enum Submission {
    /// The result was handed to the bridge call that waits for it.
    Delivered,
    /// An entry exists, but the bridge call no longer listens.
    Dropped,
    /// No entry exists for the identifier.
    UnknownIdentifier,
}

/// What a result submission puts on the channel of the waiting bridge call.
pub open spec fn delivery_of(payload: RunCommandResponse) -> Delivery {
    Ok(payload.response)
}

/// What a bridge call returns for what came out of its channel: the delivery
/// itself, or `ChannelClosed` where the channel closed without one.
pub open spec fn bridge_result(received: Option<Delivery>) -> Delivery {
    match received {
        Some(delivery) => delivery,
        None => Err(BridgeError::ChannelClosed),
    }
}

/// How a submission ends, given whether an entry exists for its identifier
/// and, if so, whether the channel took the result.
pub open spec fn submission_outcome(known: bool, taken: bool) -> Submission {
    if !known {
        Submission::UnknownIdentifier
    } else if taken {
        Submission::Delivered
    } else {
        Submission::Dropped
    }
}

/// Names the end of a submission.
pub fn classify_submission(known: bool, taken: bool) -> (outcome: Submission)
    ensures
        outcome == submission_outcome(known, taken),
{
    if !known {
        Submission::UnknownIdentifier
    } else if taken {
        Submission::Delivered
    } else {
        Submission::Dropped
    }
}

/// Wraps a submitted result for the channel of the waiting bridge call.
pub fn prepare_delivery(payload: RunCommandResponse) -> (delivery: Delivery)
    ensures
        delivery == delivery_of(payload),
{
    Ok(payload.response)
}

impl View for AppState {
    type V = DispatcherView;

    closed spec fn view(&self) -> DispatcherView {
        DispatcherView {
            queue: self.process_queue@.map_values(|q: Queued| q@),
            pending: self.output_map@.dom(),
        }
    }
}

impl AppState {
    /// Every queued item carries its identifier.
    pub proof fn lemma_queued_items_carry_ids(&self)
        ensures
            forall|i: int| 0 <= i < self@.queue.len() ==> (#[trigger] self@.queue[i]).id is Some,
    {
    }

    /// A dispatcher with an empty queue and an empty correlation table.
    pub fn new() -> (state: Self)
        ensures
            state@ == DispatcherView::empty(),
    {
        let (trigger, waiter) = notifier();
        let state = AppState {
            process_queue: VecDeque::new(),
            output_map: HashMap::new(),
            waiter,
            trigger,
        };
        assert(state@.queue =~= Seq::empty());
        assert(state@.pending =~= Set::empty());
        state
    }

    /// First half of a bridge call: draws a fresh identifier, queues the work
    /// item under it, registers the correlation entry and fires the notifier,
    /// all in one step. The caller then waits on the ticket's receiver.
    pub fn enqueue(&mut self, args: ToolArgumentValues) -> (ticket: Ticket)
        ensures
            final(self)@ == old(self)@.enqueue(ticket.id, args@),
            is_random_uuid(ticket.id),
    {
        broadcast use vstd::std_specs::hash::group_hash_axioms;

        let ghost before = self@;
        let id = fresh_id();
        let (tx, rx) = delivery_channel();
        self.process_queue.push_back(Queued { id, args });
        self.output_map.insert(id, tx);
        let _heard = notify(&self.trigger);
        assert(self@.queue =~= before.enqueue(id, args@).queue);
        assert(self@.pending =~= before.enqueue(id, args@).pending);
        Ticket { id, receiver: rx }
    }

    /// One look at the queue by a pickup request: takes the oldest item off
    /// the queue, or hands out a receiver on which to wait for a change.
    pub fn pickup(&mut self) -> (step: Pickup)
        ensures
            final(self)@ == old(self)@.pickup(),
            match step {
                Pickup::Found(item) => old(self)@.next_item() == Some(item@) && item.id is Some,
                Pickup::Wait(_) => old(self)@.next_item() is None,
            },
    {
        let ghost before = self@;
        match self.process_queue.pop_front() {
            Some(queued) => {
                assert(self@.queue =~= before.queue.skip(1));
                Pickup::Found(ToolCall { args: queued.args, id: Some(queued.id) })
            },
            None => Pickup::Wait(subscribe(&self.trigger)),
        }
    }

    /// A result submission: looks up the entry for the identifier and, where
    /// there is one, hands the result to its channel. The entry stays; the
    /// bridge call removes it.
    pub fn submit(&self, payload: RunCommandResponse) -> (outcome: Submission)
        ensures
            outcome is UnknownIdentifier <==> !self@.accepts(payload.id),
    {
        broadcast use vstd::std_specs::hash::group_hash_axioms;

        match self.output_map.get(&payload.id) {
            Some(sender) => {
                let taken = deliver(sender, prepare_delivery(payload));
                classify_submission(true, taken)
            },
            None => classify_submission(false, false),
        }
    }

    /// Second half of a bridge call: removes the correlation entry for `id`
    /// and turns what came out of the channel into the call's result.
    pub fn finish(&mut self, id: u128, received: Option<Delivery>) -> (result: Delivery)
        ensures
            final(self)@ == old(self)@.finish(id),
            result == bridge_result(received),
    {
        broadcast use vstd::std_specs::hash::group_hash_axioms;

        let ghost before = self@;
        let _entry = self.output_map.remove(&id);
        assert(self@.pending =~= before.finish(id).pending);
        match received {
            Some(delivery) => delivery,
            None => Err(BridgeError::ChannelClosed),
        }
    }
}

} // verus!
