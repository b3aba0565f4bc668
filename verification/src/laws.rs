//! What holds of the dispatcher over any course of operations.

use crate::channel::Delivery;
use crate::dispatcher::{bridge_result, delivery_of, DispatcherView};
use crate::protocol::{ArgumentsView, BridgeError, RunCommandResponse, ToolCallView};
use vstd::prelude::*;

verus! {

/// One operation on the work queue.
pub enum QueueOp {
    Enqueue { id: u128, args: ArgumentsView },
    Pickup,
}

/// The dispatcher after one operation.
pub open spec fn apply(state: DispatcherView, op: QueueOp) -> DispatcherView {
    match op {
        QueueOp::Enqueue { id, args } => state.enqueue(id, args),
        QueueOp::Pickup => state.pickup(),
    }
}

/// The dispatcher after the operations `ops`, in order.
pub open spec fn run(start: DispatcherView, ops: Seq<QueueOp>) -> DispatcherView
    decreases ops.len(),
{
    if ops.len() == 0 {
        start
    } else {
        apply(run(start, ops.drop_last()), ops.last())
    }
}

/// The items that the enqueues among `ops` put on the queue, in order.
pub open spec fn enqueued(ops: Seq<QueueOp>) -> Seq<ToolCallView>
    decreases ops.len(),
{
    if ops.len() == 0 {
        Seq::empty()
    } else {
        match ops.last() {
            QueueOp::Enqueue { id, args } => enqueued(ops.drop_last()).push(
                DispatcherView::item(id, args),
            ),
            QueueOp::Pickup => enqueued(ops.drop_last()),
        }
    }
}

/// The items that the pickups among `ops` return, in order. A pickup that
/// finds the queue empty returns none.
pub open spec fn picked(start: DispatcherView, ops: Seq<QueueOp>) -> Seq<ToolCallView>
    decreases ops.len(),
{
    if ops.len() == 0 {
        Seq::empty()
    } else {
        let before = run(start, ops.drop_last());
        match (ops.last(), before.next_item()) {
            (QueueOp::Pickup, Some(item)) => picked(start, ops.drop_last()).push(item),
            _ => picked(start, ops.drop_last()),
        }
    }
}

/// First in, first out. Over any course of enqueues and pickups, the items
/// picked up so far followed by the items still queued are the items that
/// were queued at the start followed by the items enqueued since, in the
/// order of their enqueues.
pub proof fn lemma_fifo(start: DispatcherView, ops: Seq<QueueOp>)
    ensures
        picked(start, ops) + run(start, ops).queue == start.queue + enqueued(ops),
    decreases ops.len(),
{
    if ops.len() == 0 {
        assert(picked(start, ops) + run(start, ops).queue =~= start.queue + enqueued(ops));
    } else {
        let earlier = ops.drop_last();
        let before = run(start, earlier);
        lemma_fifo(start, earlier);
        assert(picked(start, earlier) + before.queue == start.queue + enqueued(earlier));
        match ops.last() {
            QueueOp::Enqueue { id, args } => {
                let item = DispatcherView::item(id, args);
                assert(picked(start, earlier) + before.queue.push(item) =~= (picked(start, earlier)
                    + before.queue).push(item));
                assert(start.queue + enqueued(earlier).push(item) =~= (start.queue + enqueued(
                    earlier,
                )).push(item));
            },
            QueueOp::Pickup => {
                if before.queue.len() > 0 {
                    assert(picked(start, earlier).push(before.queue[0]) + before.queue.skip(1)
                        =~= picked(start, earlier) + before.queue);
                }
            },
        }
    }
}

/// From an empty queue, the `k`-th item that pickups return is the `k`-th
/// item that was enqueued, however enqueues and pickups alternate.
pub proof fn lemma_pickup_order(ops: Seq<QueueOp>, k: int)
    requires
        0 <= k < picked(DispatcherView::empty(), ops).len(),
    ensures
        k < enqueued(ops).len(),
        picked(DispatcherView::empty(), ops)[k] == enqueued(ops)[k],
{
    let start = DispatcherView::empty();
    lemma_fifo(start, ops);
    assert(start.queue + enqueued(ops) =~= enqueued(ops));
    assert((picked(start, ops) + run(start, ops).queue).len() == enqueued(ops).len());
    assert((picked(start, ops) + run(start, ops).queue)[k] == picked(start, ops)[k]);
}

/// No identifier is queued twice.
pub open spec fn distinct_ids(state: DispatcherView) -> bool {
    forall|i: int, j: int|
        0 <= i < j < state.queue.len() ==> (#[trigger] state.queue[i]).id != (
        #[trigger] state.queue[j]).id
}

/// The identifier `id` is queued.
pub open spec fn queued(state: DispatcherView, id: u128) -> bool {
    exists|i: int| 0 <= i < state.queue.len() && (#[trigger] state.queue[i]).id == Some(id)
}

/// An item is queued at most once: while every enqueue draws an identifier
/// that is not queued, no identifier is queued twice, and a pickup keeps it
/// so. Nothing puts an item back that a pickup has taken.
pub proof fn lemma_queued_once(state: DispatcherView, id: u128, args: ArgumentsView)
    requires
        distinct_ids(state),
    ensures
        !queued(state, id) ==> distinct_ids(state.enqueue(id, args)),
        distinct_ids(state.pickup()),
        state.queue.len() > 0 ==> forall|i: int|
            0 <= i < state.pickup().queue.len() ==> (#[trigger] state.pickup().queue[i]).id
                != state.queue[0].id,
{
    let after = state.enqueue(id, args);
    if !queued(state, id) {
        assert forall|i: int, j: int| 0 <= i < j < after.queue.len() implies (
        #[trigger] after.queue[i]).id != (#[trigger] after.queue[j]).id by {
            if j == state.queue.len() {
                assert(after.queue[i] == state.queue[i]);
                assert(state.queue[i].id != Some(id));
            } else {
                assert(after.queue[i] == state.queue[i]);
                assert(after.queue[j] == state.queue[j]);
            }
        }
    }
    let rest = state.pickup();
    if state.queue.len() > 0 {
        assert forall|i: int, j: int| 0 <= i < j < rest.queue.len() implies (
        #[trigger] rest.queue[i]).id != (#[trigger] rest.queue[j]).id by {
            assert(rest.queue[i] == state.queue[i + 1]);
            assert(rest.queue[j] == state.queue[j + 1]);
        }
        assert forall|i: int| 0 <= i < rest.queue.len() implies (#[trigger] rest.queue[i]).id
            != state.queue[0].id by {
            assert(rest.queue[i] == state.queue[i + 1]);
        }
    }
}

/// A pickup never returns an item twice: what it returns leaves the queue.
pub proof fn lemma_pickup_removes(state: DispatcherView)
    requires
        state.queue.len() > 0,
    ensures
        state.pickup().queue.len() == state.queue.len() - 1,
        seq![state.next_item()->0] + state.pickup().queue == state.queue,
{
    assert(seq![state.queue[0]] + state.queue.skip(1) =~= state.queue);
}

/// An enqueue registers its identifier: a result submitted for it is
/// accepted until the bridge call ends.
pub proof fn lemma_enqueue_registers(state: DispatcherView, id: u128, args: ArgumentsView)
    ensures
        state.enqueue(id, args).accepts(id),
        state.enqueue(id, args).pickup().accepts(id),
{
}

/// A pickup leaves the correlation table as it is.
pub proof fn lemma_pickup_keeps_entries(state: DispatcherView, id: u128)
    ensures
        state.pickup().accepts(id) == state.accepts(id),
{
}

/// Once the bridge call for `id` has ended, a result submitted for `id` is
/// rejected: of two submissions with the end of the bridge call between
/// them, at most the first is accepted.
pub proof fn lemma_finish_forgets(state: DispatcherView, id: u128)
    ensures
        !state.finish(id).accepts(id),
{
}

/// The end of one bridge call touches no other: the queue and the entries
/// of all other identifiers are as they were.
pub proof fn lemma_finish_is_local(state: DispatcherView, id: u128, other: u128)
    requires
        other != id,
    ensures
        state.finish(id).accepts(other) == state.accepts(other),
        state.finish(id).queue == state.queue,
{
}

/// A bridge call whose channel yields the result submitted for it returns
/// exactly the submitted payload.
pub proof fn lemma_bridge_returns_payload(payload: RunCommandResponse)
    ensures
        bridge_result(Some(delivery_of(payload))) == Ok::<String, BridgeError>(payload.response),
{
}

/// A bridge call whose channel closes without a delivery fails with
/// `ChannelClosed`, and its entry is gone afterwards.
pub proof fn lemma_closed_channel(state: DispatcherView, id: u128)
    ensures
        bridge_result(None::<Delivery>) == Err::<String, BridgeError>(BridgeError::ChannelClosed),
        !state.finish(id).accepts(id),
{
}

} // verus!
