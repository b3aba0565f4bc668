//! The channels and the identifier source that the dispatcher is built on.
//!
//! A channel shares its state between its two ends, and either end may be
//! used by another task at any time. Nothing is therefore stated of what a
//! channel holds: each function below says what the call is, and the
//! dispatcher's contracts hold whatever the calls return.

use crate::protocol::BridgeError;
use vstd::prelude::*;

verus! {

#[verifier::external_type_specification]
#[verifier::external_body]
#[verifier::reject_recursive_types(T)]
pub struct ExUnboundedSender<T>(tokio::sync::mpsc::UnboundedSender<T>);

#[verifier::external_type_specification]
#[verifier::external_body]
#[verifier::reject_recursive_types(T)]
pub struct ExUnboundedReceiver<T>(tokio::sync::mpsc::UnboundedReceiver<T>);

#[verifier::external_type_specification]
#[verifier::external_body]
#[verifier::reject_recursive_types(T)]
pub struct ExWatchSender<T>(tokio::sync::watch::Sender<T>);

#[verifier::external_type_specification]
#[verifier::external_body]
#[verifier::reject_recursive_types(T)]
pub struct ExWatchReceiver<T>(tokio::sync::watch::Receiver<T>);

/// What travels from a result submission to the bridge call that waits for it.
pub type Delivery = Result<String, BridgeError>;

/// Sending end of the one-shot channel of a bridge call.
pub type DeliverySender = tokio::sync::mpsc::UnboundedSender<Delivery>;

/// Receiving end of the one-shot channel of a bridge call.
pub type DeliveryReceiver = tokio::sync::mpsc::UnboundedReceiver<Delivery>;

/// Sending end of the change notifier.
pub type Trigger = tokio::sync::watch::Sender<()>;

/// Receiving end of the change notifier.
pub type Waiter = tokio::sync::watch::Receiver<()>;

/// Calls `tokio::sync::mpsc::unbounded_channel`, which makes a channel and
/// returns its two ends.
#[verifier::external_body]
pub(crate) fn delivery_channel() -> (ends: (DeliverySender, DeliveryReceiver)) {
    tokio::sync::mpsc::unbounded_channel()
}

/// Calls `tokio::sync::mpsc::UnboundedSender::send`, which does not wait.
/// The result tells whether the channel took the message; it does not where
/// the receiving end is closed or gone.
#[verifier::external_body]
pub(crate) fn deliver(sender: &DeliverySender, message: Delivery) -> (taken: bool) {
    sender.send(message).is_ok()
}

/// Calls `tokio::sync::watch::channel` with the unit value, which makes a
/// notifier and returns its two ends.
#[verifier::external_body]
pub(crate) fn notifier() -> (ends: (Trigger, Waiter)) {
    tokio::sync::watch::channel(())
}

/// Calls `tokio::sync::watch::Sender::send` with the unit value, which wakes
/// every receiver that waits for a change. The result tells whether any
/// receiver exists.
#[verifier::external_body]
pub(crate) fn notify(trigger: &Trigger) -> (heard: bool) {
    trigger.send(()).is_ok()
}

/// Calls `tokio::sync::watch::Sender::subscribe`, which returns a new
/// receiver that counts everything sent so far as seen.
#[verifier::external_body]
pub(crate) fn subscribe(trigger: &Trigger) -> (waiter: Waiter) {
    trigger.subscribe()
}

/// Version 4 of the UUID layout: the version field holds 4 and the variant
/// field holds binary 10.
pub open spec fn is_random_uuid(id: u128) -> bool {
    id & 0x0000_0000_0000_f000_c000_0000_0000_0000u128 == 0x0000_0000_0000_4000_8000_0000_0000_0000u128
}

/// Calls `uuid::Uuid::new_v4` and returns the identifier as a number, most
/// significant byte first. The identifier is drawn at random; only its
/// version and variant fields are fixed. The call panics where the system
/// has no random bytes to give.
#[verifier::external_body]
pub(crate) fn fresh_id() -> (id: u128)
    ensures
        is_random_uuid(id),
{
    uuid::Uuid::new_v4().as_u128()
}

} // verus!
