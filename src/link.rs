//! The bounded cross-core channels of embassy-sync, as the actors use them.
//!
//! Each channel is a fixed-capacity FIFO with one producer and one consumer,
//! possibly on two cores. An actor holds only a handle to one end. What the
//! channel holds can change under either end at any moment, so no contract
//! here speaks of its contents: a send may be queued or dropped, a receive
//! may or may not yield a message. Neither ever blocks.

use vstd::prelude::*;

use embassy_sync::channel::{SendDynamicReceiver, SendDynamicSender};

verus! {

#[verifier::external_type_specification]
#[verifier::external_body]
#[verifier::reject_recursive_types(T)]
pub struct ExSendDynamicSender<'ch, T>(SendDynamicSender<'ch, T>);

#[verifier::external_type_specification]
#[verifier::external_body]
#[verifier::reject_recursive_types(T)]
pub struct ExSendDynamicReceiver<'ch, T>(SendDynamicReceiver<'ch, T>);

/// Relies on `SendDynamicSender::try_send`: never blocks; `true` when the
/// message was queued, `false` when the channel was full and it was dropped.
#[verifier::external_body]
pub(crate) fn try_send<T>(tx: &SendDynamicSender<'static, T>, message: T) -> (queued: bool) {
    tx.try_send(message).is_ok()
}

/// Relies on `SendDynamicReceiver::try_receive`: never blocks; the oldest
/// queued message, or `None` when the channel was empty.
#[verifier::external_body]
pub(crate) fn try_receive<T>(rx: &SendDynamicReceiver<'static, T>) -> (r: Option<T>) {
    rx.try_receive().ok()
}

} // verus!
