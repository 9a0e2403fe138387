//! A channel with room for one value, for consumers that wait as tasks.

use async_std::channel::Receiver as TaskReceiver;
use async_std::channel::Sender as TaskSender;
use vstd::prelude::*;

verus! {

#[verifier::external_type_specification]
#[verifier::external_body]
#[verifier::reject_recursive_types(T)]
pub struct ExSender<T>(TaskSender<T>);

#[verifier::external_type_specification]
#[verifier::external_body]
#[verifier::reject_recursive_types(T)]
pub struct ExReceiver<T>(TaskReceiver<T>);

/// Sending end of a channel.
#[verifier::reject_recursive_types(T)]
pub struct Sender<T>(TaskSender<T>);

/// Relies on async_std::channel::bounded: a channel that holds at most one
/// value (its capacity is not zero, so it does not panic).
#[verifier::external_body]
fn bounded_one<T>() -> (TaskSender<T>, TaskReceiver<T>) {
    async_std::channel::bounded(1)
}

/// Relies on async_std::channel::Sender::send_blocking: it blocks while the
/// channel is full, and fails only once the channel is closed.
#[verifier::external_body]
fn blocking_send<T>(s: &TaskSender<T>, item: T) -> bool {
    s.send_blocking(item).is_ok()
}

impl<T> Sender<T> {
    /// Hands `item` to the channel, blocking while it is full. Returns
    /// whether it was delivered: `false` once the receiver is gone, in which
    /// case the value is lost.
    #[must_use]
    pub fn send_blocking(&self, item: T) -> bool {
        blocking_send(&self.0, item)
    }
}

/// A new channel: one sender and its receiver.
pub fn channel<T>() -> (Sender<T>, TaskReceiver<T>) {
    let (s, r) = bounded_one();
    (Sender(s), r)
}

} // verus!
