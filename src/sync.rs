//! A rendezvous channel on which a thread blocks until its value is taken.

use std::sync::mpsc::Receiver as ThreadReceiver;
use std::sync::mpsc::SyncSender;
use vstd::prelude::*;

verus! {

#[verifier::external_type_specification]
#[verifier::external_body]
#[verifier::reject_recursive_types(T)]
pub struct ExSyncSender<T>(SyncSender<T>);

#[verifier::external_type_specification]
#[verifier::external_body]
#[verifier::reject_recursive_types(T)]
pub struct ExMpscReceiver<T>(ThreadReceiver<T>);

/// Sending end of a channel.
#[verifier::reject_recursive_types(T)]
pub struct Sender<T>(SyncSender<T>);

/// Relies on std::sync::mpsc::sync_channel: with a bound of zero, a send
/// waits until a receiver takes the value.
#[verifier::external_body]
fn sync_channel_zero<T>() -> (SyncSender<T>, ThreadReceiver<T>) {
    std::sync::mpsc::sync_channel(0)
}

/// Relies on std::sync::mpsc::SyncSender::send: it blocks until the value is
/// taken, and fails only once the receiver is gone.
#[verifier::external_body]
fn sync_send<T>(s: &SyncSender<T>, item: T) -> bool {
    s.send(item).is_ok()
}

impl<T> Sender<T> {
    /// Hands `item` to the receiver, blocking until it is taken. Returns
    /// whether it was delivered: `false` once the receiver is gone, in which
    /// case the value is lost.
    #[must_use]
    pub fn send_blocking(&self, item: T) -> bool {
        sync_send(&self.0, item)
    }
}

/// A new rendezvous channel: one sender and its receiver.
pub fn channel<T>() -> (Sender<T>, ThreadReceiver<T>) {
    let (s, r) = sync_channel_zero();
    (Sender(s), r)
}

} // verus!
