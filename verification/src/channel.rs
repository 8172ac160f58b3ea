//! Trusted declarations for the standard single-producer single-consumer
//! channels that carry peripheral events between the CPU worker and its
//! observers. The queues are unbounded and first-in first-out; nothing more
//! is assumed of them here, so every caller states what holds of any value
//! that comes out.

use std::sync::mpsc::Receiver;
use std::sync::mpsc::Sender;

use vstd::prelude::*;

verus! {

#[verifier::external_type_specification]
#[verifier::external_body]
#[verifier::reject_recursive_types(T)]
pub struct ExSender<T>(Sender<T>);

#[verifier::external_type_specification]
#[verifier::external_body]
#[verifier::reject_recursive_types(T)]
pub struct ExReceiver<T>(Receiver<T>);

/// Relies on std::sync::mpsc::Sender::send: enqueues the value without
/// blocking. The error raised once the receiver is gone is dropped here,
/// as the queue then has no observer left.
#[verifier::external_body]
pub fn channel_send<T>(sender: &Sender<T>, value: T) {
    let _ = sender.send(value);
}

/// Relies on std::sync::mpsc::Receiver::try_recv: hands out the oldest
/// queued value without blocking, or nothing when the queue is empty or
/// closed. Which of those happens depends on the producer thread, so nothing
/// is stated of the result.
#[verifier::external_body]
pub fn channel_try_recv<T>(receiver: &Receiver<T>) -> Option<T> {
    match receiver.try_recv() {
        Ok(v) => Some(v),
        Err(_) => None,
    }
}

} // verus!
