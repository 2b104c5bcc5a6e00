//! Bounded channels between the decode pipelines and their consumers.
//!
//! The channels are flume's. Every call crosses a thread boundary, so the
//! contracts promise only what holds of every outcome; in particular, a send
//! that fails always hands the message back, which is what lets the retry
//! loop in `pipeline` lose nothing under backpressure.

use vstd::prelude::*;

verus! {

#[verifier::external_type_specification]
#[verifier::external_body]
#[verifier::reject_recursive_types(T)]
pub struct ExSender<T>(flume::Sender<T>);

#[verifier::external_type_specification]
#[verifier::external_body]
#[verifier::reject_recursive_types(T)]
pub struct ExReceiver<T>(flume::Receiver<T>);

/// What one attempt to send a message came to. A failed attempt carries the
/// message back to the caller.
pub enum SendAttempt<T> {
    Sent,
    TimedOut(T),
    Closed(T),
}

/// What one attempt to receive a message came to.
pub enum RecvAttempt<T> {
    Received(T),
    Empty,
    Closed,
}

/// Relies on flume::bounded: a channel holding at most `cap` messages in
/// flight, with the sender blocking once it is full.
#[verifier::external_body]
pub(crate) fn channel_bounded<T>(cap: usize) -> (flume::Sender<T>, flume::Receiver<T>) {
    flume::bounded(cap)
}

/// Relies on flume::unbounded: a channel that never blocks its sender,
/// used only for the command side.
#[verifier::external_body]
pub(crate) fn channel_unbounded<T>() -> (flume::Sender<T>, flume::Receiver<T>) {
    flume::unbounded()
}

/// Relies on flume::Sender::send_timeout: the call blocks until the message
/// is accepted, the timeout passes, or every receiver is gone, and on both
/// failures the error carries the unsent message itself back.
#[verifier::external_body]
pub(crate) fn send_timeout_ms<T>(tx: &flume::Sender<T>, value: T, timeout_ms: u64) -> (r: SendAttempt<T>)
    ensures
        r matches SendAttempt::TimedOut(v) ==> v == value,
        r matches SendAttempt::Closed(v) ==> v == value,
{
    match tx.send_timeout(value, std::time::Duration::from_millis(timeout_ms)) {
        Ok(()) => SendAttempt::Sent,
        Err(flume::SendTimeoutError::Timeout(v)) => SendAttempt::TimedOut(v),
        Err(flume::SendTimeoutError::Disconnected(v)) => SendAttempt::Closed(v),
    }
}

/// Relies on flume::Sender::send: the call blocks until the message is
/// accepted or every receiver is gone, and in the latter case the error
/// carries the unsent message itself back, so it never times out.
#[verifier::external_body]
pub(crate) fn send_blocking<T>(tx: &flume::Sender<T>, value: T) -> (r: SendAttempt<T>)
    ensures
        !(r matches SendAttempt::TimedOut(_)),
        r matches SendAttempt::Closed(v) ==> v == value,
{
    match tx.send(value) {
        Ok(()) => SendAttempt::Sent,
        Err(flume::SendError(v)) => SendAttempt::Closed(v),
    }
}

/// Relies on flume::Receiver::try_recv: the call never blocks; it yields a
/// waiting message, or reports the channel empty or closed.
#[verifier::external_body]
pub(crate) fn try_recv<T>(rx: &flume::Receiver<T>) -> (r: RecvAttempt<T>) {
    match rx.try_recv() {
        Ok(v) => RecvAttempt::Received(v),
        Err(flume::TryRecvError::Empty) => RecvAttempt::Empty,
        Err(flume::TryRecvError::Disconnected) => RecvAttempt::Closed,
    }
}

/// Relies on flume::Receiver::drain: the call never blocks and takes every
/// message sitting in the channel at that moment.
#[verifier::external_body]
pub(crate) fn drain_into_vec<T>(rx: &flume::Receiver<T>) -> (taken: Vec<T>) {
    rx.drain().collect()
}

/// Relies on flume's Clone for Receiver: the clone receives from the same
/// channel.
#[verifier::external_body]
pub(crate) fn clone_receiver<T>(rx: &flume::Receiver<T>) -> (r: flume::Receiver<T>) {
    rx.clone()
}

} // verus!
