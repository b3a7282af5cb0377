//! The channel primitives that the coordination layer is built on.
//!
//! Handles, the worker and the callers' reply slots are tied together by
//! tokio's `mpsc` and `oneshot` channels. Everything in this file is believed
//! rather than proved: the types are opaque, and the functions below
//! only forward to tokio.

use tokio::sync::{mpsc, oneshot};
use vstd::prelude::*;

verus! {

/// The producer end of a reply slot: `tokio::sync::oneshot::Sender`.
#[verifier::external_type_specification]
#[verifier::external_body]
#[verifier::reject_recursive_types(T)]
pub struct ExOneshotSender<T>(oneshot::Sender<T>);

/// The consumer end of a reply slot: `tokio::sync::oneshot::Receiver`.
#[verifier::external_type_specification]
#[verifier::external_body]
#[verifier::reject_recursive_types(T)]
pub struct ExOneshotReceiver<T>(oneshot::Receiver<T>);

/// What awaiting a reply slot yields when its producer end was dropped
/// without sending: `tokio::sync::oneshot::error::RecvError`.
#[verifier::external_type_specification]
#[verifier::external_body]
pub struct ExRecvError(oneshot::error::RecvError);

/// What sending into a bounded queue yields when the receiving half is gone:
/// `tokio::sync::mpsc::error::SendError`.
#[verifier::external_type_specification]
#[verifier::external_body]
#[verifier::reject_recursive_types(T)]
pub struct ExSendError<T>(mpsc::error::SendError<T>);

/// The sending half of a bounded queue: `tokio::sync::mpsc::Sender`.
#[verifier::external_type_specification]
#[verifier::external_body]
#[verifier::reject_recursive_types(T)]
pub struct ExMpscSender<T>(mpsc::Sender<T>);

/// The receiving half of a bounded queue: `tokio::sync::mpsc::Receiver`.
#[verifier::external_type_specification]
#[verifier::external_body]
#[verifier::reject_recursive_types(T)]
pub struct ExMpscReceiver<T>(mpsc::Receiver<T>);

/// Calls `tokio::sync::oneshot::channel`. Nothing is claimed of the two ends
/// it returns.
#[verifier::external_body]
pub(crate) fn reply_slot<T>() -> (ends: (oneshot::Sender<T>, oneshot::Receiver<T>)) {
    oneshot::channel()
}

/// Calls `tokio::sync::mpsc::channel`, which panics on a capacity of zero or
/// above what its semaphore can count; both are excluded here. Nothing is
/// claimed of the two halves it returns.
#[verifier::external_body]
pub(crate) fn bounded_queue<T>(capacity: usize) -> (halves: (mpsc::Sender<T>, mpsc::Receiver<T>))
    requires
        0 < capacity <= 0x1fff_ffff,
{
    mpsc::channel(capacity)
}

/// Calls `tokio::sync::oneshot::Sender::send` and reports whether the value
/// was taken. Whether it is depends on the consumer end still being there, so
/// nothing is claimed of the answer.
#[verifier::external_body]
pub(crate) fn hand_over<T>(sender: oneshot::Sender<T>, value: T) -> (taken: bool) {
    sender.send(value).is_ok()
}

/// Calls `Clone::clone` on a `tokio::sync::mpsc::Sender`, which gives one more
/// sending half of the same queue. Nothing is claimed of it.
#[verifier::external_body]
pub(crate) fn another_sender<T>(sender: &mpsc::Sender<T>) -> (copy: mpsc::Sender<T>) {
    sender.clone()
}

} // verus!
