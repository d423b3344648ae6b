//! Trusted boundary to flume's unbounded channels, which carry the engine's
//! `Message` values between the owner thread and the worker thread.
//!
//! A channel is shared with another thread, so nothing can be promised about
//! which messages a receive yields; the contracts here only classify the
//! outcomes, and the verified callers state what they do with whatever
//! arrives.

use crate::Message;
use crate::NError;
use vstd::prelude::*;

verus! {

#[verifier::external_type_specification]
#[verifier::external_body]
#[verifier::reject_recursive_types(T)]
pub struct ExSender<T>(flume::Sender<T>);

#[verifier::external_type_specification]
#[verifier::external_body]
#[verifier::reject_recursive_types(T)]
pub struct ExReceiver<T>(flume::Receiver<T>);

/// Relies on `flume::unbounded`: a fresh, empty, never-full channel pair.
#[verifier::external_body]
pub(crate) fn message_channel() -> (flume::Sender<Message>, flume::Receiver<Message>) {
    flume::unbounded()
}

/// Relies on `flume::Sender::send`: on an unbounded channel it never blocks,
/// and it fails exactly when every receiver has been dropped.
#[verifier::external_body]
pub(crate) fn send_message(tx: &flume::Sender<Message>, message: Message) -> (r: Result<
    (),
    NError,
>)
    ensures
        r matches Err(e) ==> e == NError::ChannelClosed,
{
    match tx.send(message) {
        Ok(()) => Ok(()),
        Err(_) => Err(NError::ChannelClosed),
    }
}

/// Relies on `flume::Receiver::len`: how many messages sit in the channel at
/// this moment. Another thread may add more right after, so this is only a
/// snapshot; the drains use it as a bound so they cannot spin forever.
#[verifier::external_body]
pub(crate) fn queued_messages(rx: &flume::Receiver<Message>) -> usize {
    rx.len()
}

/// Relies on `flume::Receiver::try_recv`: hands back a pending message
/// without blocking, or nothing when the channel is empty or disconnected.
/// What arrives depends on the sending thread, so nothing more is promised.
#[verifier::external_body]
pub(crate) fn try_recv_message(rx: &flume::Receiver<Message>) -> (r: Option<Message>) {
    match rx.try_recv() {
        Ok(message) => Some(message),
        Err(_) => None,
    }
}

} // verus!
