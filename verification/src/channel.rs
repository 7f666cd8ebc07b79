//! The two ends of a `crossbeam` channel, as the stages use them.
//!
//! A channel hands messages from its sending end to its receiving end in the
//! order in which they were sent. Whether a message can still be delivered,
//! and which message arrives next, is decided by the stage at the other end,
//! so the contracts here claim nothing of what an operation returns.

use vstd::prelude::*;
use crossbeam::channel::{Receiver, Sender};

verus! {

/// `crossbeam::channel::Sender`, the sending end of a channel. Nothing of its
/// inside is known here.
#[verifier::external_type_specification]
#[verifier::external_body]
#[verifier::reject_recursive_types(T)]
pub struct ExSender<T>(crossbeam::channel::Sender<T>);

/// `crossbeam::channel::Receiver`, the receiving end of a channel. Nothing of
/// its inside is known here.
#[verifier::external_type_specification]
#[verifier::external_body]
#[verifier::reject_recursive_types(T)]
pub struct ExReceiver<T>(crossbeam::channel::Receiver<T>);

/// `Sender::send` waits until the channel takes the message or is found
/// disconnected. The result tells whether the channel took the message;
/// nothing is claimed of which of the two happens.
#[verifier::external_body]
pub(crate) fn offer<T>(tx: &Sender<T>, message: T) -> (delivered: bool) {
    tx.send(message).is_ok()
}

/// `Receiver::recv` waits until a message arrives or the channel is found
/// empty and disconnected. The result is the message, or `None` for a
/// disconnected channel; nothing is claimed of which message it is.
#[verifier::external_body]
pub(crate) fn take<T>(rx: &Receiver<T>) -> (message: Option<T>) {
    rx.recv().ok()
}

} // verus!
