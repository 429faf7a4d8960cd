use std::sync::mpsc::{Receiver, Sender};
use vstd::prelude::*;

verus! {

/// The sending half of a channel of the standard library. Nothing inside it is
/// visible to the verifier.
#[verifier::external_type_specification]
#[verifier::external_body]
#[verifier::reject_recursive_types(T)]
pub struct ExSender<T>(Sender<T>);

/// The receiving half of a channel of the standard library. Nothing inside it
/// is visible to the verifier.
#[verifier::external_type_specification]
#[verifier::external_body]
#[verifier::reject_recursive_types(T)]
pub struct ExReceiver<T>(Receiver<T>);

/// Calls `std::sync::mpsc::channel`. Nothing is claimed of the two halves.
#[verifier::external_body]
pub(crate) fn open<T>() -> (ends: (Sender<T>, Receiver<T>)) {
    std::sync::mpsc::channel()
}

/// Calls `Sender::send`, which never blocks. Whether the value was queued
/// depends on the receiving half still being alive, so nothing is claimed of
/// the result; a failure comes back as the text of the channel's own error.
#[verifier::external_body]
pub(crate) fn push<T>(tx: &Sender<T>, value: T) -> (outcome: Result<(), String>) {
    tx.send(value).map_err(|e| e.to_string())
}

/// Calls `Receiver::recv`, which blocks until a value arrives or every sender
/// is gone. What arrives is up to the other side, so nothing is claimed of the
/// result; a failure comes back as the text of the channel's own error.
#[verifier::external_body]
pub(crate) fn pull<T>(rx: &Receiver<T>) -> (outcome: Result<T, String>) {
    rx.recv().map_err(|e| e.to_string())
}

/// Gives up a sender. Once the last sender of a channel is gone, the receiving
/// side finds the channel closed.
pub(crate) fn close<T>(tx: Sender<T>) {
    let _gone = tx;
}

} // verus!
