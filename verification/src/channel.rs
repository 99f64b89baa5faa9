//! The private control channel between a controller and its worker: the
//! declarations of the standard mpsc endpoints and their error types, the
//! assumed signatures of the channel operations, the sending side, and the
//! construction of a connected pair.
//!
//! The assumed specifications promise nothing: what a send or receive returns
//! depends on the other end of the channel, so the library's contracts only
//! state what holds of every outcome, in verified code around these calls.

use vstd::prelude::*;

use crate::context::Context;
use crate::signal::{RecvOutcome, Signal};

verus! {

#[verifier::external_type_specification]
#[verifier::external_body]
#[verifier::reject_recursive_types(T)]
pub struct ExSender<T>(std::sync::mpsc::Sender<T>);

#[verifier::external_type_specification]
#[verifier::external_body]
#[verifier::reject_recursive_types(T)]
pub struct ExReceiver<T>(std::sync::mpsc::Receiver<T>);

#[verifier::external_type_specification]
#[verifier::external_body]
#[verifier::reject_recursive_types(T)]
pub struct ExSendError<T>(std::sync::mpsc::SendError<T>);

#[verifier::external_type_specification]
pub struct ExTryRecvError(std::sync::mpsc::TryRecvError);

#[verifier::external_type_specification]
pub struct ExRecvTimeoutError(std::sync::mpsc::RecvTimeoutError);

/// Relies on std::sync::mpsc::channel: creates a connected FIFO
/// sender/receiver pair.
pub assume_specification<T>[ std::sync::mpsc::channel::<T> ]() -> (r: (
    std::sync::mpsc::Sender<T>,
    std::sync::mpsc::Receiver<T>,
));

/// Relies on std::sync::mpsc::Sender::send: enqueues the value in send order,
/// and returns Err exactly when the receiving end has been dropped. Whether
/// that has happened depends on the receiving thread, so nothing is assumed
/// of the result.
pub assume_specification<T>[ std::sync::mpsc::Sender::<T>::send ](
    sender: &std::sync::mpsc::Sender<T>,
    t: T,
) -> (r: Result<(), std::sync::mpsc::SendError<T>>);

/// Relies on std::sync::mpsc::Receiver::try_recv: returns the oldest pending
/// value without blocking, Err(Empty) when none is pending, and
/// Err(Disconnected) when none is pending and the sending end has been
/// dropped. Which of these happens depends on the sending thread, so nothing
/// is assumed of the result.
pub assume_specification<T>[ std::sync::mpsc::Receiver::<T>::try_recv ](
    receiver: &std::sync::mpsc::Receiver<T>,
) -> (r: Result<T, std::sync::mpsc::TryRecvError>);

/// Relies on std::sync::mpsc::Receiver::recv_timeout: waits at most the given
/// duration for a value, returning it in send order, Err(Timeout) when none
/// arrived in time, and Err(Disconnected) when none is pending and the
/// sending end has been dropped. Which of these happens depends on the
/// sending thread, so nothing is assumed of the result.
pub assume_specification<T>[ std::sync::mpsc::Receiver::<T>::recv_timeout ](
    receiver: &std::sync::mpsc::Receiver<T>,
    timeout: core::time::Duration,
) -> (r: Result<T, std::sync::mpsc::RecvTimeoutError>);

/// What a non-blocking receive observed, as an outcome of the protocol: a
/// signal is handed through unchanged, an empty channel and a disconnection
/// are told apart by the error. Exact for every value of the result, so the
/// recorded history is faithful to what the channel returned.
pub fn outcome_of_try_recv(r: Result<Signal, std::sync::mpsc::TryRecvError>) -> (e: RecvOutcome)
    ensures
        r matches Ok(s) ==> e == RecvOutcome::Received(s),
        r matches Err(te) ==> e == (match te {
            std::sync::mpsc::TryRecvError::Empty => RecvOutcome::Empty,
            std::sync::mpsc::TryRecvError::Disconnected => RecvOutcome::Disconnected,
        }),
        e != RecvOutcome::TimedOut,
{
    match r {
        Ok(s) => RecvOutcome::Received(s),
        Err(std::sync::mpsc::TryRecvError::Empty) => RecvOutcome::Empty,
        Err(std::sync::mpsc::TryRecvError::Disconnected) => RecvOutcome::Disconnected,
    }
}

/// What a bounded blocking receive observed, as an outcome of the protocol:
/// a signal is handed through unchanged, an elapsed timeout and a
/// disconnection are told apart by the error. Exact for every value of the
/// result.
pub fn outcome_of_recv_timeout(r: Result<Signal, std::sync::mpsc::RecvTimeoutError>) -> (e:
    RecvOutcome)
    ensures
        r matches Ok(s) ==> e == RecvOutcome::Received(s),
        r matches Err(te) ==> e == (match te {
            std::sync::mpsc::RecvTimeoutError::Timeout => RecvOutcome::TimedOut,
            std::sync::mpsc::RecvTimeoutError::Disconnected => RecvOutcome::Disconnected,
        }),
        e != RecvOutcome::Empty,
{
    match r {
        Ok(s) => RecvOutcome::Received(s),
        Err(std::sync::mpsc::RecvTimeoutError::Timeout) => RecvOutcome::TimedOut,
        Err(std::sync::mpsc::RecvTimeoutError::Disconnected) => RecvOutcome::Disconnected,
    }
}

/// The controller's end of the control channel: it sends signals, best
/// effort, to a worker that may already have finished.
pub struct SignalSender {
    pub(crate) tx: std::sync::mpsc::Sender<Signal>,
}

impl SignalSender {
    /// Sends a signal, best effort, without blocking. The result reports
    /// whether the channel was still open: a failed send only means the
    /// worker has already finished and needs no further signaling, so the
    /// caller logs it and goes on.
    pub fn send(&self, s: Signal) -> bool {
        self.tx.send(s).is_ok()
    }
}

/// Creates the control channel for one controller/worker pair: a sender for
/// the controller and a context for the hosted computation. The context
/// starts with an empty history of observed outcomes.
pub fn control_channel() -> (pair: (SignalSender, Context))
    ensures
        pair.1.seen() == Seq::<RecvOutcome>::empty(),
{
    let (tx, rx) = std::sync::mpsc::channel();
    (SignalSender { tx }, Context::from_receiver(rx))
}

} // verus!
