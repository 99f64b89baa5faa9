//! The control signals a controller sends to its worker, and the outcomes the
//! worker can observe when it polls its end of the channel.

use vstd::prelude::*;

verus! {

/// A control signal, carried over the FIFO channel from the controller to the
/// hosted computation. Signals carry no payload; their meaning is entirely in
/// the order they are delivered.
#[derive(Clone, Copy, Debug, PartialEq, Eq, Structural)]
pub enum Signal {
    /// The computation must terminate promptly.
    Stop,
    /// The computation must block (inside its next poll) until resumed.
    Pause,
    /// The computation may resume; a no-op when it is not paused.
    Unpause,
}

/// What one receive operation on the worker's end of the channel can observe.
///
/// `Empty` can only come from a non-blocking receive, `TimedOut` only from a
/// bounded blocking receive, and a plain blocking receive yields only
/// `Received` or `Disconnected`.
#[derive(Clone, Copy, Debug, PartialEq, Eq, Structural)]
pub enum RecvOutcome {
    /// A signal arrived.
    Received(Signal),
    /// No signal was pending (non-blocking receive only).
    Empty,
    /// The controller's sending end is gone; treated as an implicit stop.
    Disconnected,
    /// No signal arrived within the allowed wait (bounded receive only).
    TimedOut,
}

} // verus!
