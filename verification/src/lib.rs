//! A controllable background worker: a long-lived computation runs on its own
//! thread while its owner pauses, resumes, or stops it cooperatively over a
//! private FIFO channel.
//!
//! The library owns the control protocol: the [`signal::Signal`] values sent by
//! the controller, the receiving side ([`context::Context`]) that the hosted
//! computation polls, and the specification of how a sequence of delivered
//! signals decides whether the computation keeps running, blocks while paused,
//! or terminates ([`protocol`]).

pub mod channel;
pub mod context;
pub mod protocol;
pub mod signal;
