//! The worker's side of the control channel: the context handed to the hosted
//! computation, with the poll operations it calls at safe points of its own
//! choosing.
//!
//! Each context keeps a ghost history of every receive outcome it has
//! observed. The contract of each poll operation says that the call appended a
//! well-formed trace to that history and returned exactly the verdict the
//! protocol assigns to that trace (see [`crate::protocol`]).

use vstd::prelude::*;

use crate::channel::{outcome_of_recv_timeout, outcome_of_try_recv};
use crate::protocol::{
    blocking_outcome, ends_pause_wait, pause_trace_result, pause_trace_wf, poll_trace_result,
    poll_trace_wf,
};
use crate::signal::{RecvOutcome, Signal};

verus! {

/// The worker context: owns the receiving end of the control channel and is
/// passed by value into the hosted computation.
pub struct Context {
    pub(crate) rx: std::sync::mpsc::Receiver<Signal>,
    pub(crate) observed: Ghost<Seq<RecvOutcome>>,
}

impl Context {
    /// The receive outcomes this context has observed so far, oldest first.
    pub closed spec fn seen(self) -> Seq<RecvOutcome> {
        self.observed@
    }

    /// The outcomes a call observed: what the post-state has seen beyond the
    /// pre-state.
    pub open spec fn call_events(pre: Context, post: Context) -> Seq<RecvOutcome> {
        post.seen().skip(pre.seen().len() as int)
    }

    /// Wraps the receiving end of a freshly created control channel; the
    /// context has observed nothing yet.
    pub(crate) fn from_receiver(rx: std::sync::mpsc::Receiver<Signal>) -> (c: Context)
        ensures
            c.seen() == Seq::<RecvOutcome>::empty(),
    {
        Context { rx, observed: Ghost(Seq::empty()) }
    }

    /// Relies on std::sync::mpsc::Receiver::recv: blocks until a signal
    /// arrives, returning signals in send order, and returns Err once the
    /// sending end has been dropped and no signal is pending. The body calls
    /// it repeatedly until the outcome is not another `Pause`: the wait for
    /// that outcome is unbounded by design (a paused worker stays blocked
    /// until resumed or stopped), so the repetition cannot stand in verified
    /// code, whose loops must terminate. Every observed outcome, the absorbed
    /// run of `Pause` signals and then the one that resolved the wait, is
    /// appended to the history.
    #[verifier::external_body]
    fn recv_resolving(&mut self) -> (e: RecvOutcome)
        ensures
            old(self).observed@.is_prefix_of(final(self).observed@),
            old(self).observed@.len() < final(self).observed@.len(),
            final(self).observed@.last() == e,
            forall|i: int|
                old(self).observed@.len() <= i < final(self).observed@.len() - 1
                    ==> #[trigger] final(self).observed@[i] == RecvOutcome::Received(Signal::Pause),
            blocking_outcome(e),
            ends_pause_wait(e),
    {
        loop {
            match self.rx.recv() {
                Ok(Signal::Pause) => {}
                Ok(s) => return RecvOutcome::Received(s),
                Err(std::sync::mpsc::RecvError) => return RecvOutcome::Disconnected,
            }
        }
    }

    /// Non-blocking poll: asks, without waiting for new signals, whether the
    /// hosted computation must terminate. Observes one pending outcome; on a
    /// pending `Pause` it blocks in the pause-wait state until resumed or
    /// stopped. Returns `true` exactly when the protocol's verdict on the
    /// observed trace is to terminate.
    pub fn should_stop(&mut self) -> (stop: bool)
        ensures
            old(self).seen().is_prefix_of(final(self).seen()),
            poll_trace_wf(Context::call_events(*old(self), *final(self)), false),
            stop == poll_trace_result(Context::call_events(*old(self), *final(self))),
    {
        let ghost pre = *self;
        // Receive, convert and record in the open: outcome_of_try_recv is
        // exact for every value of the result, so the recorded outcome is the
        // channel's own answer.
        let e = outcome_of_try_recv(self.rx.try_recv());
        self.observed = Ghost(self.observed@.push(e));
        let ghost mid = *self;
        proof {
            assert(Context::call_events(pre, mid) =~= seq![e]);
        }
        match e {
            RecvOutcome::Received(Signal::Pause) => {
                let r = self.pause_handler();
                proof {
                    assert(Context::call_events(pre, *self) =~= seq![e].add(
                        Context::call_events(mid, *self),
                    ));
                    assert(Context::call_events(pre, *self).skip(1) =~= Context::call_events(
                        mid,
                        *self,
                    ));
                }
                r
            },
            RecvOutcome::Received(Signal::Unpause) => false,
            RecvOutcome::Received(Signal::Stop) => true,
            RecvOutcome::Empty => false,
            RecvOutcome::Disconnected => true,
            RecvOutcome::TimedOut => vstd::pervasive::unreached(),
        }
    }

    /// Bounded-wait poll: waits up to `timeout` for a signal, then asks
    /// whether the hosted computation must terminate. On a `Pause` it blocks
    /// in the pause-wait state until resumed or stopped. Returns `true`
    /// exactly when the protocol's verdict on the observed trace is to
    /// terminate; in particular an elapsed timeout means "keep running".
    pub fn should_stop_timeout(&mut self, timeout: core::time::Duration) -> (stop: bool)
        ensures
            old(self).seen().is_prefix_of(final(self).seen()),
            poll_trace_wf(Context::call_events(*old(self), *final(self)), true),
            stop == poll_trace_result(Context::call_events(*old(self), *final(self))),
    {
        let ghost pre = *self;
        // As in should_stop: the conversion's contract makes the recorded
        // outcome faithful to what recv_timeout returned.
        let e = outcome_of_recv_timeout(self.rx.recv_timeout(timeout));
        self.observed = Ghost(self.observed@.push(e));
        let ghost mid = *self;
        proof {
            assert(Context::call_events(pre, mid) =~= seq![e]);
        }
        match e {
            RecvOutcome::Received(Signal::Pause) => {
                let r = self.pause_handler();
                proof {
                    assert(Context::call_events(pre, *self) =~= seq![e].add(
                        Context::call_events(mid, *self),
                    ));
                    assert(Context::call_events(pre, *self).skip(1) =~= Context::call_events(
                        mid,
                        *self,
                    ));
                }
                r
            },
            RecvOutcome::Received(Signal::Unpause) => false,
            RecvOutcome::Received(Signal::Stop) => true,
            RecvOutcome::TimedOut => false,
            RecvOutcome::Disconnected => true,
            RecvOutcome::Empty => vstd::pervasive::unreached(),
        }
    }

    /// The pause-wait state: blocks on the channel, absorbing repeated
    /// `Pause` signals, until an `Unpause` resumes the computation (returns
    /// `false`) or a `Stop` or a disconnection terminates it (returns
    /// `true`). While no such signal arrives the call does not return.
    pub fn pause_handler(&mut self) -> (stop: bool)
        ensures
            old(self).seen().is_prefix_of(final(self).seen()),
            pause_trace_wf(Context::call_events(*old(self), *final(self))),
            stop == pause_trace_result(Context::call_events(*old(self), *final(self))),
    {
        let e = self.recv_resolving();
        match e {
            RecvOutcome::Received(Signal::Unpause) => false,
            RecvOutcome::Received(Signal::Stop) => true,
            RecvOutcome::Disconnected => true,
            RecvOutcome::Received(Signal::Pause) => vstd::pervasive::unreached(),
            RecvOutcome::Empty => vstd::pervasive::unreached(),
            RecvOutcome::TimedOut => vstd::pervasive::unreached(),
        }
    }
}

} // verus!
