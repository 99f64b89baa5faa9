//! The control protocol, stated twice over.
//!
//! The *trace* model describes one poll call from the inside: the sequence of
//! receive outcomes the call observes, which outcomes are possible at each
//! step, and the verdict (`true`: terminate) the call must return for that
//! sequence. The executable poll operations of [`crate::context::Context`] are
//! verified against this model.
//!
//! The *queue* model describes the protocol from the outside: given the
//! signals pending in the channel, in send order, and whether the sending end
//! is still alive, it gives the phase the hosted computation ends in once it
//! has polled often enough to exhaust them, assuming no further signal
//! arrives. The laws of the protocol (stop always wins, disconnection acts as
//! stop, the last pause/unpause sent decides the pause state) are proved over
//! this model.

use vstd::prelude::*;

use crate::signal::{RecvOutcome, Signal};

verus! {

/// True of the outcomes a plain blocking receive can observe.
pub open spec fn blocking_outcome(e: RecvOutcome) -> bool {
    e matches RecvOutcome::Received(_) || e == RecvOutcome::Disconnected
}

/// True of the outcomes that end the computation: an explicit stop, or the
/// controller's end of the channel being gone.
pub open spec fn outcome_stops(e: RecvOutcome) -> bool {
    e == RecvOutcome::Received(Signal::Stop) || e == RecvOutcome::Disconnected
}

/// True of the outcomes that end the pause-wait state: anything but one more
/// `Pause`, which is absorbed.
pub open spec fn ends_pause_wait(e: RecvOutcome) -> bool {
    e != RecvOutcome::Received(Signal::Pause)
}

/// The sequences of receive outcomes a completed pause-wait can observe: at
/// least one outcome, all from a blocking receive, every outcome before the
/// last one a repeated `Pause`, and the last one ending the wait.
pub open spec fn pause_trace_wf(evs: Seq<RecvOutcome>) -> bool {
    &&& evs.len() >= 1
    &&& forall|i: int| 0 <= i < evs.len() ==> blocking_outcome(#[trigger] evs[i])
    &&& forall|i: int| 0 <= i < evs.len() - 1 ==> #[trigger] evs[i] == RecvOutcome::Received(
        Signal::Pause,
    )
    &&& ends_pause_wait(evs.last())
}

/// The verdict of a completed pause-wait: terminate exactly when the outcome
/// that ended it was a stop or a disconnection (an `Unpause` resumes).
pub open spec fn pause_trace_result(evs: Seq<RecvOutcome>) -> bool {
    outcome_stops(evs.last())
}

/// The outcomes the first receive of a poll can observe: `TimedOut` only for
/// the bounded-wait poll, `Empty` only for the non-blocking one.
pub open spec fn first_outcome_possible(e: RecvOutcome, bounded_wait: bool) -> bool {
    if bounded_wait {
        e != RecvOutcome::Empty
    } else {
        e != RecvOutcome::TimedOut
    }
}

/// The sequences of receive outcomes a completed poll can observe: one first
/// outcome, and, exactly when that outcome is `Pause`, a completed pause-wait
/// after it.
pub open spec fn poll_trace_wf(evs: Seq<RecvOutcome>, bounded_wait: bool) -> bool {
    &&& evs.len() >= 1
    &&& first_outcome_possible(evs[0], bounded_wait)
    &&& if evs[0] == RecvOutcome::Received(Signal::Pause) {
        pause_trace_wf(evs.skip(1))
    } else {
        evs.len() == 1
    }
}

/// The verdict of a completed poll: when the first outcome was a `Pause`, the
/// verdict of the pause-wait that followed; otherwise terminate exactly on a
/// stop or a disconnection. `Empty`, `TimedOut` and a spurious `Unpause` all
/// mean "keep running".
pub open spec fn poll_trace_result(evs: Seq<RecvOutcome>) -> bool {
    if evs[0] == RecvOutcome::Received(Signal::Pause) {
        pause_trace_result(evs.skip(1))
    } else {
        outcome_stops(evs[0])
    }
}

/// The phase the hosted computation is in with respect to the control
/// protocol.
#[derive(Clone, Copy, Debug, PartialEq, Eq, Structural)]
pub enum Phase {
    /// Polls return `false`; the computation does its work.
    Running,
    /// The computation is blocked inside a poll, in the pause-wait state.
    Paused,
    /// A poll returned `true`; the computation must exit. Terminal.
    Stopped,
}

/// The queue model, running side: the phase the computation ends in once it
/// has polled often enough to consume every signal of `q` (pending in the
/// channel in send order), assuming no further signal arrives. `closed` says
/// whether the sending end is already gone: with it still alive an exhausted
/// queue leaves the computation running, with it gone the next receive
/// reports the disconnection and stops the computation.
pub open spec fn drain_outcome(q: Seq<Signal>, closed: bool) -> Phase
    decreases q.len(), 1int,
{
    if q.len() == 0 {
        if closed {
            Phase::Stopped
        } else {
            Phase::Running
        }
    } else {
        match q[0] {
            Signal::Stop => Phase::Stopped,
            Signal::Unpause => drain_outcome(q.skip(1), closed),
            Signal::Pause => pause_drain_outcome(q.skip(1), closed),
        }
    }
}

/// The queue model, paused side: as [`drain_outcome`], but with the
/// computation blocked in the pause-wait state, where an exhausted queue
/// means it stays blocked (`Paused`), one more `Pause` is absorbed, an
/// `Unpause` resumes it, and a `Stop` or the disconnection stops it.
pub open spec fn pause_drain_outcome(q: Seq<Signal>, closed: bool) -> Phase
    decreases q.len(), 0int,
{
    if q.len() == 0 {
        if closed {
            Phase::Stopped
        } else {
            Phase::Paused
        }
    } else {
        match q[0] {
            Signal::Stop => Phase::Stopped,
            Signal::Pause => pause_drain_outcome(q.skip(1), closed),
            Signal::Unpause => drain_outcome(q.skip(1), closed),
        }
    }
}

/// The queue model, one poll at a time: what a single non-blocking poll does
/// against pending queue `q` with the sending end gone when `closed`. `None`
/// means the poll never returns (it entered the pause-wait state and nothing
/// pending resolves it); otherwise the verdict the poll returns and the
/// signals still pending after it. The dispatch mirrors, case for case, the
/// executable poll of [`crate::context::Context`].
pub open spec fn poll_on_queue(q: Seq<Signal>, closed: bool) -> Option<(bool, Seq<Signal>)>
    decreases q.len(), 1int,
{
    if q.len() == 0 {
        if closed {
            Some((true, q))
        } else {
            Some((false, q))
        }
    } else {
        match q[0] {
            Signal::Stop => Some((true, q.skip(1))),
            Signal::Unpause => Some((false, q.skip(1))),
            Signal::Pause => pause_wait_on_queue(q.skip(1), closed),
        }
    }
}

/// As [`poll_on_queue`], from inside the pause-wait state: an exhausted open
/// queue blocks forever, an exhausted closed one reports the disconnection,
/// a repeated `Pause` is absorbed, and an `Unpause` or `Stop` resolves the
/// wait.
pub open spec fn pause_wait_on_queue(q: Seq<Signal>, closed: bool) -> Option<(bool, Seq<Signal>)>
    decreases q.len(), 0int,
{
    if q.len() == 0 {
        if closed {
            Some((true, q))
        } else {
            None
        }
    } else {
        match q[0] {
            Signal::Stop => Some((true, q.skip(1))),
            Signal::Unpause => Some((false, q.skip(1))),
            Signal::Pause => pause_wait_on_queue(q.skip(1), closed),
        }
    }
}

/// The two readings of the queue model agree: the phase [`drain_outcome`]
/// assigns to a queue is what iterating [`poll_on_queue`] reaches. A poll
/// that never returns leaves the computation paused, a `true` verdict ends
/// it, and after a `false` verdict the computation polls on against what is
/// still pending.
pub proof fn lemma_drain_is_iterated_polling(q: Seq<Signal>, closed: bool)
    ensures
        poll_on_queue(q, closed) is None ==> drain_outcome(q, closed) == Phase::Paused,
        poll_on_queue(q, closed) matches Some(step) ==> drain_outcome(q, closed) == (if step.0 {
            Phase::Stopped
        } else {
            drain_outcome(step.1, closed)
        }),
    decreases q.len(),
{
    if q.len() > 0 && q[0] == Signal::Pause {
        lemma_pause_drain_is_iterated_polling(q.skip(1), closed);
    }
}

/// As [`lemma_drain_is_iterated_polling`], from inside the pause-wait state.
pub proof fn lemma_pause_drain_is_iterated_polling(q: Seq<Signal>, closed: bool)
    ensures
        pause_wait_on_queue(q, closed) is None ==> pause_drain_outcome(q, closed)
            == Phase::Paused,
        pause_wait_on_queue(q, closed) matches Some(step) ==> pause_drain_outcome(q, closed) == (
        if step.0 {
            Phase::Stopped
        } else {
            drain_outcome(step.1, closed)
        }),
    decreases q.len(),
{
    if q.len() > 0 && q[0] == Signal::Pause {
        lemma_pause_drain_is_iterated_polling(q.skip(1), closed);
    }
}

/// The trace a pending queue induces for one poll, delivered FIFO: the first
/// pending signal (with nothing pending: `Empty` or `TimedOut` while the
/// sender lives, the disconnection once it is gone) and, exactly when that
/// signal was a `Pause`, the pause-wait's run after it. Meaningful where
/// [`poll_on_queue`] completes.
pub open spec fn poll_trace_of_queue(q: Seq<Signal>, closed: bool, bounded_wait: bool) -> Seq<
    RecvOutcome,
>
    decreases q.len(),
{
    if q.len() == 0 {
        if closed {
            seq![RecvOutcome::Disconnected]
        } else if bounded_wait {
            seq![RecvOutcome::TimedOut]
        } else {
            seq![RecvOutcome::Empty]
        }
    } else {
        match q[0] {
            Signal::Stop => seq![RecvOutcome::Received(Signal::Stop)],
            Signal::Unpause => seq![RecvOutcome::Received(Signal::Unpause)],
            Signal::Pause => seq![RecvOutcome::Received(Signal::Pause)].add(
                pause_trace_of_queue(q.skip(1), closed),
            ),
        }
    }
}

/// As [`poll_trace_of_queue`], for the pause-wait: the absorbed run of
/// repeated `Pause`s and the outcome that resolves the wait. An exhausted
/// open queue, where the wait blocks, induces no completed trace.
pub open spec fn pause_trace_of_queue(q: Seq<Signal>, closed: bool) -> Seq<RecvOutcome>
    decreases q.len(),
{
    if q.len() == 0 {
        if closed {
            seq![RecvOutcome::Disconnected]
        } else {
            Seq::empty()
        }
    } else {
        match q[0] {
            Signal::Stop => seq![RecvOutcome::Received(Signal::Stop)],
            Signal::Unpause => seq![RecvOutcome::Received(Signal::Unpause)],
            Signal::Pause => seq![RecvOutcome::Received(Signal::Pause)].add(
                pause_trace_of_queue(q.skip(1), closed),
            ),
        }
    }
}

/// The queue and trace models meet: where a poll against pending queue `q`
/// completes, the trace the queue induces is well formed, and its verdict is
/// the model's. Through the poll contracts, which fix the verdict per
/// observed trace, this attaches the queue-model laws to the executable
/// polls.
pub proof fn lemma_queue_induces_poll_trace(q: Seq<Signal>, closed: bool, bounded_wait: bool)
    requires
        poll_on_queue(q, closed) is Some,
    ensures
        poll_trace_wf(poll_trace_of_queue(q, closed, bounded_wait), bounded_wait),
        poll_on_queue(q, closed) matches Some(step) ==> poll_trace_result(
            poll_trace_of_queue(q, closed, bounded_wait),
        ) == step.0,
{
    if q.len() > 0 && q[0] == Signal::Pause {
        lemma_queue_induces_pause_trace(q.skip(1), closed);
        let head = seq![RecvOutcome::Received(Signal::Pause)];
        let tail = pause_trace_of_queue(q.skip(1), closed);
        assert(head.add(tail).skip(1) =~= tail);
        assert(head.add(tail)[0] == RecvOutcome::Received(Signal::Pause));
    }
}

/// As [`lemma_queue_induces_poll_trace`], for the pause-wait.
pub proof fn lemma_queue_induces_pause_trace(q: Seq<Signal>, closed: bool)
    requires
        pause_wait_on_queue(q, closed) is Some,
    ensures
        pause_trace_wf(pause_trace_of_queue(q, closed)),
        pause_wait_on_queue(q, closed) matches Some(step) ==> pause_trace_result(
            pause_trace_of_queue(q, closed),
        ) == step.0,
    decreases q.len(),
{
    if q.len() > 0 && q[0] == Signal::Pause {
        lemma_queue_induces_pause_trace(q.skip(1), closed);
        let head = seq![RecvOutcome::Received(Signal::Pause)];
        let tail = pause_trace_of_queue(q.skip(1), closed);
        let t = head.add(tail);
        assert(t[0] == RecvOutcome::Received(Signal::Pause));
        assert(forall|i: int| 0 <= i < tail.len() ==> t[i + 1] == tail[i]);
        assert(t.last() == tail.last());
    }
}

/// Law: with the controller alive and no `Stop` sent, the pause state the
/// computation settles into follows the most recent `Pause`/`Unpause` in send
/// order. It ends paused exactly when the last signal sent was a `Pause`;
/// otherwise it keeps running.
pub proof fn lemma_last_pause_state_decides(q: Seq<Signal>)
    requires
        forall|i: int| 0 <= i < q.len() ==> q[i] != Signal::Stop,
    ensures
        drain_outcome(q, false) == if q.len() > 0 && q.last() == Signal::Pause {
            Phase::Paused
        } else {
            Phase::Running
        },
    decreases q.len(),
{
    if q.len() > 0 {
        assert(q.skip(1).len() == q.len() - 1);
        assert(forall|i: int| 0 <= i < q.skip(1).len() ==> q.skip(1)[i] == q[i + 1]);
        if q.len() > 1 {
            assert(q.skip(1).last() == q.last());
        }
        lemma_last_pause_state_decides(q.skip(1));
        lemma_last_pause_state_decides_paused(q.skip(1));
    }
}

/// As [`lemma_last_pause_state_decides`], from inside the pause-wait state:
/// the computation stays paused exactly when no signal is pending or the last
/// one sent was another `Pause`; an `Unpause` as the most recent signal
/// resumes it.
pub proof fn lemma_last_pause_state_decides_paused(q: Seq<Signal>)
    requires
        forall|i: int| 0 <= i < q.len() ==> q[i] != Signal::Stop,
    ensures
        pause_drain_outcome(q, false) == if q.len() == 0 || q.last() == Signal::Pause {
            Phase::Paused
        } else {
            Phase::Running
        },
    decreases q.len(),
{
    if q.len() > 0 {
        assert(forall|i: int| 0 <= i < q.skip(1).len() ==> q.skip(1)[i] == q[i + 1]);
        if q.len() > 1 {
            assert(q.skip(1).last() == q.last());
        }
        lemma_last_pause_state_decides(q.skip(1));
        lemma_last_pause_state_decides_paused(q.skip(1));
    }
}

/// Law: a `Stop` anywhere among the pending signals stops the computation,
/// whatever pause state it is in and whatever else was sent around it.
pub proof fn lemma_stop_always_stops(q: Seq<Signal>, closed: bool)
    requires
        q.contains(Signal::Stop),
    ensures
        drain_outcome(q, closed) == Phase::Stopped,
        pause_drain_outcome(q, closed) == Phase::Stopped,
    decreases q.len(),
{
    let i = choose|i: int| 0 <= i < q.len() && q[i] == Signal::Stop;
    if q[0] != Signal::Stop {
        assert(q.skip(1)[i - 1] == Signal::Stop);
        assert(q.skip(1).contains(Signal::Stop));
        lemma_stop_always_stops(q.skip(1), closed);
    }
}

/// Law: a pending `Pause` with no `Unpause` or `Stop` after it leaves the
/// computation blocked in the pause-wait state, however many times the
/// `Pause` was repeated.
pub proof fn lemma_pause_without_resume_blocks(q: Seq<Signal>)
    requires
        q.len() > 0,
        forall|i: int| 0 <= i < q.len() ==> q[i] == Signal::Pause,
    ensures
        drain_outcome(q, false) == Phase::Paused,
{
    lemma_last_pause_state_decides(q);
}

/// Law: once the controller's sending end is gone, the computation stops,
/// whatever signals are still pending and whatever pause state it is in: the
/// disconnection acts as an implicit stop.
pub proof fn lemma_disconnect_stops(q: Seq<Signal>)
    ensures
        drain_outcome(q, true) == Phase::Stopped,
        pause_drain_outcome(q, true) == Phase::Stopped,
    decreases q.len(),
{
    if q.len() > 0 && q[0] != Signal::Stop {
        lemma_disconnect_stops(q.skip(1));
    }
}

/// Law: a completed poll's verdict is to terminate exactly when it observed a
/// `Stop` signal or the disconnection of the channel. In particular a `Stop`
/// always wins, whatever pause state preceded it, and a verdict to terminate
/// never comes from `Pause`/`Unpause` traffic, an empty channel, or an
/// elapsed timeout alone.
pub proof fn lemma_verdict_iff_stop_observed(evs: Seq<RecvOutcome>, bounded_wait: bool)
    requires
        poll_trace_wf(evs, bounded_wait),
    ensures
        poll_trace_result(evs) <==> exists|i: int|
            0 <= i < evs.len() && outcome_stops(#[trigger] evs[i]),
{
    if evs[0] == RecvOutcome::Received(Signal::Pause) {
        let tail = evs.skip(1);
        assert(forall|i: int| 0 <= i < tail.len() ==> tail[i] == evs[i + 1]);
        if poll_trace_result(evs) {
            assert(outcome_stops(evs[evs.len() - 1]));
        }
        if exists|i: int| 0 <= i < evs.len() && outcome_stops(#[trigger] evs[i]) {
            let i = choose|i: int| 0 <= i < evs.len() && outcome_stops(#[trigger] evs[i]);
            assert(i >= 1);
            assert(tail[i - 1] == evs[i]);
            assert(i - 1 == tail.len() - 1);
        }
    } else {
        if exists|i: int| 0 <= i < evs.len() && outcome_stops(#[trigger] evs[i]) {
            let i = choose|i: int| 0 <= i < evs.len() && outcome_stops(#[trigger] evs[i]);
            assert(i == 0);
        }
    }
}

/// Law: a pause-wait that has observed nothing but repeated `Pause` signals
/// has not completed: the computation is still blocked. Completion requires
/// an `Unpause`, a `Stop`, or the disconnection.
pub proof fn lemma_pause_wait_unresolved(evs: Seq<RecvOutcome>)
    requires
        forall|i: int|
            0 <= i < evs.len() ==> #[trigger] evs[i] == RecvOutcome::Received(Signal::Pause),
    ensures
        !pause_trace_wf(evs),
{
}

/// Law: a bounded-wait poll that saw its timeout elapse with no signal
/// observes the one-outcome trace `TimedOut`, and its verdict is to keep
/// running.
pub proof fn lemma_timeout_keeps_running()
    ensures
        poll_trace_wf(seq![RecvOutcome::TimedOut], true),
        !poll_trace_result(seq![RecvOutcome::TimedOut]),
{
}

/// Law: a `Pause` repeated any number of times and then one `Unpause` is
/// absorbed by a single poll, which resumes the computation exactly once: the
/// whole run is one well-formed trace whose verdict is to keep running, so no
/// second blocking is possible.
pub proof fn lemma_repeated_pause_single_resume(evs: Seq<RecvOutcome>)
    requires
        evs.len() >= 2,
        forall|i: int|
            0 <= i < evs.len() - 1 ==> #[trigger] evs[i] == RecvOutcome::Received(Signal::Pause),
        evs.last() == RecvOutcome::Received(Signal::Unpause),
    ensures
        poll_trace_wf(evs, false),
        poll_trace_wf(evs, true),
        !poll_trace_result(evs),
{
    let tail = evs.skip(1);
    assert(forall|i: int| 0 <= i < tail.len() ==> tail[i] == evs[i + 1]);
    assert(tail.last() == evs.last());
    assert(forall|i: int| 0 <= i < tail.len() ==> blocking_outcome(#[trigger] tail[i]));
}

} // verus!
