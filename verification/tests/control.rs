use std::sync::mpsc::{RecvTimeoutError, TryRecvError};
use std::time::{Duration, Instant};

use worker_control::channel::{control_channel, outcome_of_recv_timeout, outcome_of_try_recv};
use worker_control::signal::{RecvOutcome, Signal};

#[test]
fn try_recv_results_map_faithfully() {
    assert_eq!(
        outcome_of_try_recv(Ok(Signal::Stop)),
        RecvOutcome::Received(Signal::Stop)
    );
    assert_eq!(
        outcome_of_try_recv(Ok(Signal::Pause)),
        RecvOutcome::Received(Signal::Pause)
    );
    assert_eq!(
        outcome_of_try_recv(Ok(Signal::Unpause)),
        RecvOutcome::Received(Signal::Unpause)
    );
    assert_eq!(outcome_of_try_recv(Err(TryRecvError::Empty)), RecvOutcome::Empty);
    assert_eq!(
        outcome_of_try_recv(Err(TryRecvError::Disconnected)),
        RecvOutcome::Disconnected
    );
}

#[test]
fn recv_timeout_results_map_faithfully() {
    assert_eq!(
        outcome_of_recv_timeout(Ok(Signal::Stop)),
        RecvOutcome::Received(Signal::Stop)
    );
    assert_eq!(
        outcome_of_recv_timeout(Err(RecvTimeoutError::Timeout)),
        RecvOutcome::TimedOut
    );
    assert_eq!(
        outcome_of_recv_timeout(Err(RecvTimeoutError::Disconnected)),
        RecvOutcome::Disconnected
    );
}

#[test]
fn no_signal_keeps_running() {
    let (_tx, mut ctx) = control_channel();
    assert!(!ctx.should_stop());
    assert!(!ctx.should_stop());
}

#[test]
fn unpause_without_pause_is_noop() {
    let (tx, mut ctx) = control_channel();
    assert!(tx.send(Signal::Unpause));
    assert!(!ctx.should_stop());
    assert!(!ctx.should_stop());
}

#[test]
fn stop_stops() {
    let (tx, mut ctx) = control_channel();
    assert!(tx.send(Signal::Stop));
    assert!(ctx.should_stop());
}

#[test]
fn stop_after_pause_traffic_stops() {
    let (tx, mut ctx) = control_channel();
    assert!(tx.send(Signal::Pause));
    assert!(tx.send(Signal::Unpause));
    assert!(tx.send(Signal::Stop));
    assert!(!ctx.should_stop());
    assert!(ctx.should_stop());
}

#[test]
fn dropped_controller_stops() {
    let (tx, mut ctx) = control_channel();
    drop(tx);
    assert!(ctx.should_stop());
}

#[test]
fn pause_then_unpause_resumes() {
    let (tx, mut ctx) = control_channel();
    assert!(tx.send(Signal::Pause));
    assert!(tx.send(Signal::Unpause));
    assert!(!ctx.should_stop());
}

#[test]
fn repeated_pause_resumes_exactly_once() {
    let (tx, mut ctx) = control_channel();
    assert!(tx.send(Signal::Pause));
    assert!(tx.send(Signal::Pause));
    assert!(tx.send(Signal::Unpause));
    // One poll absorbs both pauses and the unpause; a second blocking would
    // hang this test past its time limit.
    assert!(!ctx.should_stop());
    assert!(!ctx.should_stop());
}

#[test]
fn pause_then_stop_stops() {
    let (tx, mut ctx) = control_channel();
    assert!(tx.send(Signal::Pause));
    assert!(tx.send(Signal::Stop));
    assert!(ctx.should_stop());
}

#[test]
fn pause_then_dropped_controller_stops() {
    let (tx, mut ctx) = control_channel();
    assert!(tx.send(Signal::Pause));
    drop(tx);
    assert!(ctx.should_stop());
}

#[test]
fn last_pause_state_wins_in_send_order() {
    let (tx, mut ctx) = control_channel();
    assert!(tx.send(Signal::Unpause));
    assert!(tx.send(Signal::Pause));
    drop(tx);
    // The spurious unpause is a no-op; the later pause then blocks the next
    // poll, whose pause-wait ends on the disconnection.
    assert!(!ctx.should_stop());
    assert!(ctx.should_stop());
}

#[test]
fn timeout_with_no_signal_elapses_and_keeps_running() {
    let (_tx, mut ctx) = control_channel();
    let wait = Duration::from_millis(50);
    let begun = Instant::now();
    let stop = ctx.should_stop_timeout(wait);
    assert!(begun.elapsed() >= wait);
    assert!(!stop);
}

#[test]
fn zero_timeout_with_no_signal_keeps_running() {
    let (_tx, mut ctx) = control_channel();
    assert!(!ctx.should_stop_timeout(Duration::from_millis(0)));
}

#[test]
fn signals_are_seen_in_send_order() {
    let (tx, mut ctx) = control_channel();
    assert!(tx.send(Signal::Unpause));
    assert!(tx.send(Signal::Unpause));
    assert!(tx.send(Signal::Stop));
    assert!(tx.send(Signal::Pause));
    // One poll per pending signal: the two spurious unpauses first, then the
    // stop; the pause sent after the stop is never reached.
    assert!(!ctx.should_stop());
    assert!(!ctx.should_stop());
    assert!(ctx.should_stop());
}

#[test]
fn timeout_with_stop_pending_stops() {
    let (tx, mut ctx) = control_channel();
    assert!(tx.send(Signal::Stop));
    assert!(ctx.should_stop_timeout(Duration::from_secs(5)));
}

#[test]
fn timeout_with_pause_then_unpause_resumes() {
    let (tx, mut ctx) = control_channel();
    assert!(tx.send(Signal::Pause));
    assert!(tx.send(Signal::Unpause));
    assert!(!ctx.should_stop_timeout(Duration::from_millis(50)));
}

#[test]
fn timeout_with_dropped_controller_stops() {
    let (tx, mut ctx) = control_channel();
    drop(tx);
    assert!(ctx.should_stop_timeout(Duration::from_secs(5)));
}

#[test]
fn pause_handler_resumes_on_unpause() {
    let (tx, mut ctx) = control_channel();
    assert!(tx.send(Signal::Unpause));
    assert!(!ctx.pause_handler());
}

#[test]
fn pause_handler_stops_on_stop() {
    let (tx, mut ctx) = control_channel();
    assert!(tx.send(Signal::Pause));
    assert!(tx.send(Signal::Stop));
    assert!(ctx.pause_handler());
}

#[test]
fn pause_handler_stops_on_disconnect() {
    let (tx, mut ctx) = control_channel();
    assert!(tx.send(Signal::Pause));
    drop(tx);
    assert!(ctx.pause_handler());
}

#[test]
fn send_reports_a_gone_worker() {
    let (tx, ctx) = control_channel();
    drop(ctx);
    // Best-effort delivery: the failure is reported, never fatal.
    assert!(!tx.send(Signal::Pause));
    assert!(!tx.send(Signal::Stop));
}

#[test]
fn counting_loop_runs_until_stopped() {
    let (tx, mut ctx) = control_channel();
    let mut counter: u32 = 0;
    loop {
        if ctx.should_stop_timeout(Duration::from_millis(1)) {
            break;
        }
        counter += 1;
        if counter == 5 {
            assert!(tx.send(Signal::Stop));
        }
    }
    assert_eq!(counter, 5);
}

#[test]
fn counting_loop_pauses_and_resumes() {
    let (tx, mut ctx) = control_channel();
    let mut counter: u32 = 0;
    // While paused no work happens: the pause, the resume and the stop are
    // queued at chosen points between polls, so every increment falls in a
    // running stretch.
    assert!(tx.send(Signal::Pause));
    assert!(tx.send(Signal::Unpause));
    loop {
        if ctx.should_stop_timeout(Duration::from_millis(1)) {
            break;
        }
        counter += 1;
        if counter == 3 {
            assert!(tx.send(Signal::Stop));
        }
    }
    assert_eq!(counter, 3);
}
