use monoio_driver::errno::{EAGAIN, ECANCELED};
use monoio_driver::ops::PollOutcome;
use monoio_driver::park::{unpark_signals, ParkDecision};
use monoio_driver::readiness::{canceled_result, Event, IoDispatch, ReadinessStep, TOKEN_WAKEUP};
use monoio_driver::ready::{Direction, Ready};

fn readable() -> Ready {
    Ready::from_event(true, false, false, false)
}

fn writable() -> Ready {
    Ready::from_event(false, true, false, false)
}

#[test]
fn ready_flag_algebra() {
    let r = readable().union(writable());
    assert!(r.readable && r.writable && !r.is_empty());
    assert!(Ready::empty().is_empty());
    assert_eq!(r.intersection(Direction::Read.mask()), readable());
    assert_eq!(r.difference(Direction::Write.mask()), readable());
    let c = Ready::canceled(Direction::ReadOrWrite);
    assert!(c.read_canceled && c.write_canceled && c.is_canceled());
    assert_eq!(c.union(r).canceled_part(), c);
    assert!(!Ready::canceled(Direction::Read).write_canceled);
    assert!(!Ready::canceled(Direction::Write).read_canceled);
}

#[test]
fn register_hands_out_tokens_other_than_the_wake_token() {
    let mut d: IoDispatch<u32> = IoDispatch::new();
    let a = d.register();
    let b = d.register();
    assert!(a.is_some() && b.is_some());
    assert_ne!(a, b);
    assert_ne!(a, Some(TOKEN_WAKEUP));
    assert_eq!(d.len(), 2);
    d.deregister(a.unwrap_or(0));
    assert_eq!(d.len(), 1);
    assert!(!d.contains(a.unwrap_or(0)));
}

#[test]
fn would_block_then_ready_after_peer_writes() {
    let mut d: IoDispatch<u32> = IoDispatch::new();
    let t = d.register().unwrap_or(0);
    // Empty receive buffer: no readiness yet, so the read waits.
    assert!(matches!(d.poll_readiness(t, Direction::Read, 1), ReadinessStep::Pending));
    // The peer writes "ok": the next park reports the socket readable.
    let woken = d.dispatch_events(&vec![Event { token: t, ready: readable() }]);
    assert_eq!(woken, vec![1]);
    let w = match d.poll_readiness(t, Direction::Read, 1) {
        ReadinessStep::Attempt(w) => w,
        _ => panic!("the source is readable"),
    };
    assert_eq!(d.finish_op(t, Direction::Read, Ok(2), w), PollOutcome::Ready(Ok(2), 0));
}

#[test]
fn would_block_clears_readiness_and_rearms() {
    let mut d: IoDispatch<u32> = IoDispatch::new();
    let t = d.register().unwrap_or(0);
    let _ = d.dispatch(t, readable());
    let w = match d.poll_readiness(t, Direction::Read, 4) {
        ReadinessStep::Attempt(w) => w,
        _ => panic!("the source is readable"),
    };
    assert_eq!(d.finish_op(t, Direction::Read, Err(EAGAIN), w), PollOutcome::Pending);
    // The flag was cleared, so the next poll waits again with its waker.
    assert!(matches!(d.poll_readiness(t, Direction::Read, 5), ReadinessStep::Pending));
    let woken = d.dispatch_events(&vec![Event { token: t, ready: readable() }]);
    assert_eq!(woken, vec![5]);
}

#[test]
fn hard_errors_complete_the_op() {
    let mut d: IoDispatch<u32> = IoDispatch::new();
    let t = d.register().unwrap_or(0);
    let _ = d.dispatch(t, writable());
    let w = match d.poll_readiness(t, Direction::Write, 1) {
        ReadinessStep::Attempt(w) => w,
        _ => panic!("the source is writable"),
    };
    assert_eq!(d.finish_op(t, Direction::Write, Err(32), w), PollOutcome::Ready(Err(32), 0));
}

#[test]
fn cancel_wakes_and_completes_with_canceled() {
    let mut d: IoDispatch<u32> = IoDispatch::new();
    let t = d.register().unwrap_or(0);
    assert!(matches!(d.poll_readiness(t, Direction::Read, 3), ReadinessStep::Pending));
    let woken = d.cancel_op(t, Direction::Read);
    assert_eq!(woken.reader, Some(3));
    assert_eq!(woken.writer, None);
    assert!(matches!(d.poll_readiness(t, Direction::Read, 3), ReadinessStep::Canceled));
    assert_eq!(canceled_result(), PollOutcome::Ready(Err(ECANCELED), 0));
    // The cancel was acknowledged: the next read waits normally.
    assert!(matches!(d.poll_readiness(t, Direction::Read, 3), ReadinessStep::Pending));
}

#[test]
fn cancel_twice_equals_cancel_once() {
    let mut d: IoDispatch<u32> = IoDispatch::new();
    let t = d.register().unwrap_or(0);
    assert!(matches!(d.poll_readiness(t, Direction::Write, 8), ReadinessStep::Pending));
    let first = d.cancel_op(t, Direction::Write);
    assert_eq!(first.writer, Some(8));
    let second = d.cancel_op(t, Direction::Write);
    assert_eq!(second.reader, None);
    assert_eq!(second.writer, None);
    assert!(matches!(d.poll_readiness(t, Direction::Write, 9), ReadinessStep::Canceled));
    assert!(matches!(d.poll_readiness(t, Direction::Write, 9), ReadinessStep::Pending));
}

#[test]
fn new_readiness_does_not_clear_a_cancel() {
    let mut d: IoDispatch<u32> = IoDispatch::new();
    let t = d.register().unwrap_or(0);
    let _ = d.cancel_op(t, Direction::Read);
    let _ = d.dispatch_events(&vec![Event { token: t, ready: readable() }]);
    assert!(matches!(d.poll_readiness(t, Direction::Read, 1), ReadinessStep::Canceled));
    // The readable flag is still there once the cancel is acknowledged.
    assert!(matches!(d.poll_readiness(t, Direction::Read, 1), ReadinessStep::Attempt(1)));
}

#[test]
fn dropped_read_leaves_no_stuck_cancel() {
    let mut d: IoDispatch<u32> = IoDispatch::new();
    let t = d.register().unwrap_or(0);
    // A pending read is dropped: nothing of the kernel's is outstanding, so
    // nothing is flagged; its waker simply stays until replaced.
    assert!(matches!(d.poll_readiness(t, Direction::Read, 1), ReadinessStep::Pending));
    let woken = d.dispatch_events(&vec![Event { token: t, ready: readable() }]);
    assert_eq!(woken, vec![1]);
    let w = match d.poll_readiness(t, Direction::Read, 2) {
        ReadinessStep::Attempt(w) => w,
        _ => panic!("a later read must not see a cancel"),
    };
    assert_eq!(d.finish_op(t, Direction::Read, Ok(3), w), PollOutcome::Ready(Ok(3), 0));
}

#[test]
fn events_skip_the_wake_token_and_unknown_tokens() {
    let mut d: IoDispatch<u32> = IoDispatch::new();
    let t = d.register().unwrap_or(0);
    assert!(matches!(d.poll_readiness(t, Direction::Read, 1), ReadinessStep::Pending));
    assert!(matches!(d.poll_readiness(t, Direction::Write, 2), ReadinessStep::Pending));
    let events = vec![
        Event { token: TOKEN_WAKEUP, ready: readable() },
        Event { token: t + 100, ready: readable() },
        Event { token: t, ready: readable().union(writable()) },
    ];
    assert_eq!(d.dispatch_events(&events), vec![1, 2]);
}

#[test]
fn either_direction_waiter_wakes_on_write() {
    let mut d: IoDispatch<u32> = IoDispatch::new();
    let t = d.register().unwrap_or(0);
    assert!(matches!(d.poll_readiness(t, Direction::ReadOrWrite, 6), ReadinessStep::Pending));
    assert_eq!(d.dispatch_events(&vec![Event { token: t, ready: writable() }]), vec![6]);
}

#[test]
fn park_decision_blocks_only_without_foreign_wakers() {
    let g = ParkDecision::after_awake_drain(0);
    assert!(g.need_wait && g.clears_awake());
    assert!(g.after_recheck(0).need_wait);
    assert!(!g.after_recheck(1).need_wait);
    let g2 = ParkDecision::after_awake_drain(2);
    assert!(!g2.clears_awake());
    assert!(!g2.after_recheck(0).need_wait);
    assert_eq!(g.wait_timeout(Some(50u64), 0), Some(50));
    assert_eq!(g.wait_timeout(None::<u64>, 0), None);
    assert_eq!(g2.wait_timeout(None::<u64>, 0), Some(0));
}

#[test]
fn foreign_unpark_signals_only_a_sleeping_driver() {
    assert!(unpark_signals(false));
    assert!(!unpark_signals(true));
    // A waker queued before the second drain is caught there.
    let g = ParkDecision::after_awake_drain(0);
    assert!(!g.after_recheck(1).need_wait);
}
