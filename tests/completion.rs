use monoio_driver::op::{send_flags, Op, Send, SubmitError, MSG_ZEROCOPY, MSG_ZEROCOPY_THRESHOLD};
use monoio_driver::ops::{Dropped, Lifecycle, Ops, PollOutcome, Reaped};
use monoio_driver::slab::Slab;
use monoio_driver::uring::{
    needs_flush, resultify, submit_error_action, Cqe, ParkPlan, SubmitAction, UringInner,
};
use monoio_driver::userdata::{
    classify, is_reserved, CqeTarget, CANCEL_USERDATA, EVENTFD_USERDATA, MIN_RESERVED_USERDATA,
    TIMEOUT_USERDATA,
};

fn cqe(user_data: u64, result: i32) -> Cqe {
    Cqe { user_data, result, flags: 0 }
}

#[test]
fn sentinels_are_the_three_highest_values() {
    assert_eq!(CANCEL_USERDATA, u64::MAX);
    assert_eq!(TIMEOUT_USERDATA, u64::MAX - 1);
    assert_eq!(EVENTFD_USERDATA, u64::MAX - 2);
    assert_eq!(MIN_RESERVED_USERDATA, u64::MAX - 2);
    assert!(is_reserved(u64::MAX - 2));
    assert!(!is_reserved(u64::MAX - 3));
}

#[test]
fn classify_tells_sentinels_from_indices() {
    assert_eq!(classify(u64::MAX), CqeTarget::Cancel);
    assert_eq!(classify(u64::MAX - 1), CqeTarget::Timeout);
    assert_eq!(classify(u64::MAX - 2), CqeTarget::EventFd);
    assert_eq!(classify(0), CqeTarget::Op(0));
    assert_eq!(classify(42), CqeTarget::Op(42));
    assert_eq!(classify(u64::MAX - 3), CqeTarget::Unknown);
}

#[test]
fn resultify_splits_counts_and_errors() {
    assert_eq!(resultify(5), Ok(5));
    assert_eq!(resultify(0), Ok(0));
    assert_eq!(resultify(-11), Err(11));
    assert_eq!(resultify(-125), Err(125));
    assert_eq!(resultify(i32::MIN), Err(i32::MIN));
}

#[test]
fn flush_needed_only_when_entries_overflow() {
    assert!(!needs_flush(0, 4, 2));
    assert!(!needs_flush(2, 4, 2));
    assert!(needs_flush(3, 4, 2));
    assert!(needs_flush(0, 1, 2));
}

#[test]
fn busy_submits_are_retried() {
    assert_eq!(submit_error_action(16), SubmitAction::Retry);
    assert_eq!(submit_error_action(11), SubmitAction::Retry);
    assert_eq!(submit_error_action(22), SubmitAction::Fail);
}

#[test]
fn slab_reuses_freed_indices() {
    let mut s: Slab<u32> = Slab::new();
    let a = s.insert(10);
    let b = s.insert(20);
    assert_ne!(a, b);
    assert_eq!(s.len(), 2);
    assert_eq!(s.remove(a), 10);
    assert!(!s.contains(a));
    assert_eq!(s.get(b), Some(&20));
    assert_eq!(s.replace(b, 21), 20);
    let c = s.insert(30);
    assert_eq!(c, a);
    assert_eq!(s.slot_count(), 2);
    assert_eq!(s.len(), 2);
}

#[test]
fn poll_before_completion_is_pending_then_ready() {
    let mut ops: Ops<u32, Vec<u8>> = Ops::new();
    let i = ops.insert();
    assert_eq!(ops.poll_op(i, 1), PollOutcome::Pending);
    match ops.complete(i, Ok(5), 3) {
        Reaped::Wake(w) => assert_eq!(w, 1),
        _ => panic!("the waiting task must be woken"),
    }
    assert_eq!(ops.poll_op(i, 1), PollOutcome::Ready(Ok(5), 3));
    assert_eq!(ops.num_operations(), 0);
    assert!(!ops.contains(i));
}

#[test]
fn completion_before_poll_is_stored() {
    let mut ops: Ops<u32, Vec<u8>> = Ops::new();
    let i = ops.insert();
    assert!(matches!(ops.complete(i, Err(104), 0), Reaped::Stored));
    assert_eq!(ops.poll_op(i, 9), PollOutcome::Ready(Err(104), 0));
    assert_eq!(ops.num_operations(), 0);
}

#[test]
fn latest_waker_is_the_one_woken() {
    let mut ops: Ops<u32, Vec<u8>> = Ops::new();
    let i = ops.insert();
    assert_eq!(ops.poll_op(i, 1), PollOutcome::Pending);
    assert_eq!(ops.poll_op(i, 2), PollOutcome::Pending);
    match ops.complete(i, Ok(0), 0) {
        Reaped::Wake(w) => assert_eq!(w, 2),
        _ => panic!("the waiting task must be woken"),
    }
}

#[test]
fn drop_while_in_flight_keeps_buffer() {
    let mut ops: Ops<u32, Vec<u8>> = Ops::new();
    let i = ops.insert();
    let j = ops.insert();
    let buf = vec![7u8; 1 << 20];
    assert!(matches!(ops.drop_op(i, buf), Dropped::Retained));
    assert_eq!(ops.num_operations(), 2);
    // Another operation completing leaves the kept buffer alone.
    assert!(matches!(ops.complete(j, Ok(1), 0), Reaped::Stored));
    assert_eq!(ops.num_operations(), 2);
    match ops.complete(i, Err(125), 0) {
        Reaped::Release(b) => {
            assert_eq!(b.len(), 1 << 20);
            assert!(b.iter().all(|x| *x == 7));
        }
        _ => panic!("the kept buffer must be released"),
    }
    assert_eq!(ops.num_operations(), 1);
    assert_eq!(ops.poll_op(j, 0), PollOutcome::Ready(Ok(1), 0));
    assert_eq!(ops.num_operations(), 0);
}

#[test]
fn dropping_a_completed_op_frees_it_at_once() {
    let mut ops: Ops<u32, Vec<u8>> = Ops::new();
    let i = ops.insert();
    assert!(matches!(ops.complete(i, Ok(2), 0), Reaped::Stored));
    match ops.drop_op(i, vec![1, 2]) {
        Dropped::Free(b) => assert_eq!(b, vec![1, 2]),
        Dropped::Retained => panic!("nothing holds the buffer any more"),
    }
    assert_eq!(ops.num_operations(), 0);
    // A dropped index that left the table already gets its payload back.
    assert!(matches!(ops.drop_op(i, vec![3]), Dropped::Free(_)));
}

#[test]
fn stray_completions_change_nothing() {
    let mut ops: Ops<u32, Vec<u8>> = Ops::new();
    assert!(matches!(ops.complete(3, Ok(0), 0), Reaped::Stray));
    let i = ops.insert();
    assert!(matches!(ops.complete(i, Ok(0), 0), Reaped::Stored));
    assert!(matches!(ops.complete(i, Ok(9), 0), Reaped::Stray));
    assert_eq!(ops.poll_op(i, 0), PollOutcome::Ready(Ok(0), 0));
}

#[test]
fn interleavings_return_the_table_to_empty() {
    let mut ops: Ops<u32, Vec<u8>> = Ops::new();
    let a = ops.insert();
    let b = ops.insert();
    let c = ops.insert();
    assert_eq!(ops.num_operations(), 3);
    assert_eq!(ops.poll_op(a, 1), PollOutcome::Pending);
    assert!(matches!(ops.drop_op(b, vec![0]), Dropped::Retained));
    assert!(matches!(ops.complete(c, Ok(4), 0), Reaped::Stored));
    assert!(matches!(ops.complete(b, Ok(1), 0), Reaped::Release(_)));
    assert!(matches!(ops.complete(a, Ok(2), 0), Reaped::Wake(1)));
    assert!(matches!(ops.drop_op(c, vec![1]), Dropped::Free(_)));
    assert_eq!(ops.poll_op(a, 1), PollOutcome::Ready(Ok(2), 0));
    assert_eq!(ops.num_operations(), 0);
}

#[test]
fn tick_dispatches_in_kernel_order() {
    let mut inner: UringInner<u32, Vec<u8>> = UringInner::new();
    let a = inner.ops.insert();
    let b = inner.ops.insert();
    assert_eq!(inner.ops.poll_op(a, 7), PollOutcome::Pending);
    assert!(matches!(inner.ops.drop_op(b, vec![1, 2, 3]), Dropped::Retained));
    inner.mark_eventfd_installed();
    let cqes = vec![
        cqe(TIMEOUT_USERDATA, -62),
        cqe(b as u64, -125),
        cqe(EVENTFD_USERDATA, 8),
        cqe(a as u64, 5),
        cqe(CANCEL_USERDATA, 0),
    ];
    let out = inner.tick(&cqes);
    assert_eq!(out.len(), 2);
    assert!(matches!(&out[0], Reaped::Release(v) if *v == vec![1, 2, 3]));
    assert!(matches!(&out[1], Reaped::Wake(7)));
    assert!(!inner.eventfd_installed);
    assert_eq!(inner.num_operations(), 1);
    assert_eq!(inner.ops.poll_op(a, 7), PollOutcome::Ready(Ok(5), 0));
    assert_eq!(inner.num_operations(), 0);
}

#[test]
fn park_plan_installs_what_is_missing() {
    let mut inner: UringInner<u32, Vec<u8>> = UringInner::new();
    assert_eq!(
        inner.plan_park(true, true),
        ParkPlan { space: 2, install_eventfd: true, install_timeout: true, wait: true }
    );
    inner.mark_eventfd_installed();
    assert_eq!(
        inner.plan_park(true, false),
        ParkPlan { space: 0, install_eventfd: false, install_timeout: false, wait: true }
    );
    assert_eq!(
        inner.plan_park(true, true),
        ParkPlan { space: 1, install_eventfd: false, install_timeout: true, wait: true }
    );
    assert_eq!(
        inner.plan_park(false, true),
        ParkPlan { space: 0, install_eventfd: false, install_timeout: false, wait: false }
    );
}

#[test]
fn timeout_park_leaves_no_operations() {
    // A park with a timeout and no work: the timeout entry is the driver's
    // own, so the table stays empty before and after.
    let mut inner: UringInner<u32, Vec<u8>> = UringInner::new();
    assert_eq!(inner.num_operations(), 0);
    let plan = inner.plan_park(true, true);
    assert!(plan.install_timeout && plan.wait);
    inner.mark_eventfd_installed();
    let out = inner.tick(&vec![cqe(TIMEOUT_USERDATA, -62)]);
    assert!(out.is_empty());
    assert!(inner.eventfd_installed);
    assert_eq!(inner.num_operations(), 0);
}

#[test]
fn echo_round_trip_hello() {
    let mut ops: Ops<u32, Vec<u8>> = Ops::new();
    let op = match Op::send(&mut ops, 4, b"hello".to_vec()) {
        Ok(op) => op,
        Err(SubmitError::TableFull) => panic!("an empty table has room"),
    };
    assert!((op.index as u64) < MIN_RESERVED_USERDATA);
    assert!(ops.contains(op.index));
    match &op.data {
        Some(Send { fd, buf }) => {
            assert_eq!(*fd, 4);
            assert_eq!(buf.as_slice(), b"hello");
        }
        None => panic!("the payload stays with the op"),
    }
    // The kernel sends the 5 bytes; the task gets the count and its buffer back.
    assert!(matches!(ops.complete(op.index, resultify(5), 0), Reaped::Stored));
    assert_eq!(ops.poll_op(op.index, 0), PollOutcome::Ready(Ok(5), 0));
    assert_eq!(op.data.map(|s| s.buf), Some(b"hello".to_vec()));
    // The peer reads 5 bytes into its own buffer, which the kernel fills.
    let mut read = match Op::submit_with(&mut ops, vec![0u8; 5]) {
        Ok(op) => op,
        Err(SubmitError::TableFull) => panic!("an empty table has room"),
    };
    assert_eq!(ops.poll_op(read.index, 1), PollOutcome::Pending);
    if let Some(buf) = read.data.as_mut() {
        buf.copy_from_slice(b"hello");
    }
    assert!(matches!(ops.complete(read.index, resultify(5), 0), Reaped::Wake(1)));
    assert_eq!(ops.poll_op(read.index, 1), PollOutcome::Ready(Ok(5), 0));
    assert_eq!(read.data, Some(b"hello".to_vec()));
    assert_eq!(ops.num_operations(), 0);
}

#[test]
fn submit_with_gives_distinct_indices() {
    let mut ops: Ops<u32, Vec<u8>> = Ops::new();
    let a = Op::submit_with(&mut ops, 1u8).ok().map(|o| o.index);
    let b = Op::submit_with(&mut ops, 2u8).ok().map(|o| o.index);
    assert!(a.is_some() && b.is_some());
    assert_ne!(a, b);
    assert!(matches!(ops.drop_op(a.unwrap_or(0), vec![]), Dropped::Retained));
    assert!(matches!(ops.poll_op(b.unwrap_or(0), 3), PollOutcome::Pending));
    let _ = Lifecycle::<u32, Vec<u8>>::Submitted;
}

#[test]
fn send_flags_never_raise_sigpipe() {
    assert_eq!(send_flags(5, false), 0x4000);
    assert_eq!(send_flags(MSG_ZEROCOPY_THRESHOLD, false), 0x4000);
    assert_eq!(send_flags(MSG_ZEROCOPY_THRESHOLD - 1, true), 0x4000);
    assert_eq!(send_flags(MSG_ZEROCOPY_THRESHOLD, true), 0x4000 | MSG_ZEROCOPY);
}
