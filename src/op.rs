use vstd::prelude::*;

use crate::ops::{Lifecycle, Ops};
use crate::userdata::MIN_RESERVED_USERDATA;

verus! {

/// A task's handle on one registered operation: its table index and the
/// request payload, which the task gets back when the operation completes.
pub struct Op<T> {
    pub index: usize,
    pub data: Option<T>,
}

/// Why an operation could not be registered.
#[derive(Clone, Copy, PartialEq, Eq, Structural, Debug)]
pub enum SubmitError {
    /// Every index below the reserved user-data values is taken.
    TableFull,
}

/// A request to send the bytes of `buf` on the descriptor `fd`.
pub struct Send<T> {
    pub fd: i32,
    pub buf: T,
}

/// The `MSG_ZEROCOPY` send flag.
pub const MSG_ZEROCOPY: i32 = 0x4000000;

/// Sends of at least this many bytes ask for zero copy, where it is enabled.
pub const MSG_ZEROCOPY_THRESHOLD: usize = 10 * 1024 * 1024;

/// Relies on `libc::MSG_NOSIGNAL`: the send flag that suppresses SIGPIPE,
/// 0x4000 on Linux.
#[verifier::external_body]
fn msg_nosignal() -> (r: i32)
    ensures
        r == 0x4000,
{
    libc::MSG_NOSIGNAL
}

/// The flags of a send of `bytes_init` bytes: never raise SIGPIPE, and with
/// zero copy enabled ask for it on large sends.
pub fn send_flags(bytes_init: usize, zero_copy: bool) -> (r: i32)
    ensures
        r == (if zero_copy && bytes_init >= MSG_ZEROCOPY_THRESHOLD {
            0x4000i32 | MSG_ZEROCOPY
        } else {
            0x4000i32
        }),
{
    let nosignal = msg_nosignal();
    if zero_copy && bytes_init >= MSG_ZEROCOPY_THRESHOLD {
        nosignal | MSG_ZEROCOPY
    } else {
        nosignal
    }
}

impl<T> Op<T> {
    /// Registers `data` as a new submitted operation of the table. Nothing
    /// reaches the kernel yet: the submission entry tagged with the index is
    /// pushed by the caller and submitted at the next park.
    pub fn submit_with<W, B>(ops: &mut Ops<W, B>, data: T) -> (r: Result<Op<T>, SubmitError>)
        requires
            old(ops).wf(),
        ensures
            final(ops).wf(),
            old(ops).has_room() ==> (r matches Ok(op) && op.data == Some(data)
                && !old(ops)@.contains_key(op.index) && final(ops)@ == old(ops)@.insert(
                op.index,
                Lifecycle::Submitted,
            ) && (op.index as u64) < MIN_RESERVED_USERDATA),
            !old(ops).has_room() ==> r == Err::<Op<T>, SubmitError>(SubmitError::TableFull)
                && final(ops)@ == old(ops)@,
    {
        if !ops.can_insert() {
            return Err(SubmitError::TableFull);
        }
        let index = ops.insert();
        Ok(Op { index, data: Some(data) })
    }
}

impl<T> Op<T> {
    /// An operation of a readiness driver: it takes no table slot, since the
    /// kernel never holds its payload between polls.
    pub fn unregistered(data: T) -> (r: Op<T>)
        ensures
            r.index == 0,
            r.data == Some(data),
    {
        Op { index: 0, data: Some(data) }
    }
}

impl<T> Op<Send<T>> {
    /// Registers a send of `buf` on `fd`.
    pub fn send<W, B>(ops: &mut Ops<W, B>, fd: i32, buf: T) -> (r: Result<Self, SubmitError>)
        requires
            old(ops).wf(),
        ensures
            final(ops).wf(),
            old(ops).has_room() ==> (r matches Ok(op) && op.data == Some(Send { fd, buf })
                && !old(ops)@.contains_key(op.index) && final(ops)@ == old(ops)@.insert(
                op.index,
                Lifecycle::Submitted,
            ) && (op.index as u64) < MIN_RESERVED_USERDATA),
            !old(ops).has_room() ==> r == Err::<Self, SubmitError>(SubmitError::TableFull)
                && final(ops)@ == old(ops)@,
    {
        Op::submit_with(ops, Send { fd, buf })
    }
}

} // verus!
