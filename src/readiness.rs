use vstd::prelude::*;

use crate::errno::{EAGAIN, ECANCELED};
use crate::ops::{OpResult, PollOutcome};
use crate::ready::{
    cancel_bits, difference, empty_spec, has_read, has_write, intersection, is_empty_spec, mask_spec,
    union, Direction, Ready,
};
use crate::slab::Slab;

verus! {

/// Token of the poller's built-in cross-thread wake source. It is never
/// handed out to a registered source.
pub const TOKEN_WAKEUP: usize = 0x8000_0000;

/// Readiness state of one registered source: the flags seen so far, and at
/// most one waiting task per direction. A task that waits in either
/// direction sits in the reader slot with `reader_either` set.
pub struct ScheduledIo<W> {
    pub readiness: Ready,
    pub reader: Option<W>,
    pub writer: Option<W>,
    pub reader_either: bool,
}

/// Wakers taken out of a slot, to be woken by the caller.
pub struct Woken<W> {
    pub reader: Option<W>,
    pub writer: Option<W>,
}

/// First half of a readiness-driven operation.
pub enum ReadinessStep<W> {
    /// Not ready: the waker was stored.
    Pending,
    /// The direction was canceled; the cancel flags were acknowledged.
    Canceled,
    /// Ready: perform the syscall now, then call `finish_op` with this waker.
    Attempt(W),
}

/// One event reported by the poller.
#[derive(Clone, Copy, PartialEq, Eq, Structural, Debug)]
pub struct Event {
    pub token: usize,
    pub ready: Ready,
}

pub open spec fn empty_io<W>() -> ScheduledIo<W> {
    ScheduledIo { readiness: empty_spec(), reader: None, writer: None, reader_either: false }
}

pub open spec fn wakes_reader<W>(s: ScheduledIo<W>, ready: Ready) -> bool {
    has_read(ready) || (s.reader_either && has_write(ready))
}

/// The slot after `ready` is added to it; the wakers it concerns leave.
pub open spec fn dispatch_next<W>(s: ScheduledIo<W>, ready: Ready) -> ScheduledIo<W> {
    ScheduledIo {
        readiness: union(s.readiness, ready),
        reader: if wakes_reader(s, ready) { None } else { s.reader },
        writer: if has_write(ready) { None } else { s.writer },
        reader_either: if wakes_reader(s, ready) { false } else { s.reader_either },
    }
}

/// The wakers that adding `ready` to the slot wakes.
pub open spec fn dispatch_woken<W>(s: ScheduledIo<W>, ready: Ready) -> Woken<W> {
    Woken {
        reader: if wakes_reader(s, ready) { s.reader } else { None },
        writer: if has_write(ready) { s.writer } else { None },
    }
}

/// The slot with `w` stored as the waker of direction `d`.
pub open spec fn with_waker<W>(s: ScheduledIo<W>, d: Direction, w: W) -> ScheduledIo<W> {
    match d {
        Direction::Write => ScheduledIo { writer: Some(w), ..s },
        Direction::Read => ScheduledIo { reader: Some(w), reader_either: false, ..s },
        Direction::ReadOrWrite => ScheduledIo { reader: Some(w), reader_either: true, ..s },
    }
}

/// The flags an operation in direction `d` sees.
pub open spec fn seen<W>(s: ScheduledIo<W>, d: Direction) -> Ready {
    intersection(mask_spec(d), s.readiness)
}

/// The slot after a poll in direction `d` with waker `w`.
pub open spec fn poll_readiness_next<W>(s: ScheduledIo<W>, d: Direction, w: W) -> ScheduledIo<W> {
    let r = seen(s, d);
    if is_empty_spec(r) {
        with_waker(s, d, w)
    } else if r.read_canceled || r.write_canceled {
        ScheduledIo {
            readiness: difference(s.readiness, cancel_bits_of(r)),
            ..s
        }
    } else {
        s
    }
}

/// Only the cancel flags of `r`.
pub open spec fn cancel_bits_of(r: Ready) -> Ready {
    Ready {
        readable: false,
        read_closed: false,
        read_canceled: r.read_canceled,
        writable: false,
        write_closed: false,
        write_canceled: r.write_canceled,
    }
}

/// The non-cancel flags of direction `d`, dropped when its syscall would block.
pub open spec fn would_block_bits(d: Direction) -> Ready {
    difference(mask_spec(d), cancel_bits(d))
}

/// The slot after a cancel in direction `d`: its cancel flags are set and
/// the wakers of that direction leave.
pub open spec fn cancel_next<W>(s: ScheduledIo<W>, d: Direction) -> ScheduledIo<W> {
    dispatch_next(s, cancel_bits(d))
}

pub open spec fn opt_seq<W>(o: Option<W>) -> Seq<W> {
    match o {
        Some(w) => seq![w],
        None => Seq::empty(),
    }
}

/// The registry after one poller event; the wake token and unknown tokens
/// change nothing.
pub open spec fn event_next<W>(m: Map<usize, ScheduledIo<W>>, e: Event) -> Map<usize, ScheduledIo<W>> {
    if e.token == TOKEN_WAKEUP || !m.contains_key(e.token) {
        m
    } else {
        m.insert(e.token, dispatch_next(m[e.token], e.ready))
    }
}

/// The wakers one poller event wakes, reader first.
pub open spec fn event_woken<W>(m: Map<usize, ScheduledIo<W>>, e: Event) -> Seq<W> {
    if e.token == TOKEN_WAKEUP || !m.contains_key(e.token) {
        Seq::empty()
    } else {
        let w = dispatch_woken(m[e.token], e.ready);
        opt_seq(w.reader) + opt_seq(w.writer)
    }
}

/// The registry after a batch of events, applied in order.
pub open spec fn events_next<W>(m: Map<usize, ScheduledIo<W>>, es: Seq<Event>) -> Map<
    usize,
    ScheduledIo<W>,
>
    decreases es.len(),
{
    if es.len() == 0 {
        m
    } else {
        event_next(events_next(m, es.drop_last()), es.last())
    }
}

/// The wakers a batch of events wakes, in order.
pub open spec fn events_woken<W>(m: Map<usize, ScheduledIo<W>>, es: Seq<Event>) -> Seq<W>
    decreases es.len(),
{
    if es.len() == 0 {
        Seq::empty()
    } else {
        events_woken(m, es.drop_last()) + event_woken(events_next(m, es.drop_last()), es.last())
    }
}

/// Canceling a direction twice is the same as canceling it once: the slot
/// ends the same, and the second cancel finds no waker left to wake.
pub proof fn lemma_cancel_idempotent<W>(m: Map<usize, ScheduledIo<W>>, token: usize, d: Direction)
    requires
        m.contains_key(token),
    ensures
        cancel_next(cancel_next(m[token], d), d) == cancel_next(m[token], d),
        m.insert(token, cancel_next(m[token], d)).insert(
            token,
            cancel_next(m.insert(token, cancel_next(m[token], d))[token], d),
        ) == m.insert(token, cancel_next(m[token], d)),
        dispatch_woken(cancel_next(m[token], d), cancel_bits(d)).reader is None,
        dispatch_woken(cancel_next(m[token], d), cancel_bits(d)).writer is None,
{
    let s1 = cancel_next(m[token], d);
    assert(cancel_next(s1, d) == s1);
    assert(m.insert(token, s1).insert(token, s1) =~= m.insert(token, s1));
}

/// A task that waited for readiness with `w1` and then with `w2` is woken
/// through `w2` only when the readiness arrives.
pub proof fn lemma_latest_reader_woken<W>(s: ScheduledIo<W>, d: Direction, w1: W, w2: W, ready: Ready)
    requires
        is_empty_spec(seen(s, d)),
        !(d is Write) ==> has_read(ready),
        d is Write ==> has_write(ready),
    ensures
        d is Write ==> dispatch_woken(
            poll_readiness_next(poll_readiness_next(s, d, w1), d, w2),
            ready,
        ).writer == Some(w2),
        !(d is Write) ==> dispatch_woken(
            poll_readiness_next(poll_readiness_next(s, d, w1), d, w2),
            ready,
        ).reader == Some(w2),
{
}

impl<W> ScheduledIo<W> {
    pub fn new() -> (r: Self)
        ensures
            r == empty_io::<W>(),
    {
        ScheduledIo { readiness: Ready::empty(), reader: None, writer: None, reader_either: false }
    }

    /// Stores `w` as the waker of direction `d`, replacing any earlier one.
    pub fn set_waker(&mut self, d: Direction, w: W)
        ensures
            *final(self) == with_waker(*old(self), d, w),
    {
        match d {
            Direction::Write => {
                self.writer = Some(w);
            },
            Direction::Read => {
                self.reader = Some(w);
                self.reader_either = false;
            },
            Direction::ReadOrWrite => {
                self.reader = Some(w);
                self.reader_either = true;
            },
        }
    }

    /// Adds `ready` to the flags and takes out the wakers it concerns.
    pub fn dispatch(&mut self, ready: Ready) -> (r: Woken<W>)
        ensures
            *final(self) == dispatch_next(*old(self), ready),
            r == dispatch_woken(*old(self), ready),
    {
        self.readiness = self.readiness.union(ready);
        let read = ready.readable || ready.read_closed || ready.read_canceled;
        let write = ready.writable || ready.write_closed || ready.write_canceled;
        let reader = if read || (self.reader_either && write) {
            self.reader_either = false;
            self.reader.take()
        } else {
            None
        };
        let writer = if write {
            self.writer.take()
        } else {
            None
        };
        Woken { reader, writer }
    }

    /// Polls direction `d`: not ready stores the waker; a cancel flag is
    /// acknowledged (only the cancel flags are cleared); otherwise the
    /// syscall may be attempted.
    pub fn poll_readiness(&mut self, d: Direction, w: W) -> (r: ReadinessStep<W>)
        ensures
            *final(self) == poll_readiness_next(*old(self), d, w),
            is_empty_spec(seen(*old(self), d)) ==> r is Pending,
            !is_empty_spec(seen(*old(self), d)) && (seen(*old(self), d).read_canceled || seen(*old(self), d).write_canceled) ==> r is Canceled,
            !is_empty_spec(seen(*old(self), d)) && !seen(*old(self), d).read_canceled && !seen(*old(self), d).write_canceled ==> r == ReadinessStep::Attempt(w),
    {
        let ready = d.mask().intersection(self.readiness);
        if ready.is_empty() {
            self.set_waker(d, w);
            return ReadinessStep::Pending;
        }
        if ready.is_canceled() {
            self.readiness = self.readiness.difference(ready.canceled_part());
            return ReadinessStep::Canceled;
        }
        ReadinessStep::Attempt(w)
    }
}

/// The registry of sources of a readiness driver, by token.
pub struct IoDispatch<W> {
    slab: Slab<ScheduledIo<W>>,
}

impl<W> IoDispatch<W> {
    pub closed spec fn view(&self) -> Map<usize, ScheduledIo<W>> {
        self.slab@
    }

    pub closed spec fn wf(&self) -> bool {
        &&& self.slab.wf()
        &&& self.slab.slots() <= TOKEN_WAKEUP
    }

    pub fn new() -> (r: Self)
        ensures
            r.wf(),
            r@ == Map::<usize, ScheduledIo<W>>::empty(),
    {
        IoDispatch { slab: Slab::new() }
    }

    /// Number of registered sources.
    pub fn len(&self) -> (r: usize)
        requires
            self.wf(),
        ensures
            r == self@.len(),
    {
        self.slab.len()
    }

    /// Allocates an empty slot for a new source and returns its token, which
    /// is never the wake token. `None` when every token is taken.
    pub fn register(&mut self) -> (r: Option<usize>)
        requires
            old(self).wf(),
        ensures
            final(self).wf(),
            r is None <==> old(self)@.len() >= TOKEN_WAKEUP,
            r is None ==> final(self)@ == old(self)@,
            r matches Some(t) ==> t != TOKEN_WAKEUP && !old(self)@.contains_key(t) && final(self)@ == old(self)@.insert(t, empty_io()),
    {
        proof {
            self.slab.lemma_len_le_slots();
        }
        if self.slab.slot_count() >= TOKEN_WAKEUP && self.slab.len() >= self.slab.slot_count() {
            return None;
        }
        let t = self.slab.insert(ScheduledIo::new());
        Some(t)
    }

    /// Removes a source; its wakers are dropped.
    pub fn deregister(&mut self, token: usize)
        requires
            old(self).wf(),
            old(self)@.contains_key(token),
        ensures
            final(self).wf(),
            final(self)@ == old(self)@.remove(token),
    {
        let _ = self.slab.remove(token);
    }

    pub fn contains(&self, token: usize) -> (r: bool)
        requires
            self.wf(),
        ensures
            r == self@.contains_key(token),
    {
        self.slab.contains(token)
    }

    /// Adds `ready` to the source `token`, if registered, and takes out the
    /// wakers it concerns.
    pub fn dispatch(&mut self, token: usize, ready: Ready) -> (r: Woken<W>)
        requires
            old(self).wf(),
        ensures
            final(self).wf(),
            old(self)@.contains_key(token) ==> final(self)@ == old(self)@.insert(
                token,
                dispatch_next(old(self)@[token], ready),
            ) && r == dispatch_woken(old(self)@[token], ready),
            !old(self)@.contains_key(token) ==> final(self)@ == old(self)@ && r.reader is None
                && r.writer is None,
    {
        if !self.slab.contains(token) {
            return Woken { reader: None, writer: None };
        }
        let mut s = self.slab.replace(token, ScheduledIo::new());
        let woken = s.dispatch(ready);
        let _ = self.slab.replace(token, s);
        proof {
            assert(self.slab@ =~= old(self)@.insert(token, dispatch_next(old(self)@[token], ready)));
        }
        woken
    }

    /// Marks direction `d` of source `token` canceled and takes out the
    /// wakers of that direction; a waiting operation then completes with a
    /// cancellation error.
    pub fn cancel_op(&mut self, token: usize, d: Direction) -> (r: Woken<W>)
        requires
            old(self).wf(),
        ensures
            final(self).wf(),
            old(self)@.contains_key(token) ==> final(self)@ == old(self)@.insert(
                token,
                cancel_next(old(self)@[token], d),
            ) && r == dispatch_woken(old(self)@[token], cancel_bits(d)),
            !old(self)@.contains_key(token) ==> final(self)@ == old(self)@ && r.reader is None
                && r.writer is None,
    {
        self.dispatch(token, Ready::canceled(d))
    }

    /// Applies a batch of poller events in order, skipping the wake token,
    /// and returns the wakers to wake, in order.
    pub fn dispatch_events(&mut self, events: &Vec<Event>) -> (r: Vec<W>)
        requires
            old(self).wf(),
        ensures
            final(self).wf(),
            final(self)@ == events_next(old(self)@, events@),
            r@ == events_woken(old(self)@, events@),
    {
        let mut woken: Vec<W> = Vec::new();
        let mut i: usize = 0;
        while i < events.len()
            invariant
                self.wf(),
                i <= events@.len(),
                self@ == events_next(old(self)@, events@.subrange(0, i as int)),
                woken@ == events_woken(old(self)@, events@.subrange(0, i as int)),
            decreases events@.len() - i,
        {
            let e = events[i];
            proof {
                let s = events@.subrange(0, i as int + 1);
                assert(s.drop_last() =~= events@.subrange(0, i as int));
                assert(s.last() == e);
            }
            if e.token != TOKEN_WAKEUP {
                let w = self.dispatch(e.token, e.ready);
                match w.reader {
                    Some(x) => woken.push(x),
                    None => {},
                }
                match w.writer {
                    Some(x) => woken.push(x),
                    None => {},
                }
            }
            proof {
                let s = events@.subrange(0, i as int + 1);
                let prev = events_next(old(self)@, events@.subrange(0, i as int));
                assert(woken@ =~= events_woken(old(self)@, events@.subrange(0, i as int))
                    + event_woken(prev, e));
            }
            i = i + 1;
        }
        proof {
            assert(events@.subrange(0, events@.len() as int) =~= events@);
        }
        woken
    }

    /// First half of an operation that waits for readiness of `token` in
    /// direction `d`.
    pub fn poll_readiness(&mut self, token: usize, d: Direction, w: W) -> (r: ReadinessStep<W>)
        requires
            old(self).wf(),
            old(self)@.contains_key(token),
        ensures
            final(self).wf(),
            final(self)@ == old(self)@.insert(token, poll_readiness_next(old(self)@[token], d, w)),
            is_empty_spec(seen(old(self)@[token], d)) ==> r is Pending,
            !is_empty_spec(seen(old(self)@[token], d)) && (seen(old(self)@[token], d).read_canceled
                || seen(old(self)@[token], d).write_canceled) ==> r is Canceled,
            !is_empty_spec(seen(old(self)@[token], d)) && !seen(old(self)@[token], d).read_canceled
                && !seen(old(self)@[token], d).write_canceled ==> r == ReadinessStep::Attempt(w),
    {
        let mut s = self.slab.replace(token, ScheduledIo::new());
        let r = s.poll_readiness(d, w);
        let _ = self.slab.replace(token, s);
        proof {
            assert(self.slab@ =~= old(self)@.insert(token, poll_readiness_next(old(self)@[token], d, w)));
        }
        r
    }

    /// Second half: the syscall returned `outcome`. When it would block, the
    /// direction's readiness flags (not its cancel flags) are cleared, the
    /// waker is stored and the result is `Pending`; otherwise the outcome is
    /// the operation's result.
    pub fn finish_op(&mut self, token: usize, d: Direction, outcome: OpResult, w: W) -> (r: PollOutcome)
        requires
            old(self).wf(),
            old(self)@.contains_key(token),
        ensures
            final(self).wf(),
            outcome == Err::<u32, i32>(EAGAIN) ==> r == PollOutcome::Pending && final(self)@
                == old(self)@.insert(
                token,
                with_waker(
                    ScheduledIo {
                        readiness: difference(old(self)@[token].readiness, would_block_bits(d)),
                        ..old(self)@[token]
                    },
                    d,
                    w,
                ),
            ),
            outcome != Err::<u32, i32>(EAGAIN) ==> r == PollOutcome::Ready(outcome, 0) && final(self)@ == old(self)@,
    {
        match outcome {
            Err(e) => {
                if e == EAGAIN {
                    let mut s = self.slab.replace(token, ScheduledIo::new());
                    let clear = d.mask().difference(Ready::canceled(d));
                    s.readiness = s.readiness.difference(clear);
                    s.set_waker(d, w);
                    let _ = self.slab.replace(token, s);
                    proof {
                        assert(self.slab@ =~= old(self)@.insert(
                            token,
                            with_waker(
                                ScheduledIo {
                                    readiness: difference(
                                        old(self)@[token].readiness,
                                        would_block_bits(d),
                                    ),
                                    ..old(self)@[token]
                                },
                                d,
                                w,
                            ),
                        ));
                    }
                    return PollOutcome::Pending;
                }
            },
            Ok(_) => {},
        }
        PollOutcome::Ready(outcome, 0)
    }
}

/// The result a canceled operation completes with.
pub fn canceled_result() -> (r: PollOutcome)
    ensures
        r == PollOutcome::Ready(Err(ECANCELED), 0),
{
    PollOutcome::Ready(Err(ECANCELED), 0)
}

} // verus!
