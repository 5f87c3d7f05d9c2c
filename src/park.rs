use vstd::prelude::*;

verus! {

/// The decision of one park as it drains foreign wakers twice: once while
/// the driver is still marked awake, and once after it cleared the mark.
/// A drained waker means some task is ready, so the park must not block.
#[derive(Clone, Copy, PartialEq, Eq, Structural, Debug)]
pub struct ParkDecision {
    pub need_wait: bool,
}

/// Whether a foreign unpark must write to the wake signal: only when the
/// driver may be blocked, that is, not marked awake.
pub open spec fn signals_spec(awake: bool) -> bool {
    !awake
}

pub fn unpark_signals(awake: bool) -> (r: bool)
    ensures
        r == signals_spec(awake),
{
    !awake
}

impl ParkDecision {
    /// The decision once the drain made while still awake found `found` wakers.
    pub fn after_awake_drain(found: usize) -> (r: ParkDecision)
        ensures
            r.need_wait == (found == 0),
    {
        ParkDecision { need_wait: found == 0 }
    }

    /// Whether to clear the awake mark before the second drain.
    pub fn clears_awake(&self) -> (r: bool)
        ensures
            r == self.need_wait,
    {
        self.need_wait
    }

    /// The decision once the drain made after clearing the awake mark found `found` wakers.
    pub fn after_recheck(&self, found: usize) -> (r: ParkDecision)
        ensures
            r.need_wait == (self.need_wait && found == 0),
    {
        ParkDecision { need_wait: self.need_wait && found == 0 }
    }

    /// The timeout the blocking wait uses: the one asked for while the park
    /// may block, zero once a drained waker made a task ready.
    pub fn wait_timeout<T>(&self, requested: Option<T>, zero: T) -> (r: Option<T>)
        ensures
            r == (if self.need_wait { requested } else { Some(zero) }),
    {
        if self.need_wait {
            requested
        } else {
            Some(zero)
        }
    }
}

/// What the park protocol shares with foreign threads: the awake mark, the
/// number of queued foreign wakers, whether the wake signal was written,
/// and the driver's decision.
pub struct WakeState {
    pub awake: bool,
    pub queued: nat,
    pub signaled: bool,
    pub need_wait: bool,
}

/// The driver drains the queue (as `after_*_drain` decide).
pub open spec fn drain_step(s: WakeState) -> WakeState {
    WakeState { queued: 0, need_wait: s.need_wait && s.queued == 0, ..s }
}

/// The driver clears the awake mark if it still means to block.
pub open spec fn clear_step(s: WakeState) -> WakeState {
    if s.need_wait {
        WakeState { awake: false, ..s }
    } else {
        s
    }
}

/// A foreign thread queues a waker.
pub open spec fn push_step(s: WakeState) -> WakeState {
    WakeState { queued: s.queued + 1, ..s }
}

/// A foreign thread reads the awake mark and signals if `unpark_signals` says so.
pub open spec fn check_step(s: WakeState) -> WakeState {
    if signals_spec(s.awake) {
        WakeState { signaled: true, ..s }
    } else {
        s
    }
}

/// The foreign thread's steps that fall at boundary `k` of the driver's
/// steps: it queues at boundary `p` and checks at boundary `c`.
pub open spec fn foreign_at(s: WakeState, k: nat, p: nat, c: nat) -> WakeState {
    let s1 = if p == k { push_step(s) } else { s };
    if c == k { check_step(s1) } else { s1 }
}

/// The state when the driver is about to block: first drain, clear, second
/// drain, with the foreign unpark interleaved at boundaries `p` and `c`.
pub open spec fn park_run(queued: nat, p: nat, c: nat) -> WakeState {
    let s0 = WakeState { awake: true, queued, signaled: false, need_wait: true };
    let s1 = drain_step(foreign_at(s0, 0, p, c));
    let s2 = clear_step(foreign_at(s1, 1, p, c));
    let s3 = drain_step(foreign_at(s2, 2, p, c));
    foreign_at(s3, 3, p, c)
}

/// A foreign unpark that queues its waker and then checks the awake mark,
/// at any point relative to the driver's park, never leaves the driver
/// blocked: either a drain caught the waker and the park does not block,
/// or the wake signal was written and the blocking wait returns.
pub proof fn lemma_foreign_unpark_liveness(queued: nat, p: nat, c: nat)
    requires
        p <= c <= 3,
    ensures
        !park_run(queued, p, c).need_wait || park_run(queued, p, c).signaled,
{
}

} // verus!
