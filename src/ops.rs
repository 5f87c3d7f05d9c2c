use vstd::prelude::*;

use crate::slab::Slab;
use crate::userdata::MIN_RESERVED_USERDATA;

verus! {

/// Outcome of a kernel request: a byte count, or the error number the
/// kernel reported.
pub type OpResult = Result<u32, i32>;

/// Where one in-flight operation stands. `W` is the task's waker, `B` the
/// payload (buffers included) that the table keeps once the task has gone.
pub enum Lifecycle<W, B> {
    /// The kernel has the request; no task waits on it yet.
    Submitted,
    /// A task polled the request and waits with this waker.
    Waiting(W),
    /// The kernel reported the result; it waits for the task to take it.
    Completed(OpResult, u32),
    /// The task was dropped while the kernel still holds the payload.
    Ignored(B),
}

/// Result of polling an operation.
#[derive(PartialEq, Eq, Debug)]
pub enum PollOutcome {
    Pending,
    Ready(OpResult, u32),
}

/// What the caller must do after a completion was applied.
pub enum Reaped<W, B> {
    /// Nobody waited; the result is stored for the next poll.
    Stored,
    /// Wake this waker: its task is now ready.
    Wake(W),
    /// The task had gone: the kernel released the payload, which may now be freed.
    Release(B),
    /// The index names no operation that awaits a completion.
    Stray,
}

/// What `drop_op` did with the payload of a dropped operation.
pub enum Dropped<B> {
    /// The kernel may still use the payload: the table keeps it, and a
    /// best-effort cancel should be sent for the index.
    Retained,
    /// The kernel is done with the payload: it is handed back to be freed.
    Free(B),
}

/// Exclusive bound on the indices the table hands out: every index stays
/// below the user-data values reserved for the driver's own requests.
pub const MAX_OPS: usize = 0xffff_fffd;

/// The table after a task polls `index` with waker `w`.
pub open spec fn poll_next<W, B>(m: Map<usize, Lifecycle<W, B>>, index: usize, w: W) -> Map<
    usize,
    Lifecycle<W, B>,
> {
    match m[index] {
        Lifecycle::Completed(..) => m.remove(index),
        _ => m.insert(index, Lifecycle::Waiting(w)),
    }
}

/// What a task polling `index` observes.
pub open spec fn poll_result<W, B>(m: Map<usize, Lifecycle<W, B>>, index: usize) -> PollOutcome {
    match m[index] {
        Lifecycle::Completed(r, f) => PollOutcome::Ready(r, f),
        _ => PollOutcome::Pending,
    }
}

/// The table after the kernel completes `index`.
pub open spec fn complete_next<W, B>(
    m: Map<usize, Lifecycle<W, B>>,
    index: usize,
    result: OpResult,
    flags: u32,
) -> Map<usize, Lifecycle<W, B>> {
    if !m.contains_key(index) {
        m
    } else {
        match m[index] {
            Lifecycle::Submitted => m.insert(index, Lifecycle::Completed(result, flags)),
            Lifecycle::Waiting(_) => m.insert(index, Lifecycle::Completed(result, flags)),
            Lifecycle::Ignored(_) => m.remove(index),
            Lifecycle::Completed(..) => m,
        }
    }
}

/// What the caller is told to do when the kernel completes `index`.
pub open spec fn complete_action<W, B>(m: Map<usize, Lifecycle<W, B>>, index: usize) -> Reaped<
    W,
    B,
> {
    if !m.contains_key(index) {
        Reaped::Stray
    } else {
        match m[index] {
            Lifecycle::Submitted => Reaped::Stored,
            Lifecycle::Waiting(w) => Reaped::Wake(w),
            Lifecycle::Ignored(b) => Reaped::Release(b),
            Lifecycle::Completed(..) => Reaped::Stray,
        }
    }
}

/// The table after the task owning `index` is dropped with payload `data`.
pub open spec fn drop_next<W, B>(m: Map<usize, Lifecycle<W, B>>, index: usize, data: B) -> Map<
    usize,
    Lifecycle<W, B>,
> {
    if !m.contains_key(index) {
        m
    } else {
        match m[index] {
            Lifecycle::Completed(..) => m.remove(index),
            _ => m.insert(index, Lifecycle::Ignored(data)),
        }
    }
}

/// Whether dropping the task owning `index` leaves the payload with the table.
pub open spec fn drop_retains<W, B>(m: Map<usize, Lifecycle<W, B>>, index: usize) -> bool {
    m.contains_key(index) && (m[index] is Submitted || m[index] is Waiting)
}

/// Whichever comes first, the kernel's completion or the task letting go of
/// the operation (taking its result, or being dropped), the slot leaves the
/// table once both have happened, the count of slots drops by one, and no
/// other slot is touched. So once every completion has been observed and
/// every dropped operation's completion has arrived, the table is empty.
pub proof fn lemma_slot_retires<W, B>(
    m: Map<usize, Lifecycle<W, B>>,
    index: usize,
    result: OpResult,
    flags: u32,
    data: B,
)
    requires
        m.dom().finite(),
        m.contains_key(index),
        m[index] is Submitted || m[index] is Waiting,
    ensures
        forall|w: W| #[trigger]
            poll_next(complete_next(m, index, result, flags), index, w) == m.remove(index),
        drop_next(complete_next(m, index, result, flags), index, data) == m.remove(index),
        complete_next(drop_next(m, index, data), index, result, flags) == m.remove(index),
        m.remove(index).len() == m.len() - 1,
{
    assert(m.insert(index, Lifecycle::Completed(result, flags)).remove(index) =~= m.remove(index));
    assert(m.insert(index, Lifecycle::Ignored(data)).remove(index) =~= m.remove(index));
}

/// Retiring every slot of a table, one after the other in any order, each
/// by its completion and its release, leaves the table empty.
pub proof fn lemma_table_drains<W, B>(
    m: Map<usize, Lifecycle<W, B>>,
    order: Seq<usize>,
    result: OpResult,
    flags: u32,
    data: B,
)
    requires
        m.dom().finite(),
        order.no_duplicates(),
        m.dom() == order.to_set(),
        forall|i: usize| m.contains_key(i) ==> #[trigger] m[i] is Submitted || m[i] is Waiting,
    ensures
        retire_all(m, order, result, flags, data).len() == 0,
    decreases order.len(),
{
    if order.len() == 0 {
        assert(m.dom() =~= Set::<usize>::empty());
        assert(m.dom().len() == 0);
    } else {
        let i = order.last();
        let rest = order.drop_last();
        assert(order.to_set().contains(i)) by {
            assert(order[order.len() - 1] == i);
        }
        let m1 = complete_next(m, i, result, flags);
        let m2 = drop_next(m1, i, data);
        lemma_slot_retires(m, i, result, flags, data);
        assert(m2 == m.remove(i));
        assert forall|k: usize| #[trigger] rest.contains(k) implies k != i by {
            let j = choose|j: int| 0 <= j < rest.len() && rest[j] == k;
            assert(order[j] == k);
            assert(order[order.len() - 1] == i);
        }
        assert(m2.dom() =~= rest.to_set()) by {
            assert forall|k: usize| m2.dom().contains(k) <==> rest.to_set().contains(k) by {
                if rest.contains(k) {
                    let j = choose|j: int| 0 <= j < rest.len() && rest[j] == k;
                    assert(order[j] == k);
                    assert(order.contains(k));
                }
                if order.contains(k) && k != i {
                    let j = choose|j: int| 0 <= j < order.len() && order[j] == k;
                    assert(j != order.len() - 1);
                    assert(rest[j] == k);
                }
            }
        }
        lemma_table_drains(m2, rest, result, flags, data);
    }
}

/// Each slot of `order`, last first, receives its completion and then its
/// task's release.
pub open spec fn retire_all<W, B>(
    m: Map<usize, Lifecycle<W, B>>,
    order: Seq<usize>,
    result: OpResult,
    flags: u32,
    data: B,
) -> Map<usize, Lifecycle<W, B>>
    decreases order.len(),
{
    if order.len() == 0 {
        m
    } else {
        let i = order.last();
        retire_all(drop_next(complete_next(m, i, result, flags), i, data), order.drop_last(), result, flags, data)
    }
}

/// A payload that a dropped task left with the table stays there unchanged
/// through every completion, poll or drop of another index, and is handed
/// back for freeing exactly when its own completion arrives.
pub proof fn lemma_payload_kept<W, B>(
    m: Map<usize, Lifecycle<W, B>>,
    index: usize,
    data: B,
    other: usize,
    result: OpResult,
    flags: u32,
    w: W,
    other_data: B,
)
    requires
        m.contains_key(index),
        m[index] is Submitted || m[index] is Waiting,
        other != index,
    ensures
        drop_next(m, index, data)[index] == Lifecycle::<W, B>::Ignored(data),
        complete_next(drop_next(m, index, data), other, result, flags)[index]
            == Lifecycle::<W, B>::Ignored(data),
        drop_next(m, index, data).contains_key(other) ==> poll_next(drop_next(m, index, data), other, w)[index]
            == Lifecycle::<W, B>::Ignored(data),
        drop_next(drop_next(m, index, data), other, other_data)[index]
            == Lifecycle::<W, B>::Ignored(data),
        complete_action(drop_next(m, index, data), index) == Reaped::<W, B>::Release(data),
        !complete_next(drop_next(m, index, data), index, result, flags).contains_key(index),
{
}

/// A task receives its result exactly once: every poll before the
/// completion is `Pending`, the first poll after it is `Ready` with the
/// kernel's result and removes the slot, so the index holds no result any more.
pub proof fn lemma_delivered_once<W, B>(
    m: Map<usize, Lifecycle<W, B>>,
    index: usize,
    w1: W,
    w2: W,
    result: OpResult,
    flags: u32,
)
    requires
        m.contains_key(index),
        m[index] is Submitted || m[index] is Waiting,
    ensures
        poll_result(m, index) == PollOutcome::Pending,
        poll_result(poll_next(m, index, w1), index) == PollOutcome::Pending,
        poll_result(complete_next(poll_next(m, index, w1), index, result, flags), index)
            == PollOutcome::Ready(result, flags),
        !poll_next(complete_next(poll_next(m, index, w1), index, result, flags), index, w2).contains_key(index),
{
}

/// A task that polled with `w1` and then with `w2` before the completion is
/// woken through `w2` only.
pub proof fn lemma_latest_waker_woken<W, B>(
    m: Map<usize, Lifecycle<W, B>>,
    index: usize,
    w1: W,
    w2: W,
    result: OpResult,
    flags: u32,
)
    requires
        m.contains_key(index),
        m[index] is Submitted || m[index] is Waiting,
    ensures
        complete_action(poll_next(poll_next(m, index, w1), index, w2), index) == Reaped::<W, B>::Wake(w2),
{
}

/// The table of in-flight operations of a completion driver.
pub struct Ops<W, B> {
    slab: Slab<Lifecycle<W, B>>,
}

impl<W, B> Ops<W, B> {
    pub closed spec fn view(&self) -> Map<usize, Lifecycle<W, B>> {
        self.slab@
    }

    pub closed spec fn wf(&self) -> bool {
        &&& self.slab.wf()
        &&& self.slab.slots() <= MAX_OPS
    }

    /// Whether one more operation can be registered: fewer than `MAX_OPS`
    /// are in the table.
    pub open spec fn has_room(&self) -> bool {
        self@.len() < MAX_OPS
    }

    pub fn new() -> (r: Self)
        ensures
            r.wf(),
            r@ == Map::<usize, Lifecycle<W, B>>::empty(),
    {
        Ops { slab: Slab::new() }
    }

    /// Number of operations in the table.
    pub fn num_operations(&self) -> (r: usize)
        requires
            self.wf(),
        ensures
            r == self@.len(),
    {
        self.slab.len()
    }

    pub fn can_insert(&self) -> (r: bool)
        requires
            self.wf(),
        ensures
            r == self.has_room(),
    {
        self.slab.len() < MAX_OPS
    }

    /// Registers a new operation as submitted and returns its index, which
    /// is free before the call and lies below the reserved user-data values.
    pub fn insert(&mut self) -> (r: usize)
        requires
            old(self).wf(),
            old(self).has_room(),
        ensures
            final(self).wf(),
            !old(self)@.contains_key(r),
            final(self)@ == old(self)@.insert(r, Lifecycle::Submitted),
            (r as u64) < MIN_RESERVED_USERDATA,
    {
        proof {
            self.slab.lemma_len_le_slots();
        }
        let r = self.slab.insert(Lifecycle::Submitted);
        r
    }

    /// Whether `index` names an operation in the table.
    pub fn contains(&self, index: usize) -> (r: bool)
        requires
            self.wf(),
        ensures
            r == self@.contains_key(index),
    {
        self.slab.contains(index)
    }

    /// Whether `index` holds the payload of a dropped task. Such a slot is
    /// neither polled nor dropped again: only its completion retires it.
    pub fn is_ignored(&self, index: usize) -> (r: bool)
        requires
            self.wf(),
        ensures
            r == (self@.contains_key(index) && self@[index] is Ignored),
    {
        match self.slab.get(index) {
            Some(Lifecycle::Ignored(_)) => true,
            _ => false,
        }
    }

    /// Applies the kernel's completion of `index`: a submitted operation
    /// stores the result, a waiting one stores it and hands back the waker to
    /// wake, an ignored one leaves the table and hands back its payload.
    pub fn complete(&mut self, index: usize, result: OpResult, flags: u32) -> (r: Reaped<W, B>)
        requires
            old(self).wf(),
        ensures
            final(self).wf(),
            final(self)@ == complete_next(old(self)@, index, result, flags),
            r == complete_action(old(self)@, index),
    {
        if !self.slab.contains(index) {
            return Reaped::Stray;
        }
        let is_completed = match self.slab.get(index) {
            Some(Lifecycle::Completed(..)) => true,
            _ => false,
        };
        if is_completed {
            return Reaped::Stray;
        }
        let old = self.slab.replace(index, Lifecycle::Completed(result, flags));
        match old {
            Lifecycle::Submitted => Reaped::Stored,
            Lifecycle::Waiting(w) => Reaped::Wake(w),
            Lifecycle::Ignored(b) => {
                let _ = self.slab.remove(index);
                Reaped::Release(b)
            },
            Lifecycle::Completed(..) => Reaped::Stray,
        }
    }

    /// Polls `index` on behalf of a task holding waker `waker`. Before the
    /// completion the waker replaces any earlier one and the result is
    /// `Pending`; after it the slot leaves the table and its result is returned.
    pub fn poll_op(&mut self, index: usize, waker: W) -> (r: PollOutcome)
        requires
            old(self).wf(),
            old(self)@.contains_key(index),
            !(old(self)@[index] is Ignored),
        ensures
            final(self).wf(),
            final(self)@ == poll_next(old(self)@, index, waker),
            r == poll_result(old(self)@, index),
    {
        let done = match self.slab.get(index) {
            Some(Lifecycle::Completed(..)) => true,
            _ => false,
        };
        if !done {
            let _ = self.slab.replace(index, Lifecycle::Waiting(waker));
            return PollOutcome::Pending;
        }
        match self.slab.remove(index) {
            Lifecycle::Completed(result, flags) => PollOutcome::Ready(result, flags),
            _ => PollOutcome::Pending,
        }
    }

    /// The task owning `index` is dropped, with payload `data`. While the
    /// kernel may still use the payload the table keeps it; otherwise the
    /// slot, if any, leaves the table and the payload is handed back.
    pub fn drop_op(&mut self, index: usize, data: B) -> (r: Dropped<B>)
        requires
            old(self).wf(),
            !(old(self)@.contains_key(index) && old(self)@[index] is Ignored),
        ensures
            final(self).wf(),
            final(self)@ == drop_next(old(self)@, index, data),
            drop_retains(old(self)@, index) ==> r is Retained,
            !drop_retains(old(self)@, index) ==> r == Dropped::Free(data),
    {
        if !self.slab.contains(index) {
            return Dropped::Free(data);
        }
        let done = match self.slab.get(index) {
            Some(Lifecycle::Completed(..)) => true,
            _ => false,
        };
        if done {
            let _ = self.slab.remove(index);
            Dropped::Free(data)
        } else {
            let _ = self.slab.replace(index, Lifecycle::Ignored(data));
            Dropped::Retained
        }
    }
}

} // verus!
