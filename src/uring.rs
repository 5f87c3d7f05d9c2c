use vstd::prelude::*;

use crate::errno::{EAGAIN, EBUSY};
use crate::ops::{complete_action, complete_next, Lifecycle, OpResult, Ops, Reaped};
use crate::userdata::{classify, classify_spec, CqeTarget};

verus! {

/// One completion-queue entry, as the kernel reported it.
#[derive(Clone, Copy, PartialEq, Eq, Structural, Debug)]
pub struct Cqe {
    pub user_data: u64,
    pub result: i32,
    pub flags: u32,
}

/// What one park of the completion driver pushes and how it waits.
#[derive(Clone, Copy, PartialEq, Eq, Structural, Debug)]
pub struct ParkPlan {
    /// Free submission entries needed before pushing.
    pub space: usize,
    /// Push a read on the wake event fd.
    pub install_eventfd: bool,
    /// Push the timeout request.
    pub install_timeout: bool,
    /// Submit and wait for one completion; otherwise submit only.
    pub wait: bool,
}

/// What to do after the submit syscall failed.
#[derive(Clone, Copy, PartialEq, Eq, Structural, Debug)]
pub enum SubmitAction {
    /// Transient: reap completions, then submit again.
    Retry,
    /// Hand the error to the caller.
    Fail,
}

/// The kernel's signed result: a count, or a negated error number.
pub open spec fn resultify_spec(res: i32) -> OpResult {
    if res >= 0 {
        Ok(res as u32)
    } else if res == i32::MIN {
        Err(i32::MIN)
    } else {
        Err((-res) as i32)
    }
}

pub fn resultify(res: i32) -> (r: OpResult)
    ensures
        r == resultify_spec(res),
{
    if res >= 0 {
        Ok(res as u32)
    } else if res == i32::MIN {
        Err(res)
    } else {
        Err(-res)
    }
}

/// Whether `need` more entries overflow a submission queue holding `len`
/// of `capacity`, so that it must be flushed first.
pub fn needs_flush(len: usize, capacity: usize, need: usize) -> (r: bool)
    ensures
        r == (len + need > capacity),
{
    need > capacity || len > capacity - need
}

/// Submit errors that are transient: the ring is busy or short of room.
pub fn submit_error_action(errno: i32) -> (r: SubmitAction)
    ensures
        r == (if errno == EBUSY || errno == EAGAIN {
            SubmitAction::Retry
        } else {
            SubmitAction::Fail
        }),
{
    if errno == EBUSY || errno == EAGAIN {
        SubmitAction::Retry
    } else {
        SubmitAction::Fail
    }
}

/// The operation table after one completion entry.
pub open spec fn cqe_ops_next<W, B>(m: Map<usize, Lifecycle<W, B>>, c: Cqe) -> Map<
    usize,
    Lifecycle<W, B>,
> {
    match classify_spec(c.user_data) {
        CqeTarget::Op(i) => complete_next(m, i, resultify_spec(c.result), c.flags),
        _ => m,
    }
}

/// What one completion entry asks of the caller: one action per user
/// operation, none for the driver's own requests.
pub open spec fn cqe_reaped<W, B>(m: Map<usize, Lifecycle<W, B>>, c: Cqe) -> Seq<Reaped<W, B>> {
    match classify_spec(c.user_data) {
        CqeTarget::Op(i) => seq![complete_action(m, i)],
        _ => Seq::empty(),
    }
}

pub open spec fn ops_after<W, B>(m: Map<usize, Lifecycle<W, B>>, cs: Seq<Cqe>) -> Map<
    usize,
    Lifecycle<W, B>,
>
    decreases cs.len(),
{
    if cs.len() == 0 {
        m
    } else {
        cqe_ops_next(ops_after(m, cs.drop_last()), cs.last())
    }
}

pub open spec fn reaped_after<W, B>(m: Map<usize, Lifecycle<W, B>>, cs: Seq<Cqe>) -> Seq<
    Reaped<W, B>,
>
    decreases cs.len(),
{
    if cs.len() == 0 {
        Seq::empty()
    } else {
        reaped_after(m, cs.drop_last()) + cqe_reaped(ops_after(m, cs.drop_last()), cs.last())
    }
}

/// Whether the wake read is still in the ring after the entries `cs`.
pub open spec fn installed_after(installed: bool, cs: Seq<Cqe>) -> bool
    decreases cs.len(),
{
    if cs.len() == 0 {
        installed
    } else if classify_spec(cs.last().user_data) is EventFd {
        false
    } else {
        installed_after(installed, cs.drop_last())
    }
}

/// The plan of one park, given whether it should block at all.
pub open spec fn plan_spec(installed: bool, need_wait: bool, has_timeout: bool) -> ParkPlan {
    if need_wait {
        ParkPlan {
            space: ((if installed { 0int } else { 1int }) + (if has_timeout { 1int } else { 0int })) as usize,
            install_eventfd: !installed,
            install_timeout: has_timeout,
            wait: true,
        }
    } else {
        ParkPlan { space: 0, install_eventfd: false, install_timeout: false, wait: false }
    }
}

/// The state a completion driver keeps between parks.
pub struct UringInner<W, B> {
    /// In-flight operations.
    pub ops: Ops<W, B>,
    /// Whether a read on the wake event fd is in the ring.
    pub eventfd_installed: bool,
}

impl<W, B> UringInner<W, B> {
    pub fn new() -> (r: Self)
        ensures
            r.ops.wf(),
            r.ops@ == Map::<usize, Lifecycle<W, B>>::empty(),
            !r.eventfd_installed,
    {
        UringInner { ops: Ops::new(), eventfd_installed: false }
    }

    /// Number of operations in flight or awaiting their task.
    pub fn num_operations(&self) -> (r: usize)
        requires
            self.ops.wf(),
        ensures
            r == self.ops@.len(),
    {
        self.ops.num_operations()
    }

    /// Decides what a park pushes: when it blocks, the wake read unless it
    /// is already in the ring, and the timeout if one is given; when it does
    /// not block, nothing, and it only submits.
    pub fn plan_park(&self, need_wait: bool, has_timeout: bool) -> (r: ParkPlan)
        ensures
            r == plan_spec(self.eventfd_installed, need_wait, has_timeout),
    {
        if need_wait {
            let a: usize = if self.eventfd_installed { 0 } else { 1 };
            let b: usize = if has_timeout { 1 } else { 0 };
            ParkPlan {
                space: a + b,
                install_eventfd: !self.eventfd_installed,
                install_timeout: has_timeout,
                wait: true,
            }
        } else {
            ParkPlan { space: 0, install_eventfd: false, install_timeout: false, wait: false }
        }
    }

    /// Records that the wake read was pushed.
    pub fn mark_eventfd_installed(&mut self)
        ensures
            final(self).eventfd_installed,
            final(self).ops == old(self).ops,
    {
        self.eventfd_installed = true;
    }

    /// Drains a batch of completion entries in the order the kernel
    /// reported them. The driver's own entries are skipped (the wake read's
    /// marks it as gone); each user operation's is applied to the table,
    /// and what the caller must do for it (wake, free) is returned in order.
    pub fn tick(&mut self, cqes: &Vec<Cqe>) -> (r: Vec<Reaped<W, B>>)
        requires
            old(self).ops.wf(),
        ensures
            final(self).ops.wf(),
            final(self).ops@ == ops_after(old(self).ops@, cqes@),
            final(self).eventfd_installed == installed_after(old(self).eventfd_installed, cqes@),
            r@ == reaped_after(old(self).ops@, cqes@),
    {
        let mut out: Vec<Reaped<W, B>> = Vec::new();
        let mut i: usize = 0;
        while i < cqes.len()
            invariant
                self.ops.wf(),
                i <= cqes@.len(),
                self.ops@ == ops_after(old(self).ops@, cqes@.subrange(0, i as int)),
                self.eventfd_installed == installed_after(
                    old(self).eventfd_installed,
                    cqes@.subrange(0, i as int),
                ),
                out@ == reaped_after(old(self).ops@, cqes@.subrange(0, i as int)),
            decreases cqes@.len() - i,
        {
            let c = cqes[i];
            proof {
                let s = cqes@.subrange(0, i as int + 1);
                assert(s.drop_last() =~= cqes@.subrange(0, i as int));
                assert(s.last() == c);
            }
            let ghost prev = self.ops@;
            match classify(c.user_data) {
                CqeTarget::EventFd => {
                    self.eventfd_installed = false;
                },
                CqeTarget::Op(index) => {
                    let a = self.ops.complete(index, resultify(c.result), c.flags);
                    out.push(a);
                },
                _ => {},
            }
            proof {
                assert(out@ =~= reaped_after(old(self).ops@, cqes@.subrange(0, i as int))
                    + cqe_reaped(prev, c));
            }
            i = i + 1;
        }
        proof {
            assert(cqes@.subrange(0, cqes@.len() as int) =~= cqes@);
        }
        out
    }
}

} // verus!
