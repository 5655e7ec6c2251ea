//! The cooperative scheduling layer: suspendable operations, the
//! re-poll signal, and the busy-poll executor.
//!
//! There is no interrupt-driven wake-up in this system. A suspendable
//! operation that is not yet complete must therefore raise the re-poll
//! signal before reporting `Pending`; the executor consumes the signal
//! and polls again at once. An operation that reports `Ready` must leave
//! the signal alone and must never be polled again.

use vstd::prelude::*;

verus! {

/// Result of one poll of a suspendable operation: either the operation
/// is still pending, or it completed with its result value.
#[derive(PartialEq, Eq, Debug)]
pub enum Step<T> {
    Pending,
    Ready(T),
}

/// The completion-notification signal. Waking here only means "poll me
/// again": the executor clears the flag before each poll and treats a
/// raised flag as the license to re-poll immediately.
pub struct Waker {
    pub woken: bool,
}

impl Waker {
    /// A fresh signal with nothing requested yet.
    pub fn new() -> (w: Waker)
        ensures
            !w.woken,
    {
        Waker { woken: false }
    }

    /// Requests one more poll.
    pub fn wake(&mut self)
        ensures
            final(self).woken,
    {
        self.woken = true;
    }

    /// Consumes a pending re-poll request.
    pub fn clear(&mut self)
        ensures
            !final(self).woken,
    {
        self.woken = false;
    }
}

/// A single-shot unit of deferred work, polled to completion by the
/// executor.
///
/// The contract every implementor carries: a `Pending` poll raises the
/// re-poll signal and leaves the operation willing to be polled again;
/// a `Ready` poll leaves the signal alone, marks the operation done, and
/// hands back a result satisfying `post_ok`. A done operation must not
/// be polled again.
pub trait Suspendable: Sized {
    type Output;

    /// Well-formedness of the operation's state.
    spec fn inv(&self) -> bool;

    /// Whether the operation has already reported completion.
    spec fn is_done(&self) -> bool;

    /// What the operation guarantees of its result on completion.
    spec fn post_ok(&self, out: &Self::Output) -> bool;

    fn poll(&mut self, w: &mut Waker) -> (r: Step<Self::Output>)
        requires
            old(self).inv(),
            !old(self).is_done(),
        ensures
            final(self).inv(),
            (match r {
                Step::Pending => final(w).woken && !final(self).is_done(),
                Step::Ready(v) => final(self).is_done() && final(self).post_ok(&v)
                    && final(w).woken == old(w).woken,
            }),
    ;
}

/// Drives a suspendable operation by polling it in a tight loop,
/// re-polling immediately whenever the operation raises the re-poll
/// signal, until it reports completion.
///
/// A readiness condition that never becomes true would leave the
/// operation pending forever, so the loop gives up after `max_polls`
/// polls and reports `None`; the operation is then still pending and may
/// be driven further.
pub fn block_on<S: Suspendable>(op: &mut S, max_polls: u64) -> (r: Option<S::Output>)
    requires
        old(op).inv(),
        !old(op).is_done(),
    ensures
        final(op).inv(),
        (match r {
            Some(v) => final(op).is_done() && final(op).post_ok(&v),
            None => !final(op).is_done(),
        }),
{
    let mut w = Waker::new();
    let mut polls: u64 = 0;
    while polls < max_polls
        invariant
            op.inv(),
            !op.is_done(),
        decreases max_polls - polls,
    {
        w.clear();
        match op.poll(&mut w) {
            Step::Ready(v) => {
                return Some(v);
            },
            Step::Pending => {
                // The operation requested a re-poll; the next iteration
                // is that re-poll.
                assert(w.woken);
            },
        }
        polls = polls + 1;
    }
    None
}

} // verus!
