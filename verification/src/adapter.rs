//! The condition-to-suspendable adapter.
//!
//! Wraps a hardware-readiness condition as a suspendable operation that
//! completes exactly when the condition becomes true. The condition's
//! current truth value is read from the live peripheral by the caller
//! and handed to each poll; the adapter holds no hardware state of its
//! own. Because nothing in this system ever wakes a task from the
//! outside, the adapter raises the re-poll signal on every poll that
//! reports `Pending` — dropping even one such request would stop the
//! executor from revisiting the operation and deadlock the whole
//! control loop.

use crate::task::{Step, Waker};
use vstd::prelude::*;

verus! {

/// A suspendable operation built from a boolean readiness condition.
/// It reports `Ready` if and only if the condition read for this poll
/// is true.
pub struct BoolFuture {
    /// Whether the adapter has already reported completion. A completed
    /// adapter must not be polled again.
    pub done: bool,
}

impl BoolFuture {
    /// A fresh adapter that has not completed yet.
    pub fn new() -> (f: BoolFuture)
        ensures
            !f.done,
    {
        BoolFuture { done: false }
    }

    /// One poll step. `ready` is the value of the readiness condition,
    /// read from the hardware for this poll.
    ///
    /// Completes exactly when `ready` is true; on every "not yet" it
    /// raises the re-poll signal first, and on completion it leaves the
    /// signal untouched.
    pub fn poll(&mut self, ready: bool, w: &mut Waker) -> (r: Step<()>)
        requires
            !old(self).done,
        ensures
            final(self).done == ready,
            ready ==> r == Step::<()>::Ready(()),
            !ready ==> r == Step::<()>::Pending,
            ready ==> final(w).woken == old(w).woken,
            !ready ==> final(w).woken,
    {
        if ready {
            self.done = true;
            Step::Ready(())
        } else {
            w.wake();
            Step::Pending
        }
    }
}

} // verus!
