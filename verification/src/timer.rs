//! The timer driver: a one-shot countdown-and-signal operation.
//!
//! The timer controller is modelled as a plain-data port: an
//! auto-reload register and an enable bit the driver writes, an
//! update-event flag the hardware raises when the countdown elapses,
//! and a log of every operation performed, in order. One delay loads
//! the reload register with the tick count, enables the counter in
//! one-shot mode, waits for the update event, and clears the flag.
//! A periodic delay source repeats this operation indefinitely with a
//! fixed tick count.

use crate::adapter::BoolFuture;
use crate::task::{Step, Waker};
use vstd::prelude::*;

verus! {

/// One operation on the timer controller, as observed at its register
/// interface.
#[derive(Clone, Copy, PartialEq, Eq, Structural, Debug)]
pub enum TimerOp {
    /// A write of the countdown tick count into the reload register.
    WriteReload { ticks: u16 },
    /// Setting the counter-enable bit.
    Enable,
    /// A poll of the update-event flag.
    PollUpdate,
    /// Clearing the update-event flag.
    ClearUpdate,
}

/// The timer controller's register interface, as plain data. The
/// driver owns the reload register and the enable bit; the update flag
/// is raised by the hardware (in tests, by a scripted stand-in) when
/// the countdown elapses.
pub struct TimerPort {
    /// Auto-reload register: the countdown tick count.
    pub arr: u16,
    /// Counter-enable bit.
    pub cen: bool,
    /// Update-event flag.
    pub uif: bool,
    /// Every operation performed on this port, in order.
    pub log: Vec<TimerOp>,
}

impl TimerPort {
    /// A quiet port: counter disabled, no event pending, empty log.
    pub fn new() -> (p: TimerPort)
        ensures
            p.arr == 0,
            !p.cen,
            !p.uif,
            p.log@ == Seq::<TimerOp>::empty(),
    {
        TimerPort { arr: 0, cen: false, uif: false, log: Vec::new() }
    }

    /// Loads the countdown tick count into the reload register.
    pub fn write_reload(&mut self, ticks: u16)
        ensures
            final(self).arr == ticks,
            final(self).cen == old(self).cen,
            final(self).uif == old(self).uif,
            final(self).log@ == old(self).log@.push(TimerOp::WriteReload { ticks }),
    {
        self.arr = ticks;
        self.log.push(TimerOp::WriteReload { ticks });
    }

    /// Sets the counter-enable bit, starting the one-shot countdown.
    pub fn enable(&mut self)
        ensures
            final(self).arr == old(self).arr,
            final(self).cen,
            final(self).uif == old(self).uif,
            final(self).log@ == old(self).log@.push(TimerOp::Enable),
    {
        self.cen = true;
        self.log.push(TimerOp::Enable);
    }

    /// Reads the update-event flag.
    pub fn poll_update(&mut self) -> (r: bool)
        ensures
            r == old(self).uif,
            final(self).arr == old(self).arr,
            final(self).cen == old(self).cen,
            final(self).uif == old(self).uif,
            final(self).log@ == old(self).log@.push(TimerOp::PollUpdate),
    {
        self.log.push(TimerOp::PollUpdate);
        self.uif
    }

    /// Clears the update-event flag.
    pub fn clear_update(&mut self)
        ensures
            final(self).arr == old(self).arr,
            final(self).cen == old(self).cen,
            !final(self).uif,
            final(self).log@ == old(self).log@.push(TimerOp::ClearUpdate),
    {
        self.uif = false;
        self.log.push(TimerOp::ClearUpdate);
    }
}

/// The fixed operation order of one delay with the given tick count.
pub open spec fn delay_ops(ticks: u16) -> Seq<TimerOp> {
    seq![
        TimerOp::WriteReload { ticks },
        TimerOp::Enable,
        TimerOp::PollUpdate,
        TimerOp::ClearUpdate,
    ]
}

/// The phase of the in-flight delay operation.
#[derive(Clone, Copy, PartialEq, Eq, Structural, Debug)]
pub enum DelayPhase {
    /// Load the countdown tick count into the reload register.
    LoadReload,
    /// Enable the counter.
    Enable,
    /// Await the update event.
    AwaitUpdate,
    /// Clear the update-event flag; the delay is over.
    ClearFlag,
    /// The delay has completed.
    Done,
}

/// One countdown delay as a suspendable operation. Each poll performs
/// exactly one operation on the port; completion carries no payload.
pub struct Delay {
    /// The current phase.
    pub phase: DelayPhase,
    /// The duration, in timer ticks.
    pub ticks: u16,
    /// The adapter wrapping the update-event condition.
    pub waiter: BoolFuture,
}

impl Delay {
    /// Well-formedness: the current wait (if any) has not completed.
    pub open spec fn inv(self) -> bool {
        !self.waiter.done
    }

    /// Whether the delay has reported completion. A completed delay
    /// must not be polled again.
    pub open spec fn is_done(self) -> bool {
        self.phase is Done
    }

    /// A delay that has not issued anything yet.
    pub open spec fn is_fresh(self) -> bool {
        self.phase is LoadReload
    }

    /// The index of the next operation this delay will perform.
    pub open spec fn step_index(self) -> int {
        match self.phase {
            DelayPhase::LoadReload => 0,
            DelayPhase::Enable => 1,
            DelayPhase::AwaitUpdate => 2,
            DelayPhase::ClearFlag => 3,
            DelayPhase::Done => 4,
        }
    }

    /// Whether a poll that sees port state `p` makes progress.
    pub open spec fn advances(self, p: TimerPort) -> bool {
        match self.phase {
            DelayPhase::AwaitUpdate => p.uif,
            _ => true,
        }
    }

    /// Whether a poll completes the delay: the flag is about to be
    /// cleared.
    pub open spec fn completes(self, p: TimerPort) -> bool {
        self.phase is ClearFlag
    }

    /// How one poll that saw delay state `pre` and port state `p`
    /// leaves the delay: the step index moves forward exactly when
    /// the poll advances, and the tick count never changes.
    pub open spec fn stepped_from(self, pre: Delay, p: TimerPort) -> bool {
        &&& self.step_index() == pre.step_index() + (if pre.advances(p) {
            1int
        } else {
            0int
        })
        &&& self.ticks == pre.ticks
    }

    /// A fresh delay of `ticks` timer ticks.
    pub fn new(ticks: u16) -> (d: Delay)
        ensures
            d.inv(),
            d.is_fresh(),
            !d.is_done(),
            d.ticks == ticks,
    {
        Delay { phase: DelayPhase::LoadReload, ticks, waiter: BoolFuture::new() }
    }

    /// One poll step of the delay.
    ///
    /// Exactly one port operation is performed, and it is the next one
    /// of the fixed order for this tick count; a pending wait repeats
    /// at the same position. Every pending poll raises the re-poll
    /// signal; the completing poll clears the update flag and leaves
    /// the signal alone.
    pub fn poll(&mut self, port: &mut TimerPort, w: &mut Waker) -> (r: Step<()>)
        requires
            old(self).inv(),
            !old(self).is_done(),
        ensures
            final(self).inv(),
            final(port).log@ == old(port).log@.push(
                delay_ops(old(self).ticks)[old(self).step_index()],
            ),
            final(self).stepped_from(*old(self), *old(port)),
            old(self).completes(*old(port)) ==> r == Step::<()>::Ready(())
                && final(self).is_done() && final(w).woken == old(w).woken,
            !old(self).completes(*old(port)) ==> r == Step::<()>::Pending
                && !final(self).is_done() && final(w).woken,
            final(port).arr == (if old(self).phase is LoadReload {
                old(self).ticks
            } else {
                old(port).arr
            }),
            final(port).cen == (old(port).cen || old(self).phase is Enable),
            final(port).uif == (old(port).uif && !(old(self).phase is ClearFlag)),
    {
        match self.phase {
            DelayPhase::LoadReload => {
                port.write_reload(self.ticks);
                self.phase = DelayPhase::Enable;
                w.wake();
                Step::Pending
            },
            DelayPhase::Enable => {
                port.enable();
                self.phase = DelayPhase::AwaitUpdate;
                w.wake();
                Step::Pending
            },
            DelayPhase::AwaitUpdate => {
                let ready = port.poll_update();
                match self.waiter.poll(ready, w) {
                    Step::Ready(_) => {
                        self.waiter = BoolFuture::new();
                        self.phase = DelayPhase::ClearFlag;
                        w.wake();
                    },
                    Step::Pending => {},
                }
                Step::Pending
            },
            DelayPhase::ClearFlag => {
                port.clear_update();
                self.phase = DelayPhase::Done;
                Step::Ready(())
            },
            DelayPhase::Done => {
                assert(false);
                Step::Pending
            },
        }
    }
}

} // verus!
