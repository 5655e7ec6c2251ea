//! Periodic event sources and the merge combinator.
//!
//! A periodic source keeps exactly one in-flight suspendable element
//! per branch: when the element completes, its value is emitted and a
//! fresh element is requested at once. The merge combinator interleaves
//! the sensor-sample source and the timer-tick source into one stream
//! of tagged events. Whichever branch completes first determines the
//! next event, and "first" is fixed deterministically by poll order:
//! each cycle polls the sensor branch, and only if that is still
//! pending polls the timer branch. No event is ever dropped or
//! duplicated: the ghost event counters move by exactly one, on the
//! branch that produced the event, for every event emitted.

use crate::bus::{protocol_ops, BusPort, BusRead};
use crate::sample::Sample;
use crate::task::{Step, Waker};
use crate::timer::{delay_ops, Delay, TimerPort};
use vstd::prelude::*;

verus! {

/// The sensor-sample source: one full bus transaction per element,
/// repeated indefinitely.
pub struct CompassStream {
    /// The single in-flight transaction of this branch.
    pub cur: BusRead,
}

impl CompassStream {
    /// Well-formedness: the in-flight transaction is valid and still
    /// willing to be polled.
    pub open spec fn inv(self) -> bool {
        self.cur.inv() && !self.cur.is_done()
    }

    /// A source whose first transaction has not issued anything yet.
    pub fn new() -> (s: CompassStream)
        ensures
            s.inv(),
            s.cur.is_fresh(),
    {
        CompassStream { cur: BusRead::new() }
    }

    /// Polls the in-flight transaction once. On completion the decoded
    /// sample is emitted and a fresh transaction is requested at once;
    /// only that single element is ever in flight.
    pub fn poll_next(&mut self, port: &mut BusPort, w: &mut Waker) -> (r: Step<Sample>)
        requires
            old(self).inv(),
        ensures
            final(self).inv(),
            final(port).log@ == old(port).log@.push(
                protocol_ops()[old(self).cur.step_index()],
            ),
            old(self).cur.completes(*old(port)) ==> r == Step::<Sample>::Ready(
                old(self).cur.completion(*old(port)),
            ) && final(self).cur.is_fresh() && final(w).woken == old(w).woken,
            !old(self).cur.completes(*old(port)) ==> r == Step::<Sample>::Pending
                && final(w).woken && final(self).cur.stepped_from(old(self).cur, *old(port)),
    {
        match self.cur.poll(port, w) {
            Step::Ready(s) => {
                self.cur = BusRead::new();
                Step::Ready(s)
            },
            Step::Pending => Step::Pending,
        }
    }
}

/// The timer-tick source: one countdown delay per element, repeated
/// indefinitely with a fixed tick count.
pub struct DelayStream {
    /// The single in-flight delay of this branch.
    pub cur: Delay,
    /// The tick count every delay of this source is given.
    pub ticks: u16,
}

impl DelayStream {
    /// Well-formedness: the in-flight delay is valid, still willing to
    /// be polled, and carries this source's tick count.
    pub open spec fn inv(self) -> bool {
        self.cur.inv() && !self.cur.is_done() && self.cur.ticks == self.ticks
    }

    /// A source of ticks spaced `ticks` timer ticks apart.
    pub fn new(ticks: u16) -> (s: DelayStream)
        ensures
            s.inv(),
            s.cur.is_fresh(),
            s.ticks == ticks,
    {
        DelayStream { cur: Delay::new(ticks), ticks }
    }

    /// Polls the in-flight delay once. On completion a tick is emitted
    /// and a fresh delay is requested at once.
    pub fn poll_next(&mut self, port: &mut TimerPort, w: &mut Waker) -> (r: Step<()>)
        requires
            old(self).inv(),
        ensures
            final(self).inv(),
            final(self).ticks == old(self).ticks,
            final(port).log@ == old(port).log@.push(
                delay_ops(old(self).ticks)[old(self).cur.step_index()],
            ),
            old(self).cur.completes(*old(port)) ==> r == Step::<()>::Ready(())
                && final(self).cur.is_fresh() && final(w).woken == old(w).woken,
            !old(self).cur.completes(*old(port)) ==> r == Step::<()>::Pending
                && final(w).woken && final(self).cur.stepped_from(old(self).cur, *old(port)),
    {
        match self.cur.poll(port, w) {
            Step::Ready(_) => {
                self.cur = Delay::new(self.ticks);
                Step::Ready(())
            },
            Step::Pending => Step::Pending,
        }
    }
}

/// A discriminated event of the merged stream, tagged with the source
/// that produced it.
#[derive(Clone, Copy, PartialEq, Eq, Structural, Debug)]
pub enum TaggedEvent {
    /// A sensor sample arrived.
    Sample(Sample),
    /// A timer tick arrived.
    Tick,
}

/// The merge combinator: one interleaved stream of tagged events drawn
/// from the sensor-sample source and the timer-tick source.
pub struct Merged {
    /// The sensor branch.
    pub sensor: CompassStream,
    /// The timer branch.
    pub timer: DelayStream,
    /// How many sensor events have been emitted.
    pub sensor_events: Ghost<nat>,
    /// How many timer events have been emitted.
    pub timer_events: Ghost<nat>,
}

impl Merged {
    /// Well-formedness of both branches.
    pub open spec fn inv(self) -> bool {
        self.sensor.inv() && self.timer.inv()
    }

    /// A merged stream over fresh branches, ticks spaced `ticks` timer
    /// ticks apart, with no events emitted yet.
    pub fn new(ticks: u16) -> (m: Merged)
        ensures
            m.inv(),
            m.sensor.cur.is_fresh(),
            m.timer.cur.is_fresh(),
            m.timer.ticks == ticks,
            m.sensor_events@ == 0,
            m.timer_events@ == 0,
    {
        Merged {
            sensor: CompassStream::new(),
            timer: DelayStream::new(ticks),
            sensor_events: Ghost(0),
            timer_events: Ghost(0),
        }
    }

    /// One cycle of the combinator: poll the sensor branch; only if it
    /// is still pending, poll the timer branch; the first branch to
    /// complete yields the event.
    ///
    /// No event is dropped and none is duplicated: each emitted event
    /// advances exactly its own branch's counter by one, a pending
    /// cycle advances neither, and a sensor event leaves the timer
    /// branch entirely untouched — its results queue one at a time in
    /// that branch's own in-flight element.
    pub fn poll_next(&mut self, bus: &mut BusPort, tim: &mut TimerPort, w: &mut Waker) -> (r:
        Step<TaggedEvent>)
        requires
            old(self).inv(),
        ensures
            final(self).inv(),
            final(self).timer.ticks == old(self).timer.ticks,
            final(bus).log@ == old(bus).log@.push(
                protocol_ops()[old(self).sensor.cur.step_index()],
            ),
            old(self).sensor.cur.completes(*old(bus)) ==> r == Step::<TaggedEvent>::Ready(
                TaggedEvent::Sample(old(self).sensor.cur.completion(*old(bus))),
            ) && final(self).sensor.cur.is_fresh()
                && *final(tim) == *old(tim)
                && final(self).timer == old(self).timer
                && final(self).sensor_events@ == old(self).sensor_events@ + 1
                && final(self).timer_events@ == old(self).timer_events@
                && final(w).woken == old(w).woken,
            !old(self).sensor.cur.completes(*old(bus)) ==> final(tim).log@ == old(
                tim,
            ).log@.push(delay_ops(old(self).timer.ticks)[old(self).timer.cur.step_index()]),
            !old(self).sensor.cur.completes(*old(bus)) ==> final(self).sensor.cur.stepped_from(
                old(self).sensor.cur,
                *old(bus),
            ),
            !old(self).sensor.cur.completes(*old(bus)) && old(self).timer.cur.completes(
                *old(tim),
            ) ==> r == Step::<TaggedEvent>::Ready(TaggedEvent::Tick)
                && final(self).timer.cur.is_fresh()
                && final(self).sensor_events@ == old(self).sensor_events@
                && final(self).timer_events@ == old(self).timer_events@ + 1
                && final(w).woken,
            !old(self).sensor.cur.completes(*old(bus)) && !old(self).timer.cur.completes(
                *old(tim),
            ) ==> r == Step::<TaggedEvent>::Pending
                && final(self).timer.cur.stepped_from(old(self).timer.cur, *old(tim))
                && final(self).sensor_events@ == old(self).sensor_events@
                && final(self).timer_events@ == old(self).timer_events@
                && final(w).woken,
    {
        match self.sensor.poll_next(bus, w) {
            Step::Ready(s) => {
                self.sensor_events = Ghost(self.sensor_events@ + 1);
                Step::Ready(TaggedEvent::Sample(s))
            },
            Step::Pending => {
                match self.timer.poll_next(tim, w) {
                    Step::Ready(_) => {
                        self.timer_events = Ghost(self.timer_events@ + 1);
                        Step::Ready(TaggedEvent::Tick)
                    },
                    Step::Pending => Step::Pending,
                }
            },
        }
    }
}

} // verus!
