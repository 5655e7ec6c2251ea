//! Scripted stand-ins for the peripheral hardware.
//!
//! The drivers only read status bits and data registers; what raises
//! those bits is the peripheral itself. These stand-ins play that
//! role deterministically: between any two polls they perform one
//! hardware step on the port, so that a driver together with its
//! stand-in is a self-contained suspendable operation the executor can
//! drive to completion. They are what the tests run the protocol
//! against, and their contracts make the whole run provable: a full
//! register read against the scripted bus performs exactly the
//! protocol's operation sequence and hands back the sample decoded
//! from the scripted bytes.

use crate::bus::{protocol_ops, BusPort, BusRead};
use crate::sample::{sample_of, Sample};
use crate::task::{Step, Suspendable, Waker};
use crate::timer::{delay_ops, Delay, TimerPort};
use vstd::prelude::*;

verus! {

/// A scripted magnetometer on a scripted bus controller: the transmit
/// conditions are always ready, and the scripted bytes arrive in the
/// receive register one at a time, each as soon as the previous one
/// has been consumed.
pub struct BusStub {
    /// The bytes the sensor hands back, in order.
    pub rx: Vec<u8>,
    /// How many of them have been loaded into the receive register so
    /// far.
    pub fed: usize,
}

impl BusStub {
    /// Well-formedness: no more bytes fed than the script holds.
    pub open spec fn inv(self) -> bool {
        self.fed <= self.rx@.len()
    }

    /// A stand-in that will hand back `rx`, none of it fed yet.
    pub fn new(rx: Vec<u8>) -> (s: BusStub)
        ensures
            s.inv(),
            s.rx@ == rx@,
            s.fed == 0,
    {
        BusStub { rx, fed: 0 }
    }

    /// One hardware step: raise the transmit conditions, and if the
    /// receive register is free and script bytes remain, load the next
    /// byte.
    pub fn step(&mut self, p: &mut BusPort)
        requires
            old(self).inv(),
        ensures
            final(self).inv(),
            final(self).rx@ == old(self).rx@,
            final(p).control() == old(p).control(),
            final(p).log@ == old(p).log@,
            final(p).txis,
            final(p).tc,
            (if !old(p).rxne && old(self).fed < old(self).rx@.len() {
                final(p).rxne && final(p).rxdr == old(self).rx@[old(self).fed as int]
                    && final(self).fed == old(self).fed + 1
            } else {
                final(p).rxne == old(p).rxne && final(p).rxdr == old(p).rxdr
                    && final(self).fed == old(self).fed
            }),
    {
        p.txis = true;
        p.tc = true;
        if !p.rxne && self.fed < self.rx.len() {
            p.rxdr = self.rx[self.fed];
            p.rxne = true;
            self.fed = self.fed + 1;
        }
    }
}

/// A full register-read transaction against the scripted bus, bundled
/// into one suspendable operation: each poll performs one hardware
/// step and then one driver step.
pub struct StubbedRead {
    /// The transaction being driven.
    pub driver: BusRead,
    /// The bus controller's registers.
    pub port: BusPort,
    /// The scripted sensor.
    pub stub: BusStub,
}

impl StubbedRead {
    /// A fresh transaction against a port that has seen nothing yet,
    /// with at least one full sample's worth of scripted bytes.
    pub fn new(rx: Vec<u8>) -> (s: StubbedRead)
        requires
            rx@.len() >= 6,
        ensures
            s.inv(),
            !s.is_done(),
            s.stub.rx@ == rx@,
    {
        let s = StubbedRead { driver: BusRead::new(), port: BusPort::new(), stub: BusStub::new(rx) };
        proof {
            assert(s.port.log@ =~= protocol_ops().take(0));
            assert(s.driver.buf@ =~= s.stub.rx@.take(0));
        }
        s
    }
}

impl Suspendable for StubbedRead {
    type Output = Sample;

    /// The run's whole story: the driver and the script are in step —
    /// every byte fed so far is either already collected or still in
    /// the receive register — and the port's log is exactly the
    /// protocol prefix the transaction has performed.
    open spec fn inv(&self) -> bool {
        &&& self.driver.inv()
        &&& self.stub.inv()
        &&& self.stub.rx@.len() >= 6
        &&& (if self.port.rxne {
            self.stub.fed >= 1 && self.driver.buf@ == self.stub.rx@.take(self.stub.fed as int - 1)
                && self.port.rxdr == self.stub.rx@[self.stub.fed as int - 1]
        } else {
            self.driver.buf@ == self.stub.rx@.take(self.stub.fed as int)
        })
        &&& self.port.log@ == protocol_ops().take(self.driver.step_index())
    }

    open spec fn is_done(&self) -> bool {
        self.driver.is_done()
    }

    /// On completion the sample is the one the script encodes, and the
    /// port has seen exactly the protocol's operation sequence.
    open spec fn post_ok(&self, out: &Sample) -> bool {
        &&& *out == sample_of(self.stub.rx@.take(6))
        &&& self.port.log@ == protocol_ops()
    }

    fn poll(&mut self, w: &mut Waker) -> (r: Step<Sample>) {
        self.stub.step(&mut self.port);
        let ghost pre = *self;
        let r = self.driver.poll(&mut self.port, w);
        proof {
            let idx = pre.driver.step_index();
            assert(protocol_ops().take(idx + 1) =~= protocol_ops().take(idx).push(
                protocol_ops()[idx],
            ));
            assert(protocol_ops().take(17) =~= protocol_ops());
            if pre.driver.phase is ReadByte {
                assert(pre.driver.buf@.push(pre.port.rxdr) =~= pre.stub.rx@.take(
                    pre.stub.fed as int,
                ));
            }
        }
        r
    }
}

/// A scripted timer controller: whenever the counter is enabled, the
/// one-shot countdown elapses within the step — the update flag rises
/// and the counter disables itself.
pub fn timer_elapse(p: &mut TimerPort)
    ensures
        final(p).arr == old(p).arr,
        final(p).log@ == old(p).log@,
        old(p).cen ==> !final(p).cen && final(p).uif,
        !old(p).cen ==> final(p).cen == old(p).cen && final(p).uif == old(p).uif,
{
    if p.cen {
        p.cen = false;
        p.uif = true;
    }
}

/// One countdown delay against the scripted timer, bundled into one
/// suspendable operation: each poll performs one hardware step and
/// then one driver step.
pub struct StubbedDelay {
    /// The delay being driven.
    pub delay: Delay,
    /// The timer controller's registers.
    pub port: TimerPort,
}

impl StubbedDelay {
    /// A fresh delay of `ticks` timer ticks against a port that has
    /// seen nothing yet.
    pub fn new(ticks: u16) -> (s: StubbedDelay)
        ensures
            s.inv(),
            !s.is_done(),
            s.delay.ticks == ticks,
    {
        let s = StubbedDelay { delay: Delay::new(ticks), port: TimerPort::new() };
        proof {
            assert(s.port.log@ =~= delay_ops(ticks).take(0));
        }
        s
    }
}

impl Suspendable for StubbedDelay {
    type Output = ();

    /// The port's log is exactly the prefix of the delay's operation
    /// order performed so far, and a pending wait always has either
    /// the counter running or the update event already raised.
    open spec fn inv(&self) -> bool {
        &&& self.delay.inv()
        &&& self.port.log@ == delay_ops(self.delay.ticks).take(self.delay.step_index())
        &&& (self.delay.phase is AwaitUpdate ==> self.port.cen || self.port.uif)
        &&& (!(self.delay.phase is LoadReload) ==> self.port.arr == self.delay.ticks)
    }

    open spec fn is_done(&self) -> bool {
        self.delay.is_done()
    }

    /// On completion the port has seen exactly the delay's operation
    /// sequence, the reload register holds the tick count, and the
    /// update flag has been cleared again.
    open spec fn post_ok(&self, out: &()) -> bool {
        &&& self.port.log@ == delay_ops(self.delay.ticks)
        &&& self.port.arr == self.delay.ticks
        &&& !self.port.uif
    }

    fn poll(&mut self, w: &mut Waker) -> (r: Step<()>) {
        timer_elapse(&mut self.port);
        let ghost pre = *self;
        let r = self.delay.poll(&mut self.port, w);
        proof {
            assert(delay_ops(pre.delay.ticks).take(pre.delay.step_index() + 1) =~= delay_ops(
                pre.delay.ticks,
            ).take(pre.delay.step_index()).push(
                delay_ops(pre.delay.ticks)[pre.delay.step_index()],
            ));
            assert(delay_ops(pre.delay.ticks).take(4) =~= delay_ops(pre.delay.ticks));
        }
        r
    }
}

} // verus!
