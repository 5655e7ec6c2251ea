//! The bus transaction driver: the magnetometer register-read protocol.
//!
//! The bus controller is modelled as a plain-data port: control fields
//! the driver writes, status bits and a receive register the hardware
//! sets, and a log of every operation the driver performs, in order.
//! One full transaction reads the six output registers of the sensor:
//! a start condition in write direction announcing one byte with no
//! auto-stop, a wait for transmit-empty, the output-register address,
//! a wait for transfer-complete, a repeated start in read direction
//! announcing six bytes with auto-stop, and six rounds of waiting for
//! receive-not-empty and reading one byte. The stop condition is
//! implicit in auto-stop. The order of these operations is fixed by
//! contract: every poll appends exactly the next protocol operation to
//! the port's log.
//!
//! A transaction must run to completion once started and at most one
//! may be in flight on the bus; both are caller obligations, carried
//! here by the single-shot `requires` and by the exclusive `&mut`
//! borrow of the port.

use crate::adapter::BoolFuture;
use crate::sample::{decode_sample, sample_of, Sample};
use crate::task::{Step, Waker};
use vstd::prelude::*;

verus! {

/// The magnetometer's fixed 7-bit bus address.
pub const MAGNETOMETER_ADDR: u8 = 0b001_1110;

/// The first of the sensor's six consecutive output registers.
pub const OUT_X_HIGH: u8 = 0x03;

/// One operation on the bus controller, as observed at its register
/// interface.
#[derive(Clone, Copy, PartialEq, Eq, Structural, Debug)]
pub enum BusOp {
    /// A start condition: target address, direction, announced byte
    /// count, and whether the hardware stops by itself afterwards.
    Start { addr: u8, read: bool, nbytes: u8, autoend: bool },
    /// A poll of the transmit-data-register-empty status bit.
    PollTxis,
    /// A write of one byte into the transmit data register.
    WriteTx { data: u8 },
    /// A poll of the transfer-complete status bit.
    PollTc,
    /// A poll of the receive-buffer-not-empty status bit.
    PollRxne,
    /// A read of one byte from the receive data register.
    ReadRx,
}

/// The bus controller's register interface, as plain data. The driver
/// owns the control side; the status side is set by the hardware (in
/// tests, by a scripted stand-in) between polls.
pub struct BusPort {
    /// Start-condition request bit.
    pub start: bool,
    /// Target 7-bit address.
    pub addr: u8,
    /// Transfer direction: true for read, false for write.
    pub read_dir: bool,
    /// Announced byte count of the transfer.
    pub nbytes: u8,
    /// Whether the hardware issues the stop condition by itself.
    pub autoend: bool,
    /// Transmit data register.
    pub txdr: u8,
    /// Transmit-data-register-empty status bit.
    pub txis: bool,
    /// Transfer-complete status bit.
    pub tc: bool,
    /// Receive-buffer-not-empty status bit.
    pub rxne: bool,
    /// Receive data register.
    pub rxdr: u8,
    /// Every operation performed on this port, in order.
    pub log: Vec<BusOp>,
}

impl BusPort {
    /// The control side of the port: everything the driver writes.
    pub open spec fn control(self) -> (bool, u8, bool, u8, bool, u8) {
        (self.start, self.addr, self.read_dir, self.nbytes, self.autoend, self.txdr)
    }

    /// The status side of the port: everything only the hardware sets.
    pub open spec fn status(self) -> (bool, bool, bool, u8) {
        (self.txis, self.tc, self.rxne, self.rxdr)
    }

    /// A quiet port: nothing requested, nothing pending, empty log.
    pub fn new() -> (p: BusPort)
        ensures
            p.control() == (false, 0u8, false, 0u8, false, 0u8),
            p.status() == (false, false, false, 0u8),
            p.log@ == Seq::<BusOp>::empty(),
    {
        BusPort {
            start: false,
            addr: 0,
            read_dir: false,
            nbytes: 0,
            autoend: false,
            txdr: 0,
            txis: false,
            tc: false,
            rxne: false,
            rxdr: 0,
            log: Vec::new(),
        }
    }

    /// Requests a start condition with the given address, direction,
    /// byte count and auto-stop setting.
    pub fn issue_start(&mut self, addr: u8, read: bool, nbytes: u8, autoend: bool)
        ensures
            final(self).control() == (true, addr, read, nbytes, autoend, old(self).txdr),
            final(self).status() == old(self).status(),
            final(self).log@ == old(self).log@.push(
                BusOp::Start { addr, read, nbytes, autoend },
            ),
    {
        self.start = true;
        self.addr = addr;
        self.read_dir = read;
        self.nbytes = nbytes;
        self.autoend = autoend;
        self.log.push(BusOp::Start { addr, read, nbytes, autoend });
    }

    /// Reads the transmit-data-register-empty status bit.
    pub fn poll_txis(&mut self) -> (r: bool)
        ensures
            r == old(self).txis,
            final(self).control() == old(self).control(),
            final(self).status() == old(self).status(),
            final(self).log@ == old(self).log@.push(BusOp::PollTxis),
    {
        self.log.push(BusOp::PollTxis);
        self.txis
    }

    /// Reads the transfer-complete status bit.
    pub fn poll_tc(&mut self) -> (r: bool)
        ensures
            r == old(self).tc,
            final(self).control() == old(self).control(),
            final(self).status() == old(self).status(),
            final(self).log@ == old(self).log@.push(BusOp::PollTc),
    {
        self.log.push(BusOp::PollTc);
        self.tc
    }

    /// Reads the receive-buffer-not-empty status bit.
    pub fn poll_rxne(&mut self) -> (r: bool)
        ensures
            r == old(self).rxne,
            final(self).control() == old(self).control(),
            final(self).status() == old(self).status(),
            final(self).log@ == old(self).log@.push(BusOp::PollRxne),
    {
        self.log.push(BusOp::PollRxne);
        self.rxne
    }

    /// Writes one byte into the transmit data register.
    pub fn write_tx(&mut self, data: u8)
        ensures
            final(self).control() == (
                old(self).start,
                old(self).addr,
                old(self).read_dir,
                old(self).nbytes,
                old(self).autoend,
                data,
            ),
            final(self).status() == old(self).status(),
            final(self).log@ == old(self).log@.push(BusOp::WriteTx { data }),
    {
        self.txdr = data;
        self.log.push(BusOp::WriteTx { data });
    }

    /// Reads one byte from the receive data register; the read consumes
    /// the byte, clearing the receive-buffer-not-empty bit.
    pub fn read_rx(&mut self) -> (b: u8)
        ensures
            b == old(self).rxdr,
            final(self).control() == old(self).control(),
            final(self).status() == (old(self).txis, old(self).tc, false, old(self).rxdr),
            final(self).log@ == old(self).log@.push(BusOp::ReadRx),
    {
        self.log.push(BusOp::ReadRx);
        self.rxne = false;
        self.rxdr
    }
}

/// The fixed operation order of one full register-read transaction.
pub open spec fn protocol_ops() -> Seq<BusOp> {
    seq![
        BusOp::Start { addr: MAGNETOMETER_ADDR, read: false, nbytes: 1, autoend: false },
        BusOp::PollTxis,
        BusOp::WriteTx { data: OUT_X_HIGH },
        BusOp::PollTc,
        BusOp::Start { addr: MAGNETOMETER_ADDR, read: true, nbytes: 6, autoend: true },
        BusOp::PollRxne,
        BusOp::ReadRx,
        BusOp::PollRxne,
        BusOp::ReadRx,
        BusOp::PollRxne,
        BusOp::ReadRx,
        BusOp::PollRxne,
        BusOp::ReadRx,
        BusOp::PollRxne,
        BusOp::ReadRx,
        BusOp::PollRxne,
        BusOp::ReadRx,
    ]
}

/// The phase of the in-flight register-read transaction.
#[derive(Clone, Copy, PartialEq, Eq, Structural, Debug)]
pub enum BusPhase {
    /// Issue the start condition: write direction, one byte, no
    /// auto-stop.
    Start,
    /// Await the transmit-data-register-empty condition.
    AwaitTxis,
    /// Write the target register address into the transmit register.
    SendRegister,
    /// Await the transfer-complete condition.
    AwaitTc,
    /// Re-issue the start condition: read direction, six bytes,
    /// auto-stop.
    Restart,
    /// Await the receive-buffer-not-empty condition for the next byte.
    AwaitRxne,
    /// Read one byte out of the receive data register.
    ReadByte,
    /// The transaction has completed.
    Done,
}

/// The sensor register-read transaction as a suspendable operation.
/// Each poll performs exactly one operation on the port; completion
/// hands back the decoded sample.
pub struct BusRead {
    /// The current protocol phase.
    pub phase: BusPhase,
    /// The bytes collected so far, in arrival order.
    pub buf: Vec<u8>,
    /// The adapter wrapping the condition the current phase waits on.
    pub waiter: BoolFuture,
}

impl BusRead {
    /// Well-formedness: the byte buffer matches the phase, and the
    /// current wait (if any) has not completed.
    pub open spec fn inv(self) -> bool {
        &&& !self.waiter.done
        &&& (match self.phase {
            BusPhase::Start
            | BusPhase::AwaitTxis
            | BusPhase::SendRegister
            | BusPhase::AwaitTc
            | BusPhase::Restart => self.buf@.len() == 0,
            BusPhase::AwaitRxne | BusPhase::ReadByte => self.buf@.len() < 6,
            BusPhase::Done => self.buf@.len() == 6,
        })
    }

    /// Whether the transaction has reported completion. A completed
    /// transaction must not be polled again.
    pub open spec fn is_done(self) -> bool {
        self.phase is Done
    }

    /// A transaction that has not issued anything yet.
    pub open spec fn is_fresh(self) -> bool {
        self.phase is Start && self.buf@.len() == 0
    }

    /// The index of the next protocol operation this transaction will
    /// perform.
    pub open spec fn step_index(self) -> int {
        match self.phase {
            BusPhase::Start => 0,
            BusPhase::AwaitTxis => 1,
            BusPhase::SendRegister => 2,
            BusPhase::AwaitTc => 3,
            BusPhase::Restart => 4,
            BusPhase::AwaitRxne => 5 + 2 * (self.buf@.len() as int),
            BusPhase::ReadByte => 6 + 2 * (self.buf@.len() as int),
            BusPhase::Done => 17,
        }
    }

    /// Whether a poll that sees port state `p` makes progress: an
    /// awaited condition that reads false holds the phase where it is.
    pub open spec fn advances(self, p: BusPort) -> bool {
        match self.phase {
            BusPhase::AwaitTxis => p.txis,
            BusPhase::AwaitTc => p.tc,
            BusPhase::AwaitRxne => p.rxne,
            _ => true,
        }
    }

    /// Whether a poll that sees port state `p` completes the
    /// transaction: the sixth byte is about to be read.
    pub open spec fn completes(self, p: BusPort) -> bool {
        self.phase is ReadByte && self.buf@.len() == 5
    }

    /// The sample a completing poll hands back: the five collected
    /// bytes plus the one still in the receive register.
    pub open spec fn completion(self, p: BusPort) -> Sample {
        sample_of(self.buf@.push(p.rxdr))
    }

    /// How one poll that saw transaction state `pre` and port state
    /// `p` leaves the transaction: the step index moves forward
    /// exactly when the poll advances, and a read appends the byte
    /// that was in the receive register.
    pub open spec fn stepped_from(self, pre: BusRead, p: BusPort) -> bool {
        &&& self.step_index() == pre.step_index() + (if pre.advances(p) {
            1int
        } else {
            0int
        })
        &&& self.buf@ == (if pre.phase is ReadByte {
            pre.buf@.push(p.rxdr)
        } else {
            pre.buf@
        })
    }

    /// A fresh transaction, ready to be polled.
    pub fn new() -> (t: BusRead)
        ensures
            t.inv(),
            t.is_fresh(),
            !t.is_done(),
    {
        BusRead { phase: BusPhase::Start, buf: Vec::new(), waiter: BoolFuture::new() }
    }

    /// One poll step of the transaction.
    ///
    /// Exactly one port operation is performed, and it is the next one
    /// of the fixed protocol order; an awaited condition that reads
    /// false repeats at the same position. Status bits are only read,
    /// never written; reading the receive register consumes the byte.
    /// Every pending poll raises the re-poll signal; the completing
    /// poll leaves the signal alone and hands back the decoded sample.
    pub fn poll(&mut self, port: &mut BusPort, w: &mut Waker) -> (r: Step<Sample>)
        requires
            old(self).inv(),
            !old(self).is_done(),
        ensures
            final(self).inv(),
            final(port).log@ == old(port).log@.push(
                protocol_ops()[old(self).step_index()],
            ),
            final(self).stepped_from(*old(self), *old(port)),
            old(self).completes(*old(port)) ==> r == Step::<Sample>::Ready(
                old(self).completion(*old(port)),
            ) && final(self).is_done() && final(w).woken == old(w).woken,
            !old(self).completes(*old(port)) ==> r == Step::<Sample>::Pending
                && !final(self).is_done() && final(w).woken,
            final(port).txis == old(port).txis,
            final(port).tc == old(port).tc,
            final(port).rxdr == old(port).rxdr,
            final(port).rxne == (if old(self).phase is ReadByte {
                false
            } else {
                old(port).rxne
            }),
            (match old(self).phase {
                BusPhase::Start => final(port).control() == (
                    true,
                    MAGNETOMETER_ADDR,
                    false,
                    1u8,
                    false,
                    old(port).txdr,
                ),
                BusPhase::Restart => final(port).control() == (
                    true,
                    MAGNETOMETER_ADDR,
                    true,
                    6u8,
                    true,
                    old(port).txdr,
                ),
                BusPhase::SendRegister => final(port).control() == (
                    old(port).start,
                    old(port).addr,
                    old(port).read_dir,
                    old(port).nbytes,
                    old(port).autoend,
                    OUT_X_HIGH,
                ),
                _ => final(port).control() == old(port).control(),
            }),
    {
        match self.phase {
            BusPhase::Start => {
                port.issue_start(MAGNETOMETER_ADDR, false, 1, false);
                self.phase = BusPhase::AwaitTxis;
                w.wake();
                Step::Pending
            },
            BusPhase::AwaitTxis => {
                let ready = port.poll_txis();
                match self.waiter.poll(ready, w) {
                    Step::Ready(_) => {
                        self.waiter = BoolFuture::new();
                        self.phase = BusPhase::SendRegister;
                        w.wake();
                    },
                    Step::Pending => {},
                }
                Step::Pending
            },
            BusPhase::SendRegister => {
                port.write_tx(OUT_X_HIGH);
                self.phase = BusPhase::AwaitTc;
                w.wake();
                Step::Pending
            },
            BusPhase::AwaitTc => {
                let ready = port.poll_tc();
                match self.waiter.poll(ready, w) {
                    Step::Ready(_) => {
                        self.waiter = BoolFuture::new();
                        self.phase = BusPhase::Restart;
                        w.wake();
                    },
                    Step::Pending => {},
                }
                Step::Pending
            },
            BusPhase::Restart => {
                port.issue_start(MAGNETOMETER_ADDR, true, 6, true);
                self.phase = BusPhase::AwaitRxne;
                w.wake();
                Step::Pending
            },
            BusPhase::AwaitRxne => {
                let ready = port.poll_rxne();
                match self.waiter.poll(ready, w) {
                    Step::Ready(_) => {
                        self.waiter = BoolFuture::new();
                        self.phase = BusPhase::ReadByte;
                        w.wake();
                    },
                    Step::Pending => {},
                }
                Step::Pending
            },
            BusPhase::ReadByte => {
                let b = port.read_rx();
                self.buf.push(b);
                if self.buf.len() == 6 {
                    self.phase = BusPhase::Done;
                    Step::Ready(decode_sample(&self.buf))
                } else {
                    self.phase = BusPhase::AwaitRxne;
                    w.wake();
                    Step::Pending
                }
            },
            BusPhase::Done => {
                assert(false);
                Step::Pending
            },
        }
    }
}

} // verus!
