use compass::bus::{BusOp, BusPhase, BusPort, BusRead, MAGNETOMETER_ADDR, OUT_X_HIGH};
use compass::stub::{StubbedDelay, StubbedRead};
use compass::task::{block_on, Step, Waker};
use compass::timer::TimerOp;

fn full_protocol() -> Vec<BusOp> {
    let mut ops = vec![
        BusOp::Start { addr: MAGNETOMETER_ADDR, read: false, nbytes: 1, autoend: false },
        BusOp::PollTxis,
        BusOp::WriteTx { data: OUT_X_HIGH },
        BusOp::PollTc,
        BusOp::Start { addr: MAGNETOMETER_ADDR, read: true, nbytes: 6, autoend: true },
    ];
    for _ in 0..6 {
        ops.push(BusOp::PollRxne);
        ops.push(BusOp::ReadRx);
    }
    ops
}

#[test]
fn bus_transaction_step_order() {
    // Against a stub that is always ready, the full transaction
    // performs exactly the documented operation sequence, in order.
    let mut op = StubbedRead::new(vec![1, 2, 3, 4, 5, 6]);
    let s = block_on(&mut op, 100).expect("the scripted read must complete");
    assert_eq!(op.port.log, full_protocol());
    assert_eq!(s.x, 0x0102);
    assert_eq!(s.z, 0x0304);
    assert_eq!(s.y, 0x0506);
}

#[test]
fn bus_wait_repeats_until_condition() {
    // A wait whose condition stays false repeats its status poll at
    // the same protocol position and never reorders anything.
    let mut t = BusRead::new();
    let mut port = BusPort::new();
    let mut w = Waker::new();

    assert_eq!(t.poll(&mut port, &mut w), Step::Pending);
    assert_eq!(t.phase, BusPhase::AwaitTxis);
    assert!(port.start && !port.read_dir && port.nbytes == 1 && !port.autoend);
    assert_eq!(port.addr, MAGNETOMETER_ADDR);

    // Transmit register still busy: three polls, three identical log
    // entries, no progress.
    for _ in 0..3 {
        w.clear();
        assert_eq!(t.poll(&mut port, &mut w), Step::Pending);
        assert!(w.woken);
        assert_eq!(t.phase, BusPhase::AwaitTxis);
    }
    assert_eq!(
        port.log,
        vec![
            BusOp::Start { addr: MAGNETOMETER_ADDR, read: false, nbytes: 1, autoend: false },
            BusOp::PollTxis,
            BusOp::PollTxis,
            BusOp::PollTxis,
        ]
    );

    // The condition comes true: the transaction moves on and writes
    // the output-register address.
    port.txis = true;
    assert_eq!(t.poll(&mut port, &mut w), Step::Pending);
    assert_eq!(t.phase, BusPhase::SendRegister);
    assert_eq!(t.poll(&mut port, &mut w), Step::Pending);
    assert_eq!(port.txdr, OUT_X_HIGH);
    assert_eq!(port.log.last(), Some(&BusOp::WriteTx { data: OUT_X_HIGH }));
}

#[test]
fn delay_step_order() {
    let mut op = StubbedDelay::new(7);
    block_on(&mut op, 100).expect("the scripted delay must complete");
    assert_eq!(
        op.port.log,
        vec![
            TimerOp::WriteReload { ticks: 7 },
            TimerOp::Enable,
            TimerOp::PollUpdate,
            TimerOp::ClearUpdate,
        ]
    );
    assert_eq!(op.port.arr, 7);
    assert!(!op.port.uif);
}

#[test]
fn executor_reports_unfinished_work_and_resumes() {
    // Too small a poll budget: the executor gives up with the
    // operation still pending; a later run drives it to completion.
    let mut op = StubbedRead::new(vec![9, 8, 7, 6, 5, 4]);
    assert!(block_on(&mut op, 3).is_none());
    let s = block_on(&mut op, 100).expect("the resumed read must complete");
    assert_eq!(s.x, 0x0908);
    assert_eq!(s.z, 0x0706);
    assert_eq!(s.y, 0x0504);
    assert_eq!(op.port.log, full_protocol());
}
