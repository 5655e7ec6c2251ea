use compass::bus::BusPort;
use compass::sample::Sample;
use compass::streams::{Merged, TaggedEvent};
use compass::task::{Step, Waker};
use compass::timer::TimerPort;

struct BusSim {
    bytes: Vec<u8>,
    fed: usize,
}

impl BusSim {
    fn step(&mut self, p: &mut BusPort) {
        p.txis = true;
        p.tc = true;
        if !p.rxne && self.fed < self.bytes.len() {
            p.rxdr = self.bytes[self.fed];
            p.rxne = true;
            self.fed += 1;
        }
    }
}

fn timer_step(p: &mut TimerPort) {
    if p.cen {
        p.cen = false;
        p.uif = true;
    }
}

#[test]
fn merge_keeps_every_event_in_poll_order() {
    // Two full sensor reads interleaved with a free-running timer:
    // every completion of either branch shows up as exactly one tagged
    // event, in the order fixed by the per-cycle poll order.
    let mut sim = BusSim { bytes: (1u8..=12).collect(), fed: 0 };
    let mut bus = BusPort::new();
    let mut tim = TimerPort::new();
    let mut w = Waker::new();
    let mut merged = Merged::new(5);

    let mut events = Vec::new();
    for _ in 0..34 {
        sim.step(&mut bus);
        timer_step(&mut tim);
        w.clear();
        match merged.poll_next(&mut bus, &mut tim, &mut w) {
            Step::Ready(e) => events.push(e),
            Step::Pending => assert!(w.woken),
        }
    }

    let expected = vec![
        TaggedEvent::Tick,
        TaggedEvent::Tick,
        TaggedEvent::Tick,
        TaggedEvent::Tick,
        TaggedEvent::Sample(Sample { x: 0x0102, y: 0x0506, z: 0x0304 }),
        TaggedEvent::Tick,
        TaggedEvent::Tick,
        TaggedEvent::Tick,
        TaggedEvent::Tick,
        TaggedEvent::Sample(Sample { x: 0x0708, y: 0x0B0C, z: 0x090A }),
    ];
    assert_eq!(events, expected);
}

#[test]
fn merge_polls_sensor_branch_before_timer_branch() {
    // Hold the timer's update event back until the very cycle on which
    // the sensor read completes: the sensor event is emitted on that
    // cycle and the timer event only after its own branch is polled
    // again.
    let mut sim = BusSim { bytes: (1u8..=6).collect(), fed: 0 };
    let mut bus = BusPort::new();
    let mut tim = TimerPort::new();
    let mut w = Waker::new();
    let mut merged = Merged::new(5);

    let mut events: Vec<(usize, TaggedEvent)> = Vec::new();
    for cycle in 1..=19 {
        sim.step(&mut bus);
        // The countdown "elapses" just before the sensor finishes.
        if cycle == 17 {
            tim.uif = true;
        }
        w.clear();
        if let Step::Ready(e) = merged.poll_next(&mut bus, &mut tim, &mut w) {
            events.push((cycle, e));
        }
    }

    assert_eq!(events.len(), 2);
    assert_eq!(events[0], (17, TaggedEvent::Sample(Sample { x: 0x0102, y: 0x0506, z: 0x0304 })));
    assert_eq!(events[1], (19, TaggedEvent::Tick));
}

#[test]
fn merge_pending_cycle_requests_repoll() {
    // Nothing ready on either branch: the cycle reports pending and
    // raises the re-poll signal.
    let mut bus = BusPort::new();
    let mut tim = TimerPort::new();
    let mut w = Waker::new();
    let mut merged = Merged::new(5);

    w.clear();
    assert!(matches!(merged.poll_next(&mut bus, &mut tim, &mut w), Step::Pending));
    assert!(w.woken);
}
