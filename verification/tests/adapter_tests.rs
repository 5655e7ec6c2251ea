use compass::adapter::BoolFuture;
use compass::task::{Step, Waker};

#[test]
fn adapter_false_false_true() {
    // Condition sequence [false, false, true]: exactly two "not yet"
    // results, each followed by a re-poll request, then one completion
    // with no re-poll request.
    let mut f = BoolFuture::new();
    let mut w = Waker::new();

    w.clear();
    assert_eq!(f.poll(false, &mut w), Step::Pending);
    assert!(w.woken);

    w.clear();
    assert_eq!(f.poll(false, &mut w), Step::Pending);
    assert!(w.woken);

    w.clear();
    assert_eq!(f.poll(true, &mut w), Step::Ready(()));
    assert!(!w.woken);
    assert!(f.done);
}

#[test]
fn adapter_immediate_ready() {
    let mut f = BoolFuture::new();
    let mut w = Waker::new();
    assert_eq!(f.poll(true, &mut w), Step::Ready(()));
    assert!(!w.woken);
}
