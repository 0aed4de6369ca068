use galacritty::notifier::Notifier;

#[test]
fn burst_of_notifies_schedules_once() {
    let mut n = Notifier::new();
    let mut scheduled = 0;
    for _ in 0..100 {
        if n.notify() {
            scheduled += 1;
        }
    }
    assert_eq!(scheduled, 1);
    assert!(n.fire());
    assert!(n.notify());
}

#[test]
fn notify_after_teardown_is_a_no_op() {
    let mut n = Notifier::new();
    n.detach();
    assert!(!n.notify());
    assert!(!n.fire());
}

#[test]
fn callback_after_teardown_does_not_redraw() {
    let mut n = Notifier::new();
    assert!(n.notify());
    n.detach();
    assert!(!n.notify());
    assert!(!n.fire());
}
