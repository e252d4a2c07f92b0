use zenbookd::wake::Wake;

#[test]
fn a_notification_keeps_a_loop_from_sleeping_once() {
    let mut wake = Wake::new();
    let mut seen = 0u64;
    assert!(wake.wait_timeout(&mut seen));

    wake.notify();
    assert!(!wake.wait_timeout(&mut seen));
    assert_eq!(seen, 1);
    assert!(wake.wait_timeout(&mut seen));
}

#[test]
fn observing_catches_up_with_the_generation() {
    let mut wake = Wake::new();
    wake.notify();
    wake.notify();
    let mut seen = 0u64;
    wake.observe(&mut seen);
    assert_eq!(seen, 2);
}
