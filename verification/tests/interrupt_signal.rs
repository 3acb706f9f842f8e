use interruptible::InterruptSignal;

#[test]
fn interrupt_signal_debug() {
    assert_eq!("InterruptSignal", format!("{:?}", InterruptSignal))
}

#[test]
fn interrupt_signal_clone() {
    assert_eq!(InterruptSignal, Clone::clone(&InterruptSignal))
}

#[test]
fn interrupt_signal_from_unit_and_signal() {
    assert_eq!(InterruptSignal, InterruptSignal::from(((), InterruptSignal)));
}
