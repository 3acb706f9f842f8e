use tokio::sync::mpsc::{self, error::TryRecvError};

use interruptible::interruptibility_state::fn_interrupt_activates;
use interruptible::{
    InterruptSignal, InterruptStrategy, Interruptibility, InterruptibilityState,
};

#[test]
fn interruptibility_state_reborrow() {
    let mut interruptibility_state = InterruptibilityState::new_non_interruptible();
    let mut reborrow_owned = interruptibility_state.reborrow();
    let _reborrow_reborrow = reborrow_owned.reborrow();

    let (_interrupt_tx, interrupt_rx) = mpsc::channel(16);
    let mut interruptibility_state =
        InterruptibilityState::new_ignore_interruptions(interrupt_rx.into());
    let mut reborrow_owned = interruptibility_state.reborrow();
    let _reborrow_reborrow = reborrow_owned.reborrow();

    let (_interrupt_tx, interrupt_rx) = mpsc::channel(16);
    let mut interruptibility_state =
        InterruptibilityState::new_finish_current(interrupt_rx.into());
    let mut reborrow_owned = interruptibility_state.reborrow();
    let _reborrow_reborrow = reborrow_owned.reborrow();

    let (_interrupt_tx, interrupt_rx) = mpsc::channel(16);
    let mut interruptibility_state =
        InterruptibilityState::new_poll_next_n(interrupt_rx.into(), 2);
    let mut reborrow_owned = interruptibility_state.reborrow();
    let _reborrow_reborrow = reborrow_owned.reborrow();
}

#[test]
fn is_interrupted_returns_false_when_not_interrupted() {
    let interruptibility_state = InterruptibilityState::new_non_interruptible();
    assert!(!interruptibility_state.is_interrupted());

    let (_interrupt_tx, mut interrupt_rx) = mpsc::channel::<InterruptSignal>(16);
    let interrupt_rx = &mut interrupt_rx;

    let interruptibility_state =
        InterruptibilityState::new_ignore_interruptions(interrupt_rx.into());
    assert!(!interruptibility_state.is_interrupted());

    let interruptibility_state =
        InterruptibilityState::new_ignore_interruptions(interrupt_rx.into());
    assert!(!interruptibility_state.is_interrupted());

    let interruptibility_state = InterruptibilityState::new_finish_current(interrupt_rx.into());
    assert!(!interruptibility_state.is_interrupted());

    let interruptibility_state = InterruptibilityState::new_poll_next_n(interrupt_rx.into(), 2);
    assert!(!interruptibility_state.is_interrupted());
}

#[test]
fn is_interrupted_returns_true_when_interrupt_activated() {
    let (interrupt_tx, mut interrupt_rx) = mpsc::channel::<InterruptSignal>(16);
    let interrupt_rx = &mut interrupt_rx;

    let mut interruptibility_state =
        InterruptibilityState::new_ignore_interruptions(interrupt_rx.into());
    interrupt_tx.try_send(InterruptSignal).expect("Expected to send.");
    interruptibility_state.item_interrupt_poll(true);
    assert!(!interruptibility_state.is_interrupted());

    let mut interruptibility_state =
        InterruptibilityState::new_ignore_interruptions(interrupt_rx.into());
    interrupt_tx.try_send(InterruptSignal).expect("Expected to send.");
    interruptibility_state.item_interrupt_poll(true);
    assert!(!interruptibility_state.is_interrupted());

    let mut interruptibility_state =
        InterruptibilityState::new_finish_current(interrupt_rx.into());
    interrupt_tx.try_send(InterruptSignal).expect("Expected to send.");
    interruptibility_state.item_interrupt_poll(true);
    assert!(interruptibility_state.is_interrupted());

    let mut interruptibility_state =
        InterruptibilityState::new_poll_next_n(interrupt_rx.into(), 2);
    interrupt_tx.try_send(InterruptSignal).expect("Expected to send.");
    interruptibility_state.item_interrupt_poll(true);
    assert!(!interruptibility_state.is_interrupted());
    interruptibility_state.item_interrupt_poll(true);
    assert!(interruptibility_state.is_interrupted());

    let mut interruptibility_state =
        InterruptibilityState::new_poll_next_n(interrupt_rx.into(), 2);
    interrupt_tx.try_send(InterruptSignal).expect("Expected to send.");
    interruptibility_state.item_interrupt_poll(true);
    assert!(!interruptibility_state.is_interrupted());
    interruptibility_state.item_interrupt_poll(false);
    assert!(!interruptibility_state.is_interrupted());
    interruptibility_state.item_interrupt_poll(true);
    assert!(interruptibility_state.is_interrupted());
}

#[test]
fn with_fn_interrupt_activate_runs_when_interrupt_activated() {
    let (interrupt_tx, mut interrupt_rx) = mpsc::channel::<InterruptSignal>(16);
    let interrupt_rx = &mut interrupt_rx;

    let (interrupt_activate_tx, mut interrupt_activate_rx) = mpsc::channel::<u16>(16);
    let mut interruptibility_state =
        InterruptibilityState::new_ignore_interruptions(interrupt_rx.into());
    interruptibility_state.set_fn_interrupt_activate(Some(|| {
        interrupt_activate_tx
            .try_send(100)
            .expect("Expected to send value.");
    }));
    interrupt_tx.try_send(InterruptSignal).expect("Expected to send.");
    interruptibility_state.item_interrupt_poll(true);
    assert!(!interruptibility_state.is_interrupted());
    assert_eq!(Err(TryRecvError::Empty), interrupt_activate_rx.try_recv());

    let (interrupt_activate_tx, mut interrupt_activate_rx) = mpsc::channel::<u16>(16);
    let mut interruptibility_state =
        InterruptibilityState::new_ignore_interruptions(interrupt_rx.into());
    interruptibility_state.set_fn_interrupt_activate(Some(|| {
        interrupt_activate_tx
            .try_send(101)
            .expect("Expected to send value.");
    }));
    interrupt_tx.try_send(InterruptSignal).expect("Expected to send.");
    interruptibility_state.item_interrupt_poll(true);
    assert!(!interruptibility_state.is_interrupted());
    assert_eq!(Err(TryRecvError::Empty), interrupt_activate_rx.try_recv());

    let (interrupt_activate_tx, mut interrupt_activate_rx) = mpsc::channel::<u16>(16);
    let mut interruptibility_state =
        InterruptibilityState::new_finish_current(interrupt_rx.into());
    interruptibility_state.set_fn_interrupt_activate(Some(|| {
        interrupt_activate_tx
            .try_send(102)
            .expect("Expected to send value.");
    }));
    interrupt_tx.try_send(InterruptSignal).expect("Expected to send.");
    interruptibility_state.item_interrupt_poll(true);
    assert!(interruptibility_state.is_interrupted());
    assert_eq!(Ok(102), interrupt_activate_rx.try_recv());

    let (interrupt_activate_tx, mut interrupt_activate_rx) = mpsc::channel::<u16>(16);
    let mut interruptibility_state =
        InterruptibilityState::new_poll_next_n(interrupt_rx.into(), 2);
    interruptibility_state.set_fn_interrupt_activate(Some(|| {
        interrupt_activate_tx
            .try_send(103)
            .expect("Expected to send value.");
    }));
    interrupt_tx.try_send(InterruptSignal).expect("Expected to send.");
    interruptibility_state.item_interrupt_poll(true);
    assert!(!interruptibility_state.is_interrupted());
    assert_eq!(Err(TryRecvError::Empty), interrupt_activate_rx.try_recv());
    interruptibility_state.item_interrupt_poll(true);
    assert!(interruptibility_state.is_interrupted());
    assert_eq!(Ok(103), interrupt_activate_rx.try_recv());

    let (interrupt_activate_tx, mut interrupt_activate_rx) = mpsc::channel::<u16>(16);
    let mut interruptibility_state =
        InterruptibilityState::new_poll_next_n(interrupt_rx.into(), 2);
    interruptibility_state.set_fn_interrupt_activate(Some(|| {
        interrupt_activate_tx
            .try_send(104)
            .expect("Expected to send value.");
    }));
    interrupt_tx.try_send(InterruptSignal).expect("Expected to send.");
    interruptibility_state.item_interrupt_poll(true);
    assert!(!interruptibility_state.is_interrupted());
    assert_eq!(Err(TryRecvError::Empty), interrupt_activate_rx.try_recv());
    interruptibility_state.item_interrupt_poll(false);
    assert!(!interruptibility_state.is_interrupted());
    assert_eq!(Err(TryRecvError::Empty), interrupt_activate_rx.try_recv());
    interruptibility_state.item_interrupt_poll(true);
    assert!(interruptibility_state.is_interrupted());
    assert_eq!(Ok(104), interrupt_activate_rx.try_recv());
}

#[test]
fn set_fn_interrupt_activate_runs_when_interrupt_activated() {
    let (interrupt_tx, mut interrupt_rx) = mpsc::channel::<InterruptSignal>(16);
    let interrupt_rx = &mut interrupt_rx;

    let (interrupt_activate_tx, mut interrupt_activate_rx) = mpsc::channel::<u16>(16);
    let mut interruptibility_state =
        InterruptibilityState::new_ignore_interruptions(interrupt_rx.into());
    interruptibility_state.set_fn_interrupt_activate(Some(|| {
        interrupt_activate_tx
            .try_send(100)
            .expect("Expected to send value.");
    }));
    interrupt_tx.try_send(InterruptSignal).expect("Expected to send.");
    interruptibility_state.item_interrupt_poll(true);
    assert!(!interruptibility_state.is_interrupted());
    assert_eq!(Err(TryRecvError::Empty), interrupt_activate_rx.try_recv());

    let (interrupt_activate_tx, mut interrupt_activate_rx) = mpsc::channel::<u16>(16);
    let mut interruptibility_state =
        InterruptibilityState::new_ignore_interruptions(interrupt_rx.into());
    interruptibility_state.set_fn_interrupt_activate(Some(|| {
        interrupt_activate_tx
            .try_send(101)
            .expect("Expected to send value.");
    }));
    interrupt_tx.try_send(InterruptSignal).expect("Expected to send.");
    interruptibility_state.item_interrupt_poll(true);
    assert!(!interruptibility_state.is_interrupted());
    assert_eq!(Err(TryRecvError::Empty), interrupt_activate_rx.try_recv());

    let (interrupt_activate_tx, mut interrupt_activate_rx) = mpsc::channel::<u16>(16);
    let mut interruptibility_state =
        InterruptibilityState::new_finish_current(interrupt_rx.into());
    interruptibility_state.set_fn_interrupt_activate(Some(|| {
        interrupt_activate_tx
            .try_send(102)
            .expect("Expected to send value.");
    }));
    interrupt_tx.try_send(InterruptSignal).expect("Expected to send.");
    interruptibility_state.item_interrupt_poll(true);
    assert!(interruptibility_state.is_interrupted());
    assert_eq!(Ok(102), interrupt_activate_rx.try_recv());

    let (interrupt_activate_tx, mut interrupt_activate_rx) = mpsc::channel::<u16>(16);
    let mut interruptibility_state =
        InterruptibilityState::new_poll_next_n(interrupt_rx.into(), 2);
    interruptibility_state.set_fn_interrupt_activate(Some(|| {
        interrupt_activate_tx
            .try_send(103)
            .expect("Expected to send value.");
    }));
    interrupt_tx.try_send(InterruptSignal).expect("Expected to send.");
    interruptibility_state.item_interrupt_poll(true);
    assert!(!interruptibility_state.is_interrupted());
    assert_eq!(Err(TryRecvError::Empty), interrupt_activate_rx.try_recv());
    interruptibility_state.item_interrupt_poll(true);
    assert!(interruptibility_state.is_interrupted());
    assert_eq!(Ok(103), interrupt_activate_rx.try_recv());

    let (interrupt_activate_tx, mut interrupt_activate_rx) = mpsc::channel::<u16>(16);
    let mut interruptibility_state =
        InterruptibilityState::new_poll_next_n(interrupt_rx.into(), 2);
    interruptibility_state.set_fn_interrupt_activate(Some(|| {
        interrupt_activate_tx
            .try_send(104)
            .expect("Expected to send value.");
    }));
    interrupt_tx.try_send(InterruptSignal).expect("Expected to send.");
    interruptibility_state.item_interrupt_poll(true);
    assert!(!interruptibility_state.is_interrupted());
    assert_eq!(Err(TryRecvError::Empty), interrupt_activate_rx.try_recv());
    interruptibility_state.item_interrupt_poll(false);
    assert!(!interruptibility_state.is_interrupted());
    assert_eq!(Err(TryRecvError::Empty), interrupt_activate_rx.try_recv());
    interruptibility_state.item_interrupt_poll(true);
    assert!(interruptibility_state.is_interrupted());
    assert_eq!(Ok(104), interrupt_activate_rx.try_recv());
}

#[test]
fn from_interruptibility_starts_uninterrupted() {
    let interruptibility_state = InterruptibilityState::from(Interruptibility::NonInterruptible);
    assert_eq!(None, interruptibility_state.interruptibility().interrupt_strategy());
    assert_eq!(0, interruptibility_state.poll_since_interrupt_count());
    assert!(!interruptibility_state.is_interrupted());
}

#[test]
fn poll_count_is_zero_until_signal_received() {
    let (interrupt_tx, interrupt_rx) = mpsc::channel::<InterruptSignal>(16);
    let mut interruptibility_state = InterruptibilityState::new_poll_next_n(interrupt_rx.into(), 3);

    assert_eq!(None, interruptibility_state.item_interrupt_poll(true));
    assert_eq!(None, interruptibility_state.item_interrupt_poll(true));
    assert_eq!(0, interruptibility_state.poll_since_interrupt_count());

    interrupt_tx.try_send(InterruptSignal).expect("Expected to send.");
    assert_eq!(None, interruptibility_state.item_interrupt_poll(true));
    assert_eq!(1, interruptibility_state.poll_since_interrupt_count());
    assert_eq!(None, interruptibility_state.item_interrupt_poll(false));
    assert_eq!(1, interruptibility_state.poll_since_interrupt_count());
    assert_eq!(None, interruptibility_state.item_interrupt_poll(true));
    assert_eq!(
        Some(InterruptSignal),
        interruptibility_state.item_interrupt_poll(true)
    );
    assert_eq!(3, interruptibility_state.poll_since_interrupt_count());
    // Once interrupted, it stays interrupted.
    assert_eq!(
        Some(InterruptSignal),
        interruptibility_state.item_interrupt_poll(false)
    );
    assert!(interruptibility_state.is_interrupted());
}

#[test]
fn non_interruptible_never_receives() {
    let mut interruptibility_state = InterruptibilityState::new_non_interruptible();
    for _ in 0..5 {
        assert_eq!(None, interruptibility_state.item_interrupt_poll(true));
    }
    assert_eq!(0, interruptibility_state.poll_since_interrupt_count());
    assert!(!interruptibility_state.is_interrupted());
}

#[test]
fn item_interrupt_apply_uses_given_signal() {
    let (_interrupt_tx, interrupt_rx) = mpsc::channel::<InterruptSignal>(16);
    let mut interruptibility_state = InterruptibilityState::new_finish_current(interrupt_rx.into());

    assert_eq!(None, interruptibility_state.item_interrupt_apply(true, None));
    assert!(!interruptibility_state.is_interrupted());
    assert_eq!(
        Some(InterruptSignal),
        interruptibility_state.item_interrupt_apply(true, Some(InterruptSignal))
    );
    assert_eq!(1, interruptibility_state.poll_since_interrupt_count());
    assert!(interruptibility_state.is_interrupted());
}

#[test]
fn reborrowed_state_records_into_parent() {
    let (interrupt_tx, interrupt_rx) = mpsc::channel::<InterruptSignal>(16);
    let mut interruptibility_state = InterruptibilityState::new_poll_next_n(interrupt_rx.into(), 2);

    interrupt_tx.try_send(InterruptSignal).expect("Expected to send.");
    {
        let mut reborrowed = interruptibility_state.reborrow();
        assert_eq!(None, reborrowed.item_interrupt_poll(true));
        assert_eq!(1, reborrowed.poll_since_interrupt_count());
    }
    assert_eq!(1, interruptibility_state.poll_since_interrupt_count());
    assert!(!interruptibility_state.is_interrupted());
    {
        let mut reborrowed = interruptibility_state.reborrow();
        let mut reborrowed_again = reborrowed.reborrow();
        assert_eq!(
            Some(InterruptSignal),
            reborrowed_again.item_interrupt_poll(true)
        );
    }
    assert_eq!(2, interruptibility_state.poll_since_interrupt_count());
    assert!(interruptibility_state.is_interrupted());
}

#[test]
fn interrupt_signal_based_on_strategy_thresholds() {
    assert_eq!(
        None,
        InterruptibilityState::interrupt_signal_based_on_strategy(
            &InterruptStrategy::IgnoreInterruptions,
            InterruptSignal,
            10
        )
    );
    assert_eq!(
        Some(InterruptSignal),
        InterruptibilityState::interrupt_signal_based_on_strategy(
            &InterruptStrategy::FinishCurrent,
            InterruptSignal,
            0
        )
    );
    assert_eq!(
        None,
        InterruptibilityState::interrupt_signal_based_on_strategy(
            &InterruptStrategy::PollNextN(3),
            InterruptSignal,
            2
        )
    );
    assert_eq!(
        Some(InterruptSignal),
        InterruptibilityState::interrupt_signal_based_on_strategy(
            &InterruptStrategy::PollNextN(3),
            InterruptSignal,
            3
        )
    );
}

#[test]
fn interruptibility_mut_changes_strategy() {
    let (_interrupt_tx, interrupt_rx) = mpsc::channel::<InterruptSignal>(16);
    let mut interruptibility_state = InterruptibilityState::new_finish_current(interrupt_rx.into());
    *interruptibility_state.interruptibility_mut() = Interruptibility::NonInterruptible;
    assert_eq!(None, interruptibility_state.interruptibility().interrupt_strategy());
}

#[test]
fn fn_interrupt_activate_runs_once() {
    let (interrupt_tx, interrupt_rx) = mpsc::channel::<InterruptSignal>(16);
    let (interrupt_activate_tx, mut interrupt_activate_rx) = mpsc::channel::<u16>(16);
    let mut interruptibility_state = InterruptibilityState::new_poll_next_n(interrupt_rx.into(), 2);
    interruptibility_state.set_fn_interrupt_activate(Some(|| {
        interrupt_activate_tx
            .try_send(7)
            .expect("Expected to send value.");
    }));
    interrupt_tx.try_send(InterruptSignal).expect("Expected to send.");
    interruptibility_state.item_interrupt_poll(true);
    interruptibility_state.item_interrupt_poll(true);
    assert_eq!(Ok(7), interrupt_activate_rx.try_recv());
    interruptibility_state.item_interrupt_poll(false);
    interruptibility_state.item_interrupt_poll(true);
    assert!(interruptibility_state.is_interrupted());
    assert_eq!(Err(TryRecvError::Empty), interrupt_activate_rx.try_recv());
}

#[test]
fn fn_interrupt_activate_runs_on_receipt_for_poll_next_zero() {
    let (interrupt_tx, interrupt_rx) = mpsc::channel::<InterruptSignal>(16);
    let (interrupt_activate_tx, mut interrupt_activate_rx) = mpsc::channel::<u16>(16);
    let mut interruptibility_state = InterruptibilityState::new_poll_next_n(interrupt_rx.into(), 0);
    interruptibility_state.set_fn_interrupt_activate(Some(|| {
        interrupt_activate_tx
            .try_send(8)
            .expect("Expected to send value.");
    }));
    interrupt_tx.try_send(InterruptSignal).expect("Expected to send.");
    assert_eq!(
        Some(InterruptSignal),
        interruptibility_state.item_interrupt_poll(true)
    );
    assert_eq!(Ok(8), interrupt_activate_rx.try_recv());
    interruptibility_state.item_interrupt_poll(true);
    assert_eq!(Err(TryRecvError::Empty), interrupt_activate_rx.try_recv());
}

#[test]
fn fn_interrupt_activates_by_strategy() {
    assert!(!fn_interrupt_activates(&InterruptStrategy::IgnoreInterruptions, 5, true, true));
    assert!(fn_interrupt_activates(&InterruptStrategy::FinishCurrent, 1, true, true));
    assert!(!fn_interrupt_activates(&InterruptStrategy::FinishCurrent, 1, false, true));
    assert!(fn_interrupt_activates(&InterruptStrategy::PollNextN(2), 2, false, true));
    assert!(!fn_interrupt_activates(&InterruptStrategy::PollNextN(2), 2, false, false));
    assert!(fn_interrupt_activates(&InterruptStrategy::PollNextN(0), 1, true, true));
    assert!(!fn_interrupt_activates(&InterruptStrategy::PollNextN(2), 1, true, true));
}

#[test]
fn set_fn_interrupt_activate_replaces_the_function_set_before() {
    let (interrupt_tx, interrupt_rx) = mpsc::channel::<InterruptSignal>(16);
    let (interrupt_activate_tx, mut interrupt_activate_rx) = mpsc::channel::<u16>(16);
    let mut interruptibility_state = InterruptibilityState::new_finish_current(interrupt_rx.into());
    interruptibility_state.set_fn_interrupt_activate(Some(|| {
        interrupt_activate_tx
            .try_send(1)
            .expect("Expected to send value.");
    }));
    interruptibility_state.set_fn_interrupt_activate(Some(|| {
        interrupt_activate_tx
            .try_send(2)
            .expect("Expected to send value.");
    }));
    interrupt_tx.try_send(InterruptSignal).expect("Expected to send.");
    interruptibility_state.item_interrupt_poll(true);
    assert_eq!(Ok(2), interrupt_activate_rx.try_recv());
    assert_eq!(Err(TryRecvError::Empty), interrupt_activate_rx.try_recv());
}

#[test]
fn fn_interrupt_activate_never_runs_when_non_interruptible() {
    let (interrupt_activate_tx, mut interrupt_activate_rx) = mpsc::channel::<u16>(16);
    let mut interruptibility_state = InterruptibilityState::new_non_interruptible();
    interruptibility_state.set_fn_interrupt_activate(Some(|| {
        interrupt_activate_tx
            .try_send(3)
            .expect("Expected to send value.");
    }));
    assert_eq!(None, interruptibility_state.item_interrupt_poll(true));
    assert_eq!(None, interruptibility_state.item_interrupt_poll(false));
    assert_eq!(0, interruptibility_state.poll_since_interrupt_count());
    assert!(!interruptibility_state.is_interrupted());
    assert_eq!(Err(TryRecvError::Empty), interrupt_activate_rx.try_recv());
}

#[test]
fn reborrowed_state_records_into_the_state_it_borrows_from() {
    let (interrupt_tx, interrupt_rx) = mpsc::channel::<InterruptSignal>(16);
    let (interrupt_activate_tx, mut interrupt_activate_rx) = mpsc::channel::<u16>(16);
    let mut interruptibility_state = InterruptibilityState::new_poll_next_n(interrupt_rx.into(), 2);
    interruptibility_state.set_fn_interrupt_activate(Some(|| {
        interrupt_activate_tx
            .try_send(4)
            .expect("Expected to send value.");
    }));
    interrupt_tx.try_send(InterruptSignal).expect("Expected to send.");
    {
        let mut reborrowed = interruptibility_state.reborrow();
        assert_eq!(None, reborrowed.item_interrupt_poll(true));
        assert_eq!(Some(InterruptSignal), reborrowed.item_interrupt_poll(true));
    }
    assert_eq!(Ok(4), interrupt_activate_rx.try_recv());
    assert_eq!(2, interruptibility_state.poll_since_interrupt_count());
    assert!(interruptibility_state.is_interrupted());
    interruptibility_state.item_interrupt_poll(true);
    assert_eq!(Err(TryRecvError::Empty), interrupt_activate_rx.try_recv());
}

#[test]
fn interruptibility_state_debug() {
    let interruptibility_state = InterruptibilityState::new(Interruptibility::NonInterruptible);

    assert_eq!(
        "InterruptibilityState { \
            interruptibility: NonInterruptible, \
            poll_since_interrupt_count: Owned(0), \
            interrupt_signal_received: Owned(None), \
            fn_interrupt_activate: None \
        }",
        interruptibility_state.debug_string()
    );

    let mut interruptibility_state = InterruptibilityState::new_non_interruptible();
    interruptibility_state.set_fn_interrupt_activate(Some(|| {}));

    assert_eq!(
        "InterruptibilityState { \
            interruptibility: NonInterruptible, \
            poll_since_interrupt_count: Owned(0), \
            interrupt_signal_received: Owned(None), \
            fn_interrupt_activate: Some(\"Box<dyn Fn() + 'intx>\") \
        }",
        interruptibility_state.debug_string()
    );
}

#[test]
fn from() {
    let interruptibility_state = InterruptibilityState::from(Interruptibility::NonInterruptible);

    assert_eq!(
        "InterruptibilityState { \
            interruptibility: NonInterruptible, \
            poll_since_interrupt_count: Owned(0), \
            interrupt_signal_received: Owned(None), \
            fn_interrupt_activate: None \
        }",
        interruptibility_state.debug_string()
    );
}

#[test]
fn debug_string_with_shows_strategy_count_signal_and_holders() {
    let (interrupt_tx, interrupt_rx) = mpsc::channel::<InterruptSignal>(16);
    let mut interruptibility_state =
        InterruptibilityState::new_poll_next_n(interrupt_rx.into(), 120);
    assert_eq!(
        "InterruptibilityState { \
            interruptibility: Interruptible { interrupt_rx: Owned(rx), interrupt_strategy: PollNextN(120) }, \
            poll_since_interrupt_count: Owned(0), \
            interrupt_signal_received: Owned(None), \
            fn_interrupt_activate: None \
        }",
        interruptibility_state.debug_string_with("rx")
    );

    interrupt_tx.try_send(InterruptSignal).expect("Expected to send.");
    let mut reborrowed = interruptibility_state.reborrow();
    reborrowed.item_interrupt_poll(true);
    for _ in 0..9 {
        reborrowed.item_interrupt_poll(true);
    }
    assert_eq!(
        "InterruptibilityState { \
            interruptibility: Interruptible { interrupt_rx: MutRef(rx), interrupt_strategy: PollNextN(120) }, \
            poll_since_interrupt_count: MutRef(10), \
            interrupt_signal_received: MutRef(Some(InterruptSignal)), \
            fn_interrupt_activate: None \
        }",
        reborrowed.debug_string_with("rx")
    );
}

#[test]
fn debug_string_shows_the_receiver_in_its_place() {
    let (_interrupt_tx, interrupt_rx) = mpsc::channel::<InterruptSignal>(16);
    let interruptibility_state = InterruptibilityState::new_finish_current(interrupt_rx.into());
    let text = interruptibility_state.debug_string();
    assert!(text.starts_with(
        "InterruptibilityState { interruptibility: Interruptible { interrupt_rx: Owned(Receiver { chan: "
    ));
    assert!(text.ends_with(
        "interrupt_strategy: FinishCurrent }, \
            poll_since_interrupt_count: Owned(0), \
            interrupt_signal_received: Owned(None), \
            fn_interrupt_activate: None \
        }"
    ));
}
