use vstd::prelude::*;

use vstd::string::StringExecFns;

use crate::debug_text::{
    append_count, append_interruptibility, append_signal, spec_decimal_text, spec_holder_text,
    spec_interruptibility_text, spec_signal_text,
};
use crate::fn_interrupt::{FnRecord, RecordedFn};
use crate::{InterruptSignal, InterruptStrategy, Interruptibility, OwnedOrMutRef};

verus! {

/// What an [`InterruptibilityState`] holds, as plain values.
pub struct InterruptibilityStateView {
    /// The strategy, `None` for `Interruptibility::NonInterruptible`.
    pub interruptibility: Option<InterruptStrategy>,
    /// Whether an interrupt signal has been received.
    pub interrupt_signal_received: bool,
    /// Number of counted polls since the interrupt signal was received.
    pub poll_since_interrupt_count: u64,
    /// The id of the function set to run on activation, if any.
    pub fn_interrupt_activate: Option<nat>,
    /// The id of the function set to run when a poll reports the
    /// interruption, if any.
    pub fn_interrupt_poll_item: Option<nat>,
    /// How many functions have been set; the next one set gets this id.
    pub fns_set: nat,
    /// The ids of the functions run, in the order in which they ran.
    pub fn_runs: Seq<nat>,
    /// What each read of the interrupt channel handed over, in order.
    pub channel_reads: Seq<Option<InterruptSignal>>,
}

impl InterruptibilityStateView {
    /// Polls are only counted once the interrupt signal has been received,
    /// and the functions set have ids below `fns_set`, distinct from each
    /// other.
    pub open spec fn wf(self) -> bool {
        &&& !self.interrupt_signal_received ==> self.poll_since_interrupt_count == 0
        &&& self.fn_interrupt_activate matches Some(a) ==> a < self.fns_set
        &&& self.fn_interrupt_poll_item matches Some(p) ==> p < self.fns_set
        &&& self.fn_interrupt_activate is Some && self.fn_interrupt_poll_item is Some
            ==> self.fn_interrupt_activate != self.fn_interrupt_poll_item
    }
}

/// Whether, by the strategy, an interruption is signalled after
/// `poll_since_interrupt_count` counted polls since the signal was received.
///
/// * `IgnoreInterruptions`: never.
/// * `FinishCurrent`: always.
/// * `PollNextN(n)`: once the count reaches `n`.
pub open spec fn spec_threshold_reached(
    interrupt_strategy: InterruptStrategy,
    poll_since_interrupt_count: u64,
) -> bool {
    match interrupt_strategy {
        InterruptStrategy::IgnoreInterruptions => false,
        InterruptStrategy::FinishCurrent => true,
        InterruptStrategy::PollNextN(n) => poll_since_interrupt_count >= n,
    }
}

/// Whether the activation function runs on this poll, where
/// `interrupt_signal_first_received` tells whether this poll received the
/// signal and `item_counted` whether it counted an item.
///
/// * `IgnoreInterruptions`: never.
/// * `FinishCurrent`: on the poll that first receives the signal.
/// * `PollNextN(n)`: on the poll whose count reaches `n`: the receiving poll
///   if its count is already at least `n`, or a later poll that counts the
///   `n`th item.
pub open spec fn spec_activates(
    interrupt_strategy: InterruptStrategy,
    poll_since_interrupt_count: u64,
    interrupt_signal_first_received: bool,
    item_counted: bool,
) -> bool {
    match interrupt_strategy {
        InterruptStrategy::IgnoreInterruptions => false,
        InterruptStrategy::FinishCurrent => interrupt_signal_first_received,
        InterruptStrategy::PollNextN(n) => if interrupt_signal_first_received {
            poll_since_interrupt_count >= n
        } else {
            item_counted && poll_since_interrupt_count == n
        },
    }
}

/// Whether a state is interrupted by its strategy.
pub open spec fn spec_is_interrupted(v: InterruptibilityStateView) -> bool {
    match v.interruptibility {
        None => false,
        Some(strategy) => v.interrupt_signal_received && spec_threshold_reached(
            strategy,
            v.poll_since_interrupt_count,
        ),
    }
}

/// One `item_interrupt_poll` on state `v`, where `received_now` tells whether
/// the channel handed over a signal on this poll: the next state, the
/// returned signal, and whether the activation function runs (its run is
/// recorded in the next state's `fn_runs`).
pub open spec fn spec_item_interrupt_poll(
    v: InterruptibilityStateView,
    increment_item_count: bool,
    received_now: bool,
) -> (InterruptibilityStateView, Option<InterruptSignal>, bool) {
    match v.interruptibility {
        None => (v, None, false),
        Some(strategy) => {
            let first = !v.interrupt_signal_received && received_now;
            let received = v.interrupt_signal_received || received_now;
            if received {
                let count = if increment_item_count {
                    (v.poll_since_interrupt_count + 1) as u64
                } else {
                    v.poll_since_interrupt_count
                };
                let activates = v.fn_interrupt_activate is Some && spec_activates(
                    strategy,
                    count,
                    first,
                    increment_item_count,
                );
                let next = InterruptibilityStateView {
                    interrupt_signal_received: true,
                    poll_since_interrupt_count: count,
                    fn_runs: if activates {
                        v.fn_runs.push(v.fn_interrupt_activate->Some_0)
                    } else {
                        v.fn_runs
                    },
                    ..v
                };
                (
                    next,
                    if spec_threshold_reached(strategy, count) {
                        Some(InterruptSignal)
                    } else {
                        None
                    },
                    activates,
                )
            } else {
                (v, None, false)
            }
        },
    }
}

/// Whether a poll of state `v` asks the channel for a signal: it supports
/// interruptions and has received no signal yet.
pub open spec fn spec_asks_channel(v: InterruptibilityStateView) -> bool {
    v.interruptibility is Some && !v.interrupt_signal_received
}

/// The state after a poll has recorded its read of the channel, where
/// `received_now` tells whether the read handed over a signal; a poll that
/// does not ask the channel records nothing.
pub open spec fn spec_record_read(
    v: InterruptibilityStateView,
    received_now: bool,
) -> InterruptibilityStateView {
    if spec_asks_channel(v) {
        InterruptibilityStateView {
            channel_reads: v.channel_reads.push(
                if received_now {
                    Some(InterruptSignal)
                } else {
                    None
                },
            ),
            ..v
        }
    } else {
        v
    }
}

/// One `item_interrupt_poll` on state `v`, reading the channel when it asks
/// it, where `received_now` tells whether the read handed over a signal.
pub open spec fn spec_item_interrupt_poll_reading(
    v: InterruptibilityStateView,
    increment_item_count: bool,
    received_now: bool,
) -> (InterruptibilityStateView, Option<InterruptSignal>, bool) {
    spec_item_interrupt_poll(spec_record_read(v, received_now), increment_item_count, received_now)
}

/// The state after the function set to run when a poll reports the
/// interruption has run, if one is set.
pub open spec fn spec_run_fn_interrupt_poll_item(v: InterruptibilityStateView) -> InterruptibilityStateView {
    match v.fn_interrupt_poll_item {
        Some(id) => InterruptibilityStateView { fn_runs: v.fn_runs.push(id), ..v },
        None => v,
    }
}

/// Whether the activation function runs, by the strategy (see
/// [`spec_activates`]).
pub fn fn_interrupt_activates(
    interrupt_strategy: &InterruptStrategy,
    poll_since_interrupt_count: u64,
    interrupt_signal_first_received: bool,
    item_counted: bool,
) -> (r: bool)
    ensures
        r == spec_activates(
            *interrupt_strategy,
            poll_since_interrupt_count,
            interrupt_signal_first_received,
            item_counted,
        ),
{
    match interrupt_strategy {
        InterruptStrategy::IgnoreInterruptions => false,
        InterruptStrategy::FinishCurrent => interrupt_signal_first_received,
        InterruptStrategy::PollNextN(n) => {
            if interrupt_signal_first_received {
                poll_since_interrupt_count >= *n
            } else {
                item_counted && poll_since_interrupt_count == *n
            }
        },
    }
}

/// Whether interruptibility is supported, and number of times interrupt signals
/// have been received.
pub struct InterruptibilityState<'rx, 'intx> {
    /// Specifies interruptibility support of the application.
    pub(crate) interruptibility: Interruptibility<'rx>,
    /// Number of times an interrupt signal has been received.
    pub(crate) poll_since_interrupt_count: OwnedOrMutRef<'intx, u64>,
    /// Whether previously an interrupt signal has been received.
    pub(crate) interrupt_signal_received: OwnedOrMutRef<'intx, Option<InterruptSignal>>,
    /// Function to run when an interruption is activated.
    ///
    /// For `PollNextN`, this will run on the `n`th poll, rather than when the
    /// `InterruptSignal` is received.
    ///
    /// The function will only run once; subsequent polls will not run the
    /// function again.
    fn_interrupt_activate: Option<RecordedFn<'intx>>,
    /// Function to run when a poll reports the interruption.
    fn_interrupt_poll_item: Option<RecordedFn<'intx>>,
    /// Which functions were set and run.
    fn_record: OwnedOrMutRef<'intx, Ghost<FnRecord>>,
}

impl<'rx, 'intx> View for InterruptibilityState<'rx, 'intx> {
    type V = InterruptibilityStateView;

    closed spec fn view(&self) -> InterruptibilityStateView {
        InterruptibilityStateView {
            interruptibility: self.interruptibility@,
            interrupt_signal_received: self.interrupt_signal_received.value() is Some,
            poll_since_interrupt_count: self.poll_since_interrupt_count.value(),
            fn_interrupt_activate: match self.fn_interrupt_activate {
                Some(f) => Some(f.id()),
                None => None,
            },
            fn_interrupt_poll_item: match self.fn_interrupt_poll_item {
                Some(f) => Some(f.id()),
                None => None,
            },
            fns_set: self.fn_record.value()@.fns_set,
            fn_runs: self.fn_record.value()@.runs,
            channel_reads: self.fn_record.value()@.reads,
        }
    }
}

impl<'rx, 'intx> InterruptibilityState<'rx, 'intx> {
    /// Where the poll count is held: owned, or borrowed from the state that
    /// this one was reborrowed from.
    pub closed spec fn poll_count_holder(&self) -> OwnedOrMutRef<'intx, u64> {
        self.poll_since_interrupt_count
    }

    /// Where the received signal is held: owned, or borrowed from the state
    /// that this one was reborrowed from.
    pub closed spec fn signal_holder(&self) -> OwnedOrMutRef<'intx, Option<InterruptSignal>> {
        self.interrupt_signal_received
    }

    /// Where the record of the functions set and run is held: owned, or
    /// borrowed from the state that this one was reborrowed from.
    pub closed spec fn fn_record_holder(&self) -> OwnedOrMutRef<'intx, Ghost<FnRecord>> {
        self.fn_record
    }

    /// Once a state reborrowed from another is done with, the state it was
    /// reborrowed from holds what it holds: each borrowed holder's referent
    /// ends with the value held.
    pub proof fn lemma_reborrow_done(st: Self)
        requires
            has_resolved(st),
        ensures
            st.poll_count_holder() is MutRef ==> *final(st.poll_count_holder()->MutRef_0)
                == st@.poll_since_interrupt_count,
            st.signal_holder() is MutRef ==> (*final(st.signal_holder()->MutRef_0) is Some)
                == st@.interrupt_signal_received,
            st.fn_record_holder() is MutRef ==> (*final(st.fn_record_holder()->MutRef_0))@
                == (FnRecord { fns_set: st@.fns_set, runs: st@.fn_runs, reads: st@.channel_reads }),
            st.held_interruptibility().receiver() matches Some(rx) ==> rx is MutRef
                ==> *final(rx->MutRef_0) == rx.value(),
    {
    }

    /// The interruptibility held, with its receiver.
    pub closed spec fn held_interruptibility(&self) -> Interruptibility<'rx> {
        self.interruptibility
    }
}

impl<'rx> InterruptibilityState<'rx, 'static> {
    /// Returns a new [`InterruptibilityState`].
    pub fn new(interruptibility: Interruptibility<'rx>) -> (r: Self)
        ensures
            r.held_interruptibility() == interruptibility,
            r@ == (InterruptibilityStateView {
                interruptibility: interruptibility@,
                interrupt_signal_received: false,
                poll_since_interrupt_count: 0,
                fn_interrupt_activate: None,
                fn_interrupt_poll_item: None,
                fns_set: 0,
                fn_runs: Seq::empty(),
                channel_reads: Seq::empty(),
            }),
            r@.wf(),
            r.poll_count_holder() == OwnedOrMutRef::<'static, u64>::Owned(0),
            r.signal_holder() == OwnedOrMutRef::<'static, Option<InterruptSignal>>::Owned(None),
            r.fn_record_holder() == OwnedOrMutRef::<'static, Ghost<FnRecord>>::Owned(
                Ghost(FnRecord { fns_set: 0, runs: Seq::empty(), reads: Seq::empty() }),
            ),
    {
        Self {
            interruptibility,
            poll_since_interrupt_count: OwnedOrMutRef::Owned(0),
            interrupt_signal_received: OwnedOrMutRef::Owned(None),
            fn_interrupt_activate: None,
            fn_interrupt_poll_item: None,
            fn_record: OwnedOrMutRef::Owned(Ghost(FnRecord { fns_set: 0, runs: Seq::empty(), reads: Seq::empty() })),
        }
    }

    /// Returns a new `InterruptibilityState` with
    /// [`Interruptibility::NonInterruptible`] support.
    pub fn new_non_interruptible() -> (r: Self)
        ensures
            r.held_interruptibility() == Interruptibility::<'rx>::NonInterruptible,
            r@ == (InterruptibilityStateView {
                interruptibility: None,
                interrupt_signal_received: false,
                poll_since_interrupt_count: 0,
                fn_interrupt_activate: None,
                fn_interrupt_poll_item: None,
                fns_set: 0,
                fn_runs: Seq::empty(),
                channel_reads: Seq::empty(),
            }),
            r@.wf(),
            r.poll_count_holder() == OwnedOrMutRef::<'static, u64>::Owned(0),
            r.signal_holder() == OwnedOrMutRef::<'static, Option<InterruptSignal>>::Owned(None),
            r.fn_record_holder() == OwnedOrMutRef::<'static, Ghost<FnRecord>>::Owned(
                Ghost(FnRecord { fns_set: 0, runs: Seq::empty(), reads: Seq::empty() }),
            ),
    {
        Self::new(Interruptibility::NonInterruptible)
    }

    /// Returns a new `InterruptibilityState` with
    /// [`InterruptStrategy::IgnoreInterruptions`].
    pub fn new_ignore_interruptions(
        interrupt_rx: OwnedOrMutRef<'rx, tokio::sync::mpsc::Receiver<InterruptSignal>>,
    ) -> (r: Self)
        ensures
            r.held_interruptibility() == (Interruptibility::Interruptible {
                interrupt_rx,
                interrupt_strategy: InterruptStrategy::IgnoreInterruptions,
            }),
            r@ == (InterruptibilityStateView {
                interruptibility: Some(InterruptStrategy::IgnoreInterruptions),
                interrupt_signal_received: false,
                poll_since_interrupt_count: 0,
                fn_interrupt_activate: None,
                fn_interrupt_poll_item: None,
                fns_set: 0,
                fn_runs: Seq::empty(),
                channel_reads: Seq::empty(),
            }),
            r@.wf(),
            r.poll_count_holder() == OwnedOrMutRef::<'static, u64>::Owned(0),
            r.signal_holder() == OwnedOrMutRef::<'static, Option<InterruptSignal>>::Owned(None),
            r.fn_record_holder() == OwnedOrMutRef::<'static, Ghost<FnRecord>>::Owned(
                Ghost(FnRecord { fns_set: 0, runs: Seq::empty(), reads: Seq::empty() }),
            ),
    {
        Self::new(
            Interruptibility::Interruptible {
                interrupt_rx,
                interrupt_strategy: InterruptStrategy::IgnoreInterruptions,
            },
        )
    }

    /// Returns a new `InterruptibilityState` with
    /// [`InterruptStrategy::FinishCurrent`].
    pub fn new_finish_current(
        interrupt_rx: OwnedOrMutRef<'rx, tokio::sync::mpsc::Receiver<InterruptSignal>>,
    ) -> (r: Self)
        ensures
            r.held_interruptibility() == (Interruptibility::Interruptible {
                interrupt_rx,
                interrupt_strategy: InterruptStrategy::FinishCurrent,
            }),
            r@ == (InterruptibilityStateView {
                interruptibility: Some(InterruptStrategy::FinishCurrent),
                interrupt_signal_received: false,
                poll_since_interrupt_count: 0,
                fn_interrupt_activate: None,
                fn_interrupt_poll_item: None,
                fns_set: 0,
                fn_runs: Seq::empty(),
                channel_reads: Seq::empty(),
            }),
            r@.wf(),
            r.poll_count_holder() == OwnedOrMutRef::<'static, u64>::Owned(0),
            r.signal_holder() == OwnedOrMutRef::<'static, Option<InterruptSignal>>::Owned(None),
            r.fn_record_holder() == OwnedOrMutRef::<'static, Ghost<FnRecord>>::Owned(
                Ghost(FnRecord { fns_set: 0, runs: Seq::empty(), reads: Seq::empty() }),
            ),
    {
        Self::new(
            Interruptibility::Interruptible {
                interrupt_rx,
                interrupt_strategy: InterruptStrategy::FinishCurrent,
            },
        )
    }

    /// Returns a new `InterruptibilityState` with
    /// [`InterruptStrategy::PollNextN`].
    pub fn new_poll_next_n(
        interrupt_rx: OwnedOrMutRef<'rx, tokio::sync::mpsc::Receiver<InterruptSignal>>,
        n: u64,
    ) -> (r: Self)
        ensures
            r.held_interruptibility() == (Interruptibility::Interruptible {
                interrupt_rx,
                interrupt_strategy: InterruptStrategy::PollNextN(n),
            }),
            r@ == (InterruptibilityStateView {
                interruptibility: Some(InterruptStrategy::PollNextN(n)),
                interrupt_signal_received: false,
                poll_since_interrupt_count: 0,
                fn_interrupt_activate: None,
                fn_interrupt_poll_item: None,
                fns_set: 0,
                fn_runs: Seq::empty(),
                channel_reads: Seq::empty(),
            }),
            r@.wf(),
            r.poll_count_holder() == OwnedOrMutRef::<'static, u64>::Owned(0),
            r.signal_holder() == OwnedOrMutRef::<'static, Option<InterruptSignal>>::Owned(None),
            r.fn_record_holder() == OwnedOrMutRef::<'static, Ghost<FnRecord>>::Owned(
                Ghost(FnRecord { fns_set: 0, runs: Seq::empty(), reads: Seq::empty() }),
            ),
    {
        Self::new(
            Interruptibility::Interruptible {
                interrupt_rx,
                interrupt_strategy: InterruptStrategy::PollNextN(n),
            },
        )
    }
}

impl<'rx> From<Interruptibility<'rx>> for InterruptibilityState<'rx, 'static> {
    /// Returns a new `InterruptibilityState`.
    fn from(interruptibility: Interruptibility<'rx>) -> (r: Self)
        ensures
            r.held_interruptibility() == interruptibility,
            r@ == (InterruptibilityStateView {
                interruptibility: interruptibility@,
                interrupt_signal_received: false,
                poll_since_interrupt_count: 0,
                fn_interrupt_activate: None,
                fn_interrupt_poll_item: None,
                fns_set: 0,
                fn_runs: Seq::empty(),
                channel_reads: Seq::empty(),
            }),
            r@.wf(),
            r.poll_count_holder() == OwnedOrMutRef::<'static, u64>::Owned(0),
            r.signal_holder() == OwnedOrMutRef::<'static, Option<InterruptSignal>>::Owned(None),
            r.fn_record_holder() == OwnedOrMutRef::<'static, Ghost<FnRecord>>::Owned(
                Ghost(FnRecord { fns_set: 0, runs: Seq::empty(), reads: Seq::empty() }),
            ),
    {
        InterruptibilityState {
            interruptibility,
            poll_since_interrupt_count: OwnedOrMutRef::Owned(0),
            interrupt_signal_received: OwnedOrMutRef::Owned(None),
            fn_interrupt_activate: None,
            fn_interrupt_poll_item: None,
            fn_record: OwnedOrMutRef::Owned(Ghost(FnRecord { fns_set: 0, runs: Seq::empty(), reads: Seq::empty() })),
        }
    }
}

impl<'rx> vstd::std_specs::convert::FromSpecImpl<Interruptibility<'rx>> for InterruptibilityState<'rx, 'static> {
    open spec fn obeys_from_spec() -> bool {
        true
    }

    closed spec fn from_spec(v: Interruptibility<'rx>) -> Self {
        InterruptibilityState {
            interruptibility: v,
            poll_since_interrupt_count: OwnedOrMutRef::Owned(0),
            interrupt_signal_received: OwnedOrMutRef::Owned(None),
            fn_interrupt_activate: None,
            fn_interrupt_poll_item: None,
            fn_record: OwnedOrMutRef::Owned(Ghost(FnRecord { fns_set: 0, runs: Seq::empty(), reads: Seq::empty() })),
        }
    }
}

impl<'rx, 'intx> InterruptibilityState<'rx, 'intx> {
    /// Sets the function to run when an interruption is activated.
    ///
    /// For `PollNextN`, this will run on the `n`th poll, rather than when the
    /// `InterruptSignal` is received.
    ///
    /// The function will only run once; subsequent polls will not run the
    /// function again.
    ///
    /// The function set gets the next id (`fns_set`); the one it replaces, if
    /// any, is not run by this state again.
    pub fn set_fn_interrupt_activate<F>(&mut self, fn_interrupt_activate: Option<F>) where
        F: Fn() + 'intx,
        ensures
            final(self)@ == (match fn_interrupt_activate {
                Some(_) => InterruptibilityStateView {
                    fn_interrupt_activate: Some(old(self)@.fns_set),
                    fns_set: old(self)@.fns_set + 1,
                    ..old(self)@
                },
                None => InterruptibilityStateView { fn_interrupt_activate: None, ..old(self)@ },
            }),
            old(self)@.wf() ==> final(self)@.wf(),
            final(self).held_interruptibility() == old(self).held_interruptibility(),
            old(self).fn_record_holder() is MutRef ==> (final(self).fn_record_holder() is MutRef
                && *final(final(self).fn_record_holder()->MutRef_0)
                == *final(old(self).fn_record_holder()->MutRef_0)),
            final(self).poll_count_holder() == old(self).poll_count_holder(),
            final(self).signal_holder() == old(self).signal_holder(),
    {
        self.fn_interrupt_activate = match fn_interrupt_activate {
            Some(f) => {
                let record = self.fn_record.value_mut();
                let id = Ghost(record@.fns_set);
                *record = Ghost(FnRecord { fns_set: record@.fns_set + 1, ..record@ });
                Some(RecordedFn::new(f, id))
            },
            None => None,
        };
    }

    /// Sets the function to run when a poll of an `InterruptibleStream`
    /// reports the interruption.
    ///
    /// The function set gets the next id (`fns_set`); the one it replaces, if
    /// any, is not run by this state again.
    pub fn set_fn_interrupt_poll_item<F>(&mut self, fn_interrupt_poll_item: Option<F>) where
        F: Fn() + 'intx,
        ensures
            final(self)@ == (match fn_interrupt_poll_item {
                Some(_) => InterruptibilityStateView {
                    fn_interrupt_poll_item: Some(old(self)@.fns_set),
                    fns_set: old(self)@.fns_set + 1,
                    ..old(self)@
                },
                None => InterruptibilityStateView { fn_interrupt_poll_item: None, ..old(self)@ },
            }),
            old(self)@.wf() ==> final(self)@.wf(),
            final(self).held_interruptibility() == old(self).held_interruptibility(),
            old(self).fn_record_holder() is MutRef ==> (final(self).fn_record_holder() is MutRef
                && *final(final(self).fn_record_holder()->MutRef_0)
                == *final(old(self).fn_record_holder()->MutRef_0)),
            final(self).poll_count_holder() == old(self).poll_count_holder(),
            final(self).signal_holder() == old(self).signal_holder(),
    {
        self.fn_interrupt_poll_item = match fn_interrupt_poll_item {
            Some(f) => {
                let record = self.fn_record.value_mut();
                let id = Ghost(record@.fns_set);
                *record = Ghost(FnRecord { fns_set: record@.fns_set + 1, ..record@ });
                Some(RecordedFn::new(f, id))
            },
            None => None,
        };
    }

    /// Runs the function set to run when a poll reports the interruption, if
    /// one is set, and records the run.
    pub(crate) fn run_fn_interrupt_poll_item(&mut self)
        ensures
            final(self)@ == spec_run_fn_interrupt_poll_item(old(self)@),
            final(self).held_interruptibility() == old(self).held_interruptibility(),
            old(self).fn_record_holder() is MutRef ==> (final(self).fn_record_holder() is MutRef
                && *final(final(self).fn_record_holder()->MutRef_0)
                == *final(old(self).fn_record_holder()->MutRef_0)),
            final(self).poll_count_holder() == old(self).poll_count_holder(),
            final(self).signal_holder() == old(self).signal_holder(),
    {
        match &self.fn_interrupt_poll_item {
            Some(f) => f.call(self.fn_record.value_mut()),
            None => {},
        }
    }

    /// Returns if this `InterruptibilityState` is considered interrupted based
    /// on the chosen strategy.
    ///
    /// * For `IgnoreInterruptions`, this always returns `false`.
    /// * For `FinishCurrent`, this returns `true` after receiving at least one
    ///   `InterruptSignal`.
    /// * For `PollNextN`, this returns `true` if the stream has been polled at
    ///   least `n` times since receiving the `InterruptSignal`.
    pub fn is_interrupted(&self) -> (r: bool)
        ensures
            r == spec_is_interrupted(self@),
    {
        match &self.interruptibility {
            Interruptibility::NonInterruptible => false,
            Interruptibility::Interruptible { interrupt_rx: _, interrupt_strategy } => {
                match interrupt_strategy {
                    InterruptStrategy::IgnoreInterruptions => false,
                    InterruptStrategy::FinishCurrent => self.interrupt_signal_received.is_some(),
                    InterruptStrategy::PollNextN(n) => {
                        self.interrupt_signal_received.is_some()
                            && *self.poll_since_interrupt_count >= *n
                    },
                }
            },
        }
    }

    /// Reborrows this `InterruptibilityState` with a shorter lifetime.
    ///
    /// The reborrowed state receives from the same channel, runs the same
    /// functions, and its signal, poll count and record of the functions set
    /// and run are those of `self`: what is recorded through it is what `self`
    /// holds once it is dropped.
    pub fn reborrow<'rx_local, 'intx_local>(&'rx_local mut self) -> (r: InterruptibilityState<
        'rx_local,
        'intx_local,
    >) where 'rx: 'rx_local + 'intx_local, 'intx: 'rx_local + 'intx_local, 'rx_local: 'intx_local
        ensures
            r@ == old(self)@,
            final(self)@.interruptibility == old(self)@.interruptibility,
            final(self)@.fn_interrupt_activate == old(self)@.fn_interrupt_activate,
            final(self)@.fn_interrupt_poll_item == old(self)@.fn_interrupt_poll_item,
            r.poll_count_holder() is MutRef,
            *final(r.poll_count_holder()->MutRef_0) == final(self)@.poll_since_interrupt_count,
            r.signal_holder() is MutRef,
            (*final(r.signal_holder()->MutRef_0) is Some) == final(self)@.interrupt_signal_received,
            r.fn_record_holder() is MutRef,
            (*final(r.fn_record_holder()->MutRef_0))@ == (FnRecord {
                fns_set: final(self)@.fns_set,
                runs: final(self)@.fn_runs,
                reads: final(self)@.channel_reads,
            }),
            old(self).held_interruptibility() is Interruptible ==> {
                let rx = r.held_interruptibility().receiver()->Some_0;
                &&& r.held_interruptibility() is Interruptible
                &&& rx is MutRef
                &&& *rx->MutRef_0 == old(self).held_interruptibility().receiver()->Some_0.value()
                &&& *final(rx->MutRef_0)
                    == final(self).held_interruptibility().receiver()->Some_0.value()
            },
    {
        let interruptibility = self.interruptibility.reborrow();
        let poll_since_interrupt_count = self.poll_since_interrupt_count.reborrow();
        let interrupt_signal_received = self.interrupt_signal_received.reborrow();
        let fn_record = self.fn_record.reborrow();
        let fn_interrupt_activate = match &self.fn_interrupt_activate {
            Some(f) => Some(f.reborrow()),
            None => None,
        };
        let fn_interrupt_poll_item = match &self.fn_interrupt_poll_item {
            Some(f) => Some(f.reborrow()),
            None => None,
        };

        InterruptibilityState {
            interruptibility,
            poll_since_interrupt_count,
            interrupt_signal_received,
            fn_interrupt_activate,
            fn_interrupt_poll_item,
            fn_record,
        }
    }

    /// Tests if an item should be interrupted.
    ///
    /// If an interrupt signal has not been received, this returns `None`.
    ///
    /// When an interrupt signal has been received, this may still return `None`
    /// if the interrupt strategy allows for additional items to be completed
    /// before the process should be stopped.
    ///
    /// # Parameters
    ///
    /// * `increment_item_count`: Set this to `true` if this poll is for a new
    ///   item, `false` if polling for interruptions while an item is being
    ///   streamed.
    ///
    /// The channel is only asked for a signal while none has been received;
    /// whether it hands one over is up to the senders. The read is recorded in
    /// `channel_reads`, and the outcome is the step for what it handed over.
    pub fn item_interrupt_poll(&mut self, increment_item_count: bool) -> (r: Option<InterruptSignal>)
        requires
            increment_item_count && old(self)@.interruptibility is Some
                ==> old(self)@.poll_since_interrupt_count < u64::MAX,
        ensures
            old(self)@.wf() ==> final(self)@.wf(),
            ({
                let (v, signal, _) = spec_item_interrupt_poll_reading(old(self)@, increment_item_count, false);
                final(self)@ == v && r == signal
            }) || ({
                let (v, signal, _) = spec_item_interrupt_poll_reading(old(self)@, increment_item_count, true);
                final(self)@ == v && r == signal
            }),
            old(self)@.interrupt_signal_received || old(self)@.interruptibility is None ==> ({
                let (v, signal, _) = spec_item_interrupt_poll_reading(old(self)@, increment_item_count, false);
                final(self)@ == v && r == signal
            }),
            old(self)@.interrupt_signal_received || old(self)@.interruptibility is None
                ==> final(self).held_interruptibility() == old(self).held_interruptibility(),
            spec_asks_channel(old(self)@) ==> {
                &&& final(self)@.channel_reads.len() == old(self)@.channel_reads.len() + 1
                &&& final(self)@.channel_reads.drop_last() == old(self)@.channel_reads
                &&& final(self)@.interrupt_signal_received
                    == (final(self)@.channel_reads.last() is Some)
            },
            !spec_asks_channel(old(self)@)
                ==> final(self)@.channel_reads == old(self)@.channel_reads,
            old(self).poll_count_holder() is MutRef ==> (final(self).poll_count_holder() is MutRef
                && *final(final(self).poll_count_holder()->MutRef_0)
                == *final(old(self).poll_count_holder()->MutRef_0)),
            old(self).signal_holder() is MutRef ==> (final(self).signal_holder() is MutRef
                && *final(final(self).signal_holder()->MutRef_0)
                == *final(old(self).signal_holder()->MutRef_0)),
            old(self).fn_record_holder() is MutRef ==> (final(self).fn_record_holder() is MutRef
                && *final(final(self).fn_record_holder()->MutRef_0)
                == *final(old(self).fn_record_holder()->MutRef_0)),
            old(self).held_interruptibility().receiver() matches Some(rx) ==> rx is MutRef
                ==> (final(self).held_interruptibility().receiver() matches Some(frx)
                && frx is MutRef && *final(frx->MutRef_0) == *final(rx->MutRef_0)),
    {
        let received_now = if self.interrupt_signal_received.is_none()
            && self.interruptibility.interrupt_strategy().is_some() {
            let received_now = self.interruptibility.try_recv_signal();
            let record = self.fn_record.value_mut();
            *record = Ghost(FnRecord { reads: record@.reads.push(received_now), ..record@ });
            assert(received_now is Some ==> received_now == Some(InterruptSignal));
            received_now
        } else {
            None
        };
        self.item_interrupt_apply(increment_item_count, received_now)
    }

    /// Does what `item_interrupt_poll` does once the channel has been asked:
    /// `received_now` is what it handed over (only used while no signal has
    /// been received before).
    ///
    /// Runs the activation function when the strategy's threshold is reached
    /// (see [`spec_activates`]).
    pub fn item_interrupt_apply(
        &mut self,
        increment_item_count: bool,
        received_now: Option<InterruptSignal>,
    ) -> (r: Option<InterruptSignal>)
        requires
            increment_item_count && old(self)@.interruptibility is Some && (
            old(self)@.interrupt_signal_received || received_now is Some)
                ==> old(self)@.poll_since_interrupt_count < u64::MAX,
        ensures
            old(self)@.wf() ==> final(self)@.wf(),
            ({
                let (v, signal, _) = spec_item_interrupt_poll(
                    old(self)@,
                    increment_item_count,
                    received_now is Some,
                );
                final(self)@ == v && r == signal
            }),
            final(self)@.fn_runs == if spec_item_interrupt_poll(
                old(self)@,
                increment_item_count,
                received_now is Some,
            ).2 {
                old(self)@.fn_runs.push(old(self)@.fn_interrupt_activate->Some_0)
            } else {
                old(self)@.fn_runs
            },
            final(self).held_interruptibility() == old(self).held_interruptibility(),
            old(self).poll_count_holder() is MutRef ==> (final(self).poll_count_holder() is MutRef
                && *final(final(self).poll_count_holder()->MutRef_0)
                == *final(old(self).poll_count_holder()->MutRef_0)),
            old(self).signal_holder() is MutRef ==> (final(self).signal_holder() is MutRef
                && *final(final(self).signal_holder()->MutRef_0)
                == *final(old(self).signal_holder()->MutRef_0)),
            old(self).fn_record_holder() is MutRef ==> (final(self).fn_record_holder() is MutRef
                && *final(final(self).fn_record_holder()->MutRef_0)
                == *final(old(self).fn_record_holder()->MutRef_0)),
    {
        let interrupt_strategy = match self.interruptibility.interrupt_strategy() {
            None => return None,
            Some(interrupt_strategy) => interrupt_strategy,
        };
        let mut interrupt_signal_first_received = false;
        if self.interrupt_signal_received.is_none() {
            if let Some(interrupt_signal) = received_now {
                interrupt_signal_first_received = true;
                *self.interrupt_signal_received.value_mut() = Some(interrupt_signal);
            }
        }
        match *self.interrupt_signal_received {
            Some(interrupt_signal) => {
                if increment_item_count {
                    let count = self.poll_since_interrupt_count.value_mut();
                    *count = *count + 1;
                }
                let poll_since_interrupt_count = *self.poll_since_interrupt_count;
                let fn_interrupt_activate = match &self.fn_interrupt_activate {
                    Some(f) => Some(f),
                    None => None,
                };
                Self::fn_interrupt_based_on_strategy(
                    &interrupt_strategy,
                    poll_since_interrupt_count,
                    interrupt_signal_first_received,
                    increment_item_count,
                    fn_interrupt_activate,
                    self.fn_record.value_mut(),
                );
                Self::interrupt_signal_based_on_strategy(
                    &interrupt_strategy,
                    interrupt_signal,
                    poll_since_interrupt_count,
                )
            },
            None => None,
        }
    }

    /// Runs `fn_interrupt_activate` if the strategy's threshold is reached on
    /// this poll (see [`spec_activates`]).
    ///
    /// * For `IgnoreInterruptions`, the function is never run.
    /// * For `FinishCurrent`, this runs if `interrupt_signal_first_received` is
    ///   `true`.
    /// * For `PollNextN`, this runs on the poll whose count reaches `n`.
    ///
    /// A run is recorded in `fn_record`; returns whether the function ran.
    fn fn_interrupt_based_on_strategy(
        interrupt_strategy: &InterruptStrategy,
        poll_since_interrupt_count: u64,
        interrupt_signal_first_received: bool,
        item_counted: bool,
        fn_interrupt_activate: Option<&RecordedFn<'_>>,
        fn_record: &mut Ghost<FnRecord>,
    ) -> (ran: bool)
        ensures
            ran == (fn_interrupt_activate is Some && spec_activates(
                *interrupt_strategy,
                poll_since_interrupt_count,
                interrupt_signal_first_received,
                item_counted,
            )),
            final(fn_record)@ == if ran {
                FnRecord {
                    runs: old(fn_record)@.runs.push(fn_interrupt_activate->Some_0.id()),
                    ..old(fn_record)@
                }
            } else {
                old(fn_record)@
            },
    {
        if fn_interrupt_activates(
            interrupt_strategy,
            poll_since_interrupt_count,
            interrupt_signal_first_received,
            item_counted,
        ) {
            if let Some(fn_interrupt_activate) = fn_interrupt_activate {
                fn_interrupt_activate.call(fn_record);
                return true;
            }
        }
        false
    }

    /// Returns the `InterruptSignal` if the strategy's threshold is reached.
    ///
    /// * For `IgnoreInterruptions`, this always returns `None`.
    /// * For `FinishCurrent`, this always returns `Some(interrupt_signal)`.
    /// * For `PollNextN`, this returns `Some(interrupt_signal)` if
    ///   `poll_since_interrupt_count` equals or is greater than `n`.
    pub fn interrupt_signal_based_on_strategy(
        interrupt_strategy: &InterruptStrategy,
        interrupt_signal: InterruptSignal,
        poll_since_interrupt_count: u64,
    ) -> (r: Option<InterruptSignal>)
        ensures
            r == (if spec_threshold_reached(*interrupt_strategy, poll_since_interrupt_count) {
                Some(interrupt_signal)
            } else {
                None
            }),
    {
        match interrupt_strategy {
            InterruptStrategy::IgnoreInterruptions => {
                // Even if we received a signal, don't indicate so.
                None
            },
            InterruptStrategy::FinishCurrent => Some(interrupt_signal),
            InterruptStrategy::PollNextN(n) => {
                if poll_since_interrupt_count >= *n {
                    Some(interrupt_signal)
                } else {
                    None
                }
            },
        }
    }

    /// Returns the interruptibility support of the application.
    pub fn interruptibility(&self) -> (r: &Interruptibility<'rx>)
        ensures
            *r == self.held_interruptibility(),
            r@ == self@.interruptibility,
    {
        &self.interruptibility
    }

    /// Returns a mutable reference to the interruptibility support of the
    /// application.
    pub fn interruptibility_mut(&mut self) -> (r: &mut Interruptibility<'rx>)
        ensures
            *r == old(self).held_interruptibility(),
            final(self).held_interruptibility() == *final(r),
            final(self).poll_count_holder() == old(self).poll_count_holder(),
            final(self).signal_holder() == old(self).signal_holder(),
            final(self).fn_record_holder() == old(self).fn_record_holder(),
            r@ == old(self)@.interruptibility,
            final(self)@ == (InterruptibilityStateView {
                interruptibility: final(r)@,
                ..old(self)@
            }),
    {
        &mut self.interruptibility
    }

    /// Returns whether an interrupt signal has been received.
    pub(crate) fn is_signal_received(&self) -> (r: bool)
        ensures
            r == self@.interrupt_signal_received,
    {
        self.interrupt_signal_received.is_some()
    }

    /// The text that `{:?}` shows of this state, where `rx_text` stands for
    /// the debug text of the receiver.
    pub open spec fn spec_debug_text(&self, rx_text: Seq<char>) -> Seq<char> {
        "InterruptibilityState { interruptibility: "@ + spec_interruptibility_text(
            self.held_interruptibility(),
            rx_text,
        ) + ", poll_since_interrupt_count: "@ + spec_holder_text(
            self.poll_count_holder(),
            spec_decimal_text(self@.poll_since_interrupt_count as nat),
        ) + ", interrupt_signal_received: "@ + spec_holder_text(
            self.signal_holder(),
            spec_signal_text(self.signal_holder().value()),
        ) + ", fn_interrupt_activate: "@ + if self@.fn_interrupt_activate is Some {
            "Some(\"Box<dyn Fn() + 'intx>\")"@
        } else {
            "None"@
        } + " }"@
    }

    /// Returns the text that `{:?}` shows of this state, with `rx_text` as the
    /// debug text of the receiver.
    pub fn debug_string_with(&self, rx_text: &str) -> (r: String)
        ensures
            r@ == self.spec_debug_text(rx_text@),
    {
        let mut text = String::from_str("InterruptibilityState { interruptibility: ");
        append_interruptibility(&mut text, &self.interruptibility, rx_text);
        text.append(", poll_since_interrupt_count: ");
        append_count(&mut text, &self.poll_since_interrupt_count);
        text.append(", interrupt_signal_received: ");
        append_signal(&mut text, &self.interrupt_signal_received);
        text.append(", fn_interrupt_activate: ");
        match &self.fn_interrupt_activate {
            Some(_) => text.append("Some(\"Box<dyn Fn() + 'intx>\")"),
            None => text.append("None"),
        }
        text.append(" }");
        text
    }

    /// Returns the text that `{:?}` shows of this state.
    ///
    /// The receiver's own debug text comes from tokio and shows the channel's
    /// internal state, so for an interruptible state only its place in the
    /// text is stated.
    pub fn debug_string(&self) -> (r: String)
        ensures
            self.held_interruptibility() is NonInterruptible ==> r@ == self.spec_debug_text(
                Seq::empty(),
            ),
            exists|rx_text: Seq<char>| r@ == #[trigger] self.spec_debug_text(rx_text),
    {
        match &self.interruptibility {
            Interruptibility::NonInterruptible => {
                let r = self.debug_string_with("");
                assert(self.spec_debug_text(""@) =~= self.spec_debug_text(Seq::empty()));
                r
            },
            Interruptibility::Interruptible { interrupt_rx, interrupt_strategy: _ } => {
                let rx_text = crate::channel::receiver_debug_text(&**interrupt_rx);
                self.debug_string_with(rx_text.as_str())
            },
        }
    }

    /// Returns the number of times `item_interrupt_poll` is called since the
    /// very first interrupt signal was received.
    ///
    /// If the interruption signal has not been received, this returns 0.
    pub fn poll_since_interrupt_count(&self) -> (r: u64)
        ensures
            r == self@.poll_since_interrupt_count,
            self@.wf() && !self@.interrupt_signal_received ==> r == 0,
    {
        *self.poll_since_interrupt_count
    }
}

} // verus!
