use vstd::prelude::*;

use crate::interruptibility_state::{
    spec_asks_channel, spec_is_interrupted, spec_item_interrupt_poll_reading,
    spec_run_fn_interrupt_poll_item,
    InterruptibilityStateView,
};
use crate::{InterruptSignal, InterruptibilityState, PollOutcome};

verus! {

/// What a poll of an [`InterruptibleStream`] does after its interruption
/// check.
#[derive(Clone, Copy, Debug, PartialEq, Eq, Structural)]
pub enum PollNextStep {
    /// The interruption was already reported: the poll returns
    /// `Poll::Ready(None)` without polling the underlying stream.
    Done,
    /// The interruption is reported now, without polling the underlying
    /// stream: the poll returns `Poll::Ready(Some(PollOutcome::Interrupted(None)))`.
    Interrupted,
    /// The underlying stream is polled; its result is handed to
    /// [`InterruptibleStream::poll_next_ready`] or
    /// [`InterruptibleStream::poll_next_pending`].
    PollStream,
}

/// What an [`InterruptibleStream`] holds, besides the stream, as plain values.
pub struct InterruptibleStreamView {
    /// The interruptibility state.
    pub state: InterruptibilityStateView,
    /// Whether the interruption has been reported by a poll.
    pub interrupted_and_notified: bool,
    /// Whether the underlying stream has returned `Poll::Pending` for the item
    /// in progress.
    pub has_pending: bool,
    /// Whether the interruption is activated for this stream.
    pub interrupt_signal: bool,
}

impl InterruptibleStreamView {
    /// The state is well formed, and an interruption is only activated for
    /// this stream once the state is interrupted.
    pub open spec fn wf(self) -> bool {
        &&& self.state.wf()
        &&& self.interrupt_signal ==> spec_is_interrupted(self.state)
    }
}

/// Whether the interruption check of a poll counts an item: the poll starts
/// a new item (none is in progress), and the signal was received before this
/// poll.
///
/// So the item in progress when the signal arrives (or that the receiving
/// poll starts) is not counted, and `PollNextN(n)` lets it and `n - 1` more
/// items complete; with `n == 0` that item itself is interrupted.
pub open spec fn spec_item_needs_counting(v: InterruptibleStreamView) -> bool {
    !v.has_pending && v.state.interrupt_signal_received
}

/// Whether a poll that starts from `v` counts an item: the interruption is
/// neither reported nor activated yet, and the check counts an item (see
/// [`spec_item_needs_counting`]).
pub open spec fn spec_poll_counts_item(v: InterruptibleStreamView) -> bool {
    !v.interrupted_and_notified && !v.interrupt_signal && spec_item_needs_counting(v)
}

/// The interruption check made at the start of a poll, where `received_now`
/// tells whether the channel handed over a signal.
pub open spec fn spec_interrupt_check(
    v: InterruptibleStreamView,
    received_now: bool,
) -> InterruptibleStreamView {
    if v.interrupt_signal {
        v
    } else {
        let (state, signal, _) = spec_item_interrupt_poll_reading(
            v.state,
            spec_item_needs_counting(v),
            received_now,
        );
        InterruptibleStreamView { state, interrupt_signal: signal is Some, ..v }
    }
}

/// The start of a poll: the next view and what the poll does.
pub open spec fn spec_poll_next_begin(v: InterruptibleStreamView, received_now: bool) -> (
    InterruptibleStreamView,
    PollNextStep,
) {
    if v.interrupted_and_notified {
        (v, PollNextStep::Done)
    } else {
        let checked = spec_interrupt_check(v, received_now);
        if checked.has_pending {
            (checked, PollNextStep::PollStream)
        } else if checked.interrupt_signal {
            (
                InterruptibleStreamView {
                    state: spec_run_fn_interrupt_poll_item(checked.state),
                    interrupted_and_notified: true,
                    ..checked
                },
                PollNextStep::Interrupted,
            )
        } else {
            (checked, PollNextStep::PollStream)
        }
    }
}

/// The underlying stream returned `Poll::Ready(item)`: the next view and what
/// the poll returns in `Poll::Ready`.
///
/// The function set to run when a poll reports the interruption runs exactly
/// when this poll returns `PollOutcome::Interrupted` (as it does when
/// [`spec_poll_next_begin`] returns `PollNextStep::Interrupted`).
pub open spec fn spec_poll_next_ready<T>(v: InterruptibleStreamView, item: Option<T>) -> (
    InterruptibleStreamView,
    Option<PollOutcome<T>>,
) {
    if v.interrupt_signal {
        (
            InterruptibleStreamView {
                state: spec_run_fn_interrupt_poll_item(v.state),
                has_pending: false,
                interrupted_and_notified: true,
                ..v
            },
            Some(PollOutcome::Interrupted(item)),
        )
    } else {
        (
            InterruptibleStreamView { has_pending: false, ..v },
            match item {
                Some(t) => Some(PollOutcome::NoInterrupt(t)),
                None => None,
            },
        )
    }
}

/// Wrapper around a `Stream` that adds interruptible behaviour.
///
/// The stream itself is polled by the caller: each poll starts with
/// [`poll_next_begin`](Self::poll_next_begin), and when that says so, the
/// underlying stream (reached through [`stream_mut`](Self::stream_mut)) is
/// polled and its result handed to [`poll_next_ready`](Self::poll_next_ready)
/// or [`poll_next_pending`](Self::poll_next_pending).
#[verifier::reject_recursive_types(S)]
pub struct InterruptibleStream<'rx, 'intx, S> {
    /// Underlying stream that produces values.
    stream: std::pin::Pin<Box<S>>,
    /// Receiver for interrupt signal.
    interruptibility_state: InterruptibilityState<'rx, 'intx>,
    /// If an interruption is received, has this stream returned a
    /// `ControlFlow::Break` in `poll_next`.
    interrupted_and_notified: bool,
    /// Whether the underlying stream has an item pending.
    ///
    /// Because `Stream`s are polled in order to poll the underlying future that
    /// produces the item, we need to track whether the underlying stream has
    /// been polled and returned `Poll::Pending`, so we should be intentional
    /// whether or not to interrupt a stream that we have work in progress.
    has_pending: bool,
    /// Whether an interrupt signal has previously been received from the
    /// `InterruptibilityState`.
    ///
    /// This needs to be held separately from the `interruptibility_state`,
    /// because we don't want to re-poll the underlying `interrupt_rx` channel.
    interrupt_signal: Option<InterruptSignal>,
}

impl<'rx, 'intx, S> View for InterruptibleStream<'rx, 'intx, S> {
    type V = InterruptibleStreamView;

    closed spec fn view(&self) -> InterruptibleStreamView {
        InterruptibleStreamView {
            state: self.interruptibility_state@,
            interrupted_and_notified: self.interrupted_and_notified,
            has_pending: self.has_pending,
            interrupt_signal: self.interrupt_signal is Some,
        }
    }
}

impl<'rx, 'intx, S> InterruptibleStream<'rx, 'intx, S> {
    /// Returns a new `InterruptibleStream`, wrapping the provided stream.
    pub fn new(stream: S, interruptibility_state: InterruptibilityState<'rx, 'intx>) -> (r: Self)
        ensures
            r@ == (InterruptibleStreamView {
                state: interruptibility_state@,
                interrupted_and_notified: false,
                has_pending: false,
                interrupt_signal: false,
            }),
            interruptibility_state@.wf() ==> r@.wf(),
            r.held_state() == interruptibility_state,
    {
        Self {
            stream: crate::pin::box_pin(stream),
            interruptibility_state,
            interrupted_and_notified: false,
            has_pending: false,
            interrupt_signal: None,
        }
    }

    /// The interruptibility state held.
    pub closed spec fn held_state(&self) -> InterruptibilityState<'rx, 'intx> {
        self.interruptibility_state
    }

    /// The pinned underlying stream.
    pub closed spec fn pinned_stream(&self) -> std::pin::Pin<Box<S>> {
        self.stream
    }

    /// Returns the pinned underlying stream, to be polled by the caller.
    pub fn stream_mut(&mut self) -> (r: &mut std::pin::Pin<Box<S>>)
        ensures
            *r == old(self).pinned_stream(),
            final(self).pinned_stream() == *final(r),
            final(self)@ == old(self)@,
            final(self).held_state() == old(self).held_state(),
    {
        &mut self.stream
    }

    /// Returns the interruptibility state.
    pub fn interruptibility_state(&self) -> (r: &InterruptibilityState<'rx, 'intx>)
        ensures
            *r == self.held_state(),
            r@ == self@.state,
    {
        &self.interruptibility_state
    }

    /// Returns the pinned underlying stream.
    pub fn stream(&self) -> (r: &std::pin::Pin<Box<S>>)
        ensures
            *r == self.pinned_stream(),
    {
        &self.stream
    }

    /// Asks the interruptibility state whether the stream is interrupted,
    /// unless an interruption was already activated for this stream (see
    /// [`spec_item_needs_counting`] for which polls count an item).
    fn interrupt_check(&mut self)
        requires
            !old(self)@.interrupt_signal && spec_item_needs_counting(old(self)@)
                ==> old(self)@.state.poll_since_interrupt_count < u64::MAX,
        ensures
            final(self)@ == spec_interrupt_check(old(self)@, false) || final(self)@
                == spec_interrupt_check(old(self)@, true),
            old(self)@.interrupt_signal || old(self)@.state.interrupt_signal_received
                || old(self)@.state.interruptibility is None ==> final(self)@
                == spec_interrupt_check(old(self)@, false),
            old(self)@.interrupt_signal ==> final(self).held_state() == old(self).held_state(),
            old(self)@.interrupt_signal || old(self)@.state.interrupt_signal_received
                || old(self)@.state.interruptibility is None
                ==> final(self).held_state().held_interruptibility() == old(self).held_state().held_interruptibility(),
            final(self).pinned_stream() == old(self).pinned_stream(),
    {
        if self.interrupt_signal.is_none() {
            let item_needs_counting = !self.has_pending
                && self.interruptibility_state.is_signal_received();
            self.interrupt_signal = self.interruptibility_state.item_interrupt_poll(
                item_needs_counting,
            );
        }
    }

    /// Runs `fn_interrupt_poll_item` if it exists.
    fn fn_interrupt_poll_run(&mut self)
        ensures
            final(self)@ == (InterruptibleStreamView {
                state: spec_run_fn_interrupt_poll_item(old(self)@.state),
                ..old(self)@
            }),
            final(self).held_state().held_interruptibility() == old(self).held_state().held_interruptibility(),
            final(self).pinned_stream() == old(self).pinned_stream(),
    {
        self.interruptibility_state.run_fn_interrupt_poll_item();
    }

    /// Whether the next poll would count an item while the count is already
    /// at its largest value, so that `poll_next_begin` cannot be called.
    pub fn poll_next_count_overflows(&self) -> (r: bool)
        ensures
            r == (spec_poll_counts_item(self@) && self@.state.poll_since_interrupt_count
                == u64::MAX),
    {
        !self.interrupted_and_notified && self.interrupt_signal.is_none() && !self.has_pending
            && self.interruptibility_state.is_signal_received()
            && self.interruptibility_state.poll_since_interrupt_count() == u64::MAX
    }

    /// Starts a poll: checks for an interruption and decides whether the
    /// underlying stream is polled.
    ///
    /// When the interruption is reported now (`Interrupted`), the state's
    /// `fn_interrupt_poll_item` runs.
    pub fn poll_next_begin(&mut self) -> (r: PollNextStep)
        requires
            spec_poll_counts_item(old(self)@) ==> old(self)@.state.poll_since_interrupt_count
                < u64::MAX,
        ensures
            old(self)@.wf() ==> final(self)@.wf(),
            (final(self)@, r) == spec_poll_next_begin(old(self)@, false) || (final(self)@, r)
                == spec_poll_next_begin(old(self)@, true),
            old(self)@.interrupted_and_notified || old(self)@.interrupt_signal
                || old(self)@.state.interrupt_signal_received
                || old(self)@.state.interruptibility is None ==> (final(self)@, r)
                == spec_poll_next_begin(old(self)@, false),
            old(self)@.interrupted_and_notified ==> *final(self) == *old(self),
            !old(self)@.interrupted_and_notified && !old(self)@.interrupt_signal
                && spec_asks_channel(old(self)@.state) ==> {
                &&& final(self)@.state.channel_reads.len() == old(self)@.state.channel_reads.len()
                    + 1
                &&& final(self)@.state.channel_reads.drop_last() == old(self)@.state.channel_reads
                &&& final(self)@.state.interrupt_signal_received
                    == (final(self)@.state.channel_reads.last() is Some)
            },
            old(self)@.interrupted_and_notified || old(self)@.interrupt_signal
                || old(self)@.state.interrupt_signal_received
                || old(self)@.state.interruptibility is None
                ==> final(self).held_state().held_interruptibility() == old(self).held_state().held_interruptibility(),
            final(self).pinned_stream() == old(self).pinned_stream(),
    {
        if self.interrupted_and_notified {
            return PollNextStep::Done;
        }
        self.interrupt_check();
        if self.has_pending {
            PollNextStep::PollStream
        } else {
            match self.interrupt_signal {
                Some(_interrupt_signal) => {
                    self.interrupted_and_notified = true;
                    self.fn_interrupt_poll_run();
                    PollNextStep::Interrupted
                },
                None => PollNextStep::PollStream,
            }
        }
    }

    /// The underlying stream returned `Poll::Pending`: the item is in progress.
    pub fn poll_next_pending(&mut self)
        ensures
            final(self)@ == (InterruptibleStreamView { has_pending: true, ..old(self)@ }),
            final(self).held_state() == old(self).held_state(),
            final(self).pinned_stream() == old(self).pinned_stream(),
    {
        self.has_pending = true;
    }

    /// The underlying stream returned `Poll::Ready(item_opt)`: returns what
    /// the poll returns in `Poll::Ready`.
    ///
    /// When the interruption is reported now, the state's
    /// `fn_interrupt_poll_item` runs.
    pub fn poll_next_ready<T>(&mut self, item_opt: Option<T>) -> (r: Option<PollOutcome<T>>)
        ensures
            (final(self)@, r) == spec_poll_next_ready(old(self)@, item_opt),
            final(self).held_state().held_interruptibility() == old(self).held_state().held_interruptibility(),
            final(self).pinned_stream() == old(self).pinned_stream(),
    {
        self.has_pending = false;
        match self.interrupt_signal {
            Some(_interrupt_signal) => {
                self.interrupted_and_notified = true;
                self.fn_interrupt_poll_run();
                Some(PollOutcome::Interrupted(item_opt))
            },
            None => match item_opt {
                Some(item) => Some(PollOutcome::NoInterrupt(item)),
                None => None,
            },
        }
    }
}

} // verus!
