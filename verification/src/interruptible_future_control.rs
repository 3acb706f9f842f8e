use std::ops::ControlFlow;

use vstd::prelude::*;

use crate::{InterruptSignal, OwnedOrMutRef};

verus! {

/// What a future's `ControlFlow` output becomes, given whether an interrupt
/// signal was received when the future completed.
///
/// * No signal: the output is kept.
/// * A signal and `Break(b)`: the output is kept.
/// * A signal and `Continue(t)`: the output becomes `Break(B::from((t,
///   InterruptSignal)))`.
pub fn control_flow_interrupted<B, T>(
    control_flow: ControlFlow<B, T>,
    interrupt_signal: Option<InterruptSignal>,
) -> (r: ControlFlow<B, T>) where B: From<(T, InterruptSignal)>
    ensures
        interrupt_signal is None ==> r == control_flow,
        (interrupt_signal is Some && control_flow matches ControlFlow::Break(_)) ==> r
            == control_flow,
        interrupt_signal is Some ==> (control_flow matches ControlFlow::Continue(t) ==> (r matches ControlFlow::Break(b)
            && call_ensures(B::from, ((t, InterruptSignal),), b))),
{
    match interrupt_signal {
        Some(InterruptSignal) => {
            // Interrupt received, return `ControlFlow::Break`, plus whatever the
            // `control_flow` returned.
            match control_flow {
                ControlFlow::Continue(t) => ControlFlow::Break(B::from((t, InterruptSignal))),
                ControlFlow::Break(b) => ControlFlow::Break(b),
            }
        },
        None => {
            // Interrupt not received, return the future's actual `ControlFlow`.
            control_flow
        },
    }
}

/// Future that returns a `ControlFlow`, whose output is overridden with
/// `ControlFlow::Break` when an interrupt signal has been received by the time
/// it completes.
///
/// The future itself is polled by the caller, through
/// [`future_mut`](Self::future_mut); its output is handed to
/// [`on_ready`](Self::on_ready).
#[verifier::reject_recursive_types(B)]
#[verifier::reject_recursive_types(T)]
#[verifier::reject_recursive_types(Fut)]
pub struct InterruptibleFutureControl<'rx, B, T, Fut> {
    /// Underlying future that returns a value and `ControlFlow`.
    future: std::pin::Pin<Box<Fut>>,
    /// Receiver for interrupt signal.
    interrupt_rx: OwnedOrMutRef<'rx, tokio::sync::mpsc::Receiver<InterruptSignal>>,
    /// Marker.
    marker: std::marker::PhantomData<(B, T)>,
    /// What each read of the channel handed over, in order.
    channel_reads: Ghost<Seq<Option<InterruptSignal>>>,
}

impl<'rx, B, T, Fut> InterruptibleFutureControl<'rx, B, T, Fut> {
    /// The pinned underlying future.
    pub closed spec fn future(&self) -> std::pin::Pin<Box<Fut>> {
        self.future
    }

    /// What each read of the channel handed over, in order.
    pub closed spec fn channel_reads(&self) -> Seq<Option<InterruptSignal>> {
        self.channel_reads@
    }

    /// The receiver that interrupt signals arrive through.
    pub closed spec fn interrupt_rx(&self) -> OwnedOrMutRef<
        'rx,
        tokio::sync::mpsc::Receiver<InterruptSignal>,
    > {
        self.interrupt_rx
    }

    /// Returns a new `InterruptibleFutureControl`, wrapping the provided
    /// future.
    pub fn new(
        future: Fut,
        interrupt_rx: OwnedOrMutRef<'rx, tokio::sync::mpsc::Receiver<InterruptSignal>>,
    ) -> (r: Self)
        ensures
            r.interrupt_rx() == interrupt_rx,
            r.channel_reads() == Seq::<Option<InterruptSignal>>::empty(),
    {
        Self {
            future: crate::pin::box_pin(future),
            interrupt_rx,
            marker: std::marker::PhantomData,
            channel_reads: Ghost(Seq::empty()),
        }
    }

    /// Returns the pinned underlying future, to be polled by the caller.
    pub fn future_mut(&mut self) -> (r: &mut std::pin::Pin<Box<Fut>>)
        ensures
            *r == old(self).future(),
            final(self).future() == *final(r),
            final(self).interrupt_rx() == old(self).interrupt_rx(),
            final(self).channel_reads() == old(self).channel_reads(),
    {
        &mut self.future
    }

    /// The underlying future completed with `control_flow`: checks the
    /// channel for an interrupt signal and returns the output of this future.
    ///
    /// The channel is read once, whatever the receiver (owned or borrowed);
    /// the read is recorded in `channel_reads`, and the output is what
    /// [`control_flow_interrupted`] gives for what it handed over.
    pub fn on_ready(&mut self, control_flow: ControlFlow<B, T>) -> (r: ControlFlow<B, T>) where
        B: From<(T, InterruptSignal)>,
        ensures
            r == control_flow || (control_flow matches ControlFlow::Continue(t) && (r matches ControlFlow::Break(b)
                && call_ensures(B::from, ((t, InterruptSignal),), b))),
            final(self).channel_reads().len() == old(self).channel_reads().len() + 1,
            final(self).channel_reads().drop_last() == old(self).channel_reads(),
            final(self).future() == old(self).future(),
            old(self).interrupt_rx() is MutRef ==> (final(self).interrupt_rx() is MutRef
                && *final(final(self).interrupt_rx()->MutRef_0)
                == *final(old(self).interrupt_rx()->MutRef_0)),
            final(self).channel_reads().last() is None ==> r == control_flow,
            final(self).channel_reads().last() is Some ==> (control_flow matches ControlFlow::Break(
                _,
            ) ==> r == control_flow),
            final(self).channel_reads().last() is Some ==> (control_flow matches ControlFlow::Continue(t)
                ==> (r matches ControlFlow::Break(b) && call_ensures(B::from, ((t, InterruptSignal),), b))),
    {
        let interrupt_signal = crate::channel::read_signal(
            self.interrupt_rx.value_mut(),
            &mut self.channel_reads,
        );
        control_flow_interrupted(control_flow, interrupt_signal)
    }
}

} // verus!
