use std::ops::ControlFlow;

use vstd::prelude::*;

verus! {

/// What a future's `ControlFlow<(), ()>` output becomes, given whether the
/// one-shot interrupt was received when the future completed: `Break(())` if
/// it was, the output itself otherwise.
pub fn control_flow_on_interrupt(
    control_flow: ControlFlow<(), ()>,
    interrupt: Option<()>,
) -> (r: ControlFlow<(), ()>)
    ensures
        r == (match interrupt {
            Some(()) => ControlFlow::<(), ()>::Break(()),
            None => control_flow,
        }),
{
    match interrupt {
        Some(()) => {
            // Interrupt received, return `ControlFlow::Break`
            ControlFlow::Break(())
        },
        None => {
            // Interrupt not received, return the future's actual `ControlFlow`.
            control_flow
        },
    }
}

/// Future that returns a `ControlFlow<(), ()>`, whose output becomes
/// `ControlFlow::Break(())` when the one-shot interrupt has been received by
/// the time it completes.
///
/// The future itself is polled by the caller, through
/// [`future_mut`](Self::future_mut); its output is handed to
/// [`on_ready`](Self::on_ready).
#[derive(Debug)]
#[verifier::reject_recursive_types(Fut)]
pub struct InterruptibleControlFuture<Fut> {
    /// Underlying future that returns a value and `ControlFlow`.
    future: Fut,
    /// Receiver for interrupt signal.
    interrupt_rx: tokio::sync::oneshot::Receiver<()>,
}

impl<Fut> InterruptibleControlFuture<Fut> {
    /// Returns a new `InterruptibleControlFuture`, wrapping the provided
    /// future, interrupted through `interrupt_rx`.
    pub fn new(future: Fut, interrupt_rx: tokio::sync::oneshot::Receiver<()>) -> (r: Self)
        ensures
            r.future() == future,
    {
        Self { future, interrupt_rx }
    }

    /// The wrapped future.
    pub closed spec fn future(&self) -> Fut {
        self.future
    }

    /// Returns the underlying future, to be polled by the caller.
    pub fn future_mut(&mut self) -> (r: &mut Fut)
        ensures
            *r == old(self).future(),
            final(self).future() == *final(r),
    {
        &mut self.future
    }

    /// The underlying future completed with `control_flow`: checks whether the
    /// interrupt was received and returns the output of this future.
    ///
    /// Whether it was is up to the sender, so the output is one of the two
    /// outcomes of [`control_flow_on_interrupt`].
    pub fn on_ready(&mut self, control_flow: ControlFlow<(), ()>) -> (r: ControlFlow<(), ()>)
        ensures
            r == control_flow || r == ControlFlow::<(), ()>::Break(()),
            final(self).future() == old(self).future(),
    {
        let interrupt = crate::channel::oneshot_try_recv(&mut self.interrupt_rx);
        control_flow_on_interrupt(control_flow, interrupt)
    }
}

} // verus!
