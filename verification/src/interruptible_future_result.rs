use vstd::prelude::*;

use crate::{InterruptSignal, OwnedOrMutRef};

verus! {

/// What a future's `Result` output becomes, given whether an interrupt signal
/// was received when the future completed.
///
/// * No signal: the output is kept.
/// * A signal and `Err(e)`: the output is kept.
/// * A signal and `Ok(t)`: the output becomes `Err(E::from((t,
///   InterruptSignal)))`.
pub fn result_interrupted<T, E>(result: Result<T, E>, interrupt_signal: Option<InterruptSignal>) -> (r:
    Result<T, E>) where E: From<(T, InterruptSignal)>
    ensures
        interrupt_signal is None ==> r == result,
        (interrupt_signal is Some && result is Err) ==> r == result,
        (interrupt_signal is Some && result is Ok) ==> (r is Err && call_ensures(
            E::from,
            ((result->Ok_0, InterruptSignal),),
            r->Err_0,
        )),
{
    match interrupt_signal {
        Some(InterruptSignal) => {
            // Interrupt received, return `Result::Err`
            let e = match result {
                Ok(t) => E::from((t, InterruptSignal)),
                Err(e) => e,
            };
            Err(e)
        },
        None => {
            // Interrupt not received, return the future's actual `Result`.
            result
        },
    }
}

/// Future that returns a `Result`, whose output is overridden with
/// `Result::Err` when an interrupt signal has been received by the time it
/// completes.
///
/// The future itself is polled by the caller, through
/// [`future_mut`](Self::future_mut); its output is handed to
/// [`on_ready`](Self::on_ready).
#[verifier::reject_recursive_types(T)]
#[verifier::reject_recursive_types(E)]
#[verifier::reject_recursive_types(Fut)]
pub struct InterruptibleFutureResult<'rx, T, E, Fut> {
    /// Underlying future that returns a value and `Result`.
    future: std::pin::Pin<Box<Fut>>,
    /// Receiver for interrupt signal.
    interrupt_rx: OwnedOrMutRef<'rx, tokio::sync::mpsc::Receiver<InterruptSignal>>,
    /// Marker.
    marker: std::marker::PhantomData<(T, E)>,
    /// What each read of the channel handed over, in order.
    channel_reads: Ghost<Seq<Option<InterruptSignal>>>,
}

impl<'rx, T, E, Fut> InterruptibleFutureResult<'rx, T, E, Fut> {
    /// The pinned underlying future.
    pub closed spec fn future(&self) -> std::pin::Pin<Box<Fut>> {
        self.future
    }

    /// What each read of the channel handed over, in order.
    pub closed spec fn channel_reads(&self) -> Seq<Option<InterruptSignal>> {
        self.channel_reads@
    }

    /// The receiver that interrupt signals arrive through.
    pub closed spec fn interrupt_rx(&self) -> OwnedOrMutRef<
        'rx,
        tokio::sync::mpsc::Receiver<InterruptSignal>,
    > {
        self.interrupt_rx
    }

    /// Returns a new `InterruptibleFutureResult`, wrapping the provided future.
    pub fn new(
        future: Fut,
        interrupt_rx: OwnedOrMutRef<'rx, tokio::sync::mpsc::Receiver<InterruptSignal>>,
    ) -> (r: InterruptibleFutureResult<'rx, T, E, Fut>)
        ensures
            r.interrupt_rx() == interrupt_rx,
            r.channel_reads() == Seq::<Option<InterruptSignal>>::empty(),
    {
        Self {
            future: crate::pin::box_pin(future),
            interrupt_rx,
            marker: std::marker::PhantomData,
            channel_reads: Ghost(Seq::empty()),
        }
    }

    /// Returns the pinned underlying future, to be polled by the caller.
    pub fn future_mut(&mut self) -> (r: &mut std::pin::Pin<Box<Fut>>)
        ensures
            *r == old(self).future(),
            final(self).future() == *final(r),
            final(self).interrupt_rx() == old(self).interrupt_rx(),
            final(self).channel_reads() == old(self).channel_reads(),
    {
        &mut self.future
    }

    /// The underlying future completed with `result`: checks the channel for
    /// an interrupt signal and returns the output of this future.
    ///
    /// The channel is read once, whatever the receiver (owned or borrowed);
    /// the read is recorded in `channel_reads`, and the output is what
    /// [`result_interrupted`] gives for what it handed over.
    pub fn on_ready(&mut self, result: Result<T, E>) -> (r: Result<T, E>) where
        E: From<(T, InterruptSignal)>,
        ensures
            r == result || (result is Ok && r is Err && call_ensures(
                E::from,
                ((result->Ok_0, InterruptSignal),),
                r->Err_0,
            )),
            final(self).channel_reads().len() == old(self).channel_reads().len() + 1,
            final(self).channel_reads().drop_last() == old(self).channel_reads(),
            final(self).future() == old(self).future(),
            old(self).interrupt_rx() is MutRef ==> (final(self).interrupt_rx() is MutRef
                && *final(final(self).interrupt_rx()->MutRef_0)
                == *final(old(self).interrupt_rx()->MutRef_0)),
            final(self).channel_reads().last() is None ==> r == result,
            final(self).channel_reads().last() is Some ==> (result is Err ==> r == result),
            final(self).channel_reads().last() is Some ==> (result is Ok ==> r is Err && call_ensures(
                E::from,
                ((result->Ok_0, InterruptSignal),),
                r->Err_0,
            )),
    {
        let interrupt_signal = crate::channel::read_signal(
            self.interrupt_rx.value_mut(),
            &mut self.channel_reads,
        );
        result_interrupted(result, interrupt_signal)
    }
}

} // verus!
