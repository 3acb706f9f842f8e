use vstd::prelude::*;

use crate::{InterruptSignal, InterruptStrategy, OwnedOrMutRef};

verus! {

/// Specifies interruptibility support of the application.
///
/// This is the dynamic / non-type-parameterized version of interruptibility.
#[derive(Debug)]
pub enum Interruptibility<'rx> {
    /// Interruptions are not supported.
    NonInterruptible,
    /// Interruptions are supported.
    Interruptible {
        /// Channel receiver of the interrupt signal.
        interrupt_rx: OwnedOrMutRef<'rx, tokio::sync::mpsc::Receiver<InterruptSignal>>,
        /// How to poll the underlying stream when an interruption is received.
        interrupt_strategy: InterruptStrategy,
    },
}

/// An `Interruptibility` is viewed as its strategy: `None` when interruptions
/// are not supported.
impl<'rx> View for Interruptibility<'rx> {
    type V = Option<InterruptStrategy>;

    open spec fn view(&self) -> Option<InterruptStrategy> {
        match self {
            Interruptibility::NonInterruptible => None,
            Interruptibility::Interruptible { interrupt_strategy, .. } => Some(*interrupt_strategy),
        }
    }
}

impl<'rx> Interruptibility<'rx> {
    /// The channel receiver held, owned or borrowed; `None` for
    /// `NonInterruptible`.
    pub open spec fn receiver(&self) -> Option<
        OwnedOrMutRef<'rx, tokio::sync::mpsc::Receiver<InterruptSignal>>,
    > {
        match self {
            Interruptibility::NonInterruptible => None,
            Interruptibility::Interruptible { interrupt_rx, .. } => Some(*interrupt_rx),
        }
    }

    /// Returns a new `Interruptibility::Interruptible`.
    pub fn new(
        interrupt_rx: OwnedOrMutRef<'rx, tokio::sync::mpsc::Receiver<InterruptSignal>>,
        interrupt_strategy: InterruptStrategy,
    ) -> (r: Self)
        ensures
            r == (Interruptibility::Interruptible { interrupt_rx, interrupt_strategy }),
            r@ == Some(interrupt_strategy),
    {
        Self::Interruptible { interrupt_rx, interrupt_strategy }
    }

    /// Returns a new `Interruptibility::Interruptible` using the
    /// `InterruptStrategy::FinishCurrent` strategy.
    pub fn finish_current(
        interrupt_rx: OwnedOrMutRef<'rx, tokio::sync::mpsc::Receiver<InterruptSignal>>,
    ) -> (r: Self)
        ensures
            r == (Interruptibility::Interruptible {
                interrupt_rx,
                interrupt_strategy: InterruptStrategy::FinishCurrent,
            }),
            r@ == Some(InterruptStrategy::FinishCurrent),
    {
        Self::new(interrupt_rx, InterruptStrategy::FinishCurrent)
    }

    /// Returns a new `Interruptibility::Interruptible` using the
    /// `InterruptStrategy::PollNextN` strategy.
    pub fn poll_next_n(
        interrupt_rx: OwnedOrMutRef<'rx, tokio::sync::mpsc::Receiver<InterruptSignal>>,
        n: u64,
    ) -> (r: Self)
        ensures
            r == (Interruptibility::Interruptible {
                interrupt_rx,
                interrupt_strategy: InterruptStrategy::PollNextN(n),
            }),
            r@ == Some(InterruptStrategy::PollNextN(n)),
    {
        Self::new(interrupt_rx, InterruptStrategy::PollNextN(n))
    }

    /// Reborrows this `Interruptibility` with a shorter lifetime.
    ///
    /// The reborrowed value receives from the same channel: its receiver is
    /// a borrow of the receiver of `self`, which is what `self` holds once the
    /// borrow ends. The strategy of `self` is unchanged by anything done
    /// through it.
    pub fn reborrow(&mut self) -> (r: Interruptibility<'_>)
        ensures
            r@ == old(self)@,
            final(self)@ == old(self)@,
            *old(self) is NonInterruptible ==> *final(self) == *old(self),
            *old(self) is Interruptible ==> {
                let rx = r.receiver()->Some_0;
                &&& r is Interruptible
                &&& rx is MutRef
                &&& *rx->MutRef_0 == old(self).receiver()->Some_0.value()
                &&& *final(rx->MutRef_0) == final(self).receiver()->Some_0.value()
                &&& (old(self).receiver()->Some_0 is Owned) ==> (final(self).receiver()->Some_0 is Owned)
                &&& (old(self).receiver()->Some_0 is MutRef) ==> (final(self).receiver()->Some_0 is MutRef
                    && *final(final(self).receiver()->Some_0->MutRef_0)
                    == *final(old(self).receiver()->Some_0->MutRef_0))
            },
    {
        match self {
            Interruptibility::NonInterruptible => Interruptibility::NonInterruptible,
            Interruptibility::Interruptible { interrupt_rx, interrupt_strategy } => {
                Interruptibility::Interruptible {
                    interrupt_rx: interrupt_rx.reborrow(),
                    interrupt_strategy: *interrupt_strategy,
                }
            },
        }
    }

    /// Returns the `InterruptStrategy` if present.
    pub fn interrupt_strategy(&self) -> (r: Option<InterruptStrategy>)
        ensures
            r == self@,
    {
        match self {
            Interruptibility::NonInterruptible => None,
            Interruptibility::Interruptible { interrupt_rx: _, interrupt_strategy } => Some(
                *interrupt_strategy,
            ),
        }
    }

    /// Takes an interrupt signal from the channel if one is waiting.
    ///
    /// `NonInterruptible` has no channel and never receives one.
    pub fn try_recv_signal(&mut self) -> (r: Option<InterruptSignal>)
        ensures
            final(self)@ == old(self)@,
            old(self)@ is None ==> r is None && *final(self) == *old(self),
            old(self).receiver() matches Some(rx) ==> rx is MutRef ==> (final(self).receiver() matches Some(
                frx,
            ) && frx is MutRef && *final(frx->MutRef_0) == *final(rx->MutRef_0)),
    {
        match self {
            Interruptibility::NonInterruptible => None,
            Interruptibility::Interruptible { interrupt_rx, interrupt_strategy: _ } => {
                crate::channel::mpsc_try_recv(interrupt_rx.value_mut())
            },
        }
    }
}

} // verus!
