//! Stops a future producer or stream from producing values when interrupted.
//!
//! The decisions of the library are made by verified state machines:
//!
//! * [`InterruptibilityState`] tracks whether an interrupt signal has been
//!   received and how many items were polled since, and decides by the
//!   [`InterruptStrategy`] when an interruption is activated.
//! * [`InterruptibleStream`] decides, per poll, whether the underlying stream is
//!   polled, and how its output is reported as a [`PollOutcome`].
//! * [`InterruptibleFutureControl`] and [`InterruptibleFutureResult`] decide how
//!   a completed future's output is overridden when an interrupt signal has
//!   been received.
//!
//! Polling futures and streams (the `Future` and `Stream` impls) is done by the
//! thin driver types outside this crate, which hand each poll's result to these
//! state machines.
use vstd::prelude::*;

mod channel;
pub mod debug_text;
mod fn_interrupt;
pub mod interrupt_safe_stream;
pub mod interrupt_signal;
pub mod interrupt_strategy;
pub mod interruptibility;
pub mod interruptibility_state;
pub mod interruptible_control_future;
pub mod interruptible_future_control;
pub mod interruptible_future_result;
pub mod interruptible_stream;
pub mod interruptible_stream_generic;
pub mod laws;
pub mod owned_or_mut_ref;
mod pin;
pub mod poll_outcome;
pub mod stream_outcome;
pub mod stream_outcome_n_remaining;

pub use crate::fn_interrupt::FnRecord;
pub use crate::interrupt_safe_stream::InterruptSafeStream;
pub use crate::interrupt_signal::InterruptSignal;
pub use crate::interrupt_strategy::InterruptStrategy;
pub use crate::interruptibility::Interruptibility;
pub use crate::interruptibility_state::InterruptibilityState;
pub use crate::interruptible_control_future::InterruptibleControlFuture;
pub use crate::interruptible_future_control::InterruptibleFutureControl;
pub use crate::interruptible_future_result::InterruptibleFutureResult;
pub use crate::interruptible_stream::{InterruptibleStream, PollNextStep};
pub use crate::interruptible_stream_generic::InterruptibleStreamGeneric;
pub use crate::owned_or_mut_ref::OwnedOrMutRef;
pub use crate::poll_outcome::PollOutcome;
pub use crate::stream_outcome::StreamOutcome;
pub use crate::stream_outcome_n_remaining::StreamOutcomeNRemaining;

verus! {

} // verus!
