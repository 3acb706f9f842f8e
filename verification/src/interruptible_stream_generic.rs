use vstd::prelude::*;

use crate::{StreamOutcome, StreamOutcomeNRemaining};

verus! {

/// The common outcome of an outcome that counts the remaining items: the
/// count is dropped, the variant and value are kept.
pub open spec fn spec_stream_outcome_from_n_remaining<T>(
    outcome: StreamOutcomeNRemaining<T>,
) -> StreamOutcome<T> {
    match outcome {
        StreamOutcomeNRemaining::InterruptBeforePoll => StreamOutcome::InterruptBeforePoll,
        StreamOutcomeNRemaining::InterruptDuringPoll { value, n_remaining: _ } => {
            StreamOutcome::InterruptDuringPoll(value)
        },
        StreamOutcomeNRemaining::NoInterrupt(value) => StreamOutcome::NoInterrupt(value),
    }
}

/// Maps an item of the wrapped stream to the common item type.
pub fn stream_outcome_from_n_remaining<T>(outcome: StreamOutcomeNRemaining<T>) -> (r: StreamOutcome<
    T,
>)
    ensures
        r == spec_stream_outcome_from_n_remaining(outcome),
{
    match outcome {
        StreamOutcomeNRemaining::InterruptBeforePoll => StreamOutcome::InterruptBeforePoll,
        StreamOutcomeNRemaining::InterruptDuringPoll { value, n_remaining: _ } => {
            StreamOutcome::InterruptDuringPoll(value)
        },
        StreamOutcomeNRemaining::NoInterrupt(value) => StreamOutcome::NoInterrupt(value),
    }
}

/// Wrapper for any stream to commonize the stream item to a common type.
#[derive(Debug)]
pub struct InterruptibleStreamGeneric<S> {
    /// Underlying stream that produces values.
    stream: S,
}

impl<S> InterruptibleStreamGeneric<S> {
    /// Returns a new `InterruptibleStreamGeneric`.
    pub fn new(stream: S) -> (r: Self)
        ensures
            r.inner() == stream,
    {
        Self { stream }
    }

    /// The wrapped stream.
    pub closed spec fn inner(&self) -> S {
        self.stream
    }

    /// Returns the underlying stream, to be polled by the caller.
    pub fn stream_mut(&mut self) -> (r: &mut S)
        ensures
            *r == old(self).inner(),
            final(self).inner() == *final(r),
    {
        &mut self.stream
    }

    /// Returns the underlying stream.
    pub fn stream(&self) -> (r: &S)
        ensures
            *r == self.inner(),
    {
        &self.stream
    }
}

} // verus!
