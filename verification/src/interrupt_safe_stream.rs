use vstd::prelude::*;

verus! {

/// Wraps a stream, forwarding its items unchanged.
#[derive(Debug)]
pub struct InterruptSafeStream<S> {
    /// Underlying stream that produces values.
    inner_stream: S,
}

impl<S> InterruptSafeStream<S> {
    /// Returns a new `InterruptSafeStream`, wrapping the provided stream.
    pub fn new(inner_stream: S) -> (r: InterruptSafeStream<S>)
        ensures
            r.inner() == inner_stream,
    {
        Self { inner_stream }
    }

    /// The wrapped stream.
    pub closed spec fn inner(&self) -> S {
        self.inner_stream
    }

    /// Returns the underlying stream, to be polled by the caller.
    pub fn inner_stream_mut(&mut self) -> (r: &mut S)
        ensures
            *r == old(self).inner(),
            final(self).inner() == *final(r),
    {
        &mut self.inner_stream
    }

    /// Returns the underlying stream.
    pub fn inner_stream(&self) -> (r: &S)
        ensures
            *r == self.inner(),
    {
        &self.inner_stream
    }
}

} // verus!
