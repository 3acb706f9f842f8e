//! Pinned boxes that hold the futures and streams being driven.
use vstd::prelude::*;

verus! {

/// `std::pin::Pin`, carried through the library without being looked into.
#[verifier::external_type_specification]
#[verifier::external_body]
#[verifier::reject_recursive_types(Ptr)]
pub struct ExPin<Ptr>(std::pin::Pin<Ptr>);

/// Calls `Box::pin`, which moves `value` to the heap and pins it there.
///
/// Nothing is claimed of the result: a pinned box is opaque to the library,
/// which only hands it back to the caller that polls it.
#[verifier::external_body]
pub(crate) fn box_pin<T>(value: T) -> std::pin::Pin<Box<T>> {
    Box::pin(value)
}

} // verus!
