use std::ops::{Deref, DerefMut};

use vstd::prelude::*;

verus! {

/// Holds an owned `T` or a mutable reference.
#[derive(Debug)]
pub enum OwnedOrMutRef<'r, T> {
    /// Holds an owned `T`.
    Owned(T),
    /// Holds a mutable reference to `T`.
    MutRef(&'r mut T),
}

impl<'r, T> OwnedOrMutRef<'r, T> {
    /// The value that this `OwnedOrMutRef` holds or refers to.
    pub open spec fn value(&self) -> T {
        match self {
            OwnedOrMutRef::Owned(t) => *t,
            OwnedOrMutRef::MutRef(t) => **t,
        }
    }

    /// Reborrows this `OwnedOrMutRef` with a shorter lifetime.
    ///
    /// For an `Owned` variant, this borrows it as a `MutRef`.
    pub fn reborrow(&mut self) -> (r: OwnedOrMutRef<'_, T>)
        ensures
            r.value() == old(self).value(),
            r is MutRef,
            *final(r->MutRef_0) == final(self).value(),
            (*old(self) is Owned) ==> (*final(self) is Owned),
            (*old(self) is MutRef) ==> (*final(self) is MutRef
                && *final(final(self)->MutRef_0) == *final(old(self)->MutRef_0)),
    {
        match self {
            OwnedOrMutRef::Owned(t) => OwnedOrMutRef::MutRef(t),
            OwnedOrMutRef::MutRef(t) => OwnedOrMutRef::MutRef(t),
        }
    }

    /// Returns a mutable reference to the held or referred value.
    pub fn value_mut(&mut self) -> (r: &mut T)
        ensures
            *r == old(self).value(),
            final(self).value() == *final(r),
            (*old(self) is Owned) ==> (*final(self) is Owned),
            (*old(self) is MutRef) ==> (*final(self) is MutRef
                && *final(final(self)->MutRef_0) == *final(old(self)->MutRef_0)),
    {
        match self {
            OwnedOrMutRef::Owned(t) => t,
            OwnedOrMutRef::MutRef(t) => t,
        }
    }
}

impl<'r, T> Deref for OwnedOrMutRef<'r, T> {
    type Target = T;

    fn deref(&self) -> (r: &Self::Target)
        ensures
            *r == self.value(),
    {
        match self {
            OwnedOrMutRef::Owned(t) => t,
            OwnedOrMutRef::MutRef(t) => t,
        }
    }
}

impl<'r, T> DerefMut for OwnedOrMutRef<'r, T> {
    fn deref_mut(&mut self) -> (r: &mut Self::Target)
        ensures
            *r == old(self).value(),
            final(self).value() == *final(r),
            (*old(self) is Owned) ==> (*final(self) is Owned),
            (*old(self) is MutRef) ==> (*final(self) is MutRef
                && *final(final(self)->MutRef_0) == *final(old(self)->MutRef_0)),
    {
        match self {
            OwnedOrMutRef::Owned(t) => t,
            OwnedOrMutRef::MutRef(t) => t,
        }
    }
}

impl<'r, T> From<T> for OwnedOrMutRef<'r, T> {
    fn from(v: T) -> (r: Self)
        ensures
            r == OwnedOrMutRef::<'r, T>::Owned(v),
    {
        Self::Owned(v)
    }
}

impl<'r, T> vstd::std_specs::convert::FromSpecImpl<T> for OwnedOrMutRef<'r, T> {
    open spec fn obeys_from_spec() -> bool {
        true
    }

    open spec fn from_spec(v: T) -> Self {
        OwnedOrMutRef::Owned(v)
    }
}

impl<'r, T> From<&'r mut T> for OwnedOrMutRef<'r, T> {
    fn from(v: &'r mut T) -> (r: Self)
        ensures
            r is MutRef,
            r.value() == *old(v),
            *final(r->MutRef_0) == *final(v),
    {
        Self::MutRef(v)
    }
}

impl<'r, T> vstd::std_specs::convert::FromSpecImpl<&'r mut T> for OwnedOrMutRef<'r, T> {
    /// A mutable reference is not a plain value, so `from` is described by its
    /// own `ensures` rather than by `from_spec`.
    open spec fn obeys_from_spec() -> bool {
        false
    }

    open spec fn from_spec(v: &'r mut T) -> Self {
        OwnedOrMutRef::MutRef(v)
    }
}

} // verus!
