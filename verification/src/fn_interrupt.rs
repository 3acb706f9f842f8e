//! Functions that run when an interruption is activated or reported.
use vstd::prelude::*;

verus! {

/// A function to run on interruption, held owned or borrowed
/// (`own::OwnedOrRef<'intx, Box<dyn Fn() + 'intx>>`).
///
/// The struct is opaque: a trait object with a lifetime bound,
/// `dyn Fn() + 'intx`, cannot stand in a verified field. The library decides
/// *when* the function runs; [`RecordedFn`] records each run.
#[verifier::external_body]
pub(crate) struct FnInterrupt<'intx> {
    f: own::OwnedOrRef<'intx, Box<dyn Fn() + 'intx>>,
}

impl<'intx> FnInterrupt<'intx> {
    /// Boxes `f` and holds it owned, through `own::OwnedOrRef::from`.
    #[verifier::external_body]
    fn new<F>(f: F) -> Self where F: Fn() + 'intx {
        FnInterrupt { f: own::OwnedOrRef::from(Box::new(f) as Box<dyn Fn() + 'intx>) }
    }

    /// Borrows the held function with a shorter lifetime, through
    /// `own::OwnedOrRef::reborrow`.
    #[verifier::external_body]
    fn reborrow(&self) -> FnInterrupt<'_> {
        FnInterrupt { f: self.f.reborrow() }
    }

    /// Runs the held function once (`Fn::call` through `own::OwnedOrRef`'s
    /// `Deref`). What the function does is up to its owner.
    #[verifier::external_body]
    fn call(&self) {
        (*self.f)()
    }
}

/// The record of the functions set on a state and run by it, and of what
/// each read of its channel handed over, shared by a state and the states
/// reborrowed from it.
pub struct FnRecord {
    /// How many functions have been set; a function set gets this number
    /// (before it is incremented) as its id.
    pub fns_set: nat,
    /// The ids of the functions run, in the order in which they ran.
    pub runs: Seq<nat>,
    /// What each read of the interrupt channel handed over, in order.
    pub reads: Seq<Option<crate::InterruptSignal>>,
}

/// A function to run on interruption, with the id under which it was set.
pub(crate) struct RecordedFn<'intx> {
    f: FnInterrupt<'intx>,
    id: Ghost<nat>,
}

impl<'intx> RecordedFn<'intx> {
    /// The id under which the function was set.
    pub(crate) closed spec fn id(&self) -> nat {
        self.id@
    }

    /// Holds `f` under the id `id`.
    pub(crate) fn new<F>(f: F, id: Ghost<nat>) -> (r: Self) where F: Fn() + 'intx
        ensures
            r.id() == id@,
    {
        RecordedFn { f: FnInterrupt::new(f), id }
    }

    /// Borrows the function with a shorter lifetime, under the same id.
    pub(crate) fn reborrow(&self) -> (r: RecordedFn<'_>)
        ensures
            r.id() == self.id(),
    {
        RecordedFn { f: self.f.reborrow(), id: Ghost(self.id@) }
    }

    /// Runs the function once, and records the run.
    pub(crate) fn call(&self, record: &mut Ghost<FnRecord>)
        ensures
            final(record)@ == (FnRecord { runs: old(record)@.runs.push(self.id()), ..old(record)@ }),
    {
        self.f.call();
        *record = Ghost(FnRecord { runs: record@.runs.push(self.id@), ..record@ });
    }
}

} // verus!
