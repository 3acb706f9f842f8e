use vstd::prelude::*;

verus! {

/// Signal signifying an interruption.
#[derive(Debug, Clone, Copy, PartialEq, Eq, Structural)]
pub struct InterruptSignal;

impl From<((), InterruptSignal)> for InterruptSignal {
    fn from(v: ((), InterruptSignal)) -> (r: Self) {
        InterruptSignal
    }
}

impl vstd::std_specs::convert::FromSpecImpl<((), InterruptSignal)> for InterruptSignal {
    open spec fn obeys_from_spec() -> bool {
        true
    }

    open spec fn from_spec(v: ((), InterruptSignal)) -> Self {
        InterruptSignal
    }
}

} // verus!
