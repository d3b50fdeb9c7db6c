use vstd::prelude::*;

verus! {

/// What a counter stops doing while it is disabled.
#[derive(Clone, Copy, Debug, PartialEq, Eq, Structural)]
pub enum WhenDisabledPrevent {
    Counting,
    Triggering,
    CountingAndTriggering,
}

} // verus!
