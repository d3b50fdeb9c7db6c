use vstd::prelude::*;

verus! {

/// A snapshot of an IRQ counter, for display and debugging.
#[derive(Clone, Copy, Debug, PartialEq, Eq, Structural)]
pub struct IrqCounterInfo {
    pub counting_enabled: bool,
    pub triggering_enabled: bool,
    pub count: u16,
}

} // verus!
