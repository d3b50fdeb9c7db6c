use vstd::prelude::*;

verus! {

/// The outcome of a read from a device that may drive only some of the data bus's bits: the
/// value, and the mask of the bits that it drives.
#[derive(Clone, Copy, Debug, PartialEq, Eq, Structural)]
pub struct ReadResult {
    pub value: u8,
    pub mask: u8,
}

impl ReadResult {
    /// A read that drives only the bits of `mask`.
    pub fn partial(value: u8, mask: u8) -> (result: ReadResult)
        ensures result == (ReadResult { value, mask }),
    {
        ReadResult { value, mask }
    }
}

} // verus!
