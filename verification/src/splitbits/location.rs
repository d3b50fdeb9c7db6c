use vstd::prelude::*;

verus! {

/// A run of a field's bits in the input: its length, and the position of its lowest bit.
#[derive(PartialEq, Eq, Clone, Copy, Debug, Structural)]
pub struct Location {
    pub len: u8,
    pub mask_offset: u8,
}

impl Location {
    pub fn new(len: u8, mask_offset: u8) -> (location: Location)
        ensures location == (Location { len, mask_offset }),
    {
        Location { len, mask_offset }
    }

    pub fn len(self) -> (len: u8)
        ensures len == self.len,
    {
        self.len
    }

    pub fn mask_offset(self) -> (mask_offset: u8)
        ensures mask_offset == self.mask_offset,
    {
        self.mask_offset
    }
}

} // verus!
