use vstd::prelude::*;

verus! {

/// A color as red, green and blue intensities.
#[derive(PartialEq, Eq, Clone, Copy, Debug, Structural)]
pub struct Rgb {
    pub red: u8,
    pub green: u8,
    pub blue: u8,
}

impl Rgb {
    pub fn new(red: u8, green: u8, blue: u8) -> (rgb: Rgb)
        ensures rgb == (Rgb { red, green, blue }),
    {
        Rgb { red, green, blue }
    }
}

} // verus!
