use vstd::prelude::*;

verus! {

/// How the four logical name tables map onto the console's two physical ones.
#[derive(PartialEq, Eq, Clone, Copy, Debug, Structural)]
pub enum NameTableMirroring {
    Horizontal,
    Vertical,
    FourScreen,
}

} // verus!
