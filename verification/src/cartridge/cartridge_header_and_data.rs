use vstd::prelude::*;

verus! {

/// The raw bytes of a ROM file: its header followed by its data.
pub struct CartridgeHeaderAndData {
    header_and_data: Vec<u8>,
}

} // verus!
