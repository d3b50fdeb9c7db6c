use vstd::prelude::*;

use crate::cpu::address::Address;

verus! {

/// The latest access to a memory-mapped port.
#[derive(Clone, Copy, Debug, PartialEq, Eq, Structural)]
pub struct PortAccess {
    pub address: Address,
    pub value: u8,
    pub access_mode: AccessMode,
}

#[derive(Clone, Copy, Debug, PartialEq, Eq, Structural)]
pub enum AccessMode {
    Read,
    Write,
}

} // verus!
