pub mod number;
pub mod text;

use vstd::prelude::*;

verus! {

/// The byte whose bits, from the most significant down, are `b0` to `b7`.
pub open spec fn pack8(b0: bool, b1: bool, b2: bool, b3: bool, b4: bool, b5: bool, b6: bool, b7: bool) -> u8 {
    (if b0 { 0x80u8 } else { 0u8 }) | (if b1 { 0x40u8 } else { 0u8 }) | (if b2 { 0x20u8 } else { 0u8 })
        | (if b3 { 0x10u8 } else { 0u8 }) | (if b4 { 0x08u8 } else { 0u8 }) | (if b5 { 0x04u8 } else { 0u8 })
        | (if b6 { 0x02u8 } else { 0u8 }) | (if b7 { 0x01u8 } else { 0u8 })
}

/// The byte whose bits, from the most significant down, are the given booleans.
pub open spec fn packed(bools: [bool; 8]) -> u8 {
    pack8(bools[0], bools[1], bools[2], bools[3], bools[4], bools[5], bools[6], bools[7])
}

/// Each bit of a packed byte is the boolean it was packed from.
pub proof fn lemma_pack8_bits(b0: bool, b1: bool, b2: bool, b3: bool, b4: bool, b5: bool, b6: bool, b7: bool)
    ensures
        ({
            let v = pack8(b0, b1, b2, b3, b4, b5, b6, b7);
            &&& (v & 0x80 != 0) == b0
            &&& (v & 0x40 != 0) == b1
            &&& (v & 0x20 != 0) == b2
            &&& (v & 0x10 != 0) == b3
            &&& (v & 0x08 != 0) == b4
            &&& (v & 0x04 != 0) == b5
            &&& (v & 0x02 != 0) == b6
            &&& (v & 0x01 != 0) == b7
        }),
{
    let v = pack8(b0, b1, b2, b3, b4, b5, b6, b7);
    assert(
        (v & 0x80 != 0) == b0 && (v & 0x40 != 0) == b1 && (v & 0x20 != 0) == b2 && (v & 0x10 != 0) == b3
        && (v & 0x08 != 0) == b4 && (v & 0x04 != 0) == b5 && (v & 0x02 != 0) == b6 && (v & 0x01 != 0) == b7
    ) by (bit_vector)
        requires v == pack8(b0, b1, b2, b3, b4, b5, b6, b7);
}

/// Packing the bits of a byte gives the byte back.
pub proof fn lemma_pack8_of_bits(v: u8)
    ensures
        pack8(v & 0x80 != 0, v & 0x40 != 0, v & 0x20 != 0, v & 0x10 != 0,
            v & 0x08 != 0, v & 0x04 != 0, v & 0x02 != 0, v & 0x01 != 0) == v,
{
    assert(pack8(v & 0x80 != 0, v & 0x40 != 0, v & 0x20 != 0, v & 0x10 != 0,
        v & 0x08 != 0, v & 0x04 != 0, v & 0x02 != 0, v & 0x01 != 0) == v) by (bit_vector);
}

/// Packs eight booleans into a byte; the first boolean becomes the most significant bit.
pub fn pack_bools(bools: [bool; 8]) -> (byte: u8)
    ensures byte == packed(bools),
{
    (if bools[0] { 0x80u8 } else { 0u8 }) | (if bools[1] { 0x40u8 } else { 0u8 }) | (if bools[2] { 0x20u8 } else { 0u8 })
        | (if bools[3] { 0x10u8 } else { 0u8 }) | (if bools[4] { 0x08u8 } else { 0u8 }) | (if bools[5] { 0x04u8 } else { 0u8 })
        | (if bools[6] { 0x02u8 } else { 0u8 }) | (if bools[7] { 0x01u8 } else { 0u8 })
}

/// Unpacks a byte into eight booleans; the most significant bit comes first.
pub fn unpack_bools(byte: u8) -> (bools: [bool; 8])
    ensures
        bools[0] == (byte & 0x80 != 0),
        bools[1] == (byte & 0x40 != 0),
        bools[2] == (byte & 0x20 != 0),
        bools[3] == (byte & 0x10 != 0),
        bools[4] == (byte & 0x08 != 0),
        bools[5] == (byte & 0x04 != 0),
        bools[6] == (byte & 0x02 != 0),
        bools[7] == (byte & 0x01 != 0),
        packed(bools) == byte,
{
    proof { lemma_pack8_of_bits(byte); }
    [
        byte & 0x80 != 0,
        byte & 0x40 != 0,
        byte & 0x20 != 0,
        byte & 0x10 != 0,
        byte & 0x08 != 0,
        byte & 0x04 != 0,
        byte & 0x02 != 0,
        byte & 0x01 != 0,
    ]
}

/// Bit `index` of `value`, where 0 is the least significant bit.
pub open spec fn bit_at(value: u8, index: u32) -> bool {
    (value >> index) & 1 == 1
}

/// Whether bit `index` (0 is the least significant) of `value` is set.
pub fn get_bit(value: u8, index: u32) -> (bit: bool)
    requires index < 8,
    ensures bit == bit_at(value, index),
{
    (value >> index) & 1 == 1
}

} // verus!
