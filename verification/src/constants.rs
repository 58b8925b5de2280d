//! The three bit fields of an opcode byte.

use vstd::prelude::*;

verus! {

/// Bits 7-6: the instruction group.
pub const GROUP: u8 = 0b1100_0000;

/// Bits 5-3: the index of the instruction inside its group.
pub const INDEX: u8 = 0b0011_1000;

/// Bits 2-0: the operand type.
pub const TYPE: u8 = 0b0000_0111;

/// The group field of an opcode, as a number below 4.
pub open spec fn group_of(instr: u8) -> u8 {
    instr / 64
}

/// The index field of an opcode, as a number below 8.
pub open spec fn index_of(instr: u8) -> u8 {
    (instr / 8) % 8
}

/// The type field of an opcode, as a number below 8.
pub open spec fn type_of(instr: u8) -> u8 {
    instr % 8
}

/// Splits an opcode into its group, index and type fields.
pub fn fields(instr: u8) -> (f: (u8, u8, u8))
    ensures
        f.0 == group_of(instr),
        f.1 == index_of(instr),
        f.2 == type_of(instr),
        f.0 < 4,
        f.1 < 8,
        f.2 < 8,
{
    assert((instr & 0b1100_0000) >> 6 == instr / 64) by (bit_vector);
    assert((instr & 0b0011_1000) >> 3 == (instr / 8) % 8) by (bit_vector);
    assert(instr & 0b0000_0111 == instr % 8) by (bit_vector);
    ((instr & GROUP) >> 6, (instr & INDEX) >> 3, instr & TYPE)
}

/// The three fields of an opcode determine it: nothing is lost in the split.
pub proof fn fields_are_lossless(instr: u8)
    ensures
        instr == group_of(instr) * 64 + index_of(instr) * 8 + type_of(instr),
{
}

} // verus!
