//! The fixed set of shapes that an encoded instruction can have.

use vstd::prelude::*;

verus! {

/// How the parameters of an instruction follow its opcode.
///
/// An instruction is 16, 32, 64, 96 or 128 bits long. Its opcode takes the
/// first 16 bits. Each parameter is an `i16` or an `i32`, and an `i32` always
/// lies four bytes after the start of the instruction or a multiple of four
/// bytes further on.
#[derive(Debug, PartialEq, Eq, Structural, Clone, Copy)]
pub enum InstructionLayout {
    /// 16 bits: the opcode alone.
    Bare,
    /// 32 bits: the opcode and one `i16`.
    I16,
    /// 64 bits: the opcode, 16 bits of padding and one `i32`.
    I32,
    /// 64 bits: the opcode, one `i16` and one `i32`.
    I16I32,
    /// 64 bits: the opcode and three `i16`.
    I16I16I16,
    /// 96 bits: the opcode, 16 bits of padding and two `i32`.
    I32I32,
    /// 128 bits: the opcode, 16 bits of padding and three `i32`.
    I32I32I32,
}

impl InstructionLayout {
    /// The length in bytes of an instruction of this layout.
    pub open spec fn spec_length(self) -> usize {
        match self {
            InstructionLayout::Bare => 2,
            InstructionLayout::I16 => 4,
            InstructionLayout::I32 => 8,
            InstructionLayout::I16I32 => 8,
            InstructionLayout::I16I16I16 => 8,
            InstructionLayout::I32I32 => 12,
            InstructionLayout::I32I32I32 => 16,
        }
    }

    /// The number of parameters of an instruction of this layout.
    pub open spec fn spec_parameter_count(self) -> usize {
        match self {
            InstructionLayout::Bare => 0,
            InstructionLayout::I16 => 1,
            InstructionLayout::I32 => 1,
            InstructionLayout::I16I32 => 2,
            InstructionLayout::I16I16I16 => 3,
            InstructionLayout::I32I32 => 2,
            InstructionLayout::I32I32I32 => 3,
        }
    }

    /// Whether an instruction of this layout holds an `i32` parameter, and so
    /// has to start on a 4-byte boundary.
    pub open spec fn spec_has_i32(self) -> bool {
        match self {
            InstructionLayout::Bare => false,
            InstructionLayout::I16 => false,
            InstructionLayout::I32 => true,
            InstructionLayout::I16I32 => true,
            InstructionLayout::I16I16I16 => false,
            InstructionLayout::I32I32 => true,
            InstructionLayout::I32I32I32 => true,
        }
    }

    #[verifier::when_used_as_spec(spec_length)]
    pub fn length(self) -> (length: usize)
        ensures
            length == self.spec_length(),
    {
        match self {
            InstructionLayout::Bare => 2,
            InstructionLayout::I16 => 4,
            InstructionLayout::I32 => 8,
            InstructionLayout::I16I32 => 8,
            InstructionLayout::I16I16I16 => 8,
            InstructionLayout::I32I32 => 12,
            InstructionLayout::I32I32I32 => 16,
        }
    }

    #[verifier::when_used_as_spec(spec_parameter_count)]
    pub fn parameter_count(self) -> (count: usize)
        ensures
            count == self.spec_parameter_count(),
    {
        match self {
            InstructionLayout::Bare => 0,
            InstructionLayout::I16 => 1,
            InstructionLayout::I32 => 1,
            InstructionLayout::I16I32 => 2,
            InstructionLayout::I16I16I16 => 3,
            InstructionLayout::I32I32 => 2,
            InstructionLayout::I32I32I32 => 3,
        }
    }

    #[verifier::when_used_as_spec(spec_has_i32)]
    pub fn has_i32(self) -> (has: bool)
        ensures
            has == self.spec_has_i32(),
    {
        match self {
            InstructionLayout::Bare => false,
            InstructionLayout::I16 => false,
            InstructionLayout::I32 => true,
            InstructionLayout::I16I32 => true,
            InstructionLayout::I16I16I16 => false,
            InstructionLayout::I32I32 => true,
            InstructionLayout::I32I32I32 => true,
        }
    }
}

/// Every instruction is a whole number of 16-bit units long, and one that
/// holds an `i32` parameter is a whole number of 32-bit units long.
pub proof fn lemma_layout_lengths(layout: InstructionLayout)
    ensures
        layout.length() % 2 == 0,
        2 <= layout.length() <= 16,
        layout.has_i32() ==> layout.length() % 4 == 0,
        layout.parameter_count() <= 3,
{
}

} // verus!
