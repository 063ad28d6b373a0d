//! Instructions and their binary encoding.
//!
//! An encoded instruction starts with the 16-bit code of its opcode, low byte
//! first. The parameters follow as the layout of the opcode says, each low
//! byte first, an `i32` always four bytes or a multiple of four bytes after
//! the start of the instruction. Nothing in the bytes tells how long the
//! instruction is: the opcode alone decides.

use crate::fault::Fault;
use crate::layout::InstructionLayout;
use crate::opcode::Opcode;
use vstd::prelude::*;

verus! {

use crate::opcode::lemma_code_found;

/// The bits of a 16-bit two's complement number.
pub open spec fn i16_bits(value: i16) -> u16 {
    if value < 0 {
        (value + 0x1_0000) as u16
    } else {
        value as u16
    }
}

/// The 16-bit two's complement number with the given bits.
pub open spec fn i16_of_bits(bits: u16) -> i16 {
    if bits >= 0x8000 {
        (bits - 0x1_0000) as i16
    } else {
        bits as i16
    }
}

/// The bits of a 32-bit two's complement number.
pub open spec fn i32_bits(value: i32) -> u32 {
    if value < 0 {
        (value + 0x1_0000_0000) as u32
    } else {
        value as u32
    }
}

/// The 32-bit two's complement number with the given bits.
pub open spec fn i32_of_bits(bits: u32) -> i32 {
    if bits >= 0x8000_0000 {
        (bits - 0x1_0000_0000) as i32
    } else {
        bits as i32
    }
}

/// The two bytes of a 16-bit number, low byte first.
pub open spec fn u16_bytes(bits: u16) -> Seq<u8> {
    seq![(bits % 0x100) as u8, (bits / 0x100) as u8]
}

/// The four bytes of a 32-bit number, low byte first.
pub open spec fn u32_bytes(bits: u32) -> Seq<u8> {
    seq![
        (bits % 0x100) as u8,
        (bits / 0x100 % 0x100) as u8,
        (bits / 0x1_0000 % 0x100) as u8,
        (bits / 0x100_0000) as u8,
    ]
}

/// The 16-bit number whose two bytes, low byte first, stand at `at`.
pub open spec fn u16_at(bytes: Seq<u8>, at: int) -> u16 {
    (bytes[at] as int + bytes[at + 1] as int * 0x100) as u16
}

/// The 32-bit number whose four bytes, low byte first, stand at `at`.
pub open spec fn u32_at(bytes: Seq<u8>, at: int) -> u32 {
    (bytes[at] as int + bytes[at + 1] as int * 0x100 + bytes[at + 2] as int * 0x1_0000 + bytes[at
        + 3] as int * 0x100_0000) as u32
}

/// The parameters of one instruction.
#[derive(Debug, PartialEq, Eq, Structural, Clone, Copy)]
pub enum Parameters {
    Bare,
    I16(i16),
    I32(i32),
    I16I32(i16, i32),
    I16I16I16(i16, i16, i16),
    I32I32(i32, i32),
    I32I32I32(i32, i32, i32),
}

/// An opcode with its parameters.
#[derive(Debug, PartialEq, Eq, Structural, Clone, Copy)]
pub struct Instruction {
    pub opcode: Opcode,
    pub parameters: Parameters,
}

impl Parameters {
    /// The layout that holds these parameters.
    pub open spec fn spec_layout(self) -> InstructionLayout {
        match self {
            Parameters::Bare => InstructionLayout::Bare,
            Parameters::I16(_) => InstructionLayout::I16,
            Parameters::I32(_) => InstructionLayout::I32,
            Parameters::I16I32(_, _) => InstructionLayout::I16I32,
            Parameters::I16I16I16(_, _, _) => InstructionLayout::I16I16I16,
            Parameters::I32I32(_, _) => InstructionLayout::I32I32,
            Parameters::I32I32I32(_, _, _) => InstructionLayout::I32I32I32,
        }
    }

    /// The bytes that follow the opcode: the parameters in order, after 16
    /// bits of zeros where the first parameter is an `i32`.
    pub open spec fn encoded(self) -> Seq<u8> {
        match self {
            Parameters::Bare => Seq::empty(),
            Parameters::I16(a) => u16_bytes(i16_bits(a)),
            Parameters::I32(a) => seq![0u8, 0u8] + u32_bytes(i32_bits(a)),
            Parameters::I16I32(a, b) => u16_bytes(i16_bits(a)) + u32_bytes(i32_bits(b)),
            Parameters::I16I16I16(a, b, c) => u16_bytes(i16_bits(a)) + u16_bytes(i16_bits(b))
                + u16_bytes(i16_bits(c)),
            Parameters::I32I32(a, b) => seq![0u8, 0u8] + u32_bytes(i32_bits(a)) + u32_bytes(
                i32_bits(b),
            ),
            Parameters::I32I32I32(a, b, c) => seq![0u8, 0u8] + u32_bytes(i32_bits(a)) + u32_bytes(
                i32_bits(b),
            ) + u32_bytes(i32_bits(c)),
        }
    }

    /// The parameters of the given layout that stand in `code` from `at` on,
    /// where `at` is two bytes after the start of the instruction.
    pub open spec fn decoded(layout: InstructionLayout, code: Seq<u8>, at: int) -> Parameters {
        match layout {
            InstructionLayout::Bare => Parameters::Bare,
            InstructionLayout::I16 => Parameters::I16(i16_of_bits(u16_at(code, at))),
            InstructionLayout::I32 => Parameters::I32(i32_of_bits(u32_at(code, at + 2))),
            InstructionLayout::I16I32 => Parameters::I16I32(
                i16_of_bits(u16_at(code, at)),
                i32_of_bits(u32_at(code, at + 2)),
            ),
            InstructionLayout::I16I16I16 => Parameters::I16I16I16(
                i16_of_bits(u16_at(code, at)),
                i16_of_bits(u16_at(code, at + 2)),
                i16_of_bits(u16_at(code, at + 4)),
            ),
            InstructionLayout::I32I32 => Parameters::I32I32(
                i32_of_bits(u32_at(code, at + 2)),
                i32_of_bits(u32_at(code, at + 6)),
            ),
            InstructionLayout::I32I32I32 => Parameters::I32I32I32(
                i32_of_bits(u32_at(code, at + 2)),
                i32_of_bits(u32_at(code, at + 6)),
                i32_of_bits(u32_at(code, at + 10)),
            ),
        }
    }

    #[verifier::when_used_as_spec(spec_layout)]
    pub fn layout(self) -> (layout: InstructionLayout)
        ensures
            layout == self.spec_layout(),
    {
        match self {
            Parameters::Bare => InstructionLayout::Bare,
            Parameters::I16(_) => InstructionLayout::I16,
            Parameters::I32(_) => InstructionLayout::I32,
            Parameters::I16I32(_, _) => InstructionLayout::I16I32,
            Parameters::I16I16I16(_, _, _) => InstructionLayout::I16I16I16,
            Parameters::I32I32(_, _) => InstructionLayout::I32I32,
            Parameters::I32I32I32(_, _, _) => InstructionLayout::I32I32I32,
        }
    }
}

impl Instruction {
    /// An instruction is well formed when its parameters have the layout of
    /// its opcode.
    pub open spec fn well_formed(self) -> bool {
        self.parameters.layout() == self.opcode.layout()
    }

    /// The length of the encoded instruction in bytes.
    pub open spec fn spec_length(self) -> usize {
        self.opcode.layout().length()
    }

    /// The encoded instruction.
    pub open spec fn encoded(self) -> Seq<u8> {
        u16_bytes(self.opcode.code()) + self.parameters.encoded()
    }

    /// The instruction that starts at `offset` of `code`.
    pub open spec fn decoded(code: Seq<u8>, offset: int) -> Result<Instruction, Fault> {
        if offset < 0 || offset + 2 > code.len() {
            Err(Fault::MalformedInstruction)
        } else {
            match Opcode::spec_from_code(u16_at(code, offset)) {
                None => Err(Fault::MalformedInstruction),
                Some(opcode) => if offset + opcode.layout().length() > code.len() {
                    Err(Fault::MalformedInstruction)
                } else {
                    Ok(
                        Instruction {
                            opcode,
                            parameters: Parameters::decoded(opcode.layout(), code, offset + 2),
                        },
                    )
                },
            }
        }
    }

    /// The instruction with the given opcode and parameters, if the
    /// parameters have the layout of the opcode.
    pub fn new(opcode: Opcode, parameters: Parameters) -> (instruction: Option<Instruction>)
        ensures
            instruction == if parameters.layout() == opcode.layout() {
                Some(Instruction { opcode, parameters })
            } else {
                None
            },
    {
        if parameters.layout() == opcode.layout() {
            Some(Instruction { opcode, parameters })
        } else {
            None
        }
    }

    #[verifier::when_used_as_spec(spec_length)]
    pub fn length(self) -> (length: usize)
        ensures
            length == self.spec_length(),
    {
        self.opcode.layout().length()
    }

    /// Encodes the instruction.
    pub fn encode(&self) -> (bytes: Vec<u8>)
        requires
            self.well_formed(),
        ensures
            bytes@ == self.encoded(),
            bytes.len() == self.length(),
    {
        let mut bytes: Vec<u8> = Vec::new();
        push_u16(&mut bytes, self.opcode.code());
        match self.parameters {
            Parameters::Bare => {},
            Parameters::I16(a) => {
                push_i16(&mut bytes, a);
            },
            Parameters::I32(a) => {
                push_padding(&mut bytes);
                push_i32(&mut bytes, a);
            },
            Parameters::I16I32(a, b) => {
                push_i16(&mut bytes, a);
                push_i32(&mut bytes, b);
            },
            Parameters::I16I16I16(a, b, c) => {
                push_i16(&mut bytes, a);
                push_i16(&mut bytes, b);
                push_i16(&mut bytes, c);
            },
            Parameters::I32I32(a, b) => {
                push_padding(&mut bytes);
                push_i32(&mut bytes, a);
                push_i32(&mut bytes, b);
            },
            Parameters::I32I32I32(a, b, c) => {
                push_padding(&mut bytes);
                push_i32(&mut bytes, a);
                push_i32(&mut bytes, b);
                push_i32(&mut bytes, c);
            },
        }
        assert(bytes@ =~= self.encoded());
        bytes
    }

    /// Decodes the instruction that starts at `offset` of `code`.
    ///
    /// Fails where `code` ends before the instruction does, and where the two
    /// bytes at `offset` are the code of no opcode.
    pub fn decode(code: &[u8], offset: usize) -> (result: Result<Instruction, Fault>)
        ensures
            result == Self::decoded(code@, offset as int),
    {
        if offset > code.len() || code.len() - offset < 2 {
            return Err(Fault::MalformedInstruction);
        }
        let opcode = match Opcode::from_code(read_u16(code, offset)) {
            Some(opcode) => opcode,
            None => {
                return Err(Fault::MalformedInstruction);
            },
        };
        let layout = opcode.layout();
        if code.len() - offset < layout.length() {
            return Err(Fault::MalformedInstruction);
        }
        let at = offset + 2;
        let parameters = match layout {
            InstructionLayout::Bare => Parameters::Bare,
            InstructionLayout::I16 => Parameters::I16(read_i16(code, at)),
            InstructionLayout::I32 => Parameters::I32(read_i32(code, at + 2)),
            InstructionLayout::I16I32 => Parameters::I16I32(
                read_i16(code, at),
                read_i32(code, at + 2),
            ),
            InstructionLayout::I16I16I16 => Parameters::I16I16I16(
                read_i16(code, at),
                read_i16(code, at + 2),
                read_i16(code, at + 4),
            ),
            InstructionLayout::I32I32 => Parameters::I32I32(
                read_i32(code, at + 2),
                read_i32(code, at + 6),
            ),
            InstructionLayout::I32I32I32 => Parameters::I32I32I32(
                read_i32(code, at + 2),
                read_i32(code, at + 6),
                read_i32(code, at + 10),
            ),
        };
        Ok(Instruction { opcode, parameters })
    }
}

fn push_u16(bytes: &mut Vec<u8>, bits: u16)
    ensures
        final(bytes)@ == old(bytes)@ + u16_bytes(bits),
{
    bytes.push((bits % 0x100) as u8);
    bytes.push((bits / 0x100) as u8);
    assert(bytes@ =~= old(bytes)@ + u16_bytes(bits));
}

fn push_u32(bytes: &mut Vec<u8>, bits: u32)
    ensures
        final(bytes)@ == old(bytes)@ + u32_bytes(bits),
{
    bytes.push((bits % 0x100) as u8);
    bytes.push((bits / 0x100 % 0x100) as u8);
    bytes.push((bits / 0x1_0000 % 0x100) as u8);
    bytes.push((bits / 0x100_0000) as u8);
    assert(bytes@ =~= old(bytes)@ + u32_bytes(bits));
}

fn push_padding(bytes: &mut Vec<u8>)
    ensures
        final(bytes)@ == old(bytes)@ + seq![0u8, 0u8],
{
    bytes.push(0);
    bytes.push(0);
    assert(bytes@ =~= old(bytes)@ + seq![0u8, 0u8]);
}

fn push_i16(bytes: &mut Vec<u8>, value: i16)
    ensures
        final(bytes)@ == old(bytes)@ + u16_bytes(i16_bits(value)),
{
    let bits: u16 = if value < 0 {
        (value as i32 + 0x1_0000) as u16
    } else {
        value as u16
    };
    push_u16(bytes, bits);
}

fn push_i32(bytes: &mut Vec<u8>, value: i32)
    ensures
        final(bytes)@ == old(bytes)@ + u32_bytes(i32_bits(value)),
{
    let bits: u32 = if value < 0 {
        (value as i64 + 0x1_0000_0000) as u32
    } else {
        value as u32
    };
    push_u32(bytes, bits);
}

fn read_u16(code: &[u8], at: usize) -> (bits: u16)
    requires
        at + 2 <= code@.len(),
    ensures
        bits == u16_at(code@, at as int),
{
    let low: u16 = code[at] as u16;
    let high: u16 = code[at + 1] as u16;
    low + high * 0x100
}

fn read_u32(code: &[u8], at: usize) -> (bits: u32)
    requires
        at + 4 <= code@.len(),
    ensures
        bits == u32_at(code@, at as int),
{
    let b0: u32 = code[at] as u32;
    let b1: u32 = code[at + 1] as u32;
    let b2: u32 = code[at + 2] as u32;
    let b3: u32 = code[at + 3] as u32;
    b0 + b1 * 0x100 + b2 * 0x1_0000 + b3 * 0x100_0000
}

fn read_i16(code: &[u8], at: usize) -> (value: i16)
    requires
        at + 2 <= code@.len(),
    ensures
        value == i16_of_bits(u16_at(code@, at as int)),
{
    let bits = read_u16(code, at);
    if bits >= 0x8000 {
        (bits as i32 - 0x1_0000) as i16
    } else {
        bits as i16
    }
}

fn read_i32(code: &[u8], at: usize) -> (value: i32)
    requires
        at + 4 <= code@.len(),
    ensures
        value == i32_of_bits(u32_at(code@, at as int)),
{
    let bits = read_u32(code, at);
    if bits >= 0x8000_0000 {
        (bits as i64 - 0x1_0000_0000) as i32
    } else {
        bits as i32
    }
}

/// A 16-bit number is read back from its two bytes.
proof fn lemma_u16_read_back(code: Seq<u8>, at: int, bits: u16)
    requires
        0 <= at,
        at + 2 <= code.len(),
        code.subrange(at, at + 2) == u16_bytes(bits),
    ensures
        u16_at(code, at) == bits,
{
    let bytes = u16_bytes(bits);
    assert(code[at] == code.subrange(at, at + 2)[0]);
    assert(code[at + 1] == code.subrange(at, at + 2)[1]);
    assert(bytes[0] == bits % 0x100);
    assert(bytes[1] == bits / 0x100);
}

/// A 32-bit number is read back from its four bytes.
proof fn lemma_u32_read_back(code: Seq<u8>, at: int, bits: u32)
    requires
        0 <= at,
        at + 4 <= code.len(),
        code.subrange(at, at + 4) == u32_bytes(bits),
    ensures
        u32_at(code, at) == bits,
{
    let bytes = u32_bytes(bits);
    let part = code.subrange(at, at + 4);
    assert(code[at] == part[0]);
    assert(code[at + 1] == part[1]);
    assert(code[at + 2] == part[2]);
    assert(code[at + 3] == part[3]);
    assert(bytes[0] == bits % 0x100);
    assert(bytes[1] == bits / 0x100 % 0x100);
    assert(bytes[2] == bits / 0x1_0000 % 0x100);
    assert(bytes[3] == bits / 0x100_0000);
}

/// A two's complement number is read back from its bits.
pub proof fn lemma_bits_read_back(narrow: i16, wide: i32)
    ensures
        i16_of_bits(i16_bits(narrow)) == narrow,
        i32_of_bits(i32_bits(wide)) == wide,
{
}

/// An `i16` parameter is read back from where it was written.
proof fn lemma_i16_parameter(code: Seq<u8>, at: int, value: i16)
    requires
        0 <= at,
        at + 2 <= code.len(),
        code.subrange(at, at + 2) == u16_bytes(i16_bits(value)),
    ensures
        i16_of_bits(u16_at(code, at)) == value,
{
    lemma_u16_read_back(code, at, i16_bits(value));
}

/// An `i32` parameter is read back from where it was written.
proof fn lemma_i32_parameter(code: Seq<u8>, at: int, value: i32)
    requires
        0 <= at,
        at + 4 <= code.len(),
        code.subrange(at, at + 4) == u32_bytes(i32_bits(value)),
    ensures
        i32_of_bits(u32_at(code, at)) == value,
{
    lemma_u32_read_back(code, at, i32_bits(value));
}

/// The encoding of a well-formed instruction is as long as its layout says.
pub proof fn lemma_encoded_length(instruction: Instruction)
    requires
        instruction.well_formed(),
    ensures
        instruction.encoded().len() == instruction.length(),
{
}

/// Decoding an encoded instruction gives the instruction back, wherever in a
/// stream the instruction stands.
pub proof fn lemma_decode_encoded(instruction: Instruction, before: Seq<u8>, after: Seq<u8>)
    requires
        instruction.well_formed(),
    ensures
        Instruction::decoded(before + instruction.encoded() + after, before.len() as int) == Ok::<
            Instruction,
            Fault,
        >(instruction),
{
    let encoded = instruction.encoded();
    let code = before + encoded + after;
    let offset = before.len() as int;
    let at = offset + 2;
    lemma_encoded_length(instruction);
    assert(code.subrange(offset, offset + encoded.len()) =~= encoded);
    assert(code.subrange(offset, offset + 2) =~= u16_bytes(instruction.opcode.code()));
    lemma_u16_read_back(code, offset, instruction.opcode.code());
    lemma_code_found(instruction.opcode);
    match instruction.parameters {
        Parameters::Bare => {},
        Parameters::I16(a) => {
            assert(code.subrange(at, at + 2) =~= u16_bytes(i16_bits(a)));
            lemma_i16_parameter(code, at, a);
        },
        Parameters::I32(a) => {
            assert(code.subrange(at + 2, at + 6) =~= u32_bytes(i32_bits(a)));
            lemma_i32_parameter(code, at + 2, a);
        },
        Parameters::I16I32(a, b) => {
            assert(code.subrange(at, at + 2) =~= u16_bytes(i16_bits(a)));
            assert(code.subrange(at + 2, at + 6) =~= u32_bytes(i32_bits(b)));
            lemma_i16_parameter(code, at, a);
            lemma_i32_parameter(code, at + 2, b);
        },
        Parameters::I16I16I16(a, b, c) => {
            assert(code.subrange(at, at + 2) =~= u16_bytes(i16_bits(a)));
            assert(code.subrange(at + 2, at + 4) =~= u16_bytes(i16_bits(b)));
            assert(code.subrange(at + 4, at + 6) =~= u16_bytes(i16_bits(c)));
            lemma_i16_parameter(code, at, a);
            lemma_i16_parameter(code, at + 2, b);
            lemma_i16_parameter(code, at + 4, c);
        },
        Parameters::I32I32(a, b) => {
            assert(code.subrange(at + 2, at + 6) =~= u32_bytes(i32_bits(a)));
            assert(code.subrange(at + 6, at + 10) =~= u32_bytes(i32_bits(b)));
            lemma_i32_parameter(code, at + 2, a);
            lemma_i32_parameter(code, at + 6, b);
        },
        Parameters::I32I32I32(a, b, c) => {
            assert(code.subrange(at + 2, at + 6) =~= u32_bytes(i32_bits(a)));
            assert(code.subrange(at + 6, at + 10) =~= u32_bytes(i32_bits(b)));
            assert(code.subrange(at + 10, at + 14) =~= u32_bytes(i32_bits(c)));
            lemma_i32_parameter(code, at + 2, a);
            lemma_i32_parameter(code, at + 6, b);
            lemma_i32_parameter(code, at + 10, c);
        },
    }
}

/// What is decoded is well formed, and lies within the stream.
pub proof fn lemma_decoded_well_formed(code: Seq<u8>, offset: int)
    ensures
        Instruction::decoded(code, offset) matches Ok(instruction) ==> instruction.well_formed()
            && 0 <= offset && offset + instruction.length() <= code.len(),
{
}

} // verus!
