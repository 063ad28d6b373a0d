//! Building an instruction stream in which every instruction that holds an
//! `i32` parameter starts on a 4-byte boundary.

use crate::instruction::{Instruction, Parameters};
use crate::opcode::Opcode;
use vstd::prelude::*;

verus! {

use crate::fault::Fault;
use crate::instruction::{lemma_decode_encoded, lemma_encoded_length};
use crate::layout::lemma_layout_lengths;

/// The instruction that fills a stream up to the next 4-byte boundary.
pub open spec fn padding_instruction() -> Instruction {
    Instruction { opcode: Opcode::nop, parameters: Parameters::Bare }
}

/// Whether `instruction` cannot start at `length` bytes into a stream: it
/// holds an `i32` parameter, and `length` is no multiple of four.
pub open spec fn needs_padding(length: nat, instruction: Instruction) -> bool {
    instruction.opcode.layout().has_i32() && length % 4 != 0
}

/// `stream` with `instruction` at its end, after one `nop` where the
/// instruction could not start otherwise.
pub open spec fn emitted(stream: Seq<u8>, instruction: Instruction) -> Seq<u8> {
    if needs_padding(stream.len(), instruction) {
        stream + padding_instruction().encoded() + instruction.encoded()
    } else {
        stream + instruction.encoded()
    }
}

/// The stream that holds the given instructions in order, each after the
/// padding that it needs.
pub open spec fn assembled(instructions: Seq<Instruction>) -> Seq<u8>
    decreases instructions.len(),
{
    if instructions.len() == 0 {
        Seq::empty()
    } else {
        emitted(assembled(instructions.drop_last()), instructions.last())
    }
}

/// An instruction stream under construction.
pub struct InstructionStream {
    bytes: Vec<u8>,
}

impl InstructionStream {
    /// The bytes of the stream.
    pub closed spec fn view(self) -> Seq<u8> {
        self.bytes@
    }

    /// A stream is a whole number of 16-bit units long.
    pub open spec fn well_formed(self) -> bool {
        self@.len() % 2 == 0
    }

    /// The empty stream.
    pub fn new() -> (stream: Self)
        ensures
            stream@ == Seq::<u8>::empty(),
            stream.well_formed(),
    {
        InstructionStream { bytes: Vec::new() }
    }

    /// The length of the stream in bytes.
    pub fn len(&self) -> (length: usize)
        ensures
            length == self@.len(),
    {
        self.bytes.len()
    }

    /// Puts `instruction` at the end of the stream, after one `nop` where
    /// the instruction holds an `i32` parameter and would not start on a
    /// 4-byte boundary otherwise.
    pub fn emit(&mut self, instruction: &Instruction)
        requires
            old(self).well_formed(),
            instruction.well_formed(),
        ensures
            final(self)@ == emitted(old(self)@, *instruction),
            final(self).well_formed(),
    {
        proof {
            lemma_layout_lengths(instruction.opcode.layout());
        }
        if instruction.opcode.layout().has_i32() && self.bytes.len() % 4 != 0 {
            let nop = Instruction { opcode: Opcode::nop, parameters: Parameters::Bare };
            let mut padding = nop.encode();
            self.bytes.append(&mut padding);
        }
        let mut encoded = instruction.encode();
        self.bytes.append(&mut encoded);
    }

    /// The bytes of the stream.
    pub fn into_bytes(self) -> (bytes: Vec<u8>)
        ensures
            bytes@ == self@,
    {
        self.bytes
    }
}

/// The stream that holds the given instructions in order, each after the
/// padding that it needs.
pub fn assemble(instructions: &[Instruction]) -> (bytes: Vec<u8>)
    requires
        forall|i: int| 0 <= i < instructions@.len() ==> instructions@[i].well_formed(),
    ensures
        bytes@ == assembled(instructions@),
{
    let mut stream = InstructionStream::new();
    let mut done: usize = 0;
    while done < instructions.len()
        invariant
            done <= instructions@.len(),
            stream.well_formed(),
            stream@ == assembled(instructions@.take(done as int)),
            forall|i: int| 0 <= i < instructions@.len() ==> instructions@[i].well_formed(),
        decreases instructions@.len() - done,
    {
        proof {
            let next = instructions@.take(done + 1);
            assert(next.drop_last() == instructions@.take(done as int));
            assert(next.last() == instructions@[done as int]);
        }
        stream.emit(&instructions[done]);
        done += 1;
    }
    assert(instructions@.take(done as int) == instructions@);
    stream.into_bytes()
}

/// Where `emitted` puts an instruction: at the end of the stream, after one
/// `nop` or none. The stream stays a whole number of 16-bit units long. An
/// instruction that holds an `i32` parameter starts on a 4-byte boundary, and
/// the stream then ends on one.
pub proof fn lemma_emitted_alignment(stream: Seq<u8>, instruction: Instruction)
    requires
        stream.len() % 2 == 0,
        instruction.well_formed(),
    ensures
        ({
            let result = emitted(stream, instruction);
            let start = result.len() - instruction.length();
            &&& result.len() % 2 == 0
            &&& start == stream.len() + (if needs_padding(stream.len(), instruction) {
                2int
            } else {
                0int
            })
            &&& result.subrange(0, stream.len() as int) == stream
            &&& result.subrange(start, result.len() as int) == instruction.encoded()
            &&& instruction.opcode.layout().has_i32() ==> start % 4 == 0 && result.len() % 4 == 0
        }),
{
    lemma_layout_lengths(instruction.opcode.layout());
    lemma_encoded_length(instruction);
}

/// The padding that `emitted` inserts, and the instruction after it, are
/// decoded like any other instruction.
pub proof fn lemma_decode_emitted(stream: Seq<u8>, instruction: Instruction)
    requires
        instruction.well_formed(),
    ensures
        ({
            let result = emitted(stream, instruction);
            let start = result.len() - instruction.length();
            &&& Instruction::decoded(result, start) == Ok::<Instruction, Fault>(instruction)
            &&& needs_padding(stream.len(), instruction) ==> Instruction::decoded(
                result,
                stream.len() as int,
            ) == Ok::<Instruction, Fault>(padding_instruction())
        }),
{
    let result = emitted(stream, instruction);
    lemma_encoded_length(instruction);
    if needs_padding(stream.len(), instruction) {
        let padding = padding_instruction().encoded();
        lemma_encoded_length(padding_instruction());
        lemma_decode_encoded(padding_instruction(), stream, instruction.encoded());
        lemma_decode_encoded(instruction, stream + padding, Seq::empty());
        assert(result == stream + padding + instruction.encoded() + Seq::<u8>::empty());
    } else {
        lemma_decode_encoded(instruction, stream, Seq::empty());
        assert(result == stream + instruction.encoded() + Seq::<u8>::empty());
    }
}

/// An assembled stream is a whole number of 16-bit units long, and one whose
/// last instruction holds an `i32` parameter ends on a 4-byte boundary.
pub proof fn lemma_assembled_alignment(instructions: Seq<Instruction>)
    requires
        forall|i: int| 0 <= i < instructions.len() ==> instructions[i].well_formed(),
    ensures
        assembled(instructions).len() % 2 == 0,
        instructions.len() > 0 && instructions.last().opcode.layout().has_i32() ==> assembled(
            instructions,
        ).len() % 4 == 0,
    decreases instructions.len(),
{
    if instructions.len() > 0 {
        lemma_assembled_alignment(instructions.drop_last());
        lemma_emitted_alignment(assembled(instructions.drop_last()), instructions.last());
    }
}

} // verus!
