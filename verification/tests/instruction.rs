use anc_isa::fault::Fault;
use anc_isa::instruction::{Instruction, Parameters};
use anc_isa::layout::InstructionLayout;
use anc_isa::opcode::Opcode;
use anc_isa::stream::{assemble, InstructionStream};

fn instruction(opcode: Opcode, parameters: Parameters) -> Instruction {
    Instruction::new(opcode, parameters).unwrap()
}

fn sample_parameters(layout: InstructionLayout, seed: i32) -> Parameters {
    let a = seed.wrapping_mul(0x0101_0101).wrapping_add(7);
    let b = !a;
    let c = a.rotate_left(13);
    match layout {
        InstructionLayout::Bare => Parameters::Bare,
        InstructionLayout::I16 => Parameters::I16(a as i16),
        InstructionLayout::I32 => Parameters::I32(a),
        InstructionLayout::I16I32 => Parameters::I16I32(b as i16, a),
        InstructionLayout::I16I16I16 => Parameters::I16I16I16(a as i16, b as i16, c as i16),
        InstructionLayout::I32I32 => Parameters::I32I32(a, b),
        InstructionLayout::I32I32I32 => Parameters::I32I32I32(a, b, c),
    }
}

#[test]
fn encode_exact_bytes() {
    assert_eq!(instruction(Opcode::nop, Parameters::Bare).encode(), vec![0x00, 0x01]);
    assert_eq!(instruction(Opcode::end, Parameters::Bare).encode(), vec![0x00, 0x09]);
    assert_eq!(
        instruction(Opcode::add_imm_i32, Parameters::I16(0x1234)).encode(),
        vec![0x02, 0x04, 0x34, 0x12]
    );
    assert_eq!(
        instruction(Opcode::sub_imm_i64, Parameters::I16(-2)).encode(),
        vec![0x0c, 0x04, 0xfe, 0xff]
    );
    assert_eq!(
        instruction(Opcode::imm_i32, Parameters::I32(0x1122_3344)).encode(),
        vec![0x01, 0x01, 0, 0, 0x44, 0x33, 0x22, 0x11]
    );
    assert_eq!(
        instruction(Opcode::imm_i32, Parameters::I32(-1)).encode(),
        vec![0x01, 0x01, 0, 0, 0xff, 0xff, 0xff, 0xff]
    );
    assert_eq!(
        instruction(Opcode::imm_i32, Parameters::I32(i32::MIN)).encode(),
        vec![0x01, 0x01, 0, 0, 0x00, 0x00, 0x00, 0x80]
    );
    assert_eq!(
        instruction(Opcode::local_load_i64, Parameters::I16I32(3, 0x0102_0304)).encode(),
        vec![0x00, 0x02, 0x03, 0x00, 0x04, 0x03, 0x02, 0x01]
    );
    assert_eq!(
        instruction(Opcode::break_, Parameters::I16I32(i16::MIN, 18)).encode(),
        vec![0x02, 0x09, 0x00, 0x80, 18, 0, 0, 0]
    );
    assert_eq!(
        instruction(Opcode::block, Parameters::I32I32(1, 2)).encode(),
        vec![0x01, 0x09, 0, 0, 1, 0, 0, 0, 2, 0, 0, 0]
    );
    assert_eq!(
        instruction(Opcode::block_alt, Parameters::I32I32I32(1, -2, 0x7fff_ffff)).encode(),
        vec![0x04, 0x09, 0, 0, 1, 0, 0, 0, 0xfe, 0xff, 0xff, 0xff, 0xff, 0xff, 0xff, 0x7f]
    );
}

#[test]
fn instruction_needs_the_layout_of_its_opcode() {
    assert_eq!(Instruction::new(Opcode::nop, Parameters::I16(0)), None);
    assert_eq!(Instruction::new(Opcode::imm_i32, Parameters::Bare), None);
    assert_eq!(Instruction::new(Opcode::imm_i32, Parameters::I16I32(0, 0)), None);
    assert_eq!(Instruction::new(Opcode::block, Parameters::I32I32I32(0, 0, 0)), None);
    assert_eq!(Instruction::new(Opcode::nop, Parameters::I16I16I16(0, 0, 0)), None);
    assert_eq!(
        Instruction::new(Opcode::block, Parameters::I32I32(5, 6)),
        Some(Instruction { opcode: Opcode::block, parameters: Parameters::I32I32(5, 6) })
    );
}

#[test]
fn decode_exact_values() {
    let code = [0x02, 0x09, 0xff, 0xff, 0x12, 0x00, 0x00, 0x80, 0x00, 0x01];
    assert_eq!(
        Instruction::decode(&code, 0),
        Ok(instruction(Opcode::break_, Parameters::I16I32(-1, i32::MIN + 0x12)))
    );
    assert_eq!(Instruction::decode(&code, 0).unwrap().length(), 8);
    assert_eq!(Instruction::decode(&code, 8), Ok(instruction(Opcode::nop, Parameters::Bare)));
    assert_eq!(Instruction::decode(&code, 8).unwrap().length(), 2);
    // the padding of an instruction is not looked at
    let padded = [0x01, 0x01, 0xaa, 0xbb, 0x2a, 0, 0, 0];
    assert_eq!(
        Instruction::decode(&padded, 0),
        Ok(instruction(Opcode::imm_i32, Parameters::I32(42)))
    );
}

#[test]
fn decode_malformed() {
    // no room for an opcode
    assert_eq!(Instruction::decode(&[], 0), Err(Fault::MalformedInstruction));
    assert_eq!(Instruction::decode(&[0x00], 0), Err(Fault::MalformedInstruction));
    assert_eq!(Instruction::decode(&[0x00, 0x01], 1), Err(Fault::MalformedInstruction));
    assert_eq!(Instruction::decode(&[0x00, 0x01], 2), Err(Fault::MalformedInstruction));
    assert_eq!(Instruction::decode(&[0x00, 0x01], 3), Err(Fault::MalformedInstruction));
    assert_eq!(Instruction::decode(&[0x00, 0x01], usize::MAX), Err(Fault::MalformedInstruction));
    // codes that are no opcode
    assert_eq!(Instruction::decode(&[0x00, 0x00], 0), Err(Fault::MalformedInstruction));
    assert_eq!(Instruction::decode(&[0x05, 0x01], 0), Err(Fault::MalformedInstruction));
    assert_eq!(Instruction::decode(&[0x00, 0x0c], 0), Err(Fault::MalformedInstruction));
    assert_eq!(Instruction::decode(&[0xff, 0xff], 0), Err(Fault::MalformedInstruction));
    // the stream ends inside the instruction
    assert_eq!(Instruction::decode(&[0x02, 0x04, 0x01], 0), Err(Fault::MalformedInstruction));
    assert_eq!(
        Instruction::decode(&[0x01, 0x01, 0, 0, 1, 2, 3], 0),
        Err(Fault::MalformedInstruction)
    );
    assert_eq!(
        Instruction::decode(&[0x04, 0x09, 0, 0, 1, 0, 0, 0, 2, 0, 0, 0, 3, 0, 0], 0),
        Err(Fault::MalformedInstruction)
    );
}

#[test]
fn decode_gives_back_what_was_encoded() {
    let mut seen = 0;
    for code in 0..=u16::MAX {
        let Some(opcode) = Opcode::from_code(code) else {
            continue;
        };
        seen += 1;
        for seed in [0, 1, -1, 0x1234_5678, i32::MIN, i32::MAX, code as i32] {
            let parameters = sample_parameters(opcode.layout(), seed);
            let written = instruction(opcode, parameters);
            let bytes = written.encode();
            assert_eq!(bytes.len(), opcode.layout().length());
            assert_eq!(Instruction::decode(&bytes, 0), Ok(written));
            // inside a stream
            let mut stream = vec![0xee; 6];
            stream.extend_from_slice(&bytes);
            stream.extend_from_slice(&[0xdd; 3]);
            assert_eq!(Instruction::decode(&stream, 6), Ok(written));
        }
    }
    assert_eq!(seen, 251);
}

#[test]
fn three_i16_parameters() {
    // no opcode has this layout yet, so no instruction can hold it
    let parameters = Parameters::I16I16I16(1, -1, 0x7fff);
    assert_eq!(parameters.layout(), InstructionLayout::I16I16I16);
    for code in 0..=u16::MAX {
        if let Some(opcode) = Opcode::from_code(code) {
            assert_eq!(Instruction::new(opcode, parameters), None);
        }
    }
}

#[test]
fn emit_pads_before_i32_parameters() {
    let nop = instruction(Opcode::nop, Parameters::Bare);
    let imm = instruction(Opcode::imm_i32, Parameters::I32(0x11));
    let add = instruction(Opcode::add_imm_i32, Parameters::I16(1));

    let mut stream = InstructionStream::new();
    assert_eq!(stream.len(), 0);
    stream.emit(&imm); // at 0: aligned
    assert_eq!(stream.len(), 8);
    stream.emit(&nop); // at 8
    assert_eq!(stream.len(), 10);
    stream.emit(&imm); // at 10: one nop, then at 12
    assert_eq!(stream.len(), 20);
    stream.emit(&add); // at 20, no i32: no padding
    assert_eq!(stream.len(), 24);
    stream.emit(&nop); // at 24
    stream.emit(&add); // at 26: not aligned, but no i32
    assert_eq!(stream.len(), 30);
    stream.emit(&imm); // at 30: one nop, then at 32
    assert_eq!(stream.len(), 40);
    let bytes = stream.into_bytes();
    assert_eq!(
        bytes,
        vec![
            0x01, 0x01, 0, 0, 0x11, 0, 0, 0, // imm_i32
            0x00, 0x01, // nop
            0x00, 0x01, // padding
            0x01, 0x01, 0, 0, 0x11, 0, 0, 0, // imm_i32
            0x02, 0x04, 0x01, 0x00, // add_imm_i32
            0x00, 0x01, // nop
            0x02, 0x04, 0x01, 0x00, // add_imm_i32
            0x00, 0x01, // padding
            0x01, 0x01, 0, 0, 0x11, 0, 0, 0, // imm_i32
        ]
    );
}

#[test]
fn assembled_stream_decodes_with_its_padding() {
    let program = [
        instruction(Opcode::nop, Parameters::Bare),
        instruction(Opcode::block, Parameters::I32I32(0, 0)),
        instruction(Opcode::imm_i32, Parameters::I32(11)),
        instruction(Opcode::add_imm_i32, Parameters::I16(2)),
        instruction(Opcode::eqz_i32, Parameters::Bare),
        instruction(Opcode::block_alt, Parameters::I32I32I32(1, 2, 3)),
        instruction(Opcode::end, Parameters::Bare),
        instruction(Opcode::break_, Parameters::I16I32(0, 18)),
        instruction(Opcode::end, Parameters::Bare),
        instruction(Opcode::local_load_f32, Parameters::I16I32(1, 2)),
    ];
    let bytes = assemble(&program);
    assert_eq!(bytes.len() % 4, 0);
    let mut decoded = Vec::new();
    let mut offset = 0;
    while offset < bytes.len() {
        let next = Instruction::decode(&bytes, offset).unwrap();
        if next.opcode.layout().has_i32() {
            assert_eq!(offset % 4, 0);
        }
        offset += next.length();
        decoded.push(next);
    }
    assert_eq!(offset, bytes.len());
    let nop = instruction(Opcode::nop, Parameters::Bare);
    let expected = vec![
        program[0], nop, program[1], program[2], program[3], program[4], nop, program[5],
        program[6], nop, program[7], program[8], nop, program[9],
    ];
    assert_eq!(bytes.len(), 72);
    assert_eq!(decoded, expected);
    assert_eq!(assemble(&[]), Vec::<u8>::new());
}
