use anc_isa::layout::InstructionLayout;
use anc_isa::opcode::{Opcode, MAX_OPCODE_NUMBER};

fn all_opcodes() -> Vec<Opcode> {
    let mut all = Vec::new();
    for code in 0..=u16::MAX {
        if let Some(opcode) = Opcode::from_code(code) {
            all.push(opcode);
        }
    }
    all
}

#[test]
fn opcode_codes() {
    assert_eq!(Opcode::nop.code(), 0x0100);
    assert_eq!(Opcode::imm_f64.code(), 0x0104);
    assert_eq!(Opcode::local_load_i64.code(), 0x0200);
    assert_eq!(Opcode::data_store_dynamic_f32.code(), 0x032c);
    assert_eq!(Opcode::add_i32.code(), 0x0400);
    assert_eq!(Opcode::rem_i32_s.code(), 0x0407);
    assert_eq!(Opcode::and.code(), 0x0500);
    assert_eq!(Opcode::abs_i32.code(), 0x0600);
    assert_eq!(Opcode::truncate_i64_to_i32.code(), 0x0700);
    assert_eq!(Opcode::eqz_i32.code(), 0x0800);
    assert_eq!(Opcode::end.code(), 0x0900);
    assert_eq!(Opcode::block.code(), 0x0901);
    assert_eq!(Opcode::break_.code(), 0x0902);
    assert_eq!(Opcode::recur.code(), 0x0903);
    assert_eq!(Opcode::block_alt.code(), 0x0904);
    assert_eq!(Opcode::break_alt.code(), 0x0905);
    assert_eq!(Opcode::block_nez.code(), 0x0906);
    assert_eq!(Opcode::extcall.code(), 0x090b);
    assert_eq!(Opcode::memory_allocate.code(), 0x0a00);
    assert_eq!(Opcode::terminate.code(), 0x0a05);
    assert_eq!(Opcode::get_function.code(), 0x0b00);
    assert_eq!(Opcode::host_addr_data_dynamic.code(), 0x0b06);
}

#[test]
fn opcode_codes_match_declaration_order() {
    // the items of a category are numbered in the order of the variants
    assert_eq!(Opcode::nop as u16, 0);
    let all = all_opcodes();
    assert_eq!(all.len(), 251);
    for (position, opcode) in all.iter().enumerate() {
        assert_eq!(*opcode as usize, position);
    }
}

#[test]
fn opcode_found_by_code() {
    assert_eq!(Opcode::from_code(0x0100), Some(Opcode::nop));
    assert_eq!(Opcode::from_code(0x0901), Some(Opcode::block));
    assert_eq!(Opcode::from_code(0x0b06), Some(Opcode::host_addr_data_dynamic));
    assert_eq!(Opcode::from_code(0x0000), None);
    assert_eq!(Opcode::from_code(0x0001), None);
    assert_eq!(Opcode::from_code(0x0105), None);
    assert_eq!(Opcode::from_code(0x01ff), None);
    assert_eq!(Opcode::from_code(0x0b07), None);
    assert_eq!(Opcode::from_code(0x0c00), None);
    assert_eq!(Opcode::from_code(0xffff), None);
    let mut count = 0;
    for code in 0..=u16::MAX {
        if let Some(opcode) = Opcode::from_code(code) {
            assert_eq!(opcode.code(), code);
            assert!((code as usize) < MAX_OPCODE_NUMBER);
            assert!(code >> 8 >= 1 && code >> 8 <= 11);
            count += 1;
        }
    }
    assert_eq!(count, 251);
}

#[test]
fn opcode_names() {
    assert_eq!(Opcode::nop.get_name(), "nop");
    assert_eq!(Opcode::break_.get_name(), "break");
    assert_eq!(Opcode::local_load_i64.get_name(), "local_load_64");
    assert_eq!(Opcode::host_addr_data_dynamic.get_name(), "host_addr_data_dynamic");
    assert_eq!(Opcode::round_half_away_from_zero_f64.get_name(), "round_half_away_from_zero_f64");
    assert_eq!(Opcode::from_name("nop"), Opcode::nop);
    assert_eq!(Opcode::from_name("break"), Opcode::break_);
    assert_eq!(Opcode::from_name("local_load_i64"), Opcode::local_load_i64);
    assert_eq!(Opcode::from_name("rem_i32_s"), Opcode::rem_i32_s);
    assert_eq!(Opcode::from_name("host_addr_data_dynamic"), Opcode::host_addr_data_dynamic);
}

#[test]
fn opcode_found_by_printed_name() {
    for opcode in all_opcodes() {
        if opcode == Opcode::local_load_i64 {
            assert_eq!(Opcode::find_by_name(opcode.get_name()), None);
        } else {
            assert_eq!(Opcode::find_by_name(opcode.get_name()), Some(opcode));
            assert_eq!(Opcode::from_name(opcode.get_name()), opcode);
        }
    }
}

#[test]
fn opcode_names_unknown() {
    for name in ["", "NOP", "nop ", " nop", "break_", "local_load_64", "imm", "imm_i3", "imm_i322"] {
        assert_eq!(Opcode::find_by_name(name), None, "{:?}", name);
    }
}

#[test]
fn opcode_layouts() {
    assert_eq!(Opcode::nop.layout(), InstructionLayout::Bare);
    assert_eq!(Opcode::eqz_i32.layout(), InstructionLayout::Bare);
    assert_eq!(Opcode::end.layout(), InstructionLayout::Bare);
    assert_eq!(Opcode::add_imm_i32.layout(), InstructionLayout::I16);
    assert_eq!(Opcode::sub_imm_i64.layout(), InstructionLayout::I16);
    assert_eq!(Opcode::imm_i32.layout(), InstructionLayout::I32);
    assert_eq!(Opcode::imm_f32.layout(), InstructionLayout::I32);
    assert_eq!(Opcode::imm_i64.layout(), InstructionLayout::I32I32);
    assert_eq!(Opcode::imm_f64.layout(), InstructionLayout::I32I32);
    assert_eq!(Opcode::local_load_i64.layout(), InstructionLayout::I16I32);
    assert_eq!(Opcode::local_store_f32.layout(), InstructionLayout::I16I32);
    assert_eq!(Opcode::data_load_i64.layout(), InstructionLayout::I16I32);
    assert_eq!(Opcode::data_load_extend_i64.layout(), InstructionLayout::I32);
    assert_eq!(Opcode::data_load_dynamic_i64.layout(), InstructionLayout::Bare);
    assert_eq!(Opcode::block.layout(), InstructionLayout::I32I32);
    assert_eq!(Opcode::break_.layout(), InstructionLayout::I16I32);
    assert_eq!(Opcode::recur.layout(), InstructionLayout::I16I32);
    assert_eq!(Opcode::block_alt.layout(), InstructionLayout::I32I32I32);
    assert_eq!(Opcode::break_alt.layout(), InstructionLayout::I32);
    assert_eq!(Opcode::block_nez.layout(), InstructionLayout::I32I32);
    assert_eq!(Opcode::call.layout(), InstructionLayout::I32);
    assert_eq!(Opcode::call_dynamic.layout(), InstructionLayout::Bare);
    assert_eq!(Opcode::syscall.layout(), InstructionLayout::Bare);
    assert_eq!(Opcode::terminate.layout(), InstructionLayout::I32);
    assert_eq!(Opcode::host_addr_data.layout(), InstructionLayout::I16I32);
    assert_eq!(Opcode::host_addr_function_dynamic.layout(), InstructionLayout::Bare);
}

#[test]
fn layout_lengths() {
    let layouts = [
        (InstructionLayout::Bare, 2, 0, false),
        (InstructionLayout::I16, 4, 1, false),
        (InstructionLayout::I32, 8, 1, true),
        (InstructionLayout::I16I32, 8, 2, true),
        (InstructionLayout::I16I16I16, 8, 3, false),
        (InstructionLayout::I32I32, 12, 2, true),
        (InstructionLayout::I32I32I32, 16, 3, true),
    ];
    for (layout, length, count, has_i32) in layouts {
        assert_eq!(layout.length(), length);
        assert_eq!(layout.parameter_count(), count);
        assert_eq!(layout.has_i32(), has_i32);
    }
}
