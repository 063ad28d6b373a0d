//! The opcodes of the virtual machine: their 16-bit codes, their names and
//! the layout of their instructions.
//!
//! An opcode's code holds its category in the high byte and its item within
//! the category in the low byte. The items of a category are numbered from
//! zero without gaps, and every code is below [`MAX_OPCODE_NUMBER`].

use crate::layout::InstructionLayout;
use crate::text::same_text;
use vstd::pervasive::unreached;
use vstd::prelude::*;

verus! {

/// Every opcode's code is below this bound.
pub const MAX_OPCODE_NUMBER: usize = 0x0c_00;

/// One variant per instruction of the virtual machine.
#[allow(non_camel_case_types)]
#[derive(Debug, PartialEq, Eq, Structural, Clone, Copy)]
pub enum Opcode {
    // Category 0x01, fundamental: No operation, and the immediate values.
    nop,
    /// Parameter: the number (i32).
    imm_i32,
    /// Parameters: the low half of the number (i32), its high half (i32).
    imm_i64,
    /// Parameter: the bits of the number (i32).
    imm_f32,
    /// Parameters: the low half of the bits of the number (i32), their high half (i32).
    imm_f64,
    // Category 0x02, local variables: Loads and stores of local variable slots, addressed by layers and index.
    /// Parameters: layers (i16), local variable index (i32).
    local_load_i64,
    /// Parameters: layers (i16), local variable index (i32).
    local_load_i32_s,
    /// Parameters: layers (i16), local variable index (i32).
    local_load_i32_u,
    /// Parameters: layers (i16), local variable index (i32).
    local_load_i16_s,
    /// Parameters: layers (i16), local variable index (i32).
    local_load_i16_u,
    /// Parameters: layers (i16), local variable index (i32).
    local_load_i8_s,
    /// Parameters: layers (i16), local variable index (i32).
    local_load_i8_u,
    /// Parameters: layers (i16), local variable index (i32).
    local_load_f64,
    /// Parameters: layers (i16), local variable index (i32).
    local_load_f32,
    /// Parameters: layers (i16), local variable index (i32).
    local_store_i64,
    /// Parameters: layers (i16), local variable index (i32).
    local_store_i32,
    /// Parameters: layers (i16), local variable index (i32).
    local_store_i16,
    /// Parameters: layers (i16), local variable index (i32).
    local_store_i8,
    /// Parameters: layers (i16), local variable index (i32).
    local_store_f64,
    /// Parameters: layers (i16), local variable index (i32).
    local_store_f32,
    // Category 0x03, data: Loads and stores of data items, addressed by data public index.
    /// Parameters: offset in bytes (i16), data public index (i32).
    data_load_i64,
    /// Parameters: offset in bytes (i16), data public index (i32).
    data_load_i32_s,
    /// Parameters: offset in bytes (i16), data public index (i32).
    data_load_i32_u,
    /// Parameters: offset in bytes (i16), data public index (i32).
    data_load_i16_s,
    /// Parameters: offset in bytes (i16), data public index (i32).
    data_load_i16_u,
    /// Parameters: offset in bytes (i16), data public index (i32).
    data_load_i8_s,
    /// Parameters: offset in bytes (i16), data public index (i32).
    data_load_i8_u,
    /// Parameters: offset in bytes (i16), data public index (i32).
    data_load_f64,
    /// Parameters: offset in bytes (i16), data public index (i32).
    data_load_f32,
    /// Parameters: offset in bytes (i16), data public index (i32).
    data_store_i64,
    /// Parameters: offset in bytes (i16), data public index (i32).
    data_store_i32,
    /// Parameters: offset in bytes (i16), data public index (i32).
    data_store_i16,
    /// Parameters: offset in bytes (i16), data public index (i32).
    data_store_i8,
    /// Parameters: offset in bytes (i16), data public index (i32).
    data_store_f64,
    /// Parameters: offset in bytes (i16), data public index (i32).
    data_store_f32,
    /// Parameter: data public index (i32).
    data_load_extend_i64,
    /// Parameter: data public index (i32).
    data_load_extend_i32_s,
    /// Parameter: data public index (i32).
    data_load_extend_i32_u,
    /// Parameter: data public index (i32).
    data_load_extend_i16_s,
    /// Parameter: data public index (i32).
    data_load_extend_i16_u,
    /// Parameter: data public index (i32).
    data_load_extend_i8_s,
    /// Parameter: data public index (i32).
    data_load_extend_i8_u,
    /// Parameter: data public index (i32).
    data_load_extend_f64,
    /// Parameter: data public index (i32).
    data_load_extend_f32,
    /// Parameter: data public index (i32).
    data_store_extend_i64,
    /// Parameter: data public index (i32).
    data_store_extend_i32,
    /// Parameter: data public index (i32).
    data_store_extend_i16,
    /// Parameter: data public index (i32).
    data_store_extend_i8,
    /// Parameter: data public index (i32).
    data_store_extend_f64,
    /// Parameter: data public index (i32).
    data_store_extend_f32,
    data_load_dynamic_i64,
    data_load_dynamic_i32_s,
    data_load_dynamic_i32_u,
    data_load_dynamic_i16_s,
    data_load_dynamic_i16_u,
    data_load_dynamic_i8_s,
    data_load_dynamic_i8_u,
    data_load_dynamic_f64,
    data_load_dynamic_f32,
    data_store_dynamic_i64,
    data_store_dynamic_i32,
    data_store_dynamic_i16,
    data_store_dynamic_i8,
    data_store_dynamic_f64,
    data_store_dynamic_f32,
    // Category 0x04, arithmetic: Integer and floating-point arithmetic.
    add_i32,
    sub_i32,
    /// Parameter: the number to add (i16).
    add_imm_i32,
    /// Parameter: the number to subtract (i16).
    sub_imm_i32,
    mul_i32,
    div_i32_s,
    div_i32_u,
    rem_i32_s,
    rem_i32_u,
    add_i64,
    sub_i64,
    /// Parameter: the number to add (i16).
    add_imm_i64,
    /// Parameter: the number to subtract (i16).
    sub_imm_i64,
    mul_i64,
    div_i64_s,
    div_i64_u,
    rem_i64_s,
    rem_i64_u,
    add_f32,
    sub_f32,
    mul_f32,
    div_f32,
    add_f64,
    sub_f64,
    mul_f64,
    div_f64,
    // Category 0x05, bitwise: Bitwise logic, shifts, rotations and bit counts.
    and,
    or,
    xor,
    not,
    shift_left_i32,
    shift_right_i32_s,
    shift_right_i32_u,
    rotate_left_i32,
    rotate_right_i32,
    count_leading_zeros_i32,
    count_leading_ones_i32,
    count_trailing_zeros_i32,
    count_ones_i32,
    shift_left_i64,
    shift_right_i64_s,
    shift_right_i64_u,
    rotate_left_i64,
    rotate_right_i64,
    count_leading_zeros_i64,
    count_leading_ones_i64,
    count_trailing_zeros_i64,
    count_ones_i64,
    // Category 0x06, math: Absolute value, negation and the floating-point functions.
    abs_i32,
    neg_i32,
    abs_i64,
    neg_i64,
    abs_f32,
    neg_f32,
    copysign_f32,
    sqrt_f32,
    min_f32,
    max_f32,
    ceil_f32,
    floor_f32,
    round_half_away_from_zero_f32,
    round_half_to_even_f32,
    trunc_f32,
    fract_f32,
    cbrt_f32,
    exp_f32,
    exp2_f32,
    ln_f32,
    log2_f32,
    log10_f32,
    sin_f32,
    cos_f32,
    tan_f32,
    asin_f32,
    acos_f32,
    atan_f32,
    pow_f32,
    log_f32,
    abs_f64,
    neg_f64,
    copysign_f64,
    sqrt_f64,
    min_f64,
    max_f64,
    ceil_f64,
    floor_f64,
    round_half_away_from_zero_f64,
    round_half_to_even_f64,
    trunc_f64,
    fract_f64,
    cbrt_f64,
    exp_f64,
    exp2_f64,
    ln_f64,
    log2_f64,
    log10_f64,
    sin_f64,
    cos_f64,
    tan_f64,
    asin_f64,
    acos_f64,
    atan_f64,
    pow_f64,
    log_f64,
    // Category 0x07, conversion: Conversions between the four operand types.
    truncate_i64_to_i32,
    extend_i32_s_to_i64,
    extend_i32_u_to_i64,
    demote_f64_to_f32,
    promote_f32_to_f64,
    convert_f32_to_i32_s,
    convert_f32_to_i32_u,
    convert_f64_to_i32_s,
    convert_f64_to_i32_u,
    convert_f32_to_i64_s,
    convert_f32_to_i64_u,
    convert_f64_to_i64_s,
    convert_f64_to_i64_u,
    convert_i32_s_to_f32,
    convert_i32_u_to_f32,
    convert_i64_s_to_f32,
    convert_i64_u_to_f32,
    convert_i32_s_to_f64,
    convert_i32_u_to_f64,
    convert_i64_s_to_f64,
    convert_i64_u_to_f64,
    // Category 0x08, comparison: Comparisons; each pushes the i64 value 1 or 0.
    eqz_i32,
    nez_i32,
    eq_i32,
    ne_i32,
    lt_i32_s,
    lt_i32_u,
    gt_i32_s,
    gt_i32_u,
    le_i32_s,
    le_i32_u,
    ge_i32_s,
    ge_i32_u,
    eqz_i64,
    nez_i64,
    eq_i64,
    ne_i64,
    lt_i64_s,
    lt_i64_u,
    gt_i64_s,
    gt_i64_u,
    le_i64_s,
    le_i64_u,
    ge_i64_s,
    ge_i64_u,
    eq_f32,
    ne_f32,
    lt_f32,
    gt_f32,
    le_f32,
    ge_f32,
    eq_f64,
    ne_f64,
    lt_f64,
    gt_f64,
    le_f64,
    ge_f64,
    // Category 0x09, control flow: Structured control flow and calls.
    end,
    /// Parameters: type index (i32), local variable list index (i32).
    block,
    /// Parameters: layers (i16), offset of the next instruction (i32).
    break_,
    /// Parameters: layers (i16), offset back to the first instruction (i32).
    recur,
    /// Parameters: type index (i32), local variable list index (i32), offset of the next instruction (i32).
    block_alt,
    /// Parameter: offset of the next instruction (i32).
    break_alt,
    /// Parameters: local variable list index (i32), offset of the next instruction (i32).
    block_nez,
    /// Parameter: function public index (i32).
    call,
    call_dynamic,
    /// Parameter: number of the environment call (i32).
    envcall,
    syscall,
    /// Parameter: external function index (i32).
    extcall,
    // Category 0x0a, memory: Dynamically allocated memory, and `terminate`.
    memory_allocate,
    memory_resize,
    memory_free,
    memory_fill,
    memory_copy,
    /// Parameter: exit code (i32).
    terminate,
    // Category 0x0b, machine: Function and data handles, and host addresses.
    /// Parameter: function public index (i32).
    get_function,
    /// Parameter: data public index (i32).
    get_data,
    /// Parameter: function public index (i32).
    host_addr_function,
    host_addr_function_dynamic,
    /// Parameters: offset in bytes (i16), data public index (i32).
    host_addr_data,
    /// Parameter: data public index (i32).
    host_addr_data_extend,
    host_addr_data_dynamic,
}

impl Opcode {
    /// The 16-bit code of the opcode: category in the high byte, item in the
    /// low byte.
    pub open spec fn spec_code(self) -> u16 {
        match self {
            Opcode::nop => 0x0100,
            Opcode::imm_i32 => 0x0101,
            Opcode::imm_i64 => 0x0102,
            Opcode::imm_f32 => 0x0103,
            Opcode::imm_f64 => 0x0104,
            Opcode::local_load_i64 => 0x0200,
            Opcode::local_load_i32_s => 0x0201,
            Opcode::local_load_i32_u => 0x0202,
            Opcode::local_load_i16_s => 0x0203,
            Opcode::local_load_i16_u => 0x0204,
            Opcode::local_load_i8_s => 0x0205,
            Opcode::local_load_i8_u => 0x0206,
            Opcode::local_load_f64 => 0x0207,
            Opcode::local_load_f32 => 0x0208,
            Opcode::local_store_i64 => 0x0209,
            Opcode::local_store_i32 => 0x020a,
            Opcode::local_store_i16 => 0x020b,
            Opcode::local_store_i8 => 0x020c,
            Opcode::local_store_f64 => 0x020d,
            Opcode::local_store_f32 => 0x020e,
            Opcode::data_load_i64 => 0x0300,
            Opcode::data_load_i32_s => 0x0301,
            Opcode::data_load_i32_u => 0x0302,
            Opcode::data_load_i16_s => 0x0303,
            Opcode::data_load_i16_u => 0x0304,
            Opcode::data_load_i8_s => 0x0305,
            Opcode::data_load_i8_u => 0x0306,
            Opcode::data_load_f64 => 0x0307,
            Opcode::data_load_f32 => 0x0308,
            Opcode::data_store_i64 => 0x0309,
            Opcode::data_store_i32 => 0x030a,
            Opcode::data_store_i16 => 0x030b,
            Opcode::data_store_i8 => 0x030c,
            Opcode::data_store_f64 => 0x030d,
            Opcode::data_store_f32 => 0x030e,
            Opcode::data_load_extend_i64 => 0x030f,
            Opcode::data_load_extend_i32_s => 0x0310,
            Opcode::data_load_extend_i32_u => 0x0311,
            Opcode::data_load_extend_i16_s => 0x0312,
            Opcode::data_load_extend_i16_u => 0x0313,
            Opcode::data_load_extend_i8_s => 0x0314,
            Opcode::data_load_extend_i8_u => 0x0315,
            Opcode::data_load_extend_f64 => 0x0316,
            Opcode::data_load_extend_f32 => 0x0317,
            Opcode::data_store_extend_i64 => 0x0318,
            Opcode::data_store_extend_i32 => 0x0319,
            Opcode::data_store_extend_i16 => 0x031a,
            Opcode::data_store_extend_i8 => 0x031b,
            Opcode::data_store_extend_f64 => 0x031c,
            Opcode::data_store_extend_f32 => 0x031d,
            Opcode::data_load_dynamic_i64 => 0x031e,
            Opcode::data_load_dynamic_i32_s => 0x031f,
            Opcode::data_load_dynamic_i32_u => 0x0320,
            Opcode::data_load_dynamic_i16_s => 0x0321,
            Opcode::data_load_dynamic_i16_u => 0x0322,
            Opcode::data_load_dynamic_i8_s => 0x0323,
            Opcode::data_load_dynamic_i8_u => 0x0324,
            Opcode::data_load_dynamic_f64 => 0x0325,
            Opcode::data_load_dynamic_f32 => 0x0326,
            Opcode::data_store_dynamic_i64 => 0x0327,
            Opcode::data_store_dynamic_i32 => 0x0328,
            Opcode::data_store_dynamic_i16 => 0x0329,
            Opcode::data_store_dynamic_i8 => 0x032a,
            Opcode::data_store_dynamic_f64 => 0x032b,
            Opcode::data_store_dynamic_f32 => 0x032c,
            Opcode::add_i32 => 0x0400,
            Opcode::sub_i32 => 0x0401,
            Opcode::add_imm_i32 => 0x0402,
            Opcode::sub_imm_i32 => 0x0403,
            Opcode::mul_i32 => 0x0404,
            Opcode::div_i32_s => 0x0405,
            Opcode::div_i32_u => 0x0406,
            Opcode::rem_i32_s => 0x0407,
            Opcode::rem_i32_u => 0x0408,
            Opcode::add_i64 => 0x0409,
            Opcode::sub_i64 => 0x040a,
            Opcode::add_imm_i64 => 0x040b,
            Opcode::sub_imm_i64 => 0x040c,
            Opcode::mul_i64 => 0x040d,
            Opcode::div_i64_s => 0x040e,
            Opcode::div_i64_u => 0x040f,
            Opcode::rem_i64_s => 0x0410,
            Opcode::rem_i64_u => 0x0411,
            Opcode::add_f32 => 0x0412,
            Opcode::sub_f32 => 0x0413,
            Opcode::mul_f32 => 0x0414,
            Opcode::div_f32 => 0x0415,
            Opcode::add_f64 => 0x0416,
            Opcode::sub_f64 => 0x0417,
            Opcode::mul_f64 => 0x0418,
            Opcode::div_f64 => 0x0419,
            Opcode::and => 0x0500,
            Opcode::or => 0x0501,
            Opcode::xor => 0x0502,
            Opcode::not => 0x0503,
            Opcode::shift_left_i32 => 0x0504,
            Opcode::shift_right_i32_s => 0x0505,
            Opcode::shift_right_i32_u => 0x0506,
            Opcode::rotate_left_i32 => 0x0507,
            Opcode::rotate_right_i32 => 0x0508,
            Opcode::count_leading_zeros_i32 => 0x0509,
            Opcode::count_leading_ones_i32 => 0x050a,
            Opcode::count_trailing_zeros_i32 => 0x050b,
            Opcode::count_ones_i32 => 0x050c,
            Opcode::shift_left_i64 => 0x050d,
            Opcode::shift_right_i64_s => 0x050e,
            Opcode::shift_right_i64_u => 0x050f,
            Opcode::rotate_left_i64 => 0x0510,
            Opcode::rotate_right_i64 => 0x0511,
            Opcode::count_leading_zeros_i64 => 0x0512,
            Opcode::count_leading_ones_i64 => 0x0513,
            Opcode::count_trailing_zeros_i64 => 0x0514,
            Opcode::count_ones_i64 => 0x0515,
            Opcode::abs_i32 => 0x0600,
            Opcode::neg_i32 => 0x0601,
            Opcode::abs_i64 => 0x0602,
            Opcode::neg_i64 => 0x0603,
            Opcode::abs_f32 => 0x0604,
            Opcode::neg_f32 => 0x0605,
            Opcode::copysign_f32 => 0x0606,
            Opcode::sqrt_f32 => 0x0607,
            Opcode::min_f32 => 0x0608,
            Opcode::max_f32 => 0x0609,
            Opcode::ceil_f32 => 0x060a,
            Opcode::floor_f32 => 0x060b,
            Opcode::round_half_away_from_zero_f32 => 0x060c,
            Opcode::round_half_to_even_f32 => 0x060d,
            Opcode::trunc_f32 => 0x060e,
            Opcode::fract_f32 => 0x060f,
            Opcode::cbrt_f32 => 0x0610,
            Opcode::exp_f32 => 0x0611,
            Opcode::exp2_f32 => 0x0612,
            Opcode::ln_f32 => 0x0613,
            Opcode::log2_f32 => 0x0614,
            Opcode::log10_f32 => 0x0615,
            Opcode::sin_f32 => 0x0616,
            Opcode::cos_f32 => 0x0617,
            Opcode::tan_f32 => 0x0618,
            Opcode::asin_f32 => 0x0619,
            Opcode::acos_f32 => 0x061a,
            Opcode::atan_f32 => 0x061b,
            Opcode::pow_f32 => 0x061c,
            Opcode::log_f32 => 0x061d,
            Opcode::abs_f64 => 0x061e,
            Opcode::neg_f64 => 0x061f,
            Opcode::copysign_f64 => 0x0620,
            Opcode::sqrt_f64 => 0x0621,
            Opcode::min_f64 => 0x0622,
            Opcode::max_f64 => 0x0623,
            Opcode::ceil_f64 => 0x0624,
            Opcode::floor_f64 => 0x0625,
            Opcode::round_half_away_from_zero_f64 => 0x0626,
            Opcode::round_half_to_even_f64 => 0x0627,
            Opcode::trunc_f64 => 0x0628,
            Opcode::fract_f64 => 0x0629,
            Opcode::cbrt_f64 => 0x062a,
            Opcode::exp_f64 => 0x062b,
            Opcode::exp2_f64 => 0x062c,
            Opcode::ln_f64 => 0x062d,
            Opcode::log2_f64 => 0x062e,
            Opcode::log10_f64 => 0x062f,
            Opcode::sin_f64 => 0x0630,
            Opcode::cos_f64 => 0x0631,
            Opcode::tan_f64 => 0x0632,
            Opcode::asin_f64 => 0x0633,
            Opcode::acos_f64 => 0x0634,
            Opcode::atan_f64 => 0x0635,
            Opcode::pow_f64 => 0x0636,
            Opcode::log_f64 => 0x0637,
            Opcode::truncate_i64_to_i32 => 0x0700,
            Opcode::extend_i32_s_to_i64 => 0x0701,
            Opcode::extend_i32_u_to_i64 => 0x0702,
            Opcode::demote_f64_to_f32 => 0x0703,
            Opcode::promote_f32_to_f64 => 0x0704,
            Opcode::convert_f32_to_i32_s => 0x0705,
            Opcode::convert_f32_to_i32_u => 0x0706,
            Opcode::convert_f64_to_i32_s => 0x0707,
            Opcode::convert_f64_to_i32_u => 0x0708,
            Opcode::convert_f32_to_i64_s => 0x0709,
            Opcode::convert_f32_to_i64_u => 0x070a,
            Opcode::convert_f64_to_i64_s => 0x070b,
            Opcode::convert_f64_to_i64_u => 0x070c,
            Opcode::convert_i32_s_to_f32 => 0x070d,
            Opcode::convert_i32_u_to_f32 => 0x070e,
            Opcode::convert_i64_s_to_f32 => 0x070f,
            Opcode::convert_i64_u_to_f32 => 0x0710,
            Opcode::convert_i32_s_to_f64 => 0x0711,
            Opcode::convert_i32_u_to_f64 => 0x0712,
            Opcode::convert_i64_s_to_f64 => 0x0713,
            Opcode::convert_i64_u_to_f64 => 0x0714,
            Opcode::eqz_i32 => 0x0800,
            Opcode::nez_i32 => 0x0801,
            Opcode::eq_i32 => 0x0802,
            Opcode::ne_i32 => 0x0803,
            Opcode::lt_i32_s => 0x0804,
            Opcode::lt_i32_u => 0x0805,
            Opcode::gt_i32_s => 0x0806,
            Opcode::gt_i32_u => 0x0807,
            Opcode::le_i32_s => 0x0808,
            Opcode::le_i32_u => 0x0809,
            Opcode::ge_i32_s => 0x080a,
            Opcode::ge_i32_u => 0x080b,
            Opcode::eqz_i64 => 0x080c,
            Opcode::nez_i64 => 0x080d,
            Opcode::eq_i64 => 0x080e,
            Opcode::ne_i64 => 0x080f,
            Opcode::lt_i64_s => 0x0810,
            Opcode::lt_i64_u => 0x0811,
            Opcode::gt_i64_s => 0x0812,
            Opcode::gt_i64_u => 0x0813,
            Opcode::le_i64_s => 0x0814,
            Opcode::le_i64_u => 0x0815,
            Opcode::ge_i64_s => 0x0816,
            Opcode::ge_i64_u => 0x0817,
            Opcode::eq_f32 => 0x0818,
            Opcode::ne_f32 => 0x0819,
            Opcode::lt_f32 => 0x081a,
            Opcode::gt_f32 => 0x081b,
            Opcode::le_f32 => 0x081c,
            Opcode::ge_f32 => 0x081d,
            Opcode::eq_f64 => 0x081e,
            Opcode::ne_f64 => 0x081f,
            Opcode::lt_f64 => 0x0820,
            Opcode::gt_f64 => 0x0821,
            Opcode::le_f64 => 0x0822,
            Opcode::ge_f64 => 0x0823,
            Opcode::end => 0x0900,
            Opcode::block => 0x0901,
            Opcode::break_ => 0x0902,
            Opcode::recur => 0x0903,
            Opcode::block_alt => 0x0904,
            Opcode::break_alt => 0x0905,
            Opcode::block_nez => 0x0906,
            Opcode::call => 0x0907,
            Opcode::call_dynamic => 0x0908,
            Opcode::envcall => 0x0909,
            Opcode::syscall => 0x090a,
            Opcode::extcall => 0x090b,
            Opcode::memory_allocate => 0x0a00,
            Opcode::memory_resize => 0x0a01,
            Opcode::memory_free => 0x0a02,
            Opcode::memory_fill => 0x0a03,
            Opcode::memory_copy => 0x0a04,
            Opcode::terminate => 0x0a05,
            Opcode::get_function => 0x0b00,
            Opcode::get_data => 0x0b01,
            Opcode::host_addr_function => 0x0b02,
            Opcode::host_addr_function_dynamic => 0x0b03,
            Opcode::host_addr_data => 0x0b04,
            Opcode::host_addr_data_extend => 0x0b05,
            Opcode::host_addr_data_dynamic => 0x0b06,
        }
    }

    /// The opcode with the given code, if there is one.
    pub open spec fn spec_from_code(code: u16) -> Option<Opcode> {
        match code {
            0x0100 => Some(Opcode::nop),
            0x0101 => Some(Opcode::imm_i32),
            0x0102 => Some(Opcode::imm_i64),
            0x0103 => Some(Opcode::imm_f32),
            0x0104 => Some(Opcode::imm_f64),
            0x0200 => Some(Opcode::local_load_i64),
            0x0201 => Some(Opcode::local_load_i32_s),
            0x0202 => Some(Opcode::local_load_i32_u),
            0x0203 => Some(Opcode::local_load_i16_s),
            0x0204 => Some(Opcode::local_load_i16_u),
            0x0205 => Some(Opcode::local_load_i8_s),
            0x0206 => Some(Opcode::local_load_i8_u),
            0x0207 => Some(Opcode::local_load_f64),
            0x0208 => Some(Opcode::local_load_f32),
            0x0209 => Some(Opcode::local_store_i64),
            0x020a => Some(Opcode::local_store_i32),
            0x020b => Some(Opcode::local_store_i16),
            0x020c => Some(Opcode::local_store_i8),
            0x020d => Some(Opcode::local_store_f64),
            0x020e => Some(Opcode::local_store_f32),
            0x0300 => Some(Opcode::data_load_i64),
            0x0301 => Some(Opcode::data_load_i32_s),
            0x0302 => Some(Opcode::data_load_i32_u),
            0x0303 => Some(Opcode::data_load_i16_s),
            0x0304 => Some(Opcode::data_load_i16_u),
            0x0305 => Some(Opcode::data_load_i8_s),
            0x0306 => Some(Opcode::data_load_i8_u),
            0x0307 => Some(Opcode::data_load_f64),
            0x0308 => Some(Opcode::data_load_f32),
            0x0309 => Some(Opcode::data_store_i64),
            0x030a => Some(Opcode::data_store_i32),
            0x030b => Some(Opcode::data_store_i16),
            0x030c => Some(Opcode::data_store_i8),
            0x030d => Some(Opcode::data_store_f64),
            0x030e => Some(Opcode::data_store_f32),
            0x030f => Some(Opcode::data_load_extend_i64),
            0x0310 => Some(Opcode::data_load_extend_i32_s),
            0x0311 => Some(Opcode::data_load_extend_i32_u),
            0x0312 => Some(Opcode::data_load_extend_i16_s),
            0x0313 => Some(Opcode::data_load_extend_i16_u),
            0x0314 => Some(Opcode::data_load_extend_i8_s),
            0x0315 => Some(Opcode::data_load_extend_i8_u),
            0x0316 => Some(Opcode::data_load_extend_f64),
            0x0317 => Some(Opcode::data_load_extend_f32),
            0x0318 => Some(Opcode::data_store_extend_i64),
            0x0319 => Some(Opcode::data_store_extend_i32),
            0x031a => Some(Opcode::data_store_extend_i16),
            0x031b => Some(Opcode::data_store_extend_i8),
            0x031c => Some(Opcode::data_store_extend_f64),
            0x031d => Some(Opcode::data_store_extend_f32),
            0x031e => Some(Opcode::data_load_dynamic_i64),
            0x031f => Some(Opcode::data_load_dynamic_i32_s),
            0x0320 => Some(Opcode::data_load_dynamic_i32_u),
            0x0321 => Some(Opcode::data_load_dynamic_i16_s),
            0x0322 => Some(Opcode::data_load_dynamic_i16_u),
            0x0323 => Some(Opcode::data_load_dynamic_i8_s),
            0x0324 => Some(Opcode::data_load_dynamic_i8_u),
            0x0325 => Some(Opcode::data_load_dynamic_f64),
            0x0326 => Some(Opcode::data_load_dynamic_f32),
            0x0327 => Some(Opcode::data_store_dynamic_i64),
            0x0328 => Some(Opcode::data_store_dynamic_i32),
            0x0329 => Some(Opcode::data_store_dynamic_i16),
            0x032a => Some(Opcode::data_store_dynamic_i8),
            0x032b => Some(Opcode::data_store_dynamic_f64),
            0x032c => Some(Opcode::data_store_dynamic_f32),
            0x0400 => Some(Opcode::add_i32),
            0x0401 => Some(Opcode::sub_i32),
            0x0402 => Some(Opcode::add_imm_i32),
            0x0403 => Some(Opcode::sub_imm_i32),
            0x0404 => Some(Opcode::mul_i32),
            0x0405 => Some(Opcode::div_i32_s),
            0x0406 => Some(Opcode::div_i32_u),
            0x0407 => Some(Opcode::rem_i32_s),
            0x0408 => Some(Opcode::rem_i32_u),
            0x0409 => Some(Opcode::add_i64),
            0x040a => Some(Opcode::sub_i64),
            0x040b => Some(Opcode::add_imm_i64),
            0x040c => Some(Opcode::sub_imm_i64),
            0x040d => Some(Opcode::mul_i64),
            0x040e => Some(Opcode::div_i64_s),
            0x040f => Some(Opcode::div_i64_u),
            0x0410 => Some(Opcode::rem_i64_s),
            0x0411 => Some(Opcode::rem_i64_u),
            0x0412 => Some(Opcode::add_f32),
            0x0413 => Some(Opcode::sub_f32),
            0x0414 => Some(Opcode::mul_f32),
            0x0415 => Some(Opcode::div_f32),
            0x0416 => Some(Opcode::add_f64),
            0x0417 => Some(Opcode::sub_f64),
            0x0418 => Some(Opcode::mul_f64),
            0x0419 => Some(Opcode::div_f64),
            0x0500 => Some(Opcode::and),
            0x0501 => Some(Opcode::or),
            0x0502 => Some(Opcode::xor),
            0x0503 => Some(Opcode::not),
            0x0504 => Some(Opcode::shift_left_i32),
            0x0505 => Some(Opcode::shift_right_i32_s),
            0x0506 => Some(Opcode::shift_right_i32_u),
            0x0507 => Some(Opcode::rotate_left_i32),
            0x0508 => Some(Opcode::rotate_right_i32),
            0x0509 => Some(Opcode::count_leading_zeros_i32),
            0x050a => Some(Opcode::count_leading_ones_i32),
            0x050b => Some(Opcode::count_trailing_zeros_i32),
            0x050c => Some(Opcode::count_ones_i32),
            0x050d => Some(Opcode::shift_left_i64),
            0x050e => Some(Opcode::shift_right_i64_s),
            0x050f => Some(Opcode::shift_right_i64_u),
            0x0510 => Some(Opcode::rotate_left_i64),
            0x0511 => Some(Opcode::rotate_right_i64),
            0x0512 => Some(Opcode::count_leading_zeros_i64),
            0x0513 => Some(Opcode::count_leading_ones_i64),
            0x0514 => Some(Opcode::count_trailing_zeros_i64),
            0x0515 => Some(Opcode::count_ones_i64),
            0x0600 => Some(Opcode::abs_i32),
            0x0601 => Some(Opcode::neg_i32),
            0x0602 => Some(Opcode::abs_i64),
            0x0603 => Some(Opcode::neg_i64),
            0x0604 => Some(Opcode::abs_f32),
            0x0605 => Some(Opcode::neg_f32),
            0x0606 => Some(Opcode::copysign_f32),
            0x0607 => Some(Opcode::sqrt_f32),
            0x0608 => Some(Opcode::min_f32),
            0x0609 => Some(Opcode::max_f32),
            0x060a => Some(Opcode::ceil_f32),
            0x060b => Some(Opcode::floor_f32),
            0x060c => Some(Opcode::round_half_away_from_zero_f32),
            0x060d => Some(Opcode::round_half_to_even_f32),
            0x060e => Some(Opcode::trunc_f32),
            0x060f => Some(Opcode::fract_f32),
            0x0610 => Some(Opcode::cbrt_f32),
            0x0611 => Some(Opcode::exp_f32),
            0x0612 => Some(Opcode::exp2_f32),
            0x0613 => Some(Opcode::ln_f32),
            0x0614 => Some(Opcode::log2_f32),
            0x0615 => Some(Opcode::log10_f32),
            0x0616 => Some(Opcode::sin_f32),
            0x0617 => Some(Opcode::cos_f32),
            0x0618 => Some(Opcode::tan_f32),
            0x0619 => Some(Opcode::asin_f32),
            0x061a => Some(Opcode::acos_f32),
            0x061b => Some(Opcode::atan_f32),
            0x061c => Some(Opcode::pow_f32),
            0x061d => Some(Opcode::log_f32),
            0x061e => Some(Opcode::abs_f64),
            0x061f => Some(Opcode::neg_f64),
            0x0620 => Some(Opcode::copysign_f64),
            0x0621 => Some(Opcode::sqrt_f64),
            0x0622 => Some(Opcode::min_f64),
            0x0623 => Some(Opcode::max_f64),
            0x0624 => Some(Opcode::ceil_f64),
            0x0625 => Some(Opcode::floor_f64),
            0x0626 => Some(Opcode::round_half_away_from_zero_f64),
            0x0627 => Some(Opcode::round_half_to_even_f64),
            0x0628 => Some(Opcode::trunc_f64),
            0x0629 => Some(Opcode::fract_f64),
            0x062a => Some(Opcode::cbrt_f64),
            0x062b => Some(Opcode::exp_f64),
            0x062c => Some(Opcode::exp2_f64),
            0x062d => Some(Opcode::ln_f64),
            0x062e => Some(Opcode::log2_f64),
            0x062f => Some(Opcode::log10_f64),
            0x0630 => Some(Opcode::sin_f64),
            0x0631 => Some(Opcode::cos_f64),
            0x0632 => Some(Opcode::tan_f64),
            0x0633 => Some(Opcode::asin_f64),
            0x0634 => Some(Opcode::acos_f64),
            0x0635 => Some(Opcode::atan_f64),
            0x0636 => Some(Opcode::pow_f64),
            0x0637 => Some(Opcode::log_f64),
            0x0700 => Some(Opcode::truncate_i64_to_i32),
            0x0701 => Some(Opcode::extend_i32_s_to_i64),
            0x0702 => Some(Opcode::extend_i32_u_to_i64),
            0x0703 => Some(Opcode::demote_f64_to_f32),
            0x0704 => Some(Opcode::promote_f32_to_f64),
            0x0705 => Some(Opcode::convert_f32_to_i32_s),
            0x0706 => Some(Opcode::convert_f32_to_i32_u),
            0x0707 => Some(Opcode::convert_f64_to_i32_s),
            0x0708 => Some(Opcode::convert_f64_to_i32_u),
            0x0709 => Some(Opcode::convert_f32_to_i64_s),
            0x070a => Some(Opcode::convert_f32_to_i64_u),
            0x070b => Some(Opcode::convert_f64_to_i64_s),
            0x070c => Some(Opcode::convert_f64_to_i64_u),
            0x070d => Some(Opcode::convert_i32_s_to_f32),
            0x070e => Some(Opcode::convert_i32_u_to_f32),
            0x070f => Some(Opcode::convert_i64_s_to_f32),
            0x0710 => Some(Opcode::convert_i64_u_to_f32),
            0x0711 => Some(Opcode::convert_i32_s_to_f64),
            0x0712 => Some(Opcode::convert_i32_u_to_f64),
            0x0713 => Some(Opcode::convert_i64_s_to_f64),
            0x0714 => Some(Opcode::convert_i64_u_to_f64),
            0x0800 => Some(Opcode::eqz_i32),
            0x0801 => Some(Opcode::nez_i32),
            0x0802 => Some(Opcode::eq_i32),
            0x0803 => Some(Opcode::ne_i32),
            0x0804 => Some(Opcode::lt_i32_s),
            0x0805 => Some(Opcode::lt_i32_u),
            0x0806 => Some(Opcode::gt_i32_s),
            0x0807 => Some(Opcode::gt_i32_u),
            0x0808 => Some(Opcode::le_i32_s),
            0x0809 => Some(Opcode::le_i32_u),
            0x080a => Some(Opcode::ge_i32_s),
            0x080b => Some(Opcode::ge_i32_u),
            0x080c => Some(Opcode::eqz_i64),
            0x080d => Some(Opcode::nez_i64),
            0x080e => Some(Opcode::eq_i64),
            0x080f => Some(Opcode::ne_i64),
            0x0810 => Some(Opcode::lt_i64_s),
            0x0811 => Some(Opcode::lt_i64_u),
            0x0812 => Some(Opcode::gt_i64_s),
            0x0813 => Some(Opcode::gt_i64_u),
            0x0814 => Some(Opcode::le_i64_s),
            0x0815 => Some(Opcode::le_i64_u),
            0x0816 => Some(Opcode::ge_i64_s),
            0x0817 => Some(Opcode::ge_i64_u),
            0x0818 => Some(Opcode::eq_f32),
            0x0819 => Some(Opcode::ne_f32),
            0x081a => Some(Opcode::lt_f32),
            0x081b => Some(Opcode::gt_f32),
            0x081c => Some(Opcode::le_f32),
            0x081d => Some(Opcode::ge_f32),
            0x081e => Some(Opcode::eq_f64),
            0x081f => Some(Opcode::ne_f64),
            0x0820 => Some(Opcode::lt_f64),
            0x0821 => Some(Opcode::gt_f64),
            0x0822 => Some(Opcode::le_f64),
            0x0823 => Some(Opcode::ge_f64),
            0x0900 => Some(Opcode::end),
            0x0901 => Some(Opcode::block),
            0x0902 => Some(Opcode::break_),
            0x0903 => Some(Opcode::recur),
            0x0904 => Some(Opcode::block_alt),
            0x0905 => Some(Opcode::break_alt),
            0x0906 => Some(Opcode::block_nez),
            0x0907 => Some(Opcode::call),
            0x0908 => Some(Opcode::call_dynamic),
            0x0909 => Some(Opcode::envcall),
            0x090a => Some(Opcode::syscall),
            0x090b => Some(Opcode::extcall),
            0x0a00 => Some(Opcode::memory_allocate),
            0x0a01 => Some(Opcode::memory_resize),
            0x0a02 => Some(Opcode::memory_free),
            0x0a03 => Some(Opcode::memory_fill),
            0x0a04 => Some(Opcode::memory_copy),
            0x0a05 => Some(Opcode::terminate),
            0x0b00 => Some(Opcode::get_function),
            0x0b01 => Some(Opcode::get_data),
            0x0b02 => Some(Opcode::host_addr_function),
            0x0b03 => Some(Opcode::host_addr_function_dynamic),
            0x0b04 => Some(Opcode::host_addr_data),
            0x0b05 => Some(Opcode::host_addr_data_extend),
            0x0b06 => Some(Opcode::host_addr_data_dynamic),
            _ => None,
        }
    }

    /// Whether some opcode has the given code: its category is one of the
    /// eleven, and its item is below the number of items of that category.
    pub open spec fn is_assigned(code: u16) -> bool {
        let item = code % 0x100;
        match code / 0x100 {
            1 => item < 5,
            2 => item < 15,
            3 => item < 45,
            4 => item < 26,
            5 => item < 22,
            6 => item < 56,
            7 => item < 21,
            8 => item < 36,
            9 => item < 12,
            10 => item < 6,
            11 => item < 7,
            _ => false,
        }
    }

    /// The category of the opcode, the high byte of its code.
    pub open spec fn category(self) -> u8 {
        (self.spec_code() / 0x100) as u8
    }

    /// The layout of every instruction with this opcode.
    pub open spec fn spec_layout(self) -> InstructionLayout {
        match self {
            Opcode::add_imm_i32
            | Opcode::sub_imm_i32
            | Opcode::add_imm_i64
            | Opcode::sub_imm_i64 => InstructionLayout::I16,
            Opcode::imm_i32
            | Opcode::imm_f32
            | Opcode::data_load_extend_i64
            | Opcode::data_load_extend_i32_s
            | Opcode::data_load_extend_i32_u
            | Opcode::data_load_extend_i16_s
            | Opcode::data_load_extend_i16_u
            | Opcode::data_load_extend_i8_s
            | Opcode::data_load_extend_i8_u
            | Opcode::data_load_extend_f64
            | Opcode::data_load_extend_f32
            | Opcode::data_store_extend_i64
            | Opcode::data_store_extend_i32
            | Opcode::data_store_extend_i16
            | Opcode::data_store_extend_i8
            | Opcode::data_store_extend_f64
            | Opcode::data_store_extend_f32
            | Opcode::break_alt
            | Opcode::call
            | Opcode::envcall
            | Opcode::extcall
            | Opcode::terminate
            | Opcode::get_function
            | Opcode::get_data
            | Opcode::host_addr_function
            | Opcode::host_addr_data_extend => InstructionLayout::I32,
            Opcode::local_load_i64
            | Opcode::local_load_i32_s
            | Opcode::local_load_i32_u
            | Opcode::local_load_i16_s
            | Opcode::local_load_i16_u
            | Opcode::local_load_i8_s
            | Opcode::local_load_i8_u
            | Opcode::local_load_f64
            | Opcode::local_load_f32
            | Opcode::local_store_i64
            | Opcode::local_store_i32
            | Opcode::local_store_i16
            | Opcode::local_store_i8
            | Opcode::local_store_f64
            | Opcode::local_store_f32
            | Opcode::data_load_i64
            | Opcode::data_load_i32_s
            | Opcode::data_load_i32_u
            | Opcode::data_load_i16_s
            | Opcode::data_load_i16_u
            | Opcode::data_load_i8_s
            | Opcode::data_load_i8_u
            | Opcode::data_load_f64
            | Opcode::data_load_f32
            | Opcode::data_store_i64
            | Opcode::data_store_i32
            | Opcode::data_store_i16
            | Opcode::data_store_i8
            | Opcode::data_store_f64
            | Opcode::data_store_f32
            | Opcode::break_
            | Opcode::recur
            | Opcode::host_addr_data => InstructionLayout::I16I32,
            Opcode::imm_i64
            | Opcode::imm_f64
            | Opcode::block
            | Opcode::block_nez => InstructionLayout::I32I32,
            Opcode::block_alt => InstructionLayout::I32I32I32,
            _ => InstructionLayout::Bare,
        }
    }

    /// The name by which assembly text refers to the opcode.
    pub open spec fn mnemonic(self) -> Seq<char> {
        match self {
            Opcode::nop => "nop"@,
            Opcode::imm_i32 => "imm_i32"@,
            Opcode::imm_i64 => "imm_i64"@,
            Opcode::imm_f32 => "imm_f32"@,
            Opcode::imm_f64 => "imm_f64"@,
            Opcode::local_load_i64 => "local_load_i64"@,
            Opcode::local_load_i32_s => "local_load_i32_s"@,
            Opcode::local_load_i32_u => "local_load_i32_u"@,
            Opcode::local_load_i16_s => "local_load_i16_s"@,
            Opcode::local_load_i16_u => "local_load_i16_u"@,
            Opcode::local_load_i8_s => "local_load_i8_s"@,
            Opcode::local_load_i8_u => "local_load_i8_u"@,
            Opcode::local_load_f64 => "local_load_f64"@,
            Opcode::local_load_f32 => "local_load_f32"@,
            Opcode::local_store_i64 => "local_store_i64"@,
            Opcode::local_store_i32 => "local_store_i32"@,
            Opcode::local_store_i16 => "local_store_i16"@,
            Opcode::local_store_i8 => "local_store_i8"@,
            Opcode::local_store_f64 => "local_store_f64"@,
            Opcode::local_store_f32 => "local_store_f32"@,
            Opcode::data_load_i64 => "data_load_i64"@,
            Opcode::data_load_i32_s => "data_load_i32_s"@,
            Opcode::data_load_i32_u => "data_load_i32_u"@,
            Opcode::data_load_i16_s => "data_load_i16_s"@,
            Opcode::data_load_i16_u => "data_load_i16_u"@,
            Opcode::data_load_i8_s => "data_load_i8_s"@,
            Opcode::data_load_i8_u => "data_load_i8_u"@,
            Opcode::data_load_f64 => "data_load_f64"@,
            Opcode::data_load_f32 => "data_load_f32"@,
            Opcode::data_store_i64 => "data_store_i64"@,
            Opcode::data_store_i32 => "data_store_i32"@,
            Opcode::data_store_i16 => "data_store_i16"@,
            Opcode::data_store_i8 => "data_store_i8"@,
            Opcode::data_store_f64 => "data_store_f64"@,
            Opcode::data_store_f32 => "data_store_f32"@,
            Opcode::data_load_extend_i64 => "data_load_extend_i64"@,
            Opcode::data_load_extend_i32_s => "data_load_extend_i32_s"@,
            Opcode::data_load_extend_i32_u => "data_load_extend_i32_u"@,
            Opcode::data_load_extend_i16_s => "data_load_extend_i16_s"@,
            Opcode::data_load_extend_i16_u => "data_load_extend_i16_u"@,
            Opcode::data_load_extend_i8_s => "data_load_extend_i8_s"@,
            Opcode::data_load_extend_i8_u => "data_load_extend_i8_u"@,
            Opcode::data_load_extend_f64 => "data_load_extend_f64"@,
            Opcode::data_load_extend_f32 => "data_load_extend_f32"@,
            Opcode::data_store_extend_i64 => "data_store_extend_i64"@,
            Opcode::data_store_extend_i32 => "data_store_extend_i32"@,
            Opcode::data_store_extend_i16 => "data_store_extend_i16"@,
            Opcode::data_store_extend_i8 => "data_store_extend_i8"@,
            Opcode::data_store_extend_f64 => "data_store_extend_f64"@,
            Opcode::data_store_extend_f32 => "data_store_extend_f32"@,
            Opcode::data_load_dynamic_i64 => "data_load_dynamic_i64"@,
            Opcode::data_load_dynamic_i32_s => "data_load_dynamic_i32_s"@,
            Opcode::data_load_dynamic_i32_u => "data_load_dynamic_i32_u"@,
            Opcode::data_load_dynamic_i16_s => "data_load_dynamic_i16_s"@,
            Opcode::data_load_dynamic_i16_u => "data_load_dynamic_i16_u"@,
            Opcode::data_load_dynamic_i8_s => "data_load_dynamic_i8_s"@,
            Opcode::data_load_dynamic_i8_u => "data_load_dynamic_i8_u"@,
            Opcode::data_load_dynamic_f64 => "data_load_dynamic_f64"@,
            Opcode::data_load_dynamic_f32 => "data_load_dynamic_f32"@,
            Opcode::data_store_dynamic_i64 => "data_store_dynamic_i64"@,
            Opcode::data_store_dynamic_i32 => "data_store_dynamic_i32"@,
            Opcode::data_store_dynamic_i16 => "data_store_dynamic_i16"@,
            Opcode::data_store_dynamic_i8 => "data_store_dynamic_i8"@,
            Opcode::data_store_dynamic_f64 => "data_store_dynamic_f64"@,
            Opcode::data_store_dynamic_f32 => "data_store_dynamic_f32"@,
            Opcode::add_i32 => "add_i32"@,
            Opcode::sub_i32 => "sub_i32"@,
            Opcode::add_imm_i32 => "add_imm_i32"@,
            Opcode::sub_imm_i32 => "sub_imm_i32"@,
            Opcode::mul_i32 => "mul_i32"@,
            Opcode::div_i32_s => "div_i32_s"@,
            Opcode::div_i32_u => "div_i32_u"@,
            Opcode::rem_i32_s => "rem_i32_s"@,
            Opcode::rem_i32_u => "rem_i32_u"@,
            Opcode::add_i64 => "add_i64"@,
            Opcode::sub_i64 => "sub_i64"@,
            Opcode::add_imm_i64 => "add_imm_i64"@,
            Opcode::sub_imm_i64 => "sub_imm_i64"@,
            Opcode::mul_i64 => "mul_i64"@,
            Opcode::div_i64_s => "div_i64_s"@,
            Opcode::div_i64_u => "div_i64_u"@,
            Opcode::rem_i64_s => "rem_i64_s"@,
            Opcode::rem_i64_u => "rem_i64_u"@,
            Opcode::add_f32 => "add_f32"@,
            Opcode::sub_f32 => "sub_f32"@,
            Opcode::mul_f32 => "mul_f32"@,
            Opcode::div_f32 => "div_f32"@,
            Opcode::add_f64 => "add_f64"@,
            Opcode::sub_f64 => "sub_f64"@,
            Opcode::mul_f64 => "mul_f64"@,
            Opcode::div_f64 => "div_f64"@,
            Opcode::and => "and"@,
            Opcode::or => "or"@,
            Opcode::xor => "xor"@,
            Opcode::not => "not"@,
            Opcode::shift_left_i32 => "shift_left_i32"@,
            Opcode::shift_right_i32_s => "shift_right_i32_s"@,
            Opcode::shift_right_i32_u => "shift_right_i32_u"@,
            Opcode::rotate_left_i32 => "rotate_left_i32"@,
            Opcode::rotate_right_i32 => "rotate_right_i32"@,
            Opcode::count_leading_zeros_i32 => "count_leading_zeros_i32"@,
            Opcode::count_leading_ones_i32 => "count_leading_ones_i32"@,
            Opcode::count_trailing_zeros_i32 => "count_trailing_zeros_i32"@,
            Opcode::count_ones_i32 => "count_ones_i32"@,
            Opcode::shift_left_i64 => "shift_left_i64"@,
            Opcode::shift_right_i64_s => "shift_right_i64_s"@,
            Opcode::shift_right_i64_u => "shift_right_i64_u"@,
            Opcode::rotate_left_i64 => "rotate_left_i64"@,
            Opcode::rotate_right_i64 => "rotate_right_i64"@,
            Opcode::count_leading_zeros_i64 => "count_leading_zeros_i64"@,
            Opcode::count_leading_ones_i64 => "count_leading_ones_i64"@,
            Opcode::count_trailing_zeros_i64 => "count_trailing_zeros_i64"@,
            Opcode::count_ones_i64 => "count_ones_i64"@,
            Opcode::abs_i32 => "abs_i32"@,
            Opcode::neg_i32 => "neg_i32"@,
            Opcode::abs_i64 => "abs_i64"@,
            Opcode::neg_i64 => "neg_i64"@,
            Opcode::abs_f32 => "abs_f32"@,
            Opcode::neg_f32 => "neg_f32"@,
            Opcode::copysign_f32 => "copysign_f32"@,
            Opcode::sqrt_f32 => "sqrt_f32"@,
            Opcode::min_f32 => "min_f32"@,
            Opcode::max_f32 => "max_f32"@,
            Opcode::ceil_f32 => "ceil_f32"@,
            Opcode::floor_f32 => "floor_f32"@,
            Opcode::round_half_away_from_zero_f32 => "round_half_away_from_zero_f32"@,
            Opcode::round_half_to_even_f32 => "round_half_to_even_f32"@,
            Opcode::trunc_f32 => "trunc_f32"@,
            Opcode::fract_f32 => "fract_f32"@,
            Opcode::cbrt_f32 => "cbrt_f32"@,
            Opcode::exp_f32 => "exp_f32"@,
            Opcode::exp2_f32 => "exp2_f32"@,
            Opcode::ln_f32 => "ln_f32"@,
            Opcode::log2_f32 => "log2_f32"@,
            Opcode::log10_f32 => "log10_f32"@,
            Opcode::sin_f32 => "sin_f32"@,
            Opcode::cos_f32 => "cos_f32"@,
            Opcode::tan_f32 => "tan_f32"@,
            Opcode::asin_f32 => "asin_f32"@,
            Opcode::acos_f32 => "acos_f32"@,
            Opcode::atan_f32 => "atan_f32"@,
            Opcode::pow_f32 => "pow_f32"@,
            Opcode::log_f32 => "log_f32"@,
            Opcode::abs_f64 => "abs_f64"@,
            Opcode::neg_f64 => "neg_f64"@,
            Opcode::copysign_f64 => "copysign_f64"@,
            Opcode::sqrt_f64 => "sqrt_f64"@,
            Opcode::min_f64 => "min_f64"@,
            Opcode::max_f64 => "max_f64"@,
            Opcode::ceil_f64 => "ceil_f64"@,
            Opcode::floor_f64 => "floor_f64"@,
            Opcode::round_half_away_from_zero_f64 => "round_half_away_from_zero_f64"@,
            Opcode::round_half_to_even_f64 => "round_half_to_even_f64"@,
            Opcode::trunc_f64 => "trunc_f64"@,
            Opcode::fract_f64 => "fract_f64"@,
            Opcode::cbrt_f64 => "cbrt_f64"@,
            Opcode::exp_f64 => "exp_f64"@,
            Opcode::exp2_f64 => "exp2_f64"@,
            Opcode::ln_f64 => "ln_f64"@,
            Opcode::log2_f64 => "log2_f64"@,
            Opcode::log10_f64 => "log10_f64"@,
            Opcode::sin_f64 => "sin_f64"@,
            Opcode::cos_f64 => "cos_f64"@,
            Opcode::tan_f64 => "tan_f64"@,
            Opcode::asin_f64 => "asin_f64"@,
            Opcode::acos_f64 => "acos_f64"@,
            Opcode::atan_f64 => "atan_f64"@,
            Opcode::pow_f64 => "pow_f64"@,
            Opcode::log_f64 => "log_f64"@,
            Opcode::truncate_i64_to_i32 => "truncate_i64_to_i32"@,
            Opcode::extend_i32_s_to_i64 => "extend_i32_s_to_i64"@,
            Opcode::extend_i32_u_to_i64 => "extend_i32_u_to_i64"@,
            Opcode::demote_f64_to_f32 => "demote_f64_to_f32"@,
            Opcode::promote_f32_to_f64 => "promote_f32_to_f64"@,
            Opcode::convert_f32_to_i32_s => "convert_f32_to_i32_s"@,
            Opcode::convert_f32_to_i32_u => "convert_f32_to_i32_u"@,
            Opcode::convert_f64_to_i32_s => "convert_f64_to_i32_s"@,
            Opcode::convert_f64_to_i32_u => "convert_f64_to_i32_u"@,
            Opcode::convert_f32_to_i64_s => "convert_f32_to_i64_s"@,
            Opcode::convert_f32_to_i64_u => "convert_f32_to_i64_u"@,
            Opcode::convert_f64_to_i64_s => "convert_f64_to_i64_s"@,
            Opcode::convert_f64_to_i64_u => "convert_f64_to_i64_u"@,
            Opcode::convert_i32_s_to_f32 => "convert_i32_s_to_f32"@,
            Opcode::convert_i32_u_to_f32 => "convert_i32_u_to_f32"@,
            Opcode::convert_i64_s_to_f32 => "convert_i64_s_to_f32"@,
            Opcode::convert_i64_u_to_f32 => "convert_i64_u_to_f32"@,
            Opcode::convert_i32_s_to_f64 => "convert_i32_s_to_f64"@,
            Opcode::convert_i32_u_to_f64 => "convert_i32_u_to_f64"@,
            Opcode::convert_i64_s_to_f64 => "convert_i64_s_to_f64"@,
            Opcode::convert_i64_u_to_f64 => "convert_i64_u_to_f64"@,
            Opcode::eqz_i32 => "eqz_i32"@,
            Opcode::nez_i32 => "nez_i32"@,
            Opcode::eq_i32 => "eq_i32"@,
            Opcode::ne_i32 => "ne_i32"@,
            Opcode::lt_i32_s => "lt_i32_s"@,
            Opcode::lt_i32_u => "lt_i32_u"@,
            Opcode::gt_i32_s => "gt_i32_s"@,
            Opcode::gt_i32_u => "gt_i32_u"@,
            Opcode::le_i32_s => "le_i32_s"@,
            Opcode::le_i32_u => "le_i32_u"@,
            Opcode::ge_i32_s => "ge_i32_s"@,
            Opcode::ge_i32_u => "ge_i32_u"@,
            Opcode::eqz_i64 => "eqz_i64"@,
            Opcode::nez_i64 => "nez_i64"@,
            Opcode::eq_i64 => "eq_i64"@,
            Opcode::ne_i64 => "ne_i64"@,
            Opcode::lt_i64_s => "lt_i64_s"@,
            Opcode::lt_i64_u => "lt_i64_u"@,
            Opcode::gt_i64_s => "gt_i64_s"@,
            Opcode::gt_i64_u => "gt_i64_u"@,
            Opcode::le_i64_s => "le_i64_s"@,
            Opcode::le_i64_u => "le_i64_u"@,
            Opcode::ge_i64_s => "ge_i64_s"@,
            Opcode::ge_i64_u => "ge_i64_u"@,
            Opcode::eq_f32 => "eq_f32"@,
            Opcode::ne_f32 => "ne_f32"@,
            Opcode::lt_f32 => "lt_f32"@,
            Opcode::gt_f32 => "gt_f32"@,
            Opcode::le_f32 => "le_f32"@,
            Opcode::ge_f32 => "ge_f32"@,
            Opcode::eq_f64 => "eq_f64"@,
            Opcode::ne_f64 => "ne_f64"@,
            Opcode::lt_f64 => "lt_f64"@,
            Opcode::gt_f64 => "gt_f64"@,
            Opcode::le_f64 => "le_f64"@,
            Opcode::ge_f64 => "ge_f64"@,
            Opcode::end => "end"@,
            Opcode::block => "block"@,
            Opcode::break_ => "break"@,
            Opcode::recur => "recur"@,
            Opcode::block_alt => "block_alt"@,
            Opcode::break_alt => "break_alt"@,
            Opcode::block_nez => "block_nez"@,
            Opcode::call => "call"@,
            Opcode::call_dynamic => "call_dynamic"@,
            Opcode::envcall => "envcall"@,
            Opcode::syscall => "syscall"@,
            Opcode::extcall => "extcall"@,
            Opcode::memory_allocate => "memory_allocate"@,
            Opcode::memory_resize => "memory_resize"@,
            Opcode::memory_free => "memory_free"@,
            Opcode::memory_fill => "memory_fill"@,
            Opcode::memory_copy => "memory_copy"@,
            Opcode::terminate => "terminate"@,
            Opcode::get_function => "get_function"@,
            Opcode::get_data => "get_data"@,
            Opcode::host_addr_function => "host_addr_function"@,
            Opcode::host_addr_function_dynamic => "host_addr_function_dynamic"@,
            Opcode::host_addr_data => "host_addr_data"@,
            Opcode::host_addr_data_extend => "host_addr_data_extend"@,
            Opcode::host_addr_data_dynamic => "host_addr_data_dynamic"@,
        }
    }

    /// The name under which the opcode is printed. It is the mnemonic, except
    /// that `local_load_i64` has always been printed without the `i`.
    pub open spec fn printed_name(self) -> Seq<char> {
        match self {
            Opcode::local_load_i64 => "local_load_64"@,
            _ => self.mnemonic(),
        }
    }

    /// Whether `name` is the mnemonic of some opcode.
    pub open spec fn is_mnemonic(name: Seq<char>) -> bool {
        exists|opcode: Opcode| opcode.mnemonic() == name
    }

    #[verifier::when_used_as_spec(spec_code)]
    pub fn code(self) -> (code: u16)
        ensures
            code == self.spec_code(),
    {
        match self {
            Opcode::nop => 0x0100,
            Opcode::imm_i32 => 0x0101,
            Opcode::imm_i64 => 0x0102,
            Opcode::imm_f32 => 0x0103,
            Opcode::imm_f64 => 0x0104,
            Opcode::local_load_i64 => 0x0200,
            Opcode::local_load_i32_s => 0x0201,
            Opcode::local_load_i32_u => 0x0202,
            Opcode::local_load_i16_s => 0x0203,
            Opcode::local_load_i16_u => 0x0204,
            Opcode::local_load_i8_s => 0x0205,
            Opcode::local_load_i8_u => 0x0206,
            Opcode::local_load_f64 => 0x0207,
            Opcode::local_load_f32 => 0x0208,
            Opcode::local_store_i64 => 0x0209,
            Opcode::local_store_i32 => 0x020a,
            Opcode::local_store_i16 => 0x020b,
            Opcode::local_store_i8 => 0x020c,
            Opcode::local_store_f64 => 0x020d,
            Opcode::local_store_f32 => 0x020e,
            Opcode::data_load_i64 => 0x0300,
            Opcode::data_load_i32_s => 0x0301,
            Opcode::data_load_i32_u => 0x0302,
            Opcode::data_load_i16_s => 0x0303,
            Opcode::data_load_i16_u => 0x0304,
            Opcode::data_load_i8_s => 0x0305,
            Opcode::data_load_i8_u => 0x0306,
            Opcode::data_load_f64 => 0x0307,
            Opcode::data_load_f32 => 0x0308,
            Opcode::data_store_i64 => 0x0309,
            Opcode::data_store_i32 => 0x030a,
            Opcode::data_store_i16 => 0x030b,
            Opcode::data_store_i8 => 0x030c,
            Opcode::data_store_f64 => 0x030d,
            Opcode::data_store_f32 => 0x030e,
            Opcode::data_load_extend_i64 => 0x030f,
            Opcode::data_load_extend_i32_s => 0x0310,
            Opcode::data_load_extend_i32_u => 0x0311,
            Opcode::data_load_extend_i16_s => 0x0312,
            Opcode::data_load_extend_i16_u => 0x0313,
            Opcode::data_load_extend_i8_s => 0x0314,
            Opcode::data_load_extend_i8_u => 0x0315,
            Opcode::data_load_extend_f64 => 0x0316,
            Opcode::data_load_extend_f32 => 0x0317,
            Opcode::data_store_extend_i64 => 0x0318,
            Opcode::data_store_extend_i32 => 0x0319,
            Opcode::data_store_extend_i16 => 0x031a,
            Opcode::data_store_extend_i8 => 0x031b,
            Opcode::data_store_extend_f64 => 0x031c,
            Opcode::data_store_extend_f32 => 0x031d,
            Opcode::data_load_dynamic_i64 => 0x031e,
            Opcode::data_load_dynamic_i32_s => 0x031f,
            Opcode::data_load_dynamic_i32_u => 0x0320,
            Opcode::data_load_dynamic_i16_s => 0x0321,
            Opcode::data_load_dynamic_i16_u => 0x0322,
            Opcode::data_load_dynamic_i8_s => 0x0323,
            Opcode::data_load_dynamic_i8_u => 0x0324,
            Opcode::data_load_dynamic_f64 => 0x0325,
            Opcode::data_load_dynamic_f32 => 0x0326,
            Opcode::data_store_dynamic_i64 => 0x0327,
            Opcode::data_store_dynamic_i32 => 0x0328,
            Opcode::data_store_dynamic_i16 => 0x0329,
            Opcode::data_store_dynamic_i8 => 0x032a,
            Opcode::data_store_dynamic_f64 => 0x032b,
            Opcode::data_store_dynamic_f32 => 0x032c,
            Opcode::add_i32 => 0x0400,
            Opcode::sub_i32 => 0x0401,
            Opcode::add_imm_i32 => 0x0402,
            Opcode::sub_imm_i32 => 0x0403,
            Opcode::mul_i32 => 0x0404,
            Opcode::div_i32_s => 0x0405,
            Opcode::div_i32_u => 0x0406,
            Opcode::rem_i32_s => 0x0407,
            Opcode::rem_i32_u => 0x0408,
            Opcode::add_i64 => 0x0409,
            Opcode::sub_i64 => 0x040a,
            Opcode::add_imm_i64 => 0x040b,
            Opcode::sub_imm_i64 => 0x040c,
            Opcode::mul_i64 => 0x040d,
            Opcode::div_i64_s => 0x040e,
            Opcode::div_i64_u => 0x040f,
            Opcode::rem_i64_s => 0x0410,
            Opcode::rem_i64_u => 0x0411,
            Opcode::add_f32 => 0x0412,
            Opcode::sub_f32 => 0x0413,
            Opcode::mul_f32 => 0x0414,
            Opcode::div_f32 => 0x0415,
            Opcode::add_f64 => 0x0416,
            Opcode::sub_f64 => 0x0417,
            Opcode::mul_f64 => 0x0418,
            Opcode::div_f64 => 0x0419,
            Opcode::and => 0x0500,
            Opcode::or => 0x0501,
            Opcode::xor => 0x0502,
            Opcode::not => 0x0503,
            Opcode::shift_left_i32 => 0x0504,
            Opcode::shift_right_i32_s => 0x0505,
            Opcode::shift_right_i32_u => 0x0506,
            Opcode::rotate_left_i32 => 0x0507,
            Opcode::rotate_right_i32 => 0x0508,
            Opcode::count_leading_zeros_i32 => 0x0509,
            Opcode::count_leading_ones_i32 => 0x050a,
            Opcode::count_trailing_zeros_i32 => 0x050b,
            Opcode::count_ones_i32 => 0x050c,
            Opcode::shift_left_i64 => 0x050d,
            Opcode::shift_right_i64_s => 0x050e,
            Opcode::shift_right_i64_u => 0x050f,
            Opcode::rotate_left_i64 => 0x0510,
            Opcode::rotate_right_i64 => 0x0511,
            Opcode::count_leading_zeros_i64 => 0x0512,
            Opcode::count_leading_ones_i64 => 0x0513,
            Opcode::count_trailing_zeros_i64 => 0x0514,
            Opcode::count_ones_i64 => 0x0515,
            Opcode::abs_i32 => 0x0600,
            Opcode::neg_i32 => 0x0601,
            Opcode::abs_i64 => 0x0602,
            Opcode::neg_i64 => 0x0603,
            Opcode::abs_f32 => 0x0604,
            Opcode::neg_f32 => 0x0605,
            Opcode::copysign_f32 => 0x0606,
            Opcode::sqrt_f32 => 0x0607,
            Opcode::min_f32 => 0x0608,
            Opcode::max_f32 => 0x0609,
            Opcode::ceil_f32 => 0x060a,
            Opcode::floor_f32 => 0x060b,
            Opcode::round_half_away_from_zero_f32 => 0x060c,
            Opcode::round_half_to_even_f32 => 0x060d,
            Opcode::trunc_f32 => 0x060e,
            Opcode::fract_f32 => 0x060f,
            Opcode::cbrt_f32 => 0x0610,
            Opcode::exp_f32 => 0x0611,
            Opcode::exp2_f32 => 0x0612,
            Opcode::ln_f32 => 0x0613,
            Opcode::log2_f32 => 0x0614,
            Opcode::log10_f32 => 0x0615,
            Opcode::sin_f32 => 0x0616,
            Opcode::cos_f32 => 0x0617,
            Opcode::tan_f32 => 0x0618,
            Opcode::asin_f32 => 0x0619,
            Opcode::acos_f32 => 0x061a,
            Opcode::atan_f32 => 0x061b,
            Opcode::pow_f32 => 0x061c,
            Opcode::log_f32 => 0x061d,
            Opcode::abs_f64 => 0x061e,
            Opcode::neg_f64 => 0x061f,
            Opcode::copysign_f64 => 0x0620,
            Opcode::sqrt_f64 => 0x0621,
            Opcode::min_f64 => 0x0622,
            Opcode::max_f64 => 0x0623,
            Opcode::ceil_f64 => 0x0624,
            Opcode::floor_f64 => 0x0625,
            Opcode::round_half_away_from_zero_f64 => 0x0626,
            Opcode::round_half_to_even_f64 => 0x0627,
            Opcode::trunc_f64 => 0x0628,
            Opcode::fract_f64 => 0x0629,
            Opcode::cbrt_f64 => 0x062a,
            Opcode::exp_f64 => 0x062b,
            Opcode::exp2_f64 => 0x062c,
            Opcode::ln_f64 => 0x062d,
            Opcode::log2_f64 => 0x062e,
            Opcode::log10_f64 => 0x062f,
            Opcode::sin_f64 => 0x0630,
            Opcode::cos_f64 => 0x0631,
            Opcode::tan_f64 => 0x0632,
            Opcode::asin_f64 => 0x0633,
            Opcode::acos_f64 => 0x0634,
            Opcode::atan_f64 => 0x0635,
            Opcode::pow_f64 => 0x0636,
            Opcode::log_f64 => 0x0637,
            Opcode::truncate_i64_to_i32 => 0x0700,
            Opcode::extend_i32_s_to_i64 => 0x0701,
            Opcode::extend_i32_u_to_i64 => 0x0702,
            Opcode::demote_f64_to_f32 => 0x0703,
            Opcode::promote_f32_to_f64 => 0x0704,
            Opcode::convert_f32_to_i32_s => 0x0705,
            Opcode::convert_f32_to_i32_u => 0x0706,
            Opcode::convert_f64_to_i32_s => 0x0707,
            Opcode::convert_f64_to_i32_u => 0x0708,
            Opcode::convert_f32_to_i64_s => 0x0709,
            Opcode::convert_f32_to_i64_u => 0x070a,
            Opcode::convert_f64_to_i64_s => 0x070b,
            Opcode::convert_f64_to_i64_u => 0x070c,
            Opcode::convert_i32_s_to_f32 => 0x070d,
            Opcode::convert_i32_u_to_f32 => 0x070e,
            Opcode::convert_i64_s_to_f32 => 0x070f,
            Opcode::convert_i64_u_to_f32 => 0x0710,
            Opcode::convert_i32_s_to_f64 => 0x0711,
            Opcode::convert_i32_u_to_f64 => 0x0712,
            Opcode::convert_i64_s_to_f64 => 0x0713,
            Opcode::convert_i64_u_to_f64 => 0x0714,
            Opcode::eqz_i32 => 0x0800,
            Opcode::nez_i32 => 0x0801,
            Opcode::eq_i32 => 0x0802,
            Opcode::ne_i32 => 0x0803,
            Opcode::lt_i32_s => 0x0804,
            Opcode::lt_i32_u => 0x0805,
            Opcode::gt_i32_s => 0x0806,
            Opcode::gt_i32_u => 0x0807,
            Opcode::le_i32_s => 0x0808,
            Opcode::le_i32_u => 0x0809,
            Opcode::ge_i32_s => 0x080a,
            Opcode::ge_i32_u => 0x080b,
            Opcode::eqz_i64 => 0x080c,
            Opcode::nez_i64 => 0x080d,
            Opcode::eq_i64 => 0x080e,
            Opcode::ne_i64 => 0x080f,
            Opcode::lt_i64_s => 0x0810,
            Opcode::lt_i64_u => 0x0811,
            Opcode::gt_i64_s => 0x0812,
            Opcode::gt_i64_u => 0x0813,
            Opcode::le_i64_s => 0x0814,
            Opcode::le_i64_u => 0x0815,
            Opcode::ge_i64_s => 0x0816,
            Opcode::ge_i64_u => 0x0817,
            Opcode::eq_f32 => 0x0818,
            Opcode::ne_f32 => 0x0819,
            Opcode::lt_f32 => 0x081a,
            Opcode::gt_f32 => 0x081b,
            Opcode::le_f32 => 0x081c,
            Opcode::ge_f32 => 0x081d,
            Opcode::eq_f64 => 0x081e,
            Opcode::ne_f64 => 0x081f,
            Opcode::lt_f64 => 0x0820,
            Opcode::gt_f64 => 0x0821,
            Opcode::le_f64 => 0x0822,
            Opcode::ge_f64 => 0x0823,
            Opcode::end => 0x0900,
            Opcode::block => 0x0901,
            Opcode::break_ => 0x0902,
            Opcode::recur => 0x0903,
            Opcode::block_alt => 0x0904,
            Opcode::break_alt => 0x0905,
            Opcode::block_nez => 0x0906,
            Opcode::call => 0x0907,
            Opcode::call_dynamic => 0x0908,
            Opcode::envcall => 0x0909,
            Opcode::syscall => 0x090a,
            Opcode::extcall => 0x090b,
            Opcode::memory_allocate => 0x0a00,
            Opcode::memory_resize => 0x0a01,
            Opcode::memory_free => 0x0a02,
            Opcode::memory_fill => 0x0a03,
            Opcode::memory_copy => 0x0a04,
            Opcode::terminate => 0x0a05,
            Opcode::get_function => 0x0b00,
            Opcode::get_data => 0x0b01,
            Opcode::host_addr_function => 0x0b02,
            Opcode::host_addr_function_dynamic => 0x0b03,
            Opcode::host_addr_data => 0x0b04,
            Opcode::host_addr_data_extend => 0x0b05,
            Opcode::host_addr_data_dynamic => 0x0b06,
        }
    }

    /// The opcode with the given code, if there is one.
    pub fn from_code(code: u16) -> (found: Option<Opcode>)
        ensures
            found == Self::spec_from_code(code),
    {
        let item: u8 = (code % 0x100) as u8;
        match code / 0x100 {
            1 => Self::fundamental_from_item(item),
            2 => Self::local_variable_from_item(item),
            3 => Self::data_from_item(item),
            4 => Self::arithmetic_from_item(item),
            5 => Self::bitwise_from_item(item),
            6 => Self::math_from_item(item),
            7 => Self::conversion_from_item(item),
            8 => Self::comparison_from_item(item),
            9 => Self::control_flow_from_item(item),
            10 => Self::memory_from_item(item),
            11 => Self::machine_from_item(item),
            _ => None,
        }
    }

    fn fundamental_from_item(item: u8) -> (found: Option<Opcode>)
        ensures
            found == Self::spec_from_code((0x0100 + item) as u16),
    {
        match item {
            0x00 => Some(Opcode::nop),
            0x01 => Some(Opcode::imm_i32),
            0x02 => Some(Opcode::imm_i64),
            0x03 => Some(Opcode::imm_f32),
            0x04 => Some(Opcode::imm_f64),
            _ => None,
        }
    }

    fn local_variable_from_item(item: u8) -> (found: Option<Opcode>)
        ensures
            found == Self::spec_from_code((0x0200 + item) as u16),
    {
        match item {
            0x00 => Some(Opcode::local_load_i64),
            0x01 => Some(Opcode::local_load_i32_s),
            0x02 => Some(Opcode::local_load_i32_u),
            0x03 => Some(Opcode::local_load_i16_s),
            0x04 => Some(Opcode::local_load_i16_u),
            0x05 => Some(Opcode::local_load_i8_s),
            0x06 => Some(Opcode::local_load_i8_u),
            0x07 => Some(Opcode::local_load_f64),
            0x08 => Some(Opcode::local_load_f32),
            0x09 => Some(Opcode::local_store_i64),
            0x0a => Some(Opcode::local_store_i32),
            0x0b => Some(Opcode::local_store_i16),
            0x0c => Some(Opcode::local_store_i8),
            0x0d => Some(Opcode::local_store_f64),
            0x0e => Some(Opcode::local_store_f32),
            _ => None,
        }
    }

    fn data_from_item(item: u8) -> (found: Option<Opcode>)
        ensures
            found == Self::spec_from_code((0x0300 + item) as u16),
    {
        match item {
            0x00 => Some(Opcode::data_load_i64),
            0x01 => Some(Opcode::data_load_i32_s),
            0x02 => Some(Opcode::data_load_i32_u),
            0x03 => Some(Opcode::data_load_i16_s),
            0x04 => Some(Opcode::data_load_i16_u),
            0x05 => Some(Opcode::data_load_i8_s),
            0x06 => Some(Opcode::data_load_i8_u),
            0x07 => Some(Opcode::data_load_f64),
            0x08 => Some(Opcode::data_load_f32),
            0x09 => Some(Opcode::data_store_i64),
            0x0a => Some(Opcode::data_store_i32),
            0x0b => Some(Opcode::data_store_i16),
            0x0c => Some(Opcode::data_store_i8),
            0x0d => Some(Opcode::data_store_f64),
            0x0e => Some(Opcode::data_store_f32),
            0x0f => Some(Opcode::data_load_extend_i64),
            0x10 => Some(Opcode::data_load_extend_i32_s),
            0x11 => Some(Opcode::data_load_extend_i32_u),
            0x12 => Some(Opcode::data_load_extend_i16_s),
            0x13 => Some(Opcode::data_load_extend_i16_u),
            0x14 => Some(Opcode::data_load_extend_i8_s),
            0x15 => Some(Opcode::data_load_extend_i8_u),
            0x16 => Some(Opcode::data_load_extend_f64),
            0x17 => Some(Opcode::data_load_extend_f32),
            0x18 => Some(Opcode::data_store_extend_i64),
            0x19 => Some(Opcode::data_store_extend_i32),
            0x1a => Some(Opcode::data_store_extend_i16),
            0x1b => Some(Opcode::data_store_extend_i8),
            0x1c => Some(Opcode::data_store_extend_f64),
            0x1d => Some(Opcode::data_store_extend_f32),
            0x1e => Some(Opcode::data_load_dynamic_i64),
            0x1f => Some(Opcode::data_load_dynamic_i32_s),
            0x20 => Some(Opcode::data_load_dynamic_i32_u),
            0x21 => Some(Opcode::data_load_dynamic_i16_s),
            0x22 => Some(Opcode::data_load_dynamic_i16_u),
            0x23 => Some(Opcode::data_load_dynamic_i8_s),
            0x24 => Some(Opcode::data_load_dynamic_i8_u),
            0x25 => Some(Opcode::data_load_dynamic_f64),
            0x26 => Some(Opcode::data_load_dynamic_f32),
            0x27 => Some(Opcode::data_store_dynamic_i64),
            0x28 => Some(Opcode::data_store_dynamic_i32),
            0x29 => Some(Opcode::data_store_dynamic_i16),
            0x2a => Some(Opcode::data_store_dynamic_i8),
            0x2b => Some(Opcode::data_store_dynamic_f64),
            0x2c => Some(Opcode::data_store_dynamic_f32),
            _ => None,
        }
    }

    fn arithmetic_from_item(item: u8) -> (found: Option<Opcode>)
        ensures
            found == Self::spec_from_code((0x0400 + item) as u16),
    {
        match item {
            0x00 => Some(Opcode::add_i32),
            0x01 => Some(Opcode::sub_i32),
            0x02 => Some(Opcode::add_imm_i32),
            0x03 => Some(Opcode::sub_imm_i32),
            0x04 => Some(Opcode::mul_i32),
            0x05 => Some(Opcode::div_i32_s),
            0x06 => Some(Opcode::div_i32_u),
            0x07 => Some(Opcode::rem_i32_s),
            0x08 => Some(Opcode::rem_i32_u),
            0x09 => Some(Opcode::add_i64),
            0x0a => Some(Opcode::sub_i64),
            0x0b => Some(Opcode::add_imm_i64),
            0x0c => Some(Opcode::sub_imm_i64),
            0x0d => Some(Opcode::mul_i64),
            0x0e => Some(Opcode::div_i64_s),
            0x0f => Some(Opcode::div_i64_u),
            0x10 => Some(Opcode::rem_i64_s),
            0x11 => Some(Opcode::rem_i64_u),
            0x12 => Some(Opcode::add_f32),
            0x13 => Some(Opcode::sub_f32),
            0x14 => Some(Opcode::mul_f32),
            0x15 => Some(Opcode::div_f32),
            0x16 => Some(Opcode::add_f64),
            0x17 => Some(Opcode::sub_f64),
            0x18 => Some(Opcode::mul_f64),
            0x19 => Some(Opcode::div_f64),
            _ => None,
        }
    }

    fn bitwise_from_item(item: u8) -> (found: Option<Opcode>)
        ensures
            found == Self::spec_from_code((0x0500 + item) as u16),
    {
        match item {
            0x00 => Some(Opcode::and),
            0x01 => Some(Opcode::or),
            0x02 => Some(Opcode::xor),
            0x03 => Some(Opcode::not),
            0x04 => Some(Opcode::shift_left_i32),
            0x05 => Some(Opcode::shift_right_i32_s),
            0x06 => Some(Opcode::shift_right_i32_u),
            0x07 => Some(Opcode::rotate_left_i32),
            0x08 => Some(Opcode::rotate_right_i32),
            0x09 => Some(Opcode::count_leading_zeros_i32),
            0x0a => Some(Opcode::count_leading_ones_i32),
            0x0b => Some(Opcode::count_trailing_zeros_i32),
            0x0c => Some(Opcode::count_ones_i32),
            0x0d => Some(Opcode::shift_left_i64),
            0x0e => Some(Opcode::shift_right_i64_s),
            0x0f => Some(Opcode::shift_right_i64_u),
            0x10 => Some(Opcode::rotate_left_i64),
            0x11 => Some(Opcode::rotate_right_i64),
            0x12 => Some(Opcode::count_leading_zeros_i64),
            0x13 => Some(Opcode::count_leading_ones_i64),
            0x14 => Some(Opcode::count_trailing_zeros_i64),
            0x15 => Some(Opcode::count_ones_i64),
            _ => None,
        }
    }

    fn math_from_item(item: u8) -> (found: Option<Opcode>)
        ensures
            found == Self::spec_from_code((0x0600 + item) as u16),
    {
        match item {
            0x00 => Some(Opcode::abs_i32),
            0x01 => Some(Opcode::neg_i32),
            0x02 => Some(Opcode::abs_i64),
            0x03 => Some(Opcode::neg_i64),
            0x04 => Some(Opcode::abs_f32),
            0x05 => Some(Opcode::neg_f32),
            0x06 => Some(Opcode::copysign_f32),
            0x07 => Some(Opcode::sqrt_f32),
            0x08 => Some(Opcode::min_f32),
            0x09 => Some(Opcode::max_f32),
            0x0a => Some(Opcode::ceil_f32),
            0x0b => Some(Opcode::floor_f32),
            0x0c => Some(Opcode::round_half_away_from_zero_f32),
            0x0d => Some(Opcode::round_half_to_even_f32),
            0x0e => Some(Opcode::trunc_f32),
            0x0f => Some(Opcode::fract_f32),
            0x10 => Some(Opcode::cbrt_f32),
            0x11 => Some(Opcode::exp_f32),
            0x12 => Some(Opcode::exp2_f32),
            0x13 => Some(Opcode::ln_f32),
            0x14 => Some(Opcode::log2_f32),
            0x15 => Some(Opcode::log10_f32),
            0x16 => Some(Opcode::sin_f32),
            0x17 => Some(Opcode::cos_f32),
            0x18 => Some(Opcode::tan_f32),
            0x19 => Some(Opcode::asin_f32),
            0x1a => Some(Opcode::acos_f32),
            0x1b => Some(Opcode::atan_f32),
            0x1c => Some(Opcode::pow_f32),
            0x1d => Some(Opcode::log_f32),
            0x1e => Some(Opcode::abs_f64),
            0x1f => Some(Opcode::neg_f64),
            0x20 => Some(Opcode::copysign_f64),
            0x21 => Some(Opcode::sqrt_f64),
            0x22 => Some(Opcode::min_f64),
            0x23 => Some(Opcode::max_f64),
            0x24 => Some(Opcode::ceil_f64),
            0x25 => Some(Opcode::floor_f64),
            0x26 => Some(Opcode::round_half_away_from_zero_f64),
            0x27 => Some(Opcode::round_half_to_even_f64),
            0x28 => Some(Opcode::trunc_f64),
            0x29 => Some(Opcode::fract_f64),
            0x2a => Some(Opcode::cbrt_f64),
            0x2b => Some(Opcode::exp_f64),
            0x2c => Some(Opcode::exp2_f64),
            0x2d => Some(Opcode::ln_f64),
            0x2e => Some(Opcode::log2_f64),
            0x2f => Some(Opcode::log10_f64),
            0x30 => Some(Opcode::sin_f64),
            0x31 => Some(Opcode::cos_f64),
            0x32 => Some(Opcode::tan_f64),
            0x33 => Some(Opcode::asin_f64),
            0x34 => Some(Opcode::acos_f64),
            0x35 => Some(Opcode::atan_f64),
            0x36 => Some(Opcode::pow_f64),
            0x37 => Some(Opcode::log_f64),
            _ => None,
        }
    }

    fn conversion_from_item(item: u8) -> (found: Option<Opcode>)
        ensures
            found == Self::spec_from_code((0x0700 + item) as u16),
    {
        match item {
            0x00 => Some(Opcode::truncate_i64_to_i32),
            0x01 => Some(Opcode::extend_i32_s_to_i64),
            0x02 => Some(Opcode::extend_i32_u_to_i64),
            0x03 => Some(Opcode::demote_f64_to_f32),
            0x04 => Some(Opcode::promote_f32_to_f64),
            0x05 => Some(Opcode::convert_f32_to_i32_s),
            0x06 => Some(Opcode::convert_f32_to_i32_u),
            0x07 => Some(Opcode::convert_f64_to_i32_s),
            0x08 => Some(Opcode::convert_f64_to_i32_u),
            0x09 => Some(Opcode::convert_f32_to_i64_s),
            0x0a => Some(Opcode::convert_f32_to_i64_u),
            0x0b => Some(Opcode::convert_f64_to_i64_s),
            0x0c => Some(Opcode::convert_f64_to_i64_u),
            0x0d => Some(Opcode::convert_i32_s_to_f32),
            0x0e => Some(Opcode::convert_i32_u_to_f32),
            0x0f => Some(Opcode::convert_i64_s_to_f32),
            0x10 => Some(Opcode::convert_i64_u_to_f32),
            0x11 => Some(Opcode::convert_i32_s_to_f64),
            0x12 => Some(Opcode::convert_i32_u_to_f64),
            0x13 => Some(Opcode::convert_i64_s_to_f64),
            0x14 => Some(Opcode::convert_i64_u_to_f64),
            _ => None,
        }
    }

    fn comparison_from_item(item: u8) -> (found: Option<Opcode>)
        ensures
            found == Self::spec_from_code((0x0800 + item) as u16),
    {
        match item {
            0x00 => Some(Opcode::eqz_i32),
            0x01 => Some(Opcode::nez_i32),
            0x02 => Some(Opcode::eq_i32),
            0x03 => Some(Opcode::ne_i32),
            0x04 => Some(Opcode::lt_i32_s),
            0x05 => Some(Opcode::lt_i32_u),
            0x06 => Some(Opcode::gt_i32_s),
            0x07 => Some(Opcode::gt_i32_u),
            0x08 => Some(Opcode::le_i32_s),
            0x09 => Some(Opcode::le_i32_u),
            0x0a => Some(Opcode::ge_i32_s),
            0x0b => Some(Opcode::ge_i32_u),
            0x0c => Some(Opcode::eqz_i64),
            0x0d => Some(Opcode::nez_i64),
            0x0e => Some(Opcode::eq_i64),
            0x0f => Some(Opcode::ne_i64),
            0x10 => Some(Opcode::lt_i64_s),
            0x11 => Some(Opcode::lt_i64_u),
            0x12 => Some(Opcode::gt_i64_s),
            0x13 => Some(Opcode::gt_i64_u),
            0x14 => Some(Opcode::le_i64_s),
            0x15 => Some(Opcode::le_i64_u),
            0x16 => Some(Opcode::ge_i64_s),
            0x17 => Some(Opcode::ge_i64_u),
            0x18 => Some(Opcode::eq_f32),
            0x19 => Some(Opcode::ne_f32),
            0x1a => Some(Opcode::lt_f32),
            0x1b => Some(Opcode::gt_f32),
            0x1c => Some(Opcode::le_f32),
            0x1d => Some(Opcode::ge_f32),
            0x1e => Some(Opcode::eq_f64),
            0x1f => Some(Opcode::ne_f64),
            0x20 => Some(Opcode::lt_f64),
            0x21 => Some(Opcode::gt_f64),
            0x22 => Some(Opcode::le_f64),
            0x23 => Some(Opcode::ge_f64),
            _ => None,
        }
    }

    fn control_flow_from_item(item: u8) -> (found: Option<Opcode>)
        ensures
            found == Self::spec_from_code((0x0900 + item) as u16),
    {
        match item {
            0x00 => Some(Opcode::end),
            0x01 => Some(Opcode::block),
            0x02 => Some(Opcode::break_),
            0x03 => Some(Opcode::recur),
            0x04 => Some(Opcode::block_alt),
            0x05 => Some(Opcode::break_alt),
            0x06 => Some(Opcode::block_nez),
            0x07 => Some(Opcode::call),
            0x08 => Some(Opcode::call_dynamic),
            0x09 => Some(Opcode::envcall),
            0x0a => Some(Opcode::syscall),
            0x0b => Some(Opcode::extcall),
            _ => None,
        }
    }

    fn memory_from_item(item: u8) -> (found: Option<Opcode>)
        ensures
            found == Self::spec_from_code((0x0a00 + item) as u16),
    {
        match item {
            0x00 => Some(Opcode::memory_allocate),
            0x01 => Some(Opcode::memory_resize),
            0x02 => Some(Opcode::memory_free),
            0x03 => Some(Opcode::memory_fill),
            0x04 => Some(Opcode::memory_copy),
            0x05 => Some(Opcode::terminate),
            _ => None,
        }
    }

    fn machine_from_item(item: u8) -> (found: Option<Opcode>)
        ensures
            found == Self::spec_from_code((0x0b00 + item) as u16),
    {
        match item {
            0x00 => Some(Opcode::get_function),
            0x01 => Some(Opcode::get_data),
            0x02 => Some(Opcode::host_addr_function),
            0x03 => Some(Opcode::host_addr_function_dynamic),
            0x04 => Some(Opcode::host_addr_data),
            0x05 => Some(Opcode::host_addr_data_extend),
            0x06 => Some(Opcode::host_addr_data_dynamic),
            _ => None,
        }
    }

    #[verifier::when_used_as_spec(spec_layout)]
    pub fn layout(self) -> (layout: InstructionLayout)
        ensures
            layout == self.spec_layout(),
    {
        match self {
            Opcode::add_imm_i32
            | Opcode::sub_imm_i32
            | Opcode::add_imm_i64
            | Opcode::sub_imm_i64 => InstructionLayout::I16,
            Opcode::imm_i32
            | Opcode::imm_f32
            | Opcode::data_load_extend_i64
            | Opcode::data_load_extend_i32_s
            | Opcode::data_load_extend_i32_u
            | Opcode::data_load_extend_i16_s
            | Opcode::data_load_extend_i16_u
            | Opcode::data_load_extend_i8_s
            | Opcode::data_load_extend_i8_u
            | Opcode::data_load_extend_f64
            | Opcode::data_load_extend_f32
            | Opcode::data_store_extend_i64
            | Opcode::data_store_extend_i32
            | Opcode::data_store_extend_i16
            | Opcode::data_store_extend_i8
            | Opcode::data_store_extend_f64
            | Opcode::data_store_extend_f32
            | Opcode::break_alt
            | Opcode::call
            | Opcode::envcall
            | Opcode::extcall
            | Opcode::terminate
            | Opcode::get_function
            | Opcode::get_data
            | Opcode::host_addr_function
            | Opcode::host_addr_data_extend => InstructionLayout::I32,
            Opcode::local_load_i64
            | Opcode::local_load_i32_s
            | Opcode::local_load_i32_u
            | Opcode::local_load_i16_s
            | Opcode::local_load_i16_u
            | Opcode::local_load_i8_s
            | Opcode::local_load_i8_u
            | Opcode::local_load_f64
            | Opcode::local_load_f32
            | Opcode::local_store_i64
            | Opcode::local_store_i32
            | Opcode::local_store_i16
            | Opcode::local_store_i8
            | Opcode::local_store_f64
            | Opcode::local_store_f32
            | Opcode::data_load_i64
            | Opcode::data_load_i32_s
            | Opcode::data_load_i32_u
            | Opcode::data_load_i16_s
            | Opcode::data_load_i16_u
            | Opcode::data_load_i8_s
            | Opcode::data_load_i8_u
            | Opcode::data_load_f64
            | Opcode::data_load_f32
            | Opcode::data_store_i64
            | Opcode::data_store_i32
            | Opcode::data_store_i16
            | Opcode::data_store_i8
            | Opcode::data_store_f64
            | Opcode::data_store_f32
            | Opcode::break_
            | Opcode::recur
            | Opcode::host_addr_data => InstructionLayout::I16I32,
            Opcode::imm_i64
            | Opcode::imm_f64
            | Opcode::block
            | Opcode::block_nez => InstructionLayout::I32I32,
            Opcode::block_alt => InstructionLayout::I32I32I32,
            _ => InstructionLayout::Bare,
        }
    }

    pub fn get_name(&self) -> (name: &'static str)
        ensures
            name@ == self.printed_name(),
    {
        match self {
            Opcode::nop => "nop",
            Opcode::imm_i32 => "imm_i32",
            Opcode::imm_i64 => "imm_i64",
            Opcode::imm_f32 => "imm_f32",
            Opcode::imm_f64 => "imm_f64",
            Opcode::local_load_i64 => "local_load_64",
            Opcode::local_load_i32_s => "local_load_i32_s",
            Opcode::local_load_i32_u => "local_load_i32_u",
            Opcode::local_load_i16_s => "local_load_i16_s",
            Opcode::local_load_i16_u => "local_load_i16_u",
            Opcode::local_load_i8_s => "local_load_i8_s",
            Opcode::local_load_i8_u => "local_load_i8_u",
            Opcode::local_load_f64 => "local_load_f64",
            Opcode::local_load_f32 => "local_load_f32",
            Opcode::local_store_i64 => "local_store_i64",
            Opcode::local_store_i32 => "local_store_i32",
            Opcode::local_store_i16 => "local_store_i16",
            Opcode::local_store_i8 => "local_store_i8",
            Opcode::local_store_f64 => "local_store_f64",
            Opcode::local_store_f32 => "local_store_f32",
            Opcode::data_load_i64 => "data_load_i64",
            Opcode::data_load_i32_s => "data_load_i32_s",
            Opcode::data_load_i32_u => "data_load_i32_u",
            Opcode::data_load_i16_s => "data_load_i16_s",
            Opcode::data_load_i16_u => "data_load_i16_u",
            Opcode::data_load_i8_s => "data_load_i8_s",
            Opcode::data_load_i8_u => "data_load_i8_u",
            Opcode::data_load_f64 => "data_load_f64",
            Opcode::data_load_f32 => "data_load_f32",
            Opcode::data_store_i64 => "data_store_i64",
            Opcode::data_store_i32 => "data_store_i32",
            Opcode::data_store_i16 => "data_store_i16",
            Opcode::data_store_i8 => "data_store_i8",
            Opcode::data_store_f64 => "data_store_f64",
            Opcode::data_store_f32 => "data_store_f32",
            Opcode::data_load_extend_i64 => "data_load_extend_i64",
            Opcode::data_load_extend_i32_s => "data_load_extend_i32_s",
            Opcode::data_load_extend_i32_u => "data_load_extend_i32_u",
            Opcode::data_load_extend_i16_s => "data_load_extend_i16_s",
            Opcode::data_load_extend_i16_u => "data_load_extend_i16_u",
            Opcode::data_load_extend_i8_s => "data_load_extend_i8_s",
            Opcode::data_load_extend_i8_u => "data_load_extend_i8_u",
            Opcode::data_load_extend_f64 => "data_load_extend_f64",
            Opcode::data_load_extend_f32 => "data_load_extend_f32",
            Opcode::data_store_extend_i64 => "data_store_extend_i64",
            Opcode::data_store_extend_i32 => "data_store_extend_i32",
            Opcode::data_store_extend_i16 => "data_store_extend_i16",
            Opcode::data_store_extend_i8 => "data_store_extend_i8",
            Opcode::data_store_extend_f64 => "data_store_extend_f64",
            Opcode::data_store_extend_f32 => "data_store_extend_f32",
            Opcode::data_load_dynamic_i64 => "data_load_dynamic_i64",
            Opcode::data_load_dynamic_i32_s => "data_load_dynamic_i32_s",
            Opcode::data_load_dynamic_i32_u => "data_load_dynamic_i32_u",
            Opcode::data_load_dynamic_i16_s => "data_load_dynamic_i16_s",
            Opcode::data_load_dynamic_i16_u => "data_load_dynamic_i16_u",
            Opcode::data_load_dynamic_i8_s => "data_load_dynamic_i8_s",
            Opcode::data_load_dynamic_i8_u => "data_load_dynamic_i8_u",
            Opcode::data_load_dynamic_f64 => "data_load_dynamic_f64",
            Opcode::data_load_dynamic_f32 => "data_load_dynamic_f32",
            Opcode::data_store_dynamic_i64 => "data_store_dynamic_i64",
            Opcode::data_store_dynamic_i32 => "data_store_dynamic_i32",
            Opcode::data_store_dynamic_i16 => "data_store_dynamic_i16",
            Opcode::data_store_dynamic_i8 => "data_store_dynamic_i8",
            Opcode::data_store_dynamic_f64 => "data_store_dynamic_f64",
            Opcode::data_store_dynamic_f32 => "data_store_dynamic_f32",
            Opcode::add_i32 => "add_i32",
            Opcode::sub_i32 => "sub_i32",
            Opcode::add_imm_i32 => "add_imm_i32",
            Opcode::sub_imm_i32 => "sub_imm_i32",
            Opcode::mul_i32 => "mul_i32",
            Opcode::div_i32_s => "div_i32_s",
            Opcode::div_i32_u => "div_i32_u",
            Opcode::rem_i32_s => "rem_i32_s",
            Opcode::rem_i32_u => "rem_i32_u",
            Opcode::add_i64 => "add_i64",
            Opcode::sub_i64 => "sub_i64",
            Opcode::add_imm_i64 => "add_imm_i64",
            Opcode::sub_imm_i64 => "sub_imm_i64",
            Opcode::mul_i64 => "mul_i64",
            Opcode::div_i64_s => "div_i64_s",
            Opcode::div_i64_u => "div_i64_u",
            Opcode::rem_i64_s => "rem_i64_s",
            Opcode::rem_i64_u => "rem_i64_u",
            Opcode::add_f32 => "add_f32",
            Opcode::sub_f32 => "sub_f32",
            Opcode::mul_f32 => "mul_f32",
            Opcode::div_f32 => "div_f32",
            Opcode::add_f64 => "add_f64",
            Opcode::sub_f64 => "sub_f64",
            Opcode::mul_f64 => "mul_f64",
            Opcode::div_f64 => "div_f64",
            Opcode::and => "and",
            Opcode::or => "or",
            Opcode::xor => "xor",
            Opcode::not => "not",
            Opcode::shift_left_i32 => "shift_left_i32",
            Opcode::shift_right_i32_s => "shift_right_i32_s",
            Opcode::shift_right_i32_u => "shift_right_i32_u",
            Opcode::rotate_left_i32 => "rotate_left_i32",
            Opcode::rotate_right_i32 => "rotate_right_i32",
            Opcode::count_leading_zeros_i32 => "count_leading_zeros_i32",
            Opcode::count_leading_ones_i32 => "count_leading_ones_i32",
            Opcode::count_trailing_zeros_i32 => "count_trailing_zeros_i32",
            Opcode::count_ones_i32 => "count_ones_i32",
            Opcode::shift_left_i64 => "shift_left_i64",
            Opcode::shift_right_i64_s => "shift_right_i64_s",
            Opcode::shift_right_i64_u => "shift_right_i64_u",
            Opcode::rotate_left_i64 => "rotate_left_i64",
            Opcode::rotate_right_i64 => "rotate_right_i64",
            Opcode::count_leading_zeros_i64 => "count_leading_zeros_i64",
            Opcode::count_leading_ones_i64 => "count_leading_ones_i64",
            Opcode::count_trailing_zeros_i64 => "count_trailing_zeros_i64",
            Opcode::count_ones_i64 => "count_ones_i64",
            Opcode::abs_i32 => "abs_i32",
            Opcode::neg_i32 => "neg_i32",
            Opcode::abs_i64 => "abs_i64",
            Opcode::neg_i64 => "neg_i64",
            Opcode::abs_f32 => "abs_f32",
            Opcode::neg_f32 => "neg_f32",
            Opcode::copysign_f32 => "copysign_f32",
            Opcode::sqrt_f32 => "sqrt_f32",
            Opcode::min_f32 => "min_f32",
            Opcode::max_f32 => "max_f32",
            Opcode::ceil_f32 => "ceil_f32",
            Opcode::floor_f32 => "floor_f32",
            Opcode::round_half_away_from_zero_f32 => "round_half_away_from_zero_f32",
            Opcode::round_half_to_even_f32 => "round_half_to_even_f32",
            Opcode::trunc_f32 => "trunc_f32",
            Opcode::fract_f32 => "fract_f32",
            Opcode::cbrt_f32 => "cbrt_f32",
            Opcode::exp_f32 => "exp_f32",
            Opcode::exp2_f32 => "exp2_f32",
            Opcode::ln_f32 => "ln_f32",
            Opcode::log2_f32 => "log2_f32",
            Opcode::log10_f32 => "log10_f32",
            Opcode::sin_f32 => "sin_f32",
            Opcode::cos_f32 => "cos_f32",
            Opcode::tan_f32 => "tan_f32",
            Opcode::asin_f32 => "asin_f32",
            Opcode::acos_f32 => "acos_f32",
            Opcode::atan_f32 => "atan_f32",
            Opcode::pow_f32 => "pow_f32",
            Opcode::log_f32 => "log_f32",
            Opcode::abs_f64 => "abs_f64",
            Opcode::neg_f64 => "neg_f64",
            Opcode::copysign_f64 => "copysign_f64",
            Opcode::sqrt_f64 => "sqrt_f64",
            Opcode::min_f64 => "min_f64",
            Opcode::max_f64 => "max_f64",
            Opcode::ceil_f64 => "ceil_f64",
            Opcode::floor_f64 => "floor_f64",
            Opcode::round_half_away_from_zero_f64 => "round_half_away_from_zero_f64",
            Opcode::round_half_to_even_f64 => "round_half_to_even_f64",
            Opcode::trunc_f64 => "trunc_f64",
            Opcode::fract_f64 => "fract_f64",
            Opcode::cbrt_f64 => "cbrt_f64",
            Opcode::exp_f64 => "exp_f64",
            Opcode::exp2_f64 => "exp2_f64",
            Opcode::ln_f64 => "ln_f64",
            Opcode::log2_f64 => "log2_f64",
            Opcode::log10_f64 => "log10_f64",
            Opcode::sin_f64 => "sin_f64",
            Opcode::cos_f64 => "cos_f64",
            Opcode::tan_f64 => "tan_f64",
            Opcode::asin_f64 => "asin_f64",
            Opcode::acos_f64 => "acos_f64",
            Opcode::atan_f64 => "atan_f64",
            Opcode::pow_f64 => "pow_f64",
            Opcode::log_f64 => "log_f64",
            Opcode::truncate_i64_to_i32 => "truncate_i64_to_i32",
            Opcode::extend_i32_s_to_i64 => "extend_i32_s_to_i64",
            Opcode::extend_i32_u_to_i64 => "extend_i32_u_to_i64",
            Opcode::demote_f64_to_f32 => "demote_f64_to_f32",
            Opcode::promote_f32_to_f64 => "promote_f32_to_f64",
            Opcode::convert_f32_to_i32_s => "convert_f32_to_i32_s",
            Opcode::convert_f32_to_i32_u => "convert_f32_to_i32_u",
            Opcode::convert_f64_to_i32_s => "convert_f64_to_i32_s",
            Opcode::convert_f64_to_i32_u => "convert_f64_to_i32_u",
            Opcode::convert_f32_to_i64_s => "convert_f32_to_i64_s",
            Opcode::convert_f32_to_i64_u => "convert_f32_to_i64_u",
            Opcode::convert_f64_to_i64_s => "convert_f64_to_i64_s",
            Opcode::convert_f64_to_i64_u => "convert_f64_to_i64_u",
            Opcode::convert_i32_s_to_f32 => "convert_i32_s_to_f32",
            Opcode::convert_i32_u_to_f32 => "convert_i32_u_to_f32",
            Opcode::convert_i64_s_to_f32 => "convert_i64_s_to_f32",
            Opcode::convert_i64_u_to_f32 => "convert_i64_u_to_f32",
            Opcode::convert_i32_s_to_f64 => "convert_i32_s_to_f64",
            Opcode::convert_i32_u_to_f64 => "convert_i32_u_to_f64",
            Opcode::convert_i64_s_to_f64 => "convert_i64_s_to_f64",
            Opcode::convert_i64_u_to_f64 => "convert_i64_u_to_f64",
            Opcode::eqz_i32 => "eqz_i32",
            Opcode::nez_i32 => "nez_i32",
            Opcode::eq_i32 => "eq_i32",
            Opcode::ne_i32 => "ne_i32",
            Opcode::lt_i32_s => "lt_i32_s",
            Opcode::lt_i32_u => "lt_i32_u",
            Opcode::gt_i32_s => "gt_i32_s",
            Opcode::gt_i32_u => "gt_i32_u",
            Opcode::le_i32_s => "le_i32_s",
            Opcode::le_i32_u => "le_i32_u",
            Opcode::ge_i32_s => "ge_i32_s",
            Opcode::ge_i32_u => "ge_i32_u",
            Opcode::eqz_i64 => "eqz_i64",
            Opcode::nez_i64 => "nez_i64",
            Opcode::eq_i64 => "eq_i64",
            Opcode::ne_i64 => "ne_i64",
            Opcode::lt_i64_s => "lt_i64_s",
            Opcode::lt_i64_u => "lt_i64_u",
            Opcode::gt_i64_s => "gt_i64_s",
            Opcode::gt_i64_u => "gt_i64_u",
            Opcode::le_i64_s => "le_i64_s",
            Opcode::le_i64_u => "le_i64_u",
            Opcode::ge_i64_s => "ge_i64_s",
            Opcode::ge_i64_u => "ge_i64_u",
            Opcode::eq_f32 => "eq_f32",
            Opcode::ne_f32 => "ne_f32",
            Opcode::lt_f32 => "lt_f32",
            Opcode::gt_f32 => "gt_f32",
            Opcode::le_f32 => "le_f32",
            Opcode::ge_f32 => "ge_f32",
            Opcode::eq_f64 => "eq_f64",
            Opcode::ne_f64 => "ne_f64",
            Opcode::lt_f64 => "lt_f64",
            Opcode::gt_f64 => "gt_f64",
            Opcode::le_f64 => "le_f64",
            Opcode::ge_f64 => "ge_f64",
            Opcode::end => "end",
            Opcode::block => "block",
            Opcode::break_ => "break",
            Opcode::recur => "recur",
            Opcode::block_alt => "block_alt",
            Opcode::break_alt => "break_alt",
            Opcode::block_nez => "block_nez",
            Opcode::call => "call",
            Opcode::call_dynamic => "call_dynamic",
            Opcode::envcall => "envcall",
            Opcode::syscall => "syscall",
            Opcode::extcall => "extcall",
            Opcode::memory_allocate => "memory_allocate",
            Opcode::memory_resize => "memory_resize",
            Opcode::memory_free => "memory_free",
            Opcode::memory_fill => "memory_fill",
            Opcode::memory_copy => "memory_copy",
            Opcode::terminate => "terminate",
            Opcode::get_function => "get_function",
            Opcode::get_data => "get_data",
            Opcode::host_addr_function => "host_addr_function",
            Opcode::host_addr_function_dynamic => "host_addr_function_dynamic",
            Opcode::host_addr_data => "host_addr_data",
            Opcode::host_addr_data_extend => "host_addr_data_extend",
            Opcode::host_addr_data_dynamic => "host_addr_data_dynamic",
        }
    }

    /// The opcode with the given mnemonic, if there is one.
    pub fn find_by_name(name: &str) -> (found: Option<Opcode>)
        ensures
            found is Some <==> Self::is_mnemonic(name@),
            found matches Some(opcode) ==> opcode.mnemonic() == name@,
    {
        if let Some(opcode) = Self::find_fundamental(name) {
            return Some(opcode);
        }
        if let Some(opcode) = Self::find_local_variable(name) {
            return Some(opcode);
        }
        if let Some(opcode) = Self::find_data(name) {
            return Some(opcode);
        }
        if let Some(opcode) = Self::find_arithmetic(name) {
            return Some(opcode);
        }
        if let Some(opcode) = Self::find_bitwise(name) {
            return Some(opcode);
        }
        if let Some(opcode) = Self::find_math(name) {
            return Some(opcode);
        }
        if let Some(opcode) = Self::find_conversion(name) {
            return Some(opcode);
        }
        if let Some(opcode) = Self::find_comparison(name) {
            return Some(opcode);
        }
        if let Some(opcode) = Self::find_control_flow(name) {
            return Some(opcode);
        }
        if let Some(opcode) = Self::find_memory(name) {
            return Some(opcode);
        }
        if let Some(opcode) = Self::find_machine(name) {
            return Some(opcode);
        }
        assert forall|opcode: Opcode| opcode.mnemonic() != name@ by {
            assert(1 <= opcode.category() <= 11);
        }
        None
    }

    fn find_fundamental(name: &str) -> (found: Option<Opcode>)
        ensures
            found matches Some(opcode) ==> opcode.mnemonic() == name@,
            found is None ==> forall|opcode: Opcode|
                opcode.category() == 1 ==> #[trigger] opcode.mnemonic() != name@,
    {
        if same_text(name, "nop") {
            Some(Opcode::nop)
        } else if same_text(name, "imm_i32") {
            Some(Opcode::imm_i32)
        } else if same_text(name, "imm_i64") {
            Some(Opcode::imm_i64)
        } else if same_text(name, "imm_f32") {
            Some(Opcode::imm_f32)
        } else if same_text(name, "imm_f64") {
            Some(Opcode::imm_f64)
        } else {
            None
        }
    }

    fn find_local_variable(name: &str) -> (found: Option<Opcode>)
        ensures
            found matches Some(opcode) ==> opcode.mnemonic() == name@,
            found is None ==> forall|opcode: Opcode|
                opcode.category() == 2 ==> #[trigger] opcode.mnemonic() != name@,
    {
        if same_text(name, "local_load_i64") {
            Some(Opcode::local_load_i64)
        } else if same_text(name, "local_load_i32_s") {
            Some(Opcode::local_load_i32_s)
        } else if same_text(name, "local_load_i32_u") {
            Some(Opcode::local_load_i32_u)
        } else if same_text(name, "local_load_i16_s") {
            Some(Opcode::local_load_i16_s)
        } else if same_text(name, "local_load_i16_u") {
            Some(Opcode::local_load_i16_u)
        } else if same_text(name, "local_load_i8_s") {
            Some(Opcode::local_load_i8_s)
        } else if same_text(name, "local_load_i8_u") {
            Some(Opcode::local_load_i8_u)
        } else if same_text(name, "local_load_f64") {
            Some(Opcode::local_load_f64)
        } else if same_text(name, "local_load_f32") {
            Some(Opcode::local_load_f32)
        } else if same_text(name, "local_store_i64") {
            Some(Opcode::local_store_i64)
        } else if same_text(name, "local_store_i32") {
            Some(Opcode::local_store_i32)
        } else if same_text(name, "local_store_i16") {
            Some(Opcode::local_store_i16)
        } else if same_text(name, "local_store_i8") {
            Some(Opcode::local_store_i8)
        } else if same_text(name, "local_store_f64") {
            Some(Opcode::local_store_f64)
        } else if same_text(name, "local_store_f32") {
            Some(Opcode::local_store_f32)
        } else {
            None
        }
    }

    fn find_data(name: &str) -> (found: Option<Opcode>)
        ensures
            found matches Some(opcode) ==> opcode.mnemonic() == name@,
            found is None ==> forall|opcode: Opcode|
                opcode.category() == 3 ==> #[trigger] opcode.mnemonic() != name@,
    {
        if same_text(name, "data_load_i64") {
            Some(Opcode::data_load_i64)
        } else if same_text(name, "data_load_i32_s") {
            Some(Opcode::data_load_i32_s)
        } else if same_text(name, "data_load_i32_u") {
            Some(Opcode::data_load_i32_u)
        } else if same_text(name, "data_load_i16_s") {
            Some(Opcode::data_load_i16_s)
        } else if same_text(name, "data_load_i16_u") {
            Some(Opcode::data_load_i16_u)
        } else if same_text(name, "data_load_i8_s") {
            Some(Opcode::data_load_i8_s)
        } else if same_text(name, "data_load_i8_u") {
            Some(Opcode::data_load_i8_u)
        } else if same_text(name, "data_load_f64") {
            Some(Opcode::data_load_f64)
        } else if same_text(name, "data_load_f32") {
            Some(Opcode::data_load_f32)
        } else if same_text(name, "data_store_i64") {
            Some(Opcode::data_store_i64)
        } else if same_text(name, "data_store_i32") {
            Some(Opcode::data_store_i32)
        } else if same_text(name, "data_store_i16") {
            Some(Opcode::data_store_i16)
        } else if same_text(name, "data_store_i8") {
            Some(Opcode::data_store_i8)
        } else if same_text(name, "data_store_f64") {
            Some(Opcode::data_store_f64)
        } else if same_text(name, "data_store_f32") {
            Some(Opcode::data_store_f32)
        } else if same_text(name, "data_load_extend_i64") {
            Some(Opcode::data_load_extend_i64)
        } else if same_text(name, "data_load_extend_i32_s") {
            Some(Opcode::data_load_extend_i32_s)
        } else if same_text(name, "data_load_extend_i32_u") {
            Some(Opcode::data_load_extend_i32_u)
        } else if same_text(name, "data_load_extend_i16_s") {
            Some(Opcode::data_load_extend_i16_s)
        } else if same_text(name, "data_load_extend_i16_u") {
            Some(Opcode::data_load_extend_i16_u)
        } else if same_text(name, "data_load_extend_i8_s") {
            Some(Opcode::data_load_extend_i8_s)
        } else if same_text(name, "data_load_extend_i8_u") {
            Some(Opcode::data_load_extend_i8_u)
        } else if same_text(name, "data_load_extend_f64") {
            Some(Opcode::data_load_extend_f64)
        } else if same_text(name, "data_load_extend_f32") {
            Some(Opcode::data_load_extend_f32)
        } else if same_text(name, "data_store_extend_i64") {
            Some(Opcode::data_store_extend_i64)
        } else if same_text(name, "data_store_extend_i32") {
            Some(Opcode::data_store_extend_i32)
        } else if same_text(name, "data_store_extend_i16") {
            Some(Opcode::data_store_extend_i16)
        } else if same_text(name, "data_store_extend_i8") {
            Some(Opcode::data_store_extend_i8)
        } else if same_text(name, "data_store_extend_f64") {
            Some(Opcode::data_store_extend_f64)
        } else if same_text(name, "data_store_extend_f32") {
            Some(Opcode::data_store_extend_f32)
        } else if same_text(name, "data_load_dynamic_i64") {
            Some(Opcode::data_load_dynamic_i64)
        } else if same_text(name, "data_load_dynamic_i32_s") {
            Some(Opcode::data_load_dynamic_i32_s)
        } else if same_text(name, "data_load_dynamic_i32_u") {
            Some(Opcode::data_load_dynamic_i32_u)
        } else if same_text(name, "data_load_dynamic_i16_s") {
            Some(Opcode::data_load_dynamic_i16_s)
        } else if same_text(name, "data_load_dynamic_i16_u") {
            Some(Opcode::data_load_dynamic_i16_u)
        } else if same_text(name, "data_load_dynamic_i8_s") {
            Some(Opcode::data_load_dynamic_i8_s)
        } else if same_text(name, "data_load_dynamic_i8_u") {
            Some(Opcode::data_load_dynamic_i8_u)
        } else if same_text(name, "data_load_dynamic_f64") {
            Some(Opcode::data_load_dynamic_f64)
        } else if same_text(name, "data_load_dynamic_f32") {
            Some(Opcode::data_load_dynamic_f32)
        } else if same_text(name, "data_store_dynamic_i64") {
            Some(Opcode::data_store_dynamic_i64)
        } else if same_text(name, "data_store_dynamic_i32") {
            Some(Opcode::data_store_dynamic_i32)
        } else if same_text(name, "data_store_dynamic_i16") {
            Some(Opcode::data_store_dynamic_i16)
        } else if same_text(name, "data_store_dynamic_i8") {
            Some(Opcode::data_store_dynamic_i8)
        } else if same_text(name, "data_store_dynamic_f64") {
            Some(Opcode::data_store_dynamic_f64)
        } else if same_text(name, "data_store_dynamic_f32") {
            Some(Opcode::data_store_dynamic_f32)
        } else {
            None
        }
    }

    fn find_arithmetic(name: &str) -> (found: Option<Opcode>)
        ensures
            found matches Some(opcode) ==> opcode.mnemonic() == name@,
            found is None ==> forall|opcode: Opcode|
                opcode.category() == 4 ==> #[trigger] opcode.mnemonic() != name@,
    {
        if same_text(name, "add_i32") {
            Some(Opcode::add_i32)
        } else if same_text(name, "sub_i32") {
            Some(Opcode::sub_i32)
        } else if same_text(name, "add_imm_i32") {
            Some(Opcode::add_imm_i32)
        } else if same_text(name, "sub_imm_i32") {
            Some(Opcode::sub_imm_i32)
        } else if same_text(name, "mul_i32") {
            Some(Opcode::mul_i32)
        } else if same_text(name, "div_i32_s") {
            Some(Opcode::div_i32_s)
        } else if same_text(name, "div_i32_u") {
            Some(Opcode::div_i32_u)
        } else if same_text(name, "rem_i32_s") {
            Some(Opcode::rem_i32_s)
        } else if same_text(name, "rem_i32_u") {
            Some(Opcode::rem_i32_u)
        } else if same_text(name, "add_i64") {
            Some(Opcode::add_i64)
        } else if same_text(name, "sub_i64") {
            Some(Opcode::sub_i64)
        } else if same_text(name, "add_imm_i64") {
            Some(Opcode::add_imm_i64)
        } else if same_text(name, "sub_imm_i64") {
            Some(Opcode::sub_imm_i64)
        } else if same_text(name, "mul_i64") {
            Some(Opcode::mul_i64)
        } else if same_text(name, "div_i64_s") {
            Some(Opcode::div_i64_s)
        } else if same_text(name, "div_i64_u") {
            Some(Opcode::div_i64_u)
        } else if same_text(name, "rem_i64_s") {
            Some(Opcode::rem_i64_s)
        } else if same_text(name, "rem_i64_u") {
            Some(Opcode::rem_i64_u)
        } else if same_text(name, "add_f32") {
            Some(Opcode::add_f32)
        } else if same_text(name, "sub_f32") {
            Some(Opcode::sub_f32)
        } else if same_text(name, "mul_f32") {
            Some(Opcode::mul_f32)
        } else if same_text(name, "div_f32") {
            Some(Opcode::div_f32)
        } else if same_text(name, "add_f64") {
            Some(Opcode::add_f64)
        } else if same_text(name, "sub_f64") {
            Some(Opcode::sub_f64)
        } else if same_text(name, "mul_f64") {
            Some(Opcode::mul_f64)
        } else if same_text(name, "div_f64") {
            Some(Opcode::div_f64)
        } else {
            None
        }
    }

    fn find_bitwise(name: &str) -> (found: Option<Opcode>)
        ensures
            found matches Some(opcode) ==> opcode.mnemonic() == name@,
            found is None ==> forall|opcode: Opcode|
                opcode.category() == 5 ==> #[trigger] opcode.mnemonic() != name@,
    {
        if same_text(name, "and") {
            Some(Opcode::and)
        } else if same_text(name, "or") {
            Some(Opcode::or)
        } else if same_text(name, "xor") {
            Some(Opcode::xor)
        } else if same_text(name, "not") {
            Some(Opcode::not)
        } else if same_text(name, "shift_left_i32") {
            Some(Opcode::shift_left_i32)
        } else if same_text(name, "shift_right_i32_s") {
            Some(Opcode::shift_right_i32_s)
        } else if same_text(name, "shift_right_i32_u") {
            Some(Opcode::shift_right_i32_u)
        } else if same_text(name, "rotate_left_i32") {
            Some(Opcode::rotate_left_i32)
        } else if same_text(name, "rotate_right_i32") {
            Some(Opcode::rotate_right_i32)
        } else if same_text(name, "count_leading_zeros_i32") {
            Some(Opcode::count_leading_zeros_i32)
        } else if same_text(name, "count_leading_ones_i32") {
            Some(Opcode::count_leading_ones_i32)
        } else if same_text(name, "count_trailing_zeros_i32") {
            Some(Opcode::count_trailing_zeros_i32)
        } else if same_text(name, "count_ones_i32") {
            Some(Opcode::count_ones_i32)
        } else if same_text(name, "shift_left_i64") {
            Some(Opcode::shift_left_i64)
        } else if same_text(name, "shift_right_i64_s") {
            Some(Opcode::shift_right_i64_s)
        } else if same_text(name, "shift_right_i64_u") {
            Some(Opcode::shift_right_i64_u)
        } else if same_text(name, "rotate_left_i64") {
            Some(Opcode::rotate_left_i64)
        } else if same_text(name, "rotate_right_i64") {
            Some(Opcode::rotate_right_i64)
        } else if same_text(name, "count_leading_zeros_i64") {
            Some(Opcode::count_leading_zeros_i64)
        } else if same_text(name, "count_leading_ones_i64") {
            Some(Opcode::count_leading_ones_i64)
        } else if same_text(name, "count_trailing_zeros_i64") {
            Some(Opcode::count_trailing_zeros_i64)
        } else if same_text(name, "count_ones_i64") {
            Some(Opcode::count_ones_i64)
        } else {
            None
        }
    }

    fn find_math(name: &str) -> (found: Option<Opcode>)
        ensures
            found matches Some(opcode) ==> opcode.mnemonic() == name@,
            found is None ==> forall|opcode: Opcode|
                opcode.category() == 6 ==> #[trigger] opcode.mnemonic() != name@,
    {
        if same_text(name, "abs_i32") {
            Some(Opcode::abs_i32)
        } else if same_text(name, "neg_i32") {
            Some(Opcode::neg_i32)
        } else if same_text(name, "abs_i64") {
            Some(Opcode::abs_i64)
        } else if same_text(name, "neg_i64") {
            Some(Opcode::neg_i64)
        } else if same_text(name, "abs_f32") {
            Some(Opcode::abs_f32)
        } else if same_text(name, "neg_f32") {
            Some(Opcode::neg_f32)
        } else if same_text(name, "copysign_f32") {
            Some(Opcode::copysign_f32)
        } else if same_text(name, "sqrt_f32") {
            Some(Opcode::sqrt_f32)
        } else if same_text(name, "min_f32") {
            Some(Opcode::min_f32)
        } else if same_text(name, "max_f32") {
            Some(Opcode::max_f32)
        } else if same_text(name, "ceil_f32") {
            Some(Opcode::ceil_f32)
        } else if same_text(name, "floor_f32") {
            Some(Opcode::floor_f32)
        } else if same_text(name, "round_half_away_from_zero_f32") {
            Some(Opcode::round_half_away_from_zero_f32)
        } else if same_text(name, "round_half_to_even_f32") {
            Some(Opcode::round_half_to_even_f32)
        } else if same_text(name, "trunc_f32") {
            Some(Opcode::trunc_f32)
        } else if same_text(name, "fract_f32") {
            Some(Opcode::fract_f32)
        } else if same_text(name, "cbrt_f32") {
            Some(Opcode::cbrt_f32)
        } else if same_text(name, "exp_f32") {
            Some(Opcode::exp_f32)
        } else if same_text(name, "exp2_f32") {
            Some(Opcode::exp2_f32)
        } else if same_text(name, "ln_f32") {
            Some(Opcode::ln_f32)
        } else if same_text(name, "log2_f32") {
            Some(Opcode::log2_f32)
        } else if same_text(name, "log10_f32") {
            Some(Opcode::log10_f32)
        } else if same_text(name, "sin_f32") {
            Some(Opcode::sin_f32)
        } else if same_text(name, "cos_f32") {
            Some(Opcode::cos_f32)
        } else if same_text(name, "tan_f32") {
            Some(Opcode::tan_f32)
        } else if same_text(name, "asin_f32") {
            Some(Opcode::asin_f32)
        } else if same_text(name, "acos_f32") {
            Some(Opcode::acos_f32)
        } else if same_text(name, "atan_f32") {
            Some(Opcode::atan_f32)
        } else if same_text(name, "pow_f32") {
            Some(Opcode::pow_f32)
        } else if same_text(name, "log_f32") {
            Some(Opcode::log_f32)
        } else if same_text(name, "abs_f64") {
            Some(Opcode::abs_f64)
        } else if same_text(name, "neg_f64") {
            Some(Opcode::neg_f64)
        } else if same_text(name, "copysign_f64") {
            Some(Opcode::copysign_f64)
        } else if same_text(name, "sqrt_f64") {
            Some(Opcode::sqrt_f64)
        } else if same_text(name, "min_f64") {
            Some(Opcode::min_f64)
        } else if same_text(name, "max_f64") {
            Some(Opcode::max_f64)
        } else if same_text(name, "ceil_f64") {
            Some(Opcode::ceil_f64)
        } else if same_text(name, "floor_f64") {
            Some(Opcode::floor_f64)
        } else if same_text(name, "round_half_away_from_zero_f64") {
            Some(Opcode::round_half_away_from_zero_f64)
        } else if same_text(name, "round_half_to_even_f64") {
            Some(Opcode::round_half_to_even_f64)
        } else if same_text(name, "trunc_f64") {
            Some(Opcode::trunc_f64)
        } else if same_text(name, "fract_f64") {
            Some(Opcode::fract_f64)
        } else if same_text(name, "cbrt_f64") {
            Some(Opcode::cbrt_f64)
        } else if same_text(name, "exp_f64") {
            Some(Opcode::exp_f64)
        } else if same_text(name, "exp2_f64") {
            Some(Opcode::exp2_f64)
        } else if same_text(name, "ln_f64") {
            Some(Opcode::ln_f64)
        } else if same_text(name, "log2_f64") {
            Some(Opcode::log2_f64)
        } else if same_text(name, "log10_f64") {
            Some(Opcode::log10_f64)
        } else if same_text(name, "sin_f64") {
            Some(Opcode::sin_f64)
        } else if same_text(name, "cos_f64") {
            Some(Opcode::cos_f64)
        } else if same_text(name, "tan_f64") {
            Some(Opcode::tan_f64)
        } else if same_text(name, "asin_f64") {
            Some(Opcode::asin_f64)
        } else if same_text(name, "acos_f64") {
            Some(Opcode::acos_f64)
        } else if same_text(name, "atan_f64") {
            Some(Opcode::atan_f64)
        } else if same_text(name, "pow_f64") {
            Some(Opcode::pow_f64)
        } else if same_text(name, "log_f64") {
            Some(Opcode::log_f64)
        } else {
            None
        }
    }

    fn find_conversion(name: &str) -> (found: Option<Opcode>)
        ensures
            found matches Some(opcode) ==> opcode.mnemonic() == name@,
            found is None ==> forall|opcode: Opcode|
                opcode.category() == 7 ==> #[trigger] opcode.mnemonic() != name@,
    {
        if same_text(name, "truncate_i64_to_i32") {
            Some(Opcode::truncate_i64_to_i32)
        } else if same_text(name, "extend_i32_s_to_i64") {
            Some(Opcode::extend_i32_s_to_i64)
        } else if same_text(name, "extend_i32_u_to_i64") {
            Some(Opcode::extend_i32_u_to_i64)
        } else if same_text(name, "demote_f64_to_f32") {
            Some(Opcode::demote_f64_to_f32)
        } else if same_text(name, "promote_f32_to_f64") {
            Some(Opcode::promote_f32_to_f64)
        } else if same_text(name, "convert_f32_to_i32_s") {
            Some(Opcode::convert_f32_to_i32_s)
        } else if same_text(name, "convert_f32_to_i32_u") {
            Some(Opcode::convert_f32_to_i32_u)
        } else if same_text(name, "convert_f64_to_i32_s") {
            Some(Opcode::convert_f64_to_i32_s)
        } else if same_text(name, "convert_f64_to_i32_u") {
            Some(Opcode::convert_f64_to_i32_u)
        } else if same_text(name, "convert_f32_to_i64_s") {
            Some(Opcode::convert_f32_to_i64_s)
        } else if same_text(name, "convert_f32_to_i64_u") {
            Some(Opcode::convert_f32_to_i64_u)
        } else if same_text(name, "convert_f64_to_i64_s") {
            Some(Opcode::convert_f64_to_i64_s)
        } else if same_text(name, "convert_f64_to_i64_u") {
            Some(Opcode::convert_f64_to_i64_u)
        } else if same_text(name, "convert_i32_s_to_f32") {
            Some(Opcode::convert_i32_s_to_f32)
        } else if same_text(name, "convert_i32_u_to_f32") {
            Some(Opcode::convert_i32_u_to_f32)
        } else if same_text(name, "convert_i64_s_to_f32") {
            Some(Opcode::convert_i64_s_to_f32)
        } else if same_text(name, "convert_i64_u_to_f32") {
            Some(Opcode::convert_i64_u_to_f32)
        } else if same_text(name, "convert_i32_s_to_f64") {
            Some(Opcode::convert_i32_s_to_f64)
        } else if same_text(name, "convert_i32_u_to_f64") {
            Some(Opcode::convert_i32_u_to_f64)
        } else if same_text(name, "convert_i64_s_to_f64") {
            Some(Opcode::convert_i64_s_to_f64)
        } else if same_text(name, "convert_i64_u_to_f64") {
            Some(Opcode::convert_i64_u_to_f64)
        } else {
            None
        }
    }

    fn find_comparison(name: &str) -> (found: Option<Opcode>)
        ensures
            found matches Some(opcode) ==> opcode.mnemonic() == name@,
            found is None ==> forall|opcode: Opcode|
                opcode.category() == 8 ==> #[trigger] opcode.mnemonic() != name@,
    {
        if same_text(name, "eqz_i32") {
            Some(Opcode::eqz_i32)
        } else if same_text(name, "nez_i32") {
            Some(Opcode::nez_i32)
        } else if same_text(name, "eq_i32") {
            Some(Opcode::eq_i32)
        } else if same_text(name, "ne_i32") {
            Some(Opcode::ne_i32)
        } else if same_text(name, "lt_i32_s") {
            Some(Opcode::lt_i32_s)
        } else if same_text(name, "lt_i32_u") {
            Some(Opcode::lt_i32_u)
        } else if same_text(name, "gt_i32_s") {
            Some(Opcode::gt_i32_s)
        } else if same_text(name, "gt_i32_u") {
            Some(Opcode::gt_i32_u)
        } else if same_text(name, "le_i32_s") {
            Some(Opcode::le_i32_s)
        } else if same_text(name, "le_i32_u") {
            Some(Opcode::le_i32_u)
        } else if same_text(name, "ge_i32_s") {
            Some(Opcode::ge_i32_s)
        } else if same_text(name, "ge_i32_u") {
            Some(Opcode::ge_i32_u)
        } else if same_text(name, "eqz_i64") {
            Some(Opcode::eqz_i64)
        } else if same_text(name, "nez_i64") {
            Some(Opcode::nez_i64)
        } else if same_text(name, "eq_i64") {
            Some(Opcode::eq_i64)
        } else if same_text(name, "ne_i64") {
            Some(Opcode::ne_i64)
        } else if same_text(name, "lt_i64_s") {
            Some(Opcode::lt_i64_s)
        } else if same_text(name, "lt_i64_u") {
            Some(Opcode::lt_i64_u)
        } else if same_text(name, "gt_i64_s") {
            Some(Opcode::gt_i64_s)
        } else if same_text(name, "gt_i64_u") {
            Some(Opcode::gt_i64_u)
        } else if same_text(name, "le_i64_s") {
            Some(Opcode::le_i64_s)
        } else if same_text(name, "le_i64_u") {
            Some(Opcode::le_i64_u)
        } else if same_text(name, "ge_i64_s") {
            Some(Opcode::ge_i64_s)
        } else if same_text(name, "ge_i64_u") {
            Some(Opcode::ge_i64_u)
        } else if same_text(name, "eq_f32") {
            Some(Opcode::eq_f32)
        } else if same_text(name, "ne_f32") {
            Some(Opcode::ne_f32)
        } else if same_text(name, "lt_f32") {
            Some(Opcode::lt_f32)
        } else if same_text(name, "gt_f32") {
            Some(Opcode::gt_f32)
        } else if same_text(name, "le_f32") {
            Some(Opcode::le_f32)
        } else if same_text(name, "ge_f32") {
            Some(Opcode::ge_f32)
        } else if same_text(name, "eq_f64") {
            Some(Opcode::eq_f64)
        } else if same_text(name, "ne_f64") {
            Some(Opcode::ne_f64)
        } else if same_text(name, "lt_f64") {
            Some(Opcode::lt_f64)
        } else if same_text(name, "gt_f64") {
            Some(Opcode::gt_f64)
        } else if same_text(name, "le_f64") {
            Some(Opcode::le_f64)
        } else if same_text(name, "ge_f64") {
            Some(Opcode::ge_f64)
        } else {
            None
        }
    }

    fn find_control_flow(name: &str) -> (found: Option<Opcode>)
        ensures
            found matches Some(opcode) ==> opcode.mnemonic() == name@,
            found is None ==> forall|opcode: Opcode|
                opcode.category() == 9 ==> #[trigger] opcode.mnemonic() != name@,
    {
        if same_text(name, "end") {
            Some(Opcode::end)
        } else if same_text(name, "block") {
            Some(Opcode::block)
        } else if same_text(name, "break") {
            Some(Opcode::break_)
        } else if same_text(name, "recur") {
            Some(Opcode::recur)
        } else if same_text(name, "block_alt") {
            Some(Opcode::block_alt)
        } else if same_text(name, "break_alt") {
            Some(Opcode::break_alt)
        } else if same_text(name, "block_nez") {
            Some(Opcode::block_nez)
        } else if same_text(name, "call") {
            Some(Opcode::call)
        } else if same_text(name, "call_dynamic") {
            Some(Opcode::call_dynamic)
        } else if same_text(name, "envcall") {
            Some(Opcode::envcall)
        } else if same_text(name, "syscall") {
            Some(Opcode::syscall)
        } else if same_text(name, "extcall") {
            Some(Opcode::extcall)
        } else {
            None
        }
    }

    fn find_memory(name: &str) -> (found: Option<Opcode>)
        ensures
            found matches Some(opcode) ==> opcode.mnemonic() == name@,
            found is None ==> forall|opcode: Opcode|
                opcode.category() == 10 ==> #[trigger] opcode.mnemonic() != name@,
    {
        if same_text(name, "memory_allocate") {
            Some(Opcode::memory_allocate)
        } else if same_text(name, "memory_resize") {
            Some(Opcode::memory_resize)
        } else if same_text(name, "memory_free") {
            Some(Opcode::memory_free)
        } else if same_text(name, "memory_fill") {
            Some(Opcode::memory_fill)
        } else if same_text(name, "memory_copy") {
            Some(Opcode::memory_copy)
        } else if same_text(name, "terminate") {
            Some(Opcode::terminate)
        } else {
            None
        }
    }

    fn find_machine(name: &str) -> (found: Option<Opcode>)
        ensures
            found matches Some(opcode) ==> opcode.mnemonic() == name@,
            found is None ==> forall|opcode: Opcode|
                opcode.category() == 11 ==> #[trigger] opcode.mnemonic() != name@,
    {
        if same_text(name, "get_function") {
            Some(Opcode::get_function)
        } else if same_text(name, "get_data") {
            Some(Opcode::get_data)
        } else if same_text(name, "host_addr_function") {
            Some(Opcode::host_addr_function)
        } else if same_text(name, "host_addr_function_dynamic") {
            Some(Opcode::host_addr_function_dynamic)
        } else if same_text(name, "host_addr_data") {
            Some(Opcode::host_addr_data)
        } else if same_text(name, "host_addr_data_extend") {
            Some(Opcode::host_addr_data_extend)
        } else if same_text(name, "host_addr_data_dynamic") {
            Some(Opcode::host_addr_data_dynamic)
        } else {
            None
        }
    }

    /// The opcode with the given mnemonic.
    pub fn from_name(name: &str) -> (opcode: Opcode)
        requires
            Self::is_mnemonic(name@),
        ensures
            opcode.mnemonic() == name@,
    {
        match Self::find_by_name(name) {
            Some(opcode) => opcode,
            None => unreached(),
        }
    }
}

/// Every opcode's code is assigned, and lies below the bound on codes.
pub proof fn lemma_code_assigned(opcode: Opcode)
    ensures
        Opcode::is_assigned(opcode.spec_code()),
        opcode.spec_code() < MAX_OPCODE_NUMBER,
{
}

/// An opcode is found again by its code.
pub proof fn lemma_code_found(opcode: Opcode)
    ensures
        Opcode::spec_from_code(opcode.spec_code()) == Some(opcode),
{
}

/// The opcode found by a code has that code.
pub proof fn lemma_found_code(code: u16)
    ensures
        Opcode::spec_from_code(code) matches Some(opcode) ==> opcode.spec_code() == code,
{
    let item = (code % 0x100) as u8;
    match code / 0x100 {
        1 => lemma_found_fundamental(item),
        2 => lemma_found_local_variable(item),
        3 => lemma_found_data(item),
        4 => lemma_found_arithmetic(item),
        5 => lemma_found_bitwise(item),
        6 => lemma_found_math(item),
        7 => lemma_found_conversion(item),
        8 => lemma_found_comparison(item),
        9 => lemma_found_control_flow(item),
        10 => lemma_found_memory(item),
        11 => lemma_found_machine(item),
        _ => {},
    }
}

proof fn lemma_found_fundamental(item: u8)
    ensures
        Opcode::spec_from_code((0x0100 + item) as u16) matches Some(opcode) ==> opcode.spec_code()
            == 0x0100 + item,
{
    match item {
        0x00 => {},
        0x01 => {},
        0x02 => {},
        0x03 => {},
        0x04 => {},
        _ => {},
    }
}

proof fn lemma_found_local_variable(item: u8)
    ensures
        Opcode::spec_from_code((0x0200 + item) as u16) matches Some(opcode) ==> opcode.spec_code()
            == 0x0200 + item,
{
    match item {
        0x00 => {},
        0x01 => {},
        0x02 => {},
        0x03 => {},
        0x04 => {},
        0x05 => {},
        0x06 => {},
        0x07 => {},
        0x08 => {},
        0x09 => {},
        0x0a => {},
        0x0b => {},
        0x0c => {},
        0x0d => {},
        0x0e => {},
        _ => {},
    }
}

proof fn lemma_found_data(item: u8)
    ensures
        Opcode::spec_from_code((0x0300 + item) as u16) matches Some(opcode) ==> opcode.spec_code()
            == 0x0300 + item,
{
    match item {
        0x00 => {},
        0x01 => {},
        0x02 => {},
        0x03 => {},
        0x04 => {},
        0x05 => {},
        0x06 => {},
        0x07 => {},
        0x08 => {},
        0x09 => {},
        0x0a => {},
        0x0b => {},
        0x0c => {},
        0x0d => {},
        0x0e => {},
        0x0f => {},
        0x10 => {},
        0x11 => {},
        0x12 => {},
        0x13 => {},
        0x14 => {},
        0x15 => {},
        0x16 => {},
        0x17 => {},
        0x18 => {},
        0x19 => {},
        0x1a => {},
        0x1b => {},
        0x1c => {},
        0x1d => {},
        0x1e => {},
        0x1f => {},
        0x20 => {},
        0x21 => {},
        0x22 => {},
        0x23 => {},
        0x24 => {},
        0x25 => {},
        0x26 => {},
        0x27 => {},
        0x28 => {},
        0x29 => {},
        0x2a => {},
        0x2b => {},
        0x2c => {},
        _ => {},
    }
}

proof fn lemma_found_arithmetic(item: u8)
    ensures
        Opcode::spec_from_code((0x0400 + item) as u16) matches Some(opcode) ==> opcode.spec_code()
            == 0x0400 + item,
{
    match item {
        0x00 => {},
        0x01 => {},
        0x02 => {},
        0x03 => {},
        0x04 => {},
        0x05 => {},
        0x06 => {},
        0x07 => {},
        0x08 => {},
        0x09 => {},
        0x0a => {},
        0x0b => {},
        0x0c => {},
        0x0d => {},
        0x0e => {},
        0x0f => {},
        0x10 => {},
        0x11 => {},
        0x12 => {},
        0x13 => {},
        0x14 => {},
        0x15 => {},
        0x16 => {},
        0x17 => {},
        0x18 => {},
        0x19 => {},
        _ => {},
    }
}

proof fn lemma_found_bitwise(item: u8)
    ensures
        Opcode::spec_from_code((0x0500 + item) as u16) matches Some(opcode) ==> opcode.spec_code()
            == 0x0500 + item,
{
    match item {
        0x00 => {},
        0x01 => {},
        0x02 => {},
        0x03 => {},
        0x04 => {},
        0x05 => {},
        0x06 => {},
        0x07 => {},
        0x08 => {},
        0x09 => {},
        0x0a => {},
        0x0b => {},
        0x0c => {},
        0x0d => {},
        0x0e => {},
        0x0f => {},
        0x10 => {},
        0x11 => {},
        0x12 => {},
        0x13 => {},
        0x14 => {},
        0x15 => {},
        _ => {},
    }
}

proof fn lemma_found_math(item: u8)
    ensures
        Opcode::spec_from_code((0x0600 + item) as u16) matches Some(opcode) ==> opcode.spec_code()
            == 0x0600 + item,
{
    match item {
        0x00 => {},
        0x01 => {},
        0x02 => {},
        0x03 => {},
        0x04 => {},
        0x05 => {},
        0x06 => {},
        0x07 => {},
        0x08 => {},
        0x09 => {},
        0x0a => {},
        0x0b => {},
        0x0c => {},
        0x0d => {},
        0x0e => {},
        0x0f => {},
        0x10 => {},
        0x11 => {},
        0x12 => {},
        0x13 => {},
        0x14 => {},
        0x15 => {},
        0x16 => {},
        0x17 => {},
        0x18 => {},
        0x19 => {},
        0x1a => {},
        0x1b => {},
        0x1c => {},
        0x1d => {},
        0x1e => {},
        0x1f => {},
        0x20 => {},
        0x21 => {},
        0x22 => {},
        0x23 => {},
        0x24 => {},
        0x25 => {},
        0x26 => {},
        0x27 => {},
        0x28 => {},
        0x29 => {},
        0x2a => {},
        0x2b => {},
        0x2c => {},
        0x2d => {},
        0x2e => {},
        0x2f => {},
        0x30 => {},
        0x31 => {},
        0x32 => {},
        0x33 => {},
        0x34 => {},
        0x35 => {},
        0x36 => {},
        0x37 => {},
        _ => {},
    }
}

proof fn lemma_found_conversion(item: u8)
    ensures
        Opcode::spec_from_code((0x0700 + item) as u16) matches Some(opcode) ==> opcode.spec_code()
            == 0x0700 + item,
{
    match item {
        0x00 => {},
        0x01 => {},
        0x02 => {},
        0x03 => {},
        0x04 => {},
        0x05 => {},
        0x06 => {},
        0x07 => {},
        0x08 => {},
        0x09 => {},
        0x0a => {},
        0x0b => {},
        0x0c => {},
        0x0d => {},
        0x0e => {},
        0x0f => {},
        0x10 => {},
        0x11 => {},
        0x12 => {},
        0x13 => {},
        0x14 => {},
        _ => {},
    }
}

proof fn lemma_found_comparison(item: u8)
    ensures
        Opcode::spec_from_code((0x0800 + item) as u16) matches Some(opcode) ==> opcode.spec_code()
            == 0x0800 + item,
{
    match item {
        0x00 => {},
        0x01 => {},
        0x02 => {},
        0x03 => {},
        0x04 => {},
        0x05 => {},
        0x06 => {},
        0x07 => {},
        0x08 => {},
        0x09 => {},
        0x0a => {},
        0x0b => {},
        0x0c => {},
        0x0d => {},
        0x0e => {},
        0x0f => {},
        0x10 => {},
        0x11 => {},
        0x12 => {},
        0x13 => {},
        0x14 => {},
        0x15 => {},
        0x16 => {},
        0x17 => {},
        0x18 => {},
        0x19 => {},
        0x1a => {},
        0x1b => {},
        0x1c => {},
        0x1d => {},
        0x1e => {},
        0x1f => {},
        0x20 => {},
        0x21 => {},
        0x22 => {},
        0x23 => {},
        _ => {},
    }
}

proof fn lemma_found_control_flow(item: u8)
    ensures
        Opcode::spec_from_code((0x0900 + item) as u16) matches Some(opcode) ==> opcode.spec_code()
            == 0x0900 + item,
{
    match item {
        0x00 => {},
        0x01 => {},
        0x02 => {},
        0x03 => {},
        0x04 => {},
        0x05 => {},
        0x06 => {},
        0x07 => {},
        0x08 => {},
        0x09 => {},
        0x0a => {},
        0x0b => {},
        _ => {},
    }
}

proof fn lemma_found_memory(item: u8)
    ensures
        Opcode::spec_from_code((0x0a00 + item) as u16) matches Some(opcode) ==> opcode.spec_code()
            == 0x0a00 + item,
{
    match item {
        0x00 => {},
        0x01 => {},
        0x02 => {},
        0x03 => {},
        0x04 => {},
        0x05 => {},
        _ => {},
    }
}

proof fn lemma_found_machine(item: u8)
    ensures
        Opcode::spec_from_code((0x0b00 + item) as u16) matches Some(opcode) ==> opcode.spec_code()
            == 0x0b00 + item,
{
    match item {
        0x00 => {},
        0x01 => {},
        0x02 => {},
        0x03 => {},
        0x04 => {},
        0x05 => {},
        0x06 => {},
        _ => {},
    }
}

/// The codes that are assigned are those of the opcodes.
pub proof fn lemma_assigned_codes(code: u16)
    ensures
        Opcode::spec_from_code(code) is Some <==> Opcode::is_assigned(code),
{
    lemma_found_code(code);
    match Opcode::spec_from_code(code) {
        Some(opcode) => {
            lemma_code_assigned(opcode);
        },
        None => {
            assert forall|opcode: Opcode| opcode.spec_code() != code by {
                lemma_code_found(opcode);
            }
            lemma_unassigned_code(code);
        },
    }
}

/// A code that is assigned is the code of some opcode.
proof fn lemma_unassigned_code(code: u16)
    requires
        forall|opcode: Opcode| opcode.spec_code() != code,
    ensures
        !Opcode::is_assigned(code),
{
    if Opcode::is_assigned(code) {
        match code {
            0x0100 => {
                assert(Opcode::nop.spec_code() == code);
            },
            0x0101 => {
                assert(Opcode::imm_i32.spec_code() == code);
            },
            0x0102 => {
                assert(Opcode::imm_i64.spec_code() == code);
            },
            0x0103 => {
                assert(Opcode::imm_f32.spec_code() == code);
            },
            0x0104 => {
                assert(Opcode::imm_f64.spec_code() == code);
            },
            0x0200 => {
                assert(Opcode::local_load_i64.spec_code() == code);
            },
            0x0201 => {
                assert(Opcode::local_load_i32_s.spec_code() == code);
            },
            0x0202 => {
                assert(Opcode::local_load_i32_u.spec_code() == code);
            },
            0x0203 => {
                assert(Opcode::local_load_i16_s.spec_code() == code);
            },
            0x0204 => {
                assert(Opcode::local_load_i16_u.spec_code() == code);
            },
            0x0205 => {
                assert(Opcode::local_load_i8_s.spec_code() == code);
            },
            0x0206 => {
                assert(Opcode::local_load_i8_u.spec_code() == code);
            },
            0x0207 => {
                assert(Opcode::local_load_f64.spec_code() == code);
            },
            0x0208 => {
                assert(Opcode::local_load_f32.spec_code() == code);
            },
            0x0209 => {
                assert(Opcode::local_store_i64.spec_code() == code);
            },
            0x020a => {
                assert(Opcode::local_store_i32.spec_code() == code);
            },
            0x020b => {
                assert(Opcode::local_store_i16.spec_code() == code);
            },
            0x020c => {
                assert(Opcode::local_store_i8.spec_code() == code);
            },
            0x020d => {
                assert(Opcode::local_store_f64.spec_code() == code);
            },
            0x020e => {
                assert(Opcode::local_store_f32.spec_code() == code);
            },
            0x0300 => {
                assert(Opcode::data_load_i64.spec_code() == code);
            },
            0x0301 => {
                assert(Opcode::data_load_i32_s.spec_code() == code);
            },
            0x0302 => {
                assert(Opcode::data_load_i32_u.spec_code() == code);
            },
            0x0303 => {
                assert(Opcode::data_load_i16_s.spec_code() == code);
            },
            0x0304 => {
                assert(Opcode::data_load_i16_u.spec_code() == code);
            },
            0x0305 => {
                assert(Opcode::data_load_i8_s.spec_code() == code);
            },
            0x0306 => {
                assert(Opcode::data_load_i8_u.spec_code() == code);
            },
            0x0307 => {
                assert(Opcode::data_load_f64.spec_code() == code);
            },
            0x0308 => {
                assert(Opcode::data_load_f32.spec_code() == code);
            },
            0x0309 => {
                assert(Opcode::data_store_i64.spec_code() == code);
            },
            0x030a => {
                assert(Opcode::data_store_i32.spec_code() == code);
            },
            0x030b => {
                assert(Opcode::data_store_i16.spec_code() == code);
            },
            0x030c => {
                assert(Opcode::data_store_i8.spec_code() == code);
            },
            0x030d => {
                assert(Opcode::data_store_f64.spec_code() == code);
            },
            0x030e => {
                assert(Opcode::data_store_f32.spec_code() == code);
            },
            0x030f => {
                assert(Opcode::data_load_extend_i64.spec_code() == code);
            },
            0x0310 => {
                assert(Opcode::data_load_extend_i32_s.spec_code() == code);
            },
            0x0311 => {
                assert(Opcode::data_load_extend_i32_u.spec_code() == code);
            },
            0x0312 => {
                assert(Opcode::data_load_extend_i16_s.spec_code() == code);
            },
            0x0313 => {
                assert(Opcode::data_load_extend_i16_u.spec_code() == code);
            },
            0x0314 => {
                assert(Opcode::data_load_extend_i8_s.spec_code() == code);
            },
            0x0315 => {
                assert(Opcode::data_load_extend_i8_u.spec_code() == code);
            },
            0x0316 => {
                assert(Opcode::data_load_extend_f64.spec_code() == code);
            },
            0x0317 => {
                assert(Opcode::data_load_extend_f32.spec_code() == code);
            },
            0x0318 => {
                assert(Opcode::data_store_extend_i64.spec_code() == code);
            },
            0x0319 => {
                assert(Opcode::data_store_extend_i32.spec_code() == code);
            },
            0x031a => {
                assert(Opcode::data_store_extend_i16.spec_code() == code);
            },
            0x031b => {
                assert(Opcode::data_store_extend_i8.spec_code() == code);
            },
            0x031c => {
                assert(Opcode::data_store_extend_f64.spec_code() == code);
            },
            0x031d => {
                assert(Opcode::data_store_extend_f32.spec_code() == code);
            },
            0x031e => {
                assert(Opcode::data_load_dynamic_i64.spec_code() == code);
            },
            0x031f => {
                assert(Opcode::data_load_dynamic_i32_s.spec_code() == code);
            },
            0x0320 => {
                assert(Opcode::data_load_dynamic_i32_u.spec_code() == code);
            },
            0x0321 => {
                assert(Opcode::data_load_dynamic_i16_s.spec_code() == code);
            },
            0x0322 => {
                assert(Opcode::data_load_dynamic_i16_u.spec_code() == code);
            },
            0x0323 => {
                assert(Opcode::data_load_dynamic_i8_s.spec_code() == code);
            },
            0x0324 => {
                assert(Opcode::data_load_dynamic_i8_u.spec_code() == code);
            },
            0x0325 => {
                assert(Opcode::data_load_dynamic_f64.spec_code() == code);
            },
            0x0326 => {
                assert(Opcode::data_load_dynamic_f32.spec_code() == code);
            },
            0x0327 => {
                assert(Opcode::data_store_dynamic_i64.spec_code() == code);
            },
            0x0328 => {
                assert(Opcode::data_store_dynamic_i32.spec_code() == code);
            },
            0x0329 => {
                assert(Opcode::data_store_dynamic_i16.spec_code() == code);
            },
            0x032a => {
                assert(Opcode::data_store_dynamic_i8.spec_code() == code);
            },
            0x032b => {
                assert(Opcode::data_store_dynamic_f64.spec_code() == code);
            },
            0x032c => {
                assert(Opcode::data_store_dynamic_f32.spec_code() == code);
            },
            0x0400 => {
                assert(Opcode::add_i32.spec_code() == code);
            },
            0x0401 => {
                assert(Opcode::sub_i32.spec_code() == code);
            },
            0x0402 => {
                assert(Opcode::add_imm_i32.spec_code() == code);
            },
            0x0403 => {
                assert(Opcode::sub_imm_i32.spec_code() == code);
            },
            0x0404 => {
                assert(Opcode::mul_i32.spec_code() == code);
            },
            0x0405 => {
                assert(Opcode::div_i32_s.spec_code() == code);
            },
            0x0406 => {
                assert(Opcode::div_i32_u.spec_code() == code);
            },
            0x0407 => {
                assert(Opcode::rem_i32_s.spec_code() == code);
            },
            0x0408 => {
                assert(Opcode::rem_i32_u.spec_code() == code);
            },
            0x0409 => {
                assert(Opcode::add_i64.spec_code() == code);
            },
            0x040a => {
                assert(Opcode::sub_i64.spec_code() == code);
            },
            0x040b => {
                assert(Opcode::add_imm_i64.spec_code() == code);
            },
            0x040c => {
                assert(Opcode::sub_imm_i64.spec_code() == code);
            },
            0x040d => {
                assert(Opcode::mul_i64.spec_code() == code);
            },
            0x040e => {
                assert(Opcode::div_i64_s.spec_code() == code);
            },
            0x040f => {
                assert(Opcode::div_i64_u.spec_code() == code);
            },
            0x0410 => {
                assert(Opcode::rem_i64_s.spec_code() == code);
            },
            0x0411 => {
                assert(Opcode::rem_i64_u.spec_code() == code);
            },
            0x0412 => {
                assert(Opcode::add_f32.spec_code() == code);
            },
            0x0413 => {
                assert(Opcode::sub_f32.spec_code() == code);
            },
            0x0414 => {
                assert(Opcode::mul_f32.spec_code() == code);
            },
            0x0415 => {
                assert(Opcode::div_f32.spec_code() == code);
            },
            0x0416 => {
                assert(Opcode::add_f64.spec_code() == code);
            },
            0x0417 => {
                assert(Opcode::sub_f64.spec_code() == code);
            },
            0x0418 => {
                assert(Opcode::mul_f64.spec_code() == code);
            },
            0x0419 => {
                assert(Opcode::div_f64.spec_code() == code);
            },
            0x0500 => {
                assert(Opcode::and.spec_code() == code);
            },
            0x0501 => {
                assert(Opcode::or.spec_code() == code);
            },
            0x0502 => {
                assert(Opcode::xor.spec_code() == code);
            },
            0x0503 => {
                assert(Opcode::not.spec_code() == code);
            },
            0x0504 => {
                assert(Opcode::shift_left_i32.spec_code() == code);
            },
            0x0505 => {
                assert(Opcode::shift_right_i32_s.spec_code() == code);
            },
            0x0506 => {
                assert(Opcode::shift_right_i32_u.spec_code() == code);
            },
            0x0507 => {
                assert(Opcode::rotate_left_i32.spec_code() == code);
            },
            0x0508 => {
                assert(Opcode::rotate_right_i32.spec_code() == code);
            },
            0x0509 => {
                assert(Opcode::count_leading_zeros_i32.spec_code() == code);
            },
            0x050a => {
                assert(Opcode::count_leading_ones_i32.spec_code() == code);
            },
            0x050b => {
                assert(Opcode::count_trailing_zeros_i32.spec_code() == code);
            },
            0x050c => {
                assert(Opcode::count_ones_i32.spec_code() == code);
            },
            0x050d => {
                assert(Opcode::shift_left_i64.spec_code() == code);
            },
            0x050e => {
                assert(Opcode::shift_right_i64_s.spec_code() == code);
            },
            0x050f => {
                assert(Opcode::shift_right_i64_u.spec_code() == code);
            },
            0x0510 => {
                assert(Opcode::rotate_left_i64.spec_code() == code);
            },
            0x0511 => {
                assert(Opcode::rotate_right_i64.spec_code() == code);
            },
            0x0512 => {
                assert(Opcode::count_leading_zeros_i64.spec_code() == code);
            },
            0x0513 => {
                assert(Opcode::count_leading_ones_i64.spec_code() == code);
            },
            0x0514 => {
                assert(Opcode::count_trailing_zeros_i64.spec_code() == code);
            },
            0x0515 => {
                assert(Opcode::count_ones_i64.spec_code() == code);
            },
            0x0600 => {
                assert(Opcode::abs_i32.spec_code() == code);
            },
            0x0601 => {
                assert(Opcode::neg_i32.spec_code() == code);
            },
            0x0602 => {
                assert(Opcode::abs_i64.spec_code() == code);
            },
            0x0603 => {
                assert(Opcode::neg_i64.spec_code() == code);
            },
            0x0604 => {
                assert(Opcode::abs_f32.spec_code() == code);
            },
            0x0605 => {
                assert(Opcode::neg_f32.spec_code() == code);
            },
            0x0606 => {
                assert(Opcode::copysign_f32.spec_code() == code);
            },
            0x0607 => {
                assert(Opcode::sqrt_f32.spec_code() == code);
            },
            0x0608 => {
                assert(Opcode::min_f32.spec_code() == code);
            },
            0x0609 => {
                assert(Opcode::max_f32.spec_code() == code);
            },
            0x060a => {
                assert(Opcode::ceil_f32.spec_code() == code);
            },
            0x060b => {
                assert(Opcode::floor_f32.spec_code() == code);
            },
            0x060c => {
                assert(Opcode::round_half_away_from_zero_f32.spec_code() == code);
            },
            0x060d => {
                assert(Opcode::round_half_to_even_f32.spec_code() == code);
            },
            0x060e => {
                assert(Opcode::trunc_f32.spec_code() == code);
            },
            0x060f => {
                assert(Opcode::fract_f32.spec_code() == code);
            },
            0x0610 => {
                assert(Opcode::cbrt_f32.spec_code() == code);
            },
            0x0611 => {
                assert(Opcode::exp_f32.spec_code() == code);
            },
            0x0612 => {
                assert(Opcode::exp2_f32.spec_code() == code);
            },
            0x0613 => {
                assert(Opcode::ln_f32.spec_code() == code);
            },
            0x0614 => {
                assert(Opcode::log2_f32.spec_code() == code);
            },
            0x0615 => {
                assert(Opcode::log10_f32.spec_code() == code);
            },
            0x0616 => {
                assert(Opcode::sin_f32.spec_code() == code);
            },
            0x0617 => {
                assert(Opcode::cos_f32.spec_code() == code);
            },
            0x0618 => {
                assert(Opcode::tan_f32.spec_code() == code);
            },
            0x0619 => {
                assert(Opcode::asin_f32.spec_code() == code);
            },
            0x061a => {
                assert(Opcode::acos_f32.spec_code() == code);
            },
            0x061b => {
                assert(Opcode::atan_f32.spec_code() == code);
            },
            0x061c => {
                assert(Opcode::pow_f32.spec_code() == code);
            },
            0x061d => {
                assert(Opcode::log_f32.spec_code() == code);
            },
            0x061e => {
                assert(Opcode::abs_f64.spec_code() == code);
            },
            0x061f => {
                assert(Opcode::neg_f64.spec_code() == code);
            },
            0x0620 => {
                assert(Opcode::copysign_f64.spec_code() == code);
            },
            0x0621 => {
                assert(Opcode::sqrt_f64.spec_code() == code);
            },
            0x0622 => {
                assert(Opcode::min_f64.spec_code() == code);
            },
            0x0623 => {
                assert(Opcode::max_f64.spec_code() == code);
            },
            0x0624 => {
                assert(Opcode::ceil_f64.spec_code() == code);
            },
            0x0625 => {
                assert(Opcode::floor_f64.spec_code() == code);
            },
            0x0626 => {
                assert(Opcode::round_half_away_from_zero_f64.spec_code() == code);
            },
            0x0627 => {
                assert(Opcode::round_half_to_even_f64.spec_code() == code);
            },
            0x0628 => {
                assert(Opcode::trunc_f64.spec_code() == code);
            },
            0x0629 => {
                assert(Opcode::fract_f64.spec_code() == code);
            },
            0x062a => {
                assert(Opcode::cbrt_f64.spec_code() == code);
            },
            0x062b => {
                assert(Opcode::exp_f64.spec_code() == code);
            },
            0x062c => {
                assert(Opcode::exp2_f64.spec_code() == code);
            },
            0x062d => {
                assert(Opcode::ln_f64.spec_code() == code);
            },
            0x062e => {
                assert(Opcode::log2_f64.spec_code() == code);
            },
            0x062f => {
                assert(Opcode::log10_f64.spec_code() == code);
            },
            0x0630 => {
                assert(Opcode::sin_f64.spec_code() == code);
            },
            0x0631 => {
                assert(Opcode::cos_f64.spec_code() == code);
            },
            0x0632 => {
                assert(Opcode::tan_f64.spec_code() == code);
            },
            0x0633 => {
                assert(Opcode::asin_f64.spec_code() == code);
            },
            0x0634 => {
                assert(Opcode::acos_f64.spec_code() == code);
            },
            0x0635 => {
                assert(Opcode::atan_f64.spec_code() == code);
            },
            0x0636 => {
                assert(Opcode::pow_f64.spec_code() == code);
            },
            0x0637 => {
                assert(Opcode::log_f64.spec_code() == code);
            },
            0x0700 => {
                assert(Opcode::truncate_i64_to_i32.spec_code() == code);
            },
            0x0701 => {
                assert(Opcode::extend_i32_s_to_i64.spec_code() == code);
            },
            0x0702 => {
                assert(Opcode::extend_i32_u_to_i64.spec_code() == code);
            },
            0x0703 => {
                assert(Opcode::demote_f64_to_f32.spec_code() == code);
            },
            0x0704 => {
                assert(Opcode::promote_f32_to_f64.spec_code() == code);
            },
            0x0705 => {
                assert(Opcode::convert_f32_to_i32_s.spec_code() == code);
            },
            0x0706 => {
                assert(Opcode::convert_f32_to_i32_u.spec_code() == code);
            },
            0x0707 => {
                assert(Opcode::convert_f64_to_i32_s.spec_code() == code);
            },
            0x0708 => {
                assert(Opcode::convert_f64_to_i32_u.spec_code() == code);
            },
            0x0709 => {
                assert(Opcode::convert_f32_to_i64_s.spec_code() == code);
            },
            0x070a => {
                assert(Opcode::convert_f32_to_i64_u.spec_code() == code);
            },
            0x070b => {
                assert(Opcode::convert_f64_to_i64_s.spec_code() == code);
            },
            0x070c => {
                assert(Opcode::convert_f64_to_i64_u.spec_code() == code);
            },
            0x070d => {
                assert(Opcode::convert_i32_s_to_f32.spec_code() == code);
            },
            0x070e => {
                assert(Opcode::convert_i32_u_to_f32.spec_code() == code);
            },
            0x070f => {
                assert(Opcode::convert_i64_s_to_f32.spec_code() == code);
            },
            0x0710 => {
                assert(Opcode::convert_i64_u_to_f32.spec_code() == code);
            },
            0x0711 => {
                assert(Opcode::convert_i32_s_to_f64.spec_code() == code);
            },
            0x0712 => {
                assert(Opcode::convert_i32_u_to_f64.spec_code() == code);
            },
            0x0713 => {
                assert(Opcode::convert_i64_s_to_f64.spec_code() == code);
            },
            0x0714 => {
                assert(Opcode::convert_i64_u_to_f64.spec_code() == code);
            },
            0x0800 => {
                assert(Opcode::eqz_i32.spec_code() == code);
            },
            0x0801 => {
                assert(Opcode::nez_i32.spec_code() == code);
            },
            0x0802 => {
                assert(Opcode::eq_i32.spec_code() == code);
            },
            0x0803 => {
                assert(Opcode::ne_i32.spec_code() == code);
            },
            0x0804 => {
                assert(Opcode::lt_i32_s.spec_code() == code);
            },
            0x0805 => {
                assert(Opcode::lt_i32_u.spec_code() == code);
            },
            0x0806 => {
                assert(Opcode::gt_i32_s.spec_code() == code);
            },
            0x0807 => {
                assert(Opcode::gt_i32_u.spec_code() == code);
            },
            0x0808 => {
                assert(Opcode::le_i32_s.spec_code() == code);
            },
            0x0809 => {
                assert(Opcode::le_i32_u.spec_code() == code);
            },
            0x080a => {
                assert(Opcode::ge_i32_s.spec_code() == code);
            },
            0x080b => {
                assert(Opcode::ge_i32_u.spec_code() == code);
            },
            0x080c => {
                assert(Opcode::eqz_i64.spec_code() == code);
            },
            0x080d => {
                assert(Opcode::nez_i64.spec_code() == code);
            },
            0x080e => {
                assert(Opcode::eq_i64.spec_code() == code);
            },
            0x080f => {
                assert(Opcode::ne_i64.spec_code() == code);
            },
            0x0810 => {
                assert(Opcode::lt_i64_s.spec_code() == code);
            },
            0x0811 => {
                assert(Opcode::lt_i64_u.spec_code() == code);
            },
            0x0812 => {
                assert(Opcode::gt_i64_s.spec_code() == code);
            },
            0x0813 => {
                assert(Opcode::gt_i64_u.spec_code() == code);
            },
            0x0814 => {
                assert(Opcode::le_i64_s.spec_code() == code);
            },
            0x0815 => {
                assert(Opcode::le_i64_u.spec_code() == code);
            },
            0x0816 => {
                assert(Opcode::ge_i64_s.spec_code() == code);
            },
            0x0817 => {
                assert(Opcode::ge_i64_u.spec_code() == code);
            },
            0x0818 => {
                assert(Opcode::eq_f32.spec_code() == code);
            },
            0x0819 => {
                assert(Opcode::ne_f32.spec_code() == code);
            },
            0x081a => {
                assert(Opcode::lt_f32.spec_code() == code);
            },
            0x081b => {
                assert(Opcode::gt_f32.spec_code() == code);
            },
            0x081c => {
                assert(Opcode::le_f32.spec_code() == code);
            },
            0x081d => {
                assert(Opcode::ge_f32.spec_code() == code);
            },
            0x081e => {
                assert(Opcode::eq_f64.spec_code() == code);
            },
            0x081f => {
                assert(Opcode::ne_f64.spec_code() == code);
            },
            0x0820 => {
                assert(Opcode::lt_f64.spec_code() == code);
            },
            0x0821 => {
                assert(Opcode::gt_f64.spec_code() == code);
            },
            0x0822 => {
                assert(Opcode::le_f64.spec_code() == code);
            },
            0x0823 => {
                assert(Opcode::ge_f64.spec_code() == code);
            },
            0x0900 => {
                assert(Opcode::end.spec_code() == code);
            },
            0x0901 => {
                assert(Opcode::block.spec_code() == code);
            },
            0x0902 => {
                assert(Opcode::break_.spec_code() == code);
            },
            0x0903 => {
                assert(Opcode::recur.spec_code() == code);
            },
            0x0904 => {
                assert(Opcode::block_alt.spec_code() == code);
            },
            0x0905 => {
                assert(Opcode::break_alt.spec_code() == code);
            },
            0x0906 => {
                assert(Opcode::block_nez.spec_code() == code);
            },
            0x0907 => {
                assert(Opcode::call.spec_code() == code);
            },
            0x0908 => {
                assert(Opcode::call_dynamic.spec_code() == code);
            },
            0x0909 => {
                assert(Opcode::envcall.spec_code() == code);
            },
            0x090a => {
                assert(Opcode::syscall.spec_code() == code);
            },
            0x090b => {
                assert(Opcode::extcall.spec_code() == code);
            },
            0x0a00 => {
                assert(Opcode::memory_allocate.spec_code() == code);
            },
            0x0a01 => {
                assert(Opcode::memory_resize.spec_code() == code);
            },
            0x0a02 => {
                assert(Opcode::memory_free.spec_code() == code);
            },
            0x0a03 => {
                assert(Opcode::memory_fill.spec_code() == code);
            },
            0x0a04 => {
                assert(Opcode::memory_copy.spec_code() == code);
            },
            0x0a05 => {
                assert(Opcode::terminate.spec_code() == code);
            },
            0x0b00 => {
                assert(Opcode::get_function.spec_code() == code);
            },
            0x0b01 => {
                assert(Opcode::get_data.spec_code() == code);
            },
            0x0b02 => {
                assert(Opcode::host_addr_function.spec_code() == code);
            },
            0x0b03 => {
                assert(Opcode::host_addr_function_dynamic.spec_code() == code);
            },
            0x0b04 => {
                assert(Opcode::host_addr_data.spec_code() == code);
            },
            0x0b05 => {
                assert(Opcode::host_addr_data_extend.spec_code() == code);
            },
            0x0b06 => {
                assert(Opcode::host_addr_data_dynamic.spec_code() == code);
            },
            _ => {},
        }
    }
}

/// Every opcode but `local_load_i64` is printed under its mnemonic, and the
/// name under which `local_load_i64` is printed is the mnemonic of no opcode.
pub proof fn lemma_printed_names(opcode: Opcode)
    ensures
        opcode != Opcode::local_load_i64 ==> opcode.printed_name() == opcode.mnemonic(),
        !Opcode::is_mnemonic(Opcode::local_load_i64.printed_name()),
{
    reveal_strlit("local_load_64");
    let printed = "local_load_64"@;
    assert(printed.len() == 13);
    assert(printed[0] == 'l');
    assert(printed[9] == 'd');
    assert(printed[12] == '4');
    assert(printed[10] == '_');
    assert(printed[6] == 'l');
    assert(printed[5] == '_');

    lemma_fundamental_mnemonics();
    lemma_local_variable_mnemonics();
    lemma_data_mnemonics();
    lemma_arithmetic_mnemonics();
    lemma_bitwise_mnemonics();
    lemma_math_mnemonics();
    lemma_conversion_mnemonics();
    lemma_comparison_mnemonics();
    lemma_control_flow_mnemonics();
    lemma_memory_mnemonics();
    lemma_machine_mnemonics();
    assert forall|other: Opcode| other.mnemonic() != printed by {
        if other.mnemonic() == printed {
            assert(other.mnemonic().len() == 13);
            assert(other.mnemonic()[0] == 'l');
            assert(other.mnemonic()[12] == '4');
            assert(other.mnemonic()[10] == '_');
        }
    }
}

/// No two opcodes share a mnemonic.
pub proof fn lemma_mnemonic_injective(a: Opcode, b: Opcode)
    requires
        a.mnemonic() == b.mnemonic(),
    ensures
        a == b,
{
    lemma_fundamental_mnemonics();
    lemma_local_variable_mnemonics();
    lemma_data_mnemonics();
    lemma_arithmetic_mnemonics();
    lemma_bitwise_mnemonics();
    lemma_math_mnemonics();
    lemma_conversion_mnemonics();
    lemma_comparison_mnemonics();
    lemma_control_flow_mnemonics();
    lemma_memory_mnemonics();
    lemma_machine_mnemonics();
}

/// The length of each fundamental mnemonic, and the characters that tell it from
/// every other mnemonic of the same length.
proof fn lemma_fundamental_mnemonics()
    ensures
        "nop"@.len() == 3,
        "nop"@[0] == 'n',
        "nop"@[1] == 'o',
        "nop"@[2] == 'p',
        "imm_i32"@.len() == 7,
        "imm_i32"@[0] == 'i',
        "imm_i32"@[1] == 'm',
        "imm_i32"@[2] == 'm',
        "imm_i32"@[4] == 'i',
        "imm_i32"@[6] == '2',
        "imm_i64"@.len() == 7,
        "imm_i64"@[0] == 'i',
        "imm_i64"@[1] == 'm',
        "imm_i64"@[2] == 'm',
        "imm_i64"@[4] == 'i',
        "imm_i64"@[6] == '4',
        "imm_f32"@.len() == 7,
        "imm_f32"@[0] == 'i',
        "imm_f32"@[1] == 'm',
        "imm_f32"@[2] == 'm',
        "imm_f32"@[4] == 'f',
        "imm_f32"@[6] == '2',
        "imm_f64"@.len() == 7,
        "imm_f64"@[0] == 'i',
        "imm_f64"@[1] == 'm',
        "imm_f64"@[2] == 'm',
        "imm_f64"@[4] == 'f',
        "imm_f64"@[6] == '4',
{
    reveal_strlit("nop");
    reveal_strlit("imm_i32");
    reveal_strlit("imm_i64");
    reveal_strlit("imm_f32");
    reveal_strlit("imm_f64");
}

/// The length of each local variables mnemonic, and the characters that tell it from
/// every other mnemonic of the same length.
proof fn lemma_local_variable_mnemonics()
    ensures
        "local_load_i64"@.len() == 14,
        "local_load_i64"@[0] == 'l',
        "local_load_i64"@[1] == 'o',
        "local_load_i64"@[2] == 'c',
        "local_load_i64"@[6] == 'l',
        "local_load_i64"@[7] == 'o',
        "local_load_i64"@[9] == 'd',
        "local_load_i64"@[11] == 'i',
        "local_load_i64"@[13] == '4',
        "local_load_i32_s"@.len() == 16,
        "local_load_i32_s"@[0] == 'l',
        "local_load_i32_s"@[1] == 'o',
        "local_load_i32_s"@[2] == 'c',
        "local_load_i32_s"@[8] == 'a',
        "local_load_i32_s"@[9] == 'd',
        "local_load_i32_s"@[13] == '2',
        "local_load_i32_s"@[15] == 's',
        "local_load_i32_u"@.len() == 16,
        "local_load_i32_u"@[0] == 'l',
        "local_load_i32_u"@[1] == 'o',
        "local_load_i32_u"@[2] == 'c',
        "local_load_i32_u"@[8] == 'a',
        "local_load_i32_u"@[9] == 'd',
        "local_load_i32_u"@[13] == '2',
        "local_load_i32_u"@[15] == 'u',
        "local_load_i16_s"@.len() == 16,
        "local_load_i16_s"@[0] == 'l',
        "local_load_i16_s"@[1] == 'o',
        "local_load_i16_s"@[2] == 'c',
        "local_load_i16_s"@[8] == 'a',
        "local_load_i16_s"@[9] == 'd',
        "local_load_i16_s"@[13] == '6',
        "local_load_i16_s"@[15] == 's',
        "local_load_i16_u"@.len() == 16,
        "local_load_i16_u"@[0] == 'l',
        "local_load_i16_u"@[1] == 'o',
        "local_load_i16_u"@[2] == 'c',
        "local_load_i16_u"@[8] == 'a',
        "local_load_i16_u"@[9] == 'd',
        "local_load_i16_u"@[13] == '6',
        "local_load_i16_u"@[15] == 'u',
        "local_load_i8_s"@.len() == 15,
        "local_load_i8_s"@[0] == 'l',
        "local_load_i8_s"@[1] == 'o',
        "local_load_i8_s"@[2] == 'c',
        "local_load_i8_s"@[7] == 'o',
        "local_load_i8_s"@[8] == 'a',
        "local_load_i8_s"@[9] == 'd',
        "local_load_i8_s"@[12] == '8',
        "local_load_i8_s"@[14] == 's',
        "local_load_i8_u"@.len() == 15,
        "local_load_i8_u"@[0] == 'l',
        "local_load_i8_u"@[1] == 'o',
        "local_load_i8_u"@[2] == 'c',
        "local_load_i8_u"@[7] == 'o',
        "local_load_i8_u"@[8] == 'a',
        "local_load_i8_u"@[9] == 'd',
        "local_load_i8_u"@[12] == '8',
        "local_load_i8_u"@[14] == 'u',
        "local_load_f64"@.len() == 14,
        "local_load_f64"@[0] == 'l',
        "local_load_f64"@[1] == 'o',
        "local_load_f64"@[2] == 'c',
        "local_load_f64"@[6] == 'l',
        "local_load_f64"@[7] == 'o',
        "local_load_f64"@[9] == 'd',
        "local_load_f64"@[11] == 'f',
        "local_load_f64"@[13] == '4',
        "local_load_f32"@.len() == 14,
        "local_load_f32"@[0] == 'l',
        "local_load_f32"@[1] == 'o',
        "local_load_f32"@[2] == 'c',
        "local_load_f32"@[6] == 'l',
        "local_load_f32"@[7] == 'o',
        "local_load_f32"@[9] == 'd',
        "local_load_f32"@[11] == 'f',
        "local_load_f32"@[13] == '2',
        "local_store_i64"@.len() == 15,
        "local_store_i64"@[0] == 'l',
        "local_store_i64"@[1] == 'o',
        "local_store_i64"@[2] == 'c',
        "local_store_i64"@[7] == 't',
        "local_store_i64"@[8] == 'o',
        "local_store_i64"@[9] == 'r',
        "local_store_i64"@[12] == 'i',
        "local_store_i64"@[14] == '4',
        "local_store_i32"@.len() == 15,
        "local_store_i32"@[0] == 'l',
        "local_store_i32"@[1] == 'o',
        "local_store_i32"@[2] == 'c',
        "local_store_i32"@[7] == 't',
        "local_store_i32"@[8] == 'o',
        "local_store_i32"@[9] == 'r',
        "local_store_i32"@[12] == 'i',
        "local_store_i32"@[14] == '2',
        "local_store_i16"@.len() == 15,
        "local_store_i16"@[0] == 'l',
        "local_store_i16"@[1] == 'o',
        "local_store_i16"@[2] == 'c',
        "local_store_i16"@[7] == 't',
        "local_store_i16"@[8] == 'o',
        "local_store_i16"@[9] == 'r',
        "local_store_i16"@[12] == 'i',
        "local_store_i16"@[14] == '6',
        "local_store_i8"@.len() == 14,
        "local_store_i8"@[0] == 'l',
        "local_store_i8"@[1] == 'o',
        "local_store_i8"@[2] == 'c',
        "local_store_i8"@[6] == 's',
        "local_store_i8"@[7] == 't',
        "local_store_i8"@[9] == 'r',
        "local_store_i8"@[11] == '_',
        "local_store_i8"@[13] == '8',
        "local_store_f64"@.len() == 15,
        "local_store_f64"@[0] == 'l',
        "local_store_f64"@[1] == 'o',
        "local_store_f64"@[2] == 'c',
        "local_store_f64"@[7] == 't',
        "local_store_f64"@[8] == 'o',
        "local_store_f64"@[9] == 'r',
        "local_store_f64"@[12] == 'f',
        "local_store_f64"@[14] == '4',
        "local_store_f32"@.len() == 15,
        "local_store_f32"@[0] == 'l',
        "local_store_f32"@[1] == 'o',
        "local_store_f32"@[2] == 'c',
        "local_store_f32"@[7] == 't',
        "local_store_f32"@[8] == 'o',
        "local_store_f32"@[9] == 'r',
        "local_store_f32"@[12] == 'f',
        "local_store_f32"@[14] == '2',
{
    reveal_strlit("local_load_i64");
    reveal_strlit("local_load_i32_s");
    reveal_strlit("local_load_i32_u");
    reveal_strlit("local_load_i16_s");
    reveal_strlit("local_load_i16_u");
    reveal_strlit("local_load_i8_s");
    reveal_strlit("local_load_i8_u");
    reveal_strlit("local_load_f64");
    reveal_strlit("local_load_f32");
    reveal_strlit("local_store_i64");
    reveal_strlit("local_store_i32");
    reveal_strlit("local_store_i16");
    reveal_strlit("local_store_i8");
    reveal_strlit("local_store_f64");
    reveal_strlit("local_store_f32");
}

/// The length of each data mnemonic, and the characters that tell it from
/// every other mnemonic of the same length.
proof fn lemma_data_mnemonics()
    ensures
        "data_load_i64"@.len() == 13,
        "data_load_i64"@[0] == 'd',
        "data_load_i64"@[1] == 'a',
        "data_load_i64"@[2] == 't',
        "data_load_i64"@[5] == 'l',
        "data_load_i64"@[6] == 'o',
        "data_load_i64"@[9] == '_',
        "data_load_i64"@[10] == 'i',
        "data_load_i64"@[12] == '4',
        "data_load_i32_s"@.len() == 15,
        "data_load_i32_s"@[0] == 'd',
        "data_load_i32_s"@[1] == 'a',
        "data_load_i32_s"@[2] == 't',
        "data_load_i32_s"@[7] == 'a',
        "data_load_i32_s"@[8] == 'd',
        "data_load_i32_s"@[9] == '_',
        "data_load_i32_s"@[12] == '2',
        "data_load_i32_s"@[14] == 's',
        "data_load_i32_u"@.len() == 15,
        "data_load_i32_u"@[0] == 'd',
        "data_load_i32_u"@[1] == 'a',
        "data_load_i32_u"@[2] == 't',
        "data_load_i32_u"@[7] == 'a',
        "data_load_i32_u"@[8] == 'd',
        "data_load_i32_u"@[9] == '_',
        "data_load_i32_u"@[12] == '2',
        "data_load_i32_u"@[14] == 'u',
        "data_load_i16_s"@.len() == 15,
        "data_load_i16_s"@[0] == 'd',
        "data_load_i16_s"@[1] == 'a',
        "data_load_i16_s"@[2] == 't',
        "data_load_i16_s"@[7] == 'a',
        "data_load_i16_s"@[8] == 'd',
        "data_load_i16_s"@[9] == '_',
        "data_load_i16_s"@[12] == '6',
        "data_load_i16_s"@[14] == 's',
        "data_load_i16_u"@.len() == 15,
        "data_load_i16_u"@[0] == 'd',
        "data_load_i16_u"@[1] == 'a',
        "data_load_i16_u"@[2] == 't',
        "data_load_i16_u"@[7] == 'a',
        "data_load_i16_u"@[8] == 'd',
        "data_load_i16_u"@[9] == '_',
        "data_load_i16_u"@[12] == '6',
        "data_load_i16_u"@[14] == 'u',
        "data_load_i8_s"@.len() == 14,
        "data_load_i8_s"@[0] == 'd',
        "data_load_i8_s"@[1] == 'a',
        "data_load_i8_s"@[2] == 't',
        "data_load_i8_s"@[6] == 'o',
        "data_load_i8_s"@[7] == 'a',
        "data_load_i8_s"@[9] == '_',
        "data_load_i8_s"@[11] == '8',
        "data_load_i8_s"@[13] == 's',
        "data_load_i8_u"@.len() == 14,
        "data_load_i8_u"@[0] == 'd',
        "data_load_i8_u"@[1] == 'a',
        "data_load_i8_u"@[2] == 't',
        "data_load_i8_u"@[6] == 'o',
        "data_load_i8_u"@[7] == 'a',
        "data_load_i8_u"@[9] == '_',
        "data_load_i8_u"@[11] == '8',
        "data_load_i8_u"@[13] == 'u',
        "data_load_f64"@.len() == 13,
        "data_load_f64"@[0] == 'd',
        "data_load_f64"@[1] == 'a',
        "data_load_f64"@[2] == 't',
        "data_load_f64"@[5] == 'l',
        "data_load_f64"@[6] == 'o',
        "data_load_f64"@[9] == '_',
        "data_load_f64"@[10] == 'f',
        "data_load_f64"@[12] == '4',
        "data_load_f32"@.len() == 13,
        "data_load_f32"@[0] == 'd',
        "data_load_f32"@[1] == 'a',
        "data_load_f32"@[2] == 't',
        "data_load_f32"@[5] == 'l',
        "data_load_f32"@[6] == 'o',
        "data_load_f32"@[9] == '_',
        "data_load_f32"@[10] == 'f',
        "data_load_f32"@[12] == '2',
        "data_store_i64"@.len() == 14,
        "data_store_i64"@[0] == 'd',
        "data_store_i64"@[1] == 'a',
        "data_store_i64"@[2] == 't',
        "data_store_i64"@[6] == 't',
        "data_store_i64"@[7] == 'o',
        "data_store_i64"@[9] == 'e',
        "data_store_i64"@[11] == 'i',
        "data_store_i64"@[13] == '4',
        "data_store_i32"@.len() == 14,
        "data_store_i32"@[0] == 'd',
        "data_store_i32"@[1] == 'a',
        "data_store_i32"@[2] == 't',
        "data_store_i32"@[6] == 't',
        "data_store_i32"@[7] == 'o',
        "data_store_i32"@[9] == 'e',
        "data_store_i32"@[11] == 'i',
        "data_store_i32"@[13] == '2',
        "data_store_i16"@.len() == 14,
        "data_store_i16"@[0] == 'd',
        "data_store_i16"@[1] == 'a',
        "data_store_i16"@[2] == 't',
        "data_store_i16"@[6] == 't',
        "data_store_i16"@[7] == 'o',
        "data_store_i16"@[9] == 'e',
        "data_store_i16"@[11] == 'i',
        "data_store_i16"@[13] == '6',
        "data_store_i8"@.len() == 13,
        "data_store_i8"@[0] == 'd',
        "data_store_i8"@[1] == 'a',
        "data_store_i8"@[2] == 't',
        "data_store_i8"@[5] == 's',
        "data_store_i8"@[6] == 't',
        "data_store_i8"@[9] == 'e',
        "data_store_i8"@[10] == '_',
        "data_store_i8"@[12] == '8',
        "data_store_f64"@.len() == 14,
        "data_store_f64"@[0] == 'd',
        "data_store_f64"@[1] == 'a',
        "data_store_f64"@[2] == 't',
        "data_store_f64"@[6] == 't',
        "data_store_f64"@[7] == 'o',
        "data_store_f64"@[9] == 'e',
        "data_store_f64"@[11] == 'f',
        "data_store_f64"@[13] == '4',
        "data_store_f32"@.len() == 14,
        "data_store_f32"@[0] == 'd',
        "data_store_f32"@[1] == 'a',
        "data_store_f32"@[2] == 't',
        "data_store_f32"@[6] == 't',
        "data_store_f32"@[7] == 'o',
        "data_store_f32"@[9] == 'e',
        "data_store_f32"@[11] == 'f',
        "data_store_f32"@[13] == '2',
        "data_load_extend_i64"@.len() == 20,
        "data_load_extend_i64"@[0] == 'd',
        "data_load_extend_i64"@[1] == 'a',
        "data_load_extend_i64"@[2] == 't',
        "data_load_extend_i64"@[9] == '_',
        "data_load_extend_i64"@[12] == 't',
        "data_load_extend_i64"@[13] == 'e',
        "data_load_extend_i64"@[17] == 'i',
        "data_load_extend_i64"@[19] == '4',
        "data_load_extend_i32_s"@.len() == 22,
        "data_load_extend_i32_s"@[0] == 'd',
        "data_load_extend_i32_s"@[1] == 'a',
        "data_load_extend_i32_s"@[2] == 't',
        "data_load_extend_i32_s"@[9] == '_',
        "data_load_extend_i32_s"@[14] == 'n',
        "data_load_extend_i32_s"@[15] == 'd',
        "data_load_extend_i32_s"@[19] == '2',
        "data_load_extend_i32_s"@[21] == 's',
        "data_load_extend_i32_u"@.len() == 22,
        "data_load_extend_i32_u"@[0] == 'd',
        "data_load_extend_i32_u"@[1] == 'a',
        "data_load_extend_i32_u"@[2] == 't',
        "data_load_extend_i32_u"@[9] == '_',
        "data_load_extend_i32_u"@[14] == 'n',
        "data_load_extend_i32_u"@[15] == 'd',
        "data_load_extend_i32_u"@[19] == '2',
        "data_load_extend_i32_u"@[21] == 'u',
        "data_load_extend_i16_s"@.len() == 22,
        "data_load_extend_i16_s"@[0] == 'd',
        "data_load_extend_i16_s"@[1] == 'a',
        "data_load_extend_i16_s"@[2] == 't',
        "data_load_extend_i16_s"@[9] == '_',
        "data_load_extend_i16_s"@[14] == 'n',
        "data_load_extend_i16_s"@[15] == 'd',
        "data_load_extend_i16_s"@[19] == '6',
        "data_load_extend_i16_s"@[21] == 's',
        "data_load_extend_i16_u"@.len() == 22,
        "data_load_extend_i16_u"@[0] == 'd',
        "data_load_extend_i16_u"@[1] == 'a',
        "data_load_extend_i16_u"@[2] == 't',
        "data_load_extend_i16_u"@[9] == '_',
        "data_load_extend_i16_u"@[14] == 'n',
        "data_load_extend_i16_u"@[15] == 'd',
        "data_load_extend_i16_u"@[19] == '6',
        "data_load_extend_i16_u"@[21] == 'u',
        "data_load_extend_i8_s"@.len() == 21,
        "data_load_extend_i8_s"@[0] == 'd',
        "data_load_extend_i8_s"@[1] == 'a',
        "data_load_extend_i8_s"@[2] == 't',
        "data_load_extend_i8_s"@[9] == '_',
        "data_load_extend_i8_s"@[13] == 'e',
        "data_load_extend_i8_s"@[14] == 'n',
        "data_load_extend_i8_s"@[18] == '8',
        "data_load_extend_i8_s"@[20] == 's',
        "data_load_extend_i8_u"@.len() == 21,
        "data_load_extend_i8_u"@[0] == 'd',
        "data_load_extend_i8_u"@[1] == 'a',
        "data_load_extend_i8_u"@[2] == 't',
        "data_load_extend_i8_u"@[9] == '_',
        "data_load_extend_i8_u"@[13] == 'e',
        "data_load_extend_i8_u"@[14] == 'n',
        "data_load_extend_i8_u"@[18] == '8',
        "data_load_extend_i8_u"@[20] == 'u',
        "data_load_extend_f64"@.len() == 20,
        "data_load_extend_f64"@[0] == 'd',
        "data_load_extend_f64"@[1] == 'a',
        "data_load_extend_f64"@[2] == 't',
        "data_load_extend_f64"@[9] == '_',
        "data_load_extend_f64"@[12] == 't',
        "data_load_extend_f64"@[13] == 'e',
        "data_load_extend_f64"@[17] == 'f',
        "data_load_extend_f64"@[19] == '4',
        "data_load_extend_f32"@.len() == 20,
        "data_load_extend_f32"@[0] == 'd',
        "data_load_extend_f32"@[1] == 'a',
        "data_load_extend_f32"@[2] == 't',
        "data_load_extend_f32"@[9] == '_',
        "data_load_extend_f32"@[12] == 't',
        "data_load_extend_f32"@[13] == 'e',
        "data_load_extend_f32"@[17] == 'f',
        "data_load_extend_f32"@[19] == '2',
        "data_store_extend_i64"@.len() == 21,
        "data_store_extend_i64"@[0] == 'd',
        "data_store_extend_i64"@[1] == 'a',
        "data_store_extend_i64"@[2] == 't',
        "data_store_extend_i64"@[9] == 'e',
        "data_store_extend_i64"@[13] == 't',
        "data_store_extend_i64"@[14] == 'e',
        "data_store_extend_i64"@[18] == 'i',
        "data_store_extend_i64"@[20] == '4',
        "data_store_extend_i32"@.len() == 21,
        "data_store_extend_i32"@[0] == 'd',
        "data_store_extend_i32"@[1] == 'a',
        "data_store_extend_i32"@[2] == 't',
        "data_store_extend_i32"@[9] == 'e',
        "data_store_extend_i32"@[13] == 't',
        "data_store_extend_i32"@[14] == 'e',
        "data_store_extend_i32"@[18] == 'i',
        "data_store_extend_i32"@[20] == '2',
        "data_store_extend_i16"@.len() == 21,
        "data_store_extend_i16"@[0] == 'd',
        "data_store_extend_i16"@[1] == 'a',
        "data_store_extend_i16"@[2] == 't',
        "data_store_extend_i16"@[9] == 'e',
        "data_store_extend_i16"@[13] == 't',
        "data_store_extend_i16"@[14] == 'e',
        "data_store_extend_i16"@[18] == 'i',
        "data_store_extend_i16"@[20] == '6',
        "data_store_extend_i8"@.len() == 20,
        "data_store_extend_i8"@[0] == 'd',
        "data_store_extend_i8"@[1] == 'a',
        "data_store_extend_i8"@[2] == 't',
        "data_store_extend_i8"@[9] == 'e',
        "data_store_extend_i8"@[12] == 'x',
        "data_store_extend_i8"@[13] == 't',
        "data_store_extend_i8"@[17] == '_',
        "data_store_extend_i8"@[19] == '8',
        "data_store_extend_f64"@.len() == 21,
        "data_store_extend_f64"@[0] == 'd',
        "data_store_extend_f64"@[1] == 'a',
        "data_store_extend_f64"@[2] == 't',
        "data_store_extend_f64"@[9] == 'e',
        "data_store_extend_f64"@[13] == 't',
        "data_store_extend_f64"@[14] == 'e',
        "data_store_extend_f64"@[18] == 'f',
        "data_store_extend_f64"@[20] == '4',
        "data_store_extend_f32"@.len() == 21,
        "data_store_extend_f32"@[0] == 'd',
        "data_store_extend_f32"@[1] == 'a',
        "data_store_extend_f32"@[2] == 't',
        "data_store_extend_f32"@[9] == 'e',
        "data_store_extend_f32"@[13] == 't',
        "data_store_extend_f32"@[14] == 'e',
        "data_store_extend_f32"@[18] == 'f',
        "data_store_extend_f32"@[20] == '2',
        "data_load_dynamic_i64"@.len() == 21,
        "data_load_dynamic_i64"@[0] == 'd',
        "data_load_dynamic_i64"@[1] == 'a',
        "data_load_dynamic_i64"@[2] == 't',
        "data_load_dynamic_i64"@[9] == '_',
        "data_load_dynamic_i64"@[13] == 'a',
        "data_load_dynamic_i64"@[14] == 'm',
        "data_load_dynamic_i64"@[18] == 'i',
        "data_load_dynamic_i64"@[20] == '4',
        "data_load_dynamic_i32_s"@.len() == 23,
        "data_load_dynamic_i32_s"@[0] == 'd',
        "data_load_dynamic_i32_s"@[1] == 'a',
        "data_load_dynamic_i32_s"@[2] == 't',
        "data_load_dynamic_i32_s"@[9] == '_',
        "data_load_dynamic_i32_s"@[15] == 'i',
        "data_load_dynamic_i32_s"@[16] == 'c',
        "data_load_dynamic_i32_s"@[20] == '2',
        "data_load_dynamic_i32_s"@[22] == 's',
        "data_load_dynamic_i32_u"@.len() == 23,
        "data_load_dynamic_i32_u"@[0] == 'd',
        "data_load_dynamic_i32_u"@[1] == 'a',
        "data_load_dynamic_i32_u"@[2] == 't',
        "data_load_dynamic_i32_u"@[9] == '_',
        "data_load_dynamic_i32_u"@[15] == 'i',
        "data_load_dynamic_i32_u"@[16] == 'c',
        "data_load_dynamic_i32_u"@[20] == '2',
        "data_load_dynamic_i32_u"@[22] == 'u',
        "data_load_dynamic_i16_s"@.len() == 23,
        "data_load_dynamic_i16_s"@[0] == 'd',
        "data_load_dynamic_i16_s"@[1] == 'a',
        "data_load_dynamic_i16_s"@[2] == 't',
        "data_load_dynamic_i16_s"@[9] == '_',
        "data_load_dynamic_i16_s"@[15] == 'i',
        "data_load_dynamic_i16_s"@[16] == 'c',
        "data_load_dynamic_i16_s"@[20] == '6',
        "data_load_dynamic_i16_s"@[22] == 's',
        "data_load_dynamic_i16_u"@.len() == 23,
        "data_load_dynamic_i16_u"@[0] == 'd',
        "data_load_dynamic_i16_u"@[1] == 'a',
        "data_load_dynamic_i16_u"@[2] == 't',
        "data_load_dynamic_i16_u"@[9] == '_',
        "data_load_dynamic_i16_u"@[15] == 'i',
        "data_load_dynamic_i16_u"@[16] == 'c',
        "data_load_dynamic_i16_u"@[20] == '6',
        "data_load_dynamic_i16_u"@[22] == 'u',
        "data_load_dynamic_i8_s"@.len() == 22,
        "data_load_dynamic_i8_s"@[0] == 'd',
        "data_load_dynamic_i8_s"@[1] == 'a',
        "data_load_dynamic_i8_s"@[2] == 't',
        "data_load_dynamic_i8_s"@[9] == '_',
        "data_load_dynamic_i8_s"@[14] == 'm',
        "data_load_dynamic_i8_s"@[15] == 'i',
        "data_load_dynamic_i8_s"@[19] == '8',
        "data_load_dynamic_i8_s"@[21] == 's',
        "data_load_dynamic_i8_u"@.len() == 22,
        "data_load_dynamic_i8_u"@[0] == 'd',
        "data_load_dynamic_i8_u"@[1] == 'a',
        "data_load_dynamic_i8_u"@[2] == 't',
        "data_load_dynamic_i8_u"@[9] == '_',
        "data_load_dynamic_i8_u"@[14] == 'm',
        "data_load_dynamic_i8_u"@[15] == 'i',
        "data_load_dynamic_i8_u"@[19] == '8',
        "data_load_dynamic_i8_u"@[21] == 'u',
        "data_load_dynamic_f64"@.len() == 21,
        "data_load_dynamic_f64"@[0] == 'd',
        "data_load_dynamic_f64"@[1] == 'a',
        "data_load_dynamic_f64"@[2] == 't',
        "data_load_dynamic_f64"@[9] == '_',
        "data_load_dynamic_f64"@[13] == 'a',
        "data_load_dynamic_f64"@[14] == 'm',
        "data_load_dynamic_f64"@[18] == 'f',
        "data_load_dynamic_f64"@[20] == '4',
        "data_load_dynamic_f32"@.len() == 21,
        "data_load_dynamic_f32"@[0] == 'd',
        "data_load_dynamic_f32"@[1] == 'a',
        "data_load_dynamic_f32"@[2] == 't',
        "data_load_dynamic_f32"@[9] == '_',
        "data_load_dynamic_f32"@[13] == 'a',
        "data_load_dynamic_f32"@[14] == 'm',
        "data_load_dynamic_f32"@[18] == 'f',
        "data_load_dynamic_f32"@[20] == '2',
        "data_store_dynamic_i64"@.len() == 22,
        "data_store_dynamic_i64"@[0] == 'd',
        "data_store_dynamic_i64"@[1] == 'a',
        "data_store_dynamic_i64"@[2] == 't',
        "data_store_dynamic_i64"@[9] == 'e',
        "data_store_dynamic_i64"@[14] == 'a',
        "data_store_dynamic_i64"@[15] == 'm',
        "data_store_dynamic_i64"@[19] == 'i',
        "data_store_dynamic_i64"@[21] == '4',
        "data_store_dynamic_i32"@.len() == 22,
        "data_store_dynamic_i32"@[0] == 'd',
        "data_store_dynamic_i32"@[1] == 'a',
        "data_store_dynamic_i32"@[2] == 't',
        "data_store_dynamic_i32"@[9] == 'e',
        "data_store_dynamic_i32"@[14] == 'a',
        "data_store_dynamic_i32"@[15] == 'm',
        "data_store_dynamic_i32"@[19] == 'i',
        "data_store_dynamic_i32"@[21] == '2',
        "data_store_dynamic_i16"@.len() == 22,
        "data_store_dynamic_i16"@[0] == 'd',
        "data_store_dynamic_i16"@[1] == 'a',
        "data_store_dynamic_i16"@[2] == 't',
        "data_store_dynamic_i16"@[9] == 'e',
        "data_store_dynamic_i16"@[14] == 'a',
        "data_store_dynamic_i16"@[15] == 'm',
        "data_store_dynamic_i16"@[19] == 'i',
        "data_store_dynamic_i16"@[21] == '6',
        "data_store_dynamic_i8"@.len() == 21,
        "data_store_dynamic_i8"@[0] == 'd',
        "data_store_dynamic_i8"@[1] == 'a',
        "data_store_dynamic_i8"@[2] == 't',
        "data_store_dynamic_i8"@[9] == 'e',
        "data_store_dynamic_i8"@[13] == 'n',
        "data_store_dynamic_i8"@[14] == 'a',
        "data_store_dynamic_i8"@[18] == '_',
        "data_store_dynamic_i8"@[20] == '8',
        "data_store_dynamic_f64"@.len() == 22,
        "data_store_dynamic_f64"@[0] == 'd',
        "data_store_dynamic_f64"@[1] == 'a',
        "data_store_dynamic_f64"@[2] == 't',
        "data_store_dynamic_f64"@[9] == 'e',
        "data_store_dynamic_f64"@[14] == 'a',
        "data_store_dynamic_f64"@[15] == 'm',
        "data_store_dynamic_f64"@[19] == 'f',
        "data_store_dynamic_f64"@[21] == '4',
        "data_store_dynamic_f32"@.len() == 22,
        "data_store_dynamic_f32"@[0] == 'd',
        "data_store_dynamic_f32"@[1] == 'a',
        "data_store_dynamic_f32"@[2] == 't',
        "data_store_dynamic_f32"@[9] == 'e',
        "data_store_dynamic_f32"@[14] == 'a',
        "data_store_dynamic_f32"@[15] == 'm',
        "data_store_dynamic_f32"@[19] == 'f',
        "data_store_dynamic_f32"@[21] == '2',
{
    reveal_strlit("data_load_i64");
    reveal_strlit("data_load_i32_s");
    reveal_strlit("data_load_i32_u");
    reveal_strlit("data_load_i16_s");
    reveal_strlit("data_load_i16_u");
    reveal_strlit("data_load_i8_s");
    reveal_strlit("data_load_i8_u");
    reveal_strlit("data_load_f64");
    reveal_strlit("data_load_f32");
    reveal_strlit("data_store_i64");
    reveal_strlit("data_store_i32");
    reveal_strlit("data_store_i16");
    reveal_strlit("data_store_i8");
    reveal_strlit("data_store_f64");
    reveal_strlit("data_store_f32");
    reveal_strlit("data_load_extend_i64");
    reveal_strlit("data_load_extend_i32_s");
    reveal_strlit("data_load_extend_i32_u");
    reveal_strlit("data_load_extend_i16_s");
    reveal_strlit("data_load_extend_i16_u");
    reveal_strlit("data_load_extend_i8_s");
    reveal_strlit("data_load_extend_i8_u");
    reveal_strlit("data_load_extend_f64");
    reveal_strlit("data_load_extend_f32");
    reveal_strlit("data_store_extend_i64");
    reveal_strlit("data_store_extend_i32");
    reveal_strlit("data_store_extend_i16");
    reveal_strlit("data_store_extend_i8");
    reveal_strlit("data_store_extend_f64");
    reveal_strlit("data_store_extend_f32");
    reveal_strlit("data_load_dynamic_i64");
    reveal_strlit("data_load_dynamic_i32_s");
    reveal_strlit("data_load_dynamic_i32_u");
    reveal_strlit("data_load_dynamic_i16_s");
    reveal_strlit("data_load_dynamic_i16_u");
    reveal_strlit("data_load_dynamic_i8_s");
    reveal_strlit("data_load_dynamic_i8_u");
    reveal_strlit("data_load_dynamic_f64");
    reveal_strlit("data_load_dynamic_f32");
    reveal_strlit("data_store_dynamic_i64");
    reveal_strlit("data_store_dynamic_i32");
    reveal_strlit("data_store_dynamic_i16");
    reveal_strlit("data_store_dynamic_i8");
    reveal_strlit("data_store_dynamic_f64");
    reveal_strlit("data_store_dynamic_f32");
}

/// The length of each arithmetic mnemonic, and the characters that tell it from
/// every other mnemonic of the same length.
proof fn lemma_arithmetic_mnemonics()
    ensures
        "add_i32"@.len() == 7,
        "add_i32"@[0] == 'a',
        "add_i32"@[1] == 'd',
        "add_i32"@[2] == 'd',
        "add_i32"@[4] == 'i',
        "add_i32"@[6] == '2',
        "sub_i32"@.len() == 7,
        "sub_i32"@[0] == 's',
        "sub_i32"@[1] == 'u',
        "sub_i32"@[2] == 'b',
        "sub_i32"@[4] == 'i',
        "sub_i32"@[6] == '2',
        "add_imm_i32"@.len() == 11,
        "add_imm_i32"@[0] == 'a',
        "add_imm_i32"@[1] == 'd',
        "add_imm_i32"@[2] == 'd',
        "add_imm_i32"@[3] == '_',
        "add_imm_i32"@[4] == 'i',
        "add_imm_i32"@[8] == 'i',
        "add_imm_i32"@[9] == '3',
        "add_imm_i32"@[10] == '2',
        "sub_imm_i32"@.len() == 11,
        "sub_imm_i32"@[0] == 's',
        "sub_imm_i32"@[1] == 'u',
        "sub_imm_i32"@[2] == 'b',
        "sub_imm_i32"@[3] == '_',
        "sub_imm_i32"@[4] == 'i',
        "sub_imm_i32"@[8] == 'i',
        "sub_imm_i32"@[9] == '3',
        "sub_imm_i32"@[10] == '2',
        "mul_i32"@.len() == 7,
        "mul_i32"@[0] == 'm',
        "mul_i32"@[1] == 'u',
        "mul_i32"@[2] == 'l',
        "mul_i32"@[4] == 'i',
        "mul_i32"@[6] == '2',
        "div_i32_s"@.len() == 9,
        "div_i32_s"@[0] == 'd',
        "div_i32_s"@[1] == 'i',
        "div_i32_s"@[2] == 'v',
        "div_i32_s"@[6] == '2',
        "div_i32_s"@[8] == 's',
        "div_i32_u"@.len() == 9,
        "div_i32_u"@[0] == 'd',
        "div_i32_u"@[1] == 'i',
        "div_i32_u"@[2] == 'v',
        "div_i32_u"@[6] == '2',
        "div_i32_u"@[8] == 'u',
        "rem_i32_s"@.len() == 9,
        "rem_i32_s"@[0] == 'r',
        "rem_i32_s"@[1] == 'e',
        "rem_i32_s"@[2] == 'm',
        "rem_i32_s"@[6] == '2',
        "rem_i32_s"@[8] == 's',
        "rem_i32_u"@.len() == 9,
        "rem_i32_u"@[0] == 'r',
        "rem_i32_u"@[1] == 'e',
        "rem_i32_u"@[2] == 'm',
        "rem_i32_u"@[6] == '2',
        "rem_i32_u"@[8] == 'u',
        "add_i64"@.len() == 7,
        "add_i64"@[0] == 'a',
        "add_i64"@[1] == 'd',
        "add_i64"@[2] == 'd',
        "add_i64"@[4] == 'i',
        "add_i64"@[6] == '4',
        "sub_i64"@.len() == 7,
        "sub_i64"@[0] == 's',
        "sub_i64"@[1] == 'u',
        "sub_i64"@[2] == 'b',
        "sub_i64"@[4] == 'i',
        "sub_i64"@[6] == '4',
        "add_imm_i64"@.len() == 11,
        "add_imm_i64"@[0] == 'a',
        "add_imm_i64"@[1] == 'd',
        "add_imm_i64"@[2] == 'd',
        "add_imm_i64"@[3] == '_',
        "add_imm_i64"@[4] == 'i',
        "add_imm_i64"@[8] == 'i',
        "add_imm_i64"@[9] == '6',
        "add_imm_i64"@[10] == '4',
        "sub_imm_i64"@.len() == 11,
        "sub_imm_i64"@[0] == 's',
        "sub_imm_i64"@[1] == 'u',
        "sub_imm_i64"@[2] == 'b',
        "sub_imm_i64"@[3] == '_',
        "sub_imm_i64"@[4] == 'i',
        "sub_imm_i64"@[8] == 'i',
        "sub_imm_i64"@[9] == '6',
        "sub_imm_i64"@[10] == '4',
        "mul_i64"@.len() == 7,
        "mul_i64"@[0] == 'm',
        "mul_i64"@[1] == 'u',
        "mul_i64"@[2] == 'l',
        "mul_i64"@[4] == 'i',
        "mul_i64"@[6] == '4',
        "div_i64_s"@.len() == 9,
        "div_i64_s"@[0] == 'd',
        "div_i64_s"@[1] == 'i',
        "div_i64_s"@[2] == 'v',
        "div_i64_s"@[6] == '4',
        "div_i64_s"@[8] == 's',
        "div_i64_u"@.len() == 9,
        "div_i64_u"@[0] == 'd',
        "div_i64_u"@[1] == 'i',
        "div_i64_u"@[2] == 'v',
        "div_i64_u"@[6] == '4',
        "div_i64_u"@[8] == 'u',
        "rem_i64_s"@.len() == 9,
        "rem_i64_s"@[0] == 'r',
        "rem_i64_s"@[1] == 'e',
        "rem_i64_s"@[2] == 'm',
        "rem_i64_s"@[6] == '4',
        "rem_i64_s"@[8] == 's',
        "rem_i64_u"@.len() == 9,
        "rem_i64_u"@[0] == 'r',
        "rem_i64_u"@[1] == 'e',
        "rem_i64_u"@[2] == 'm',
        "rem_i64_u"@[6] == '4',
        "rem_i64_u"@[8] == 'u',
        "add_f32"@.len() == 7,
        "add_f32"@[0] == 'a',
        "add_f32"@[1] == 'd',
        "add_f32"@[2] == 'd',
        "add_f32"@[4] == 'f',
        "add_f32"@[6] == '2',
        "sub_f32"@.len() == 7,
        "sub_f32"@[0] == 's',
        "sub_f32"@[1] == 'u',
        "sub_f32"@[2] == 'b',
        "sub_f32"@[4] == 'f',
        "sub_f32"@[6] == '2',
        "mul_f32"@.len() == 7,
        "mul_f32"@[0] == 'm',
        "mul_f32"@[1] == 'u',
        "mul_f32"@[2] == 'l',
        "mul_f32"@[4] == 'f',
        "mul_f32"@[6] == '2',
        "div_f32"@.len() == 7,
        "div_f32"@[0] == 'd',
        "div_f32"@[1] == 'i',
        "div_f32"@[2] == 'v',
        "div_f32"@[4] == 'f',
        "div_f32"@[6] == '2',
        "add_f64"@.len() == 7,
        "add_f64"@[0] == 'a',
        "add_f64"@[1] == 'd',
        "add_f64"@[2] == 'd',
        "add_f64"@[4] == 'f',
        "add_f64"@[6] == '4',
        "sub_f64"@.len() == 7,
        "sub_f64"@[0] == 's',
        "sub_f64"@[1] == 'u',
        "sub_f64"@[2] == 'b',
        "sub_f64"@[4] == 'f',
        "sub_f64"@[6] == '4',
        "mul_f64"@.len() == 7,
        "mul_f64"@[0] == 'm',
        "mul_f64"@[1] == 'u',
        "mul_f64"@[2] == 'l',
        "mul_f64"@[4] == 'f',
        "mul_f64"@[6] == '4',
        "div_f64"@.len() == 7,
        "div_f64"@[0] == 'd',
        "div_f64"@[1] == 'i',
        "div_f64"@[2] == 'v',
        "div_f64"@[4] == 'f',
        "div_f64"@[6] == '4',
{
    reveal_strlit("add_i32");
    reveal_strlit("sub_i32");
    reveal_strlit("add_imm_i32");
    reveal_strlit("sub_imm_i32");
    reveal_strlit("mul_i32");
    reveal_strlit("div_i32_s");
    reveal_strlit("div_i32_u");
    reveal_strlit("rem_i32_s");
    reveal_strlit("rem_i32_u");
    reveal_strlit("add_i64");
    reveal_strlit("sub_i64");
    reveal_strlit("add_imm_i64");
    reveal_strlit("sub_imm_i64");
    reveal_strlit("mul_i64");
    reveal_strlit("div_i64_s");
    reveal_strlit("div_i64_u");
    reveal_strlit("rem_i64_s");
    reveal_strlit("rem_i64_u");
    reveal_strlit("add_f32");
    reveal_strlit("sub_f32");
    reveal_strlit("mul_f32");
    reveal_strlit("div_f32");
    reveal_strlit("add_f64");
    reveal_strlit("sub_f64");
    reveal_strlit("mul_f64");
    reveal_strlit("div_f64");
}

/// The length of each bitwise mnemonic, and the characters that tell it from
/// every other mnemonic of the same length.
proof fn lemma_bitwise_mnemonics()
    ensures
        "and"@.len() == 3,
        "and"@[0] == 'a',
        "and"@[1] == 'n',
        "and"@[2] == 'd',
        "or"@.len() == 2,
        "or"@[0] == 'o',
        "or"@[1] == 'r',
        "xor"@.len() == 3,
        "xor"@[0] == 'x',
        "xor"@[1] == 'o',
        "xor"@[2] == 'r',
        "not"@.len() == 3,
        "not"@[0] == 'n',
        "not"@[1] == 'o',
        "not"@[2] == 't',
        "shift_left_i32"@.len() == 14,
        "shift_left_i32"@[0] == 's',
        "shift_left_i32"@[1] == 'h',
        "shift_left_i32"@[2] == 'i',
        "shift_left_i32"@[6] == 'l',
        "shift_left_i32"@[7] == 'e',
        "shift_left_i32"@[9] == 't',
        "shift_left_i32"@[11] == 'i',
        "shift_left_i32"@[13] == '2',
        "shift_right_i32_s"@.len() == 17,
        "shift_right_i32_s"@[0] == 's',
        "shift_right_i32_s"@[1] == 'h',
        "shift_right_i32_s"@[2] == 'i',
        "shift_right_i32_s"@[9] == 'h',
        "shift_right_i32_s"@[10] == 't',
        "shift_right_i32_s"@[14] == '2',
        "shift_right_i32_s"@[16] == 's',
        "shift_right_i32_u"@.len() == 17,
        "shift_right_i32_u"@[0] == 's',
        "shift_right_i32_u"@[1] == 'h',
        "shift_right_i32_u"@[2] == 'i',
        "shift_right_i32_u"@[9] == 'h',
        "shift_right_i32_u"@[10] == 't',
        "shift_right_i32_u"@[14] == '2',
        "shift_right_i32_u"@[16] == 'u',
        "rotate_left_i32"@.len() == 15,
        "rotate_left_i32"@[0] == 'r',
        "rotate_left_i32"@[1] == 'o',
        "rotate_left_i32"@[2] == 't',
        "rotate_left_i32"@[7] == 'l',
        "rotate_left_i32"@[8] == 'e',
        "rotate_left_i32"@[9] == 'f',
        "rotate_left_i32"@[12] == 'i',
        "rotate_left_i32"@[14] == '2',
        "rotate_right_i32"@.len() == 16,
        "rotate_right_i32"@[0] == 'r',
        "rotate_right_i32"@[1] == 'o',
        "rotate_right_i32"@[2] == 't',
        "rotate_right_i32"@[8] == 'i',
        "rotate_right_i32"@[9] == 'g',
        "rotate_right_i32"@[13] == 'i',
        "rotate_right_i32"@[15] == '2',
        "count_leading_zeros_i32"@.len() == 23,
        "count_leading_zeros_i32"@[0] == 'c',
        "count_leading_zeros_i32"@[1] == 'o',
        "count_leading_zeros_i32"@[2] == 'u',
        "count_leading_zeros_i32"@[9] == 'd',
        "count_leading_zeros_i32"@[15] == 'e',
        "count_leading_zeros_i32"@[16] == 'r',
        "count_leading_zeros_i32"@[20] == 'i',
        "count_leading_zeros_i32"@[22] == '2',
        "count_leading_ones_i32"@.len() == 22,
        "count_leading_ones_i32"@[0] == 'c',
        "count_leading_ones_i32"@[1] == 'o',
        "count_leading_ones_i32"@[2] == 'u',
        "count_leading_ones_i32"@[9] == 'd',
        "count_leading_ones_i32"@[14] == 'o',
        "count_leading_ones_i32"@[15] == 'n',
        "count_leading_ones_i32"@[19] == 'i',
        "count_leading_ones_i32"@[21] == '2',
        "count_trailing_zeros_i32"@.len() == 24,
        "count_trailing_zeros_i32"@[0] == 'c',
        "count_trailing_zeros_i32"@[1] == 'o',
        "count_trailing_zeros_i32"@[2] == 'u',
        "count_trailing_zeros_i32"@[9] == 'i',
        "count_trailing_zeros_i32"@[16] == 'e',
        "count_trailing_zeros_i32"@[17] == 'r',
        "count_trailing_zeros_i32"@[21] == 'i',
        "count_trailing_zeros_i32"@[23] == '2',
        "count_ones_i32"@.len() == 14,
        "count_ones_i32"@[0] == 'c',
        "count_ones_i32"@[1] == 'o',
        "count_ones_i32"@[2] == 'u',
        "count_ones_i32"@[6] == 'o',
        "count_ones_i32"@[7] == 'n',
        "count_ones_i32"@[9] == 's',
        "count_ones_i32"@[11] == 'i',
        "count_ones_i32"@[13] == '2',
        "shift_left_i64"@.len() == 14,
        "shift_left_i64"@[0] == 's',
        "shift_left_i64"@[1] == 'h',
        "shift_left_i64"@[2] == 'i',
        "shift_left_i64"@[6] == 'l',
        "shift_left_i64"@[7] == 'e',
        "shift_left_i64"@[9] == 't',
        "shift_left_i64"@[11] == 'i',
        "shift_left_i64"@[13] == '4',
        "shift_right_i64_s"@.len() == 17,
        "shift_right_i64_s"@[0] == 's',
        "shift_right_i64_s"@[1] == 'h',
        "shift_right_i64_s"@[2] == 'i',
        "shift_right_i64_s"@[9] == 'h',
        "shift_right_i64_s"@[10] == 't',
        "shift_right_i64_s"@[14] == '4',
        "shift_right_i64_s"@[16] == 's',
        "shift_right_i64_u"@.len() == 17,
        "shift_right_i64_u"@[0] == 's',
        "shift_right_i64_u"@[1] == 'h',
        "shift_right_i64_u"@[2] == 'i',
        "shift_right_i64_u"@[9] == 'h',
        "shift_right_i64_u"@[10] == 't',
        "shift_right_i64_u"@[14] == '4',
        "shift_right_i64_u"@[16] == 'u',
        "rotate_left_i64"@.len() == 15,
        "rotate_left_i64"@[0] == 'r',
        "rotate_left_i64"@[1] == 'o',
        "rotate_left_i64"@[2] == 't',
        "rotate_left_i64"@[7] == 'l',
        "rotate_left_i64"@[8] == 'e',
        "rotate_left_i64"@[9] == 'f',
        "rotate_left_i64"@[12] == 'i',
        "rotate_left_i64"@[14] == '4',
        "rotate_right_i64"@.len() == 16,
        "rotate_right_i64"@[0] == 'r',
        "rotate_right_i64"@[1] == 'o',
        "rotate_right_i64"@[2] == 't',
        "rotate_right_i64"@[8] == 'i',
        "rotate_right_i64"@[9] == 'g',
        "rotate_right_i64"@[13] == 'i',
        "rotate_right_i64"@[15] == '4',
        "count_leading_zeros_i64"@.len() == 23,
        "count_leading_zeros_i64"@[0] == 'c',
        "count_leading_zeros_i64"@[1] == 'o',
        "count_leading_zeros_i64"@[2] == 'u',
        "count_leading_zeros_i64"@[9] == 'd',
        "count_leading_zeros_i64"@[15] == 'e',
        "count_leading_zeros_i64"@[16] == 'r',
        "count_leading_zeros_i64"@[20] == 'i',
        "count_leading_zeros_i64"@[22] == '4',
        "count_leading_ones_i64"@.len() == 22,
        "count_leading_ones_i64"@[0] == 'c',
        "count_leading_ones_i64"@[1] == 'o',
        "count_leading_ones_i64"@[2] == 'u',
        "count_leading_ones_i64"@[9] == 'd',
        "count_leading_ones_i64"@[14] == 'o',
        "count_leading_ones_i64"@[15] == 'n',
        "count_leading_ones_i64"@[19] == 'i',
        "count_leading_ones_i64"@[21] == '4',
        "count_trailing_zeros_i64"@.len() == 24,
        "count_trailing_zeros_i64"@[0] == 'c',
        "count_trailing_zeros_i64"@[1] == 'o',
        "count_trailing_zeros_i64"@[2] == 'u',
        "count_trailing_zeros_i64"@[9] == 'i',
        "count_trailing_zeros_i64"@[16] == 'e',
        "count_trailing_zeros_i64"@[17] == 'r',
        "count_trailing_zeros_i64"@[21] == 'i',
        "count_trailing_zeros_i64"@[23] == '4',
        "count_ones_i64"@.len() == 14,
        "count_ones_i64"@[0] == 'c',
        "count_ones_i64"@[1] == 'o',
        "count_ones_i64"@[2] == 'u',
        "count_ones_i64"@[6] == 'o',
        "count_ones_i64"@[7] == 'n',
        "count_ones_i64"@[9] == 's',
        "count_ones_i64"@[11] == 'i',
        "count_ones_i64"@[13] == '4',
{
    reveal_strlit("and");
    reveal_strlit("or");
    reveal_strlit("xor");
    reveal_strlit("not");
    reveal_strlit("shift_left_i32");
    reveal_strlit("shift_right_i32_s");
    reveal_strlit("shift_right_i32_u");
    reveal_strlit("rotate_left_i32");
    reveal_strlit("rotate_right_i32");
    reveal_strlit("count_leading_zeros_i32");
    reveal_strlit("count_leading_ones_i32");
    reveal_strlit("count_trailing_zeros_i32");
    reveal_strlit("count_ones_i32");
    reveal_strlit("shift_left_i64");
    reveal_strlit("shift_right_i64_s");
    reveal_strlit("shift_right_i64_u");
    reveal_strlit("rotate_left_i64");
    reveal_strlit("rotate_right_i64");
    reveal_strlit("count_leading_zeros_i64");
    reveal_strlit("count_leading_ones_i64");
    reveal_strlit("count_trailing_zeros_i64");
    reveal_strlit("count_ones_i64");
}

/// The length of each math mnemonic, and the characters that tell it from
/// every other mnemonic of the same length.
proof fn lemma_math_mnemonics()
    ensures
        "abs_i32"@.len() == 7,
        "abs_i32"@[0] == 'a',
        "abs_i32"@[1] == 'b',
        "abs_i32"@[2] == 's',
        "abs_i32"@[4] == 'i',
        "abs_i32"@[6] == '2',
        "neg_i32"@.len() == 7,
        "neg_i32"@[0] == 'n',
        "neg_i32"@[1] == 'e',
        "neg_i32"@[2] == 'g',
        "neg_i32"@[4] == 'i',
        "neg_i32"@[6] == '2',
        "abs_i64"@.len() == 7,
        "abs_i64"@[0] == 'a',
        "abs_i64"@[1] == 'b',
        "abs_i64"@[2] == 's',
        "abs_i64"@[4] == 'i',
        "abs_i64"@[6] == '4',
        "neg_i64"@.len() == 7,
        "neg_i64"@[0] == 'n',
        "neg_i64"@[1] == 'e',
        "neg_i64"@[2] == 'g',
        "neg_i64"@[4] == 'i',
        "neg_i64"@[6] == '4',
        "abs_f32"@.len() == 7,
        "abs_f32"@[0] == 'a',
        "abs_f32"@[1] == 'b',
        "abs_f32"@[2] == 's',
        "abs_f32"@[4] == 'f',
        "abs_f32"@[6] == '2',
        "neg_f32"@.len() == 7,
        "neg_f32"@[0] == 'n',
        "neg_f32"@[1] == 'e',
        "neg_f32"@[2] == 'g',
        "neg_f32"@[4] == 'f',
        "neg_f32"@[6] == '2',
        "copysign_f32"@.len() == 12,
        "copysign_f32"@[0] == 'c',
        "copysign_f32"@[1] == 'o',
        "copysign_f32"@[2] == 'p',
        "copysign_f32"@[4] == 's',
        "copysign_f32"@[5] == 'i',
        "copysign_f32"@[9] == 'f',
        "copysign_f32"@[11] == '2',
        "sqrt_f32"@.len() == 8,
        "sqrt_f32"@[0] == 's',
        "sqrt_f32"@[1] == 'q',
        "sqrt_f32"@[2] == 'r',
        "sqrt_f32"@[5] == 'f',
        "sqrt_f32"@[7] == '2',
        "min_f32"@.len() == 7,
        "min_f32"@[0] == 'm',
        "min_f32"@[1] == 'i',
        "min_f32"@[2] == 'n',
        "min_f32"@[4] == 'f',
        "min_f32"@[6] == '2',
        "max_f32"@.len() == 7,
        "max_f32"@[0] == 'm',
        "max_f32"@[1] == 'a',
        "max_f32"@[2] == 'x',
        "max_f32"@[4] == 'f',
        "max_f32"@[6] == '2',
        "ceil_f32"@.len() == 8,
        "ceil_f32"@[0] == 'c',
        "ceil_f32"@[1] == 'e',
        "ceil_f32"@[2] == 'i',
        "ceil_f32"@[5] == 'f',
        "ceil_f32"@[7] == '2',
        "floor_f32"@.len() == 9,
        "floor_f32"@[0] == 'f',
        "floor_f32"@[1] == 'l',
        "floor_f32"@[2] == 'o',
        "floor_f32"@[6] == 'f',
        "floor_f32"@[8] == '2',
        "round_half_away_from_zero_f32"@.len() == 29,
        "round_half_away_from_zero_f32"@[0] == 'r',
        "round_half_away_from_zero_f32"@[1] == 'o',
        "round_half_away_from_zero_f32"@[2] == 'u',
        "round_half_away_from_zero_f32"@[9] == 'f',
        "round_half_away_from_zero_f32"@[21] == 'z',
        "round_half_away_from_zero_f32"@[22] == 'e',
        "round_half_away_from_zero_f32"@[26] == 'f',
        "round_half_away_from_zero_f32"@[28] == '2',
        "round_half_to_even_f32"@.len() == 22,
        "round_half_to_even_f32"@[0] == 'r',
        "round_half_to_even_f32"@[1] == 'o',
        "round_half_to_even_f32"@[2] == 'u',
        "round_half_to_even_f32"@[9] == 'f',
        "round_half_to_even_f32"@[14] == 'e',
        "round_half_to_even_f32"@[15] == 'v',
        "round_half_to_even_f32"@[19] == 'f',
        "round_half_to_even_f32"@[21] == '2',
        "trunc_f32"@.len() == 9,
        "trunc_f32"@[0] == 't',
        "trunc_f32"@[1] == 'r',
        "trunc_f32"@[2] == 'u',
        "trunc_f32"@[6] == 'f',
        "trunc_f32"@[8] == '2',
        "fract_f32"@.len() == 9,
        "fract_f32"@[0] == 'f',
        "fract_f32"@[1] == 'r',
        "fract_f32"@[2] == 'a',
        "fract_f32"@[6] == 'f',
        "fract_f32"@[8] == '2',
        "cbrt_f32"@.len() == 8,
        "cbrt_f32"@[0] == 'c',
        "cbrt_f32"@[1] == 'b',
        "cbrt_f32"@[2] == 'r',
        "cbrt_f32"@[5] == 'f',
        "cbrt_f32"@[7] == '2',
        "exp_f32"@.len() == 7,
        "exp_f32"@[0] == 'e',
        "exp_f32"@[1] == 'x',
        "exp_f32"@[2] == 'p',
        "exp_f32"@[4] == 'f',
        "exp_f32"@[6] == '2',
        "exp2_f32"@.len() == 8,
        "exp2_f32"@[0] == 'e',
        "exp2_f32"@[1] == 'x',
        "exp2_f32"@[2] == 'p',
        "exp2_f32"@[5] == 'f',
        "exp2_f32"@[7] == '2',
        "ln_f32"@.len() == 6,
        "ln_f32"@[0] == 'l',
        "ln_f32"@[1] == 'n',
        "ln_f32"@[2] == '_',
        "ln_f32"@[3] == 'f',
        "ln_f32"@[5] == '2',
        "log2_f32"@.len() == 8,
        "log2_f32"@[0] == 'l',
        "log2_f32"@[1] == 'o',
        "log2_f32"@[2] == 'g',
        "log2_f32"@[5] == 'f',
        "log2_f32"@[7] == '2',
        "log10_f32"@.len() == 9,
        "log10_f32"@[0] == 'l',
        "log10_f32"@[1] == 'o',
        "log10_f32"@[2] == 'g',
        "log10_f32"@[6] == 'f',
        "log10_f32"@[8] == '2',
        "sin_f32"@.len() == 7,
        "sin_f32"@[0] == 's',
        "sin_f32"@[1] == 'i',
        "sin_f32"@[2] == 'n',
        "sin_f32"@[4] == 'f',
        "sin_f32"@[6] == '2',
        "cos_f32"@.len() == 7,
        "cos_f32"@[0] == 'c',
        "cos_f32"@[1] == 'o',
        "cos_f32"@[2] == 's',
        "cos_f32"@[4] == 'f',
        "cos_f32"@[6] == '2',
        "tan_f32"@.len() == 7,
        "tan_f32"@[0] == 't',
        "tan_f32"@[1] == 'a',
        "tan_f32"@[2] == 'n',
        "tan_f32"@[4] == 'f',
        "tan_f32"@[6] == '2',
        "asin_f32"@.len() == 8,
        "asin_f32"@[0] == 'a',
        "asin_f32"@[1] == 's',
        "asin_f32"@[2] == 'i',
        "asin_f32"@[5] == 'f',
        "asin_f32"@[7] == '2',
        "acos_f32"@.len() == 8,
        "acos_f32"@[0] == 'a',
        "acos_f32"@[1] == 'c',
        "acos_f32"@[2] == 'o',
        "acos_f32"@[5] == 'f',
        "acos_f32"@[7] == '2',
        "atan_f32"@.len() == 8,
        "atan_f32"@[0] == 'a',
        "atan_f32"@[1] == 't',
        "atan_f32"@[2] == 'a',
        "atan_f32"@[5] == 'f',
        "atan_f32"@[7] == '2',
        "pow_f32"@.len() == 7,
        "pow_f32"@[0] == 'p',
        "pow_f32"@[1] == 'o',
        "pow_f32"@[2] == 'w',
        "pow_f32"@[4] == 'f',
        "pow_f32"@[6] == '2',
        "log_f32"@.len() == 7,
        "log_f32"@[0] == 'l',
        "log_f32"@[1] == 'o',
        "log_f32"@[2] == 'g',
        "log_f32"@[4] == 'f',
        "log_f32"@[6] == '2',
        "abs_f64"@.len() == 7,
        "abs_f64"@[0] == 'a',
        "abs_f64"@[1] == 'b',
        "abs_f64"@[2] == 's',
        "abs_f64"@[4] == 'f',
        "abs_f64"@[6] == '4',
        "neg_f64"@.len() == 7,
        "neg_f64"@[0] == 'n',
        "neg_f64"@[1] == 'e',
        "neg_f64"@[2] == 'g',
        "neg_f64"@[4] == 'f',
        "neg_f64"@[6] == '4',
        "copysign_f64"@.len() == 12,
        "copysign_f64"@[0] == 'c',
        "copysign_f64"@[1] == 'o',
        "copysign_f64"@[2] == 'p',
        "copysign_f64"@[4] == 's',
        "copysign_f64"@[5] == 'i',
        "copysign_f64"@[9] == 'f',
        "copysign_f64"@[11] == '4',
        "sqrt_f64"@.len() == 8,
        "sqrt_f64"@[0] == 's',
        "sqrt_f64"@[1] == 'q',
        "sqrt_f64"@[2] == 'r',
        "sqrt_f64"@[5] == 'f',
        "sqrt_f64"@[7] == '4',
        "min_f64"@.len() == 7,
        "min_f64"@[0] == 'm',
        "min_f64"@[1] == 'i',
        "min_f64"@[2] == 'n',
        "min_f64"@[4] == 'f',
        "min_f64"@[6] == '4',
        "max_f64"@.len() == 7,
        "max_f64"@[0] == 'm',
        "max_f64"@[1] == 'a',
        "max_f64"@[2] == 'x',
        "max_f64"@[4] == 'f',
        "max_f64"@[6] == '4',
        "ceil_f64"@.len() == 8,
        "ceil_f64"@[0] == 'c',
        "ceil_f64"@[1] == 'e',
        "ceil_f64"@[2] == 'i',
        "ceil_f64"@[5] == 'f',
        "ceil_f64"@[7] == '4',
        "floor_f64"@.len() == 9,
        "floor_f64"@[0] == 'f',
        "floor_f64"@[1] == 'l',
        "floor_f64"@[2] == 'o',
        "floor_f64"@[6] == 'f',
        "floor_f64"@[8] == '4',
        "round_half_away_from_zero_f64"@.len() == 29,
        "round_half_away_from_zero_f64"@[0] == 'r',
        "round_half_away_from_zero_f64"@[1] == 'o',
        "round_half_away_from_zero_f64"@[2] == 'u',
        "round_half_away_from_zero_f64"@[9] == 'f',
        "round_half_away_from_zero_f64"@[21] == 'z',
        "round_half_away_from_zero_f64"@[22] == 'e',
        "round_half_away_from_zero_f64"@[26] == 'f',
        "round_half_away_from_zero_f64"@[28] == '4',
        "round_half_to_even_f64"@.len() == 22,
        "round_half_to_even_f64"@[0] == 'r',
        "round_half_to_even_f64"@[1] == 'o',
        "round_half_to_even_f64"@[2] == 'u',
        "round_half_to_even_f64"@[9] == 'f',
        "round_half_to_even_f64"@[14] == 'e',
        "round_half_to_even_f64"@[15] == 'v',
        "round_half_to_even_f64"@[19] == 'f',
        "round_half_to_even_f64"@[21] == '4',
        "trunc_f64"@.len() == 9,
        "trunc_f64"@[0] == 't',
        "trunc_f64"@[1] == 'r',
        "trunc_f64"@[2] == 'u',
        "trunc_f64"@[6] == 'f',
        "trunc_f64"@[8] == '4',
        "fract_f64"@.len() == 9,
        "fract_f64"@[0] == 'f',
        "fract_f64"@[1] == 'r',
        "fract_f64"@[2] == 'a',
        "fract_f64"@[6] == 'f',
        "fract_f64"@[8] == '4',
        "cbrt_f64"@.len() == 8,
        "cbrt_f64"@[0] == 'c',
        "cbrt_f64"@[1] == 'b',
        "cbrt_f64"@[2] == 'r',
        "cbrt_f64"@[5] == 'f',
        "cbrt_f64"@[7] == '4',
        "exp_f64"@.len() == 7,
        "exp_f64"@[0] == 'e',
        "exp_f64"@[1] == 'x',
        "exp_f64"@[2] == 'p',
        "exp_f64"@[4] == 'f',
        "exp_f64"@[6] == '4',
        "exp2_f64"@.len() == 8,
        "exp2_f64"@[0] == 'e',
        "exp2_f64"@[1] == 'x',
        "exp2_f64"@[2] == 'p',
        "exp2_f64"@[5] == 'f',
        "exp2_f64"@[7] == '4',
        "ln_f64"@.len() == 6,
        "ln_f64"@[0] == 'l',
        "ln_f64"@[1] == 'n',
        "ln_f64"@[2] == '_',
        "ln_f64"@[3] == 'f',
        "ln_f64"@[5] == '4',
        "log2_f64"@.len() == 8,
        "log2_f64"@[0] == 'l',
        "log2_f64"@[1] == 'o',
        "log2_f64"@[2] == 'g',
        "log2_f64"@[5] == 'f',
        "log2_f64"@[7] == '4',
        "log10_f64"@.len() == 9,
        "log10_f64"@[0] == 'l',
        "log10_f64"@[1] == 'o',
        "log10_f64"@[2] == 'g',
        "log10_f64"@[6] == 'f',
        "log10_f64"@[8] == '4',
        "sin_f64"@.len() == 7,
        "sin_f64"@[0] == 's',
        "sin_f64"@[1] == 'i',
        "sin_f64"@[2] == 'n',
        "sin_f64"@[4] == 'f',
        "sin_f64"@[6] == '4',
        "cos_f64"@.len() == 7,
        "cos_f64"@[0] == 'c',
        "cos_f64"@[1] == 'o',
        "cos_f64"@[2] == 's',
        "cos_f64"@[4] == 'f',
        "cos_f64"@[6] == '4',
        "tan_f64"@.len() == 7,
        "tan_f64"@[0] == 't',
        "tan_f64"@[1] == 'a',
        "tan_f64"@[2] == 'n',
        "tan_f64"@[4] == 'f',
        "tan_f64"@[6] == '4',
        "asin_f64"@.len() == 8,
        "asin_f64"@[0] == 'a',
        "asin_f64"@[1] == 's',
        "asin_f64"@[2] == 'i',
        "asin_f64"@[5] == 'f',
        "asin_f64"@[7] == '4',
        "acos_f64"@.len() == 8,
        "acos_f64"@[0] == 'a',
        "acos_f64"@[1] == 'c',
        "acos_f64"@[2] == 'o',
        "acos_f64"@[5] == 'f',
        "acos_f64"@[7] == '4',
        "atan_f64"@.len() == 8,
        "atan_f64"@[0] == 'a',
        "atan_f64"@[1] == 't',
        "atan_f64"@[2] == 'a',
        "atan_f64"@[5] == 'f',
        "atan_f64"@[7] == '4',
        "pow_f64"@.len() == 7,
        "pow_f64"@[0] == 'p',
        "pow_f64"@[1] == 'o',
        "pow_f64"@[2] == 'w',
        "pow_f64"@[4] == 'f',
        "pow_f64"@[6] == '4',
        "log_f64"@.len() == 7,
        "log_f64"@[0] == 'l',
        "log_f64"@[1] == 'o',
        "log_f64"@[2] == 'g',
        "log_f64"@[4] == 'f',
        "log_f64"@[6] == '4',
{
    reveal_strlit("abs_i32");
    reveal_strlit("neg_i32");
    reveal_strlit("abs_i64");
    reveal_strlit("neg_i64");
    reveal_strlit("abs_f32");
    reveal_strlit("neg_f32");
    reveal_strlit("copysign_f32");
    reveal_strlit("sqrt_f32");
    reveal_strlit("min_f32");
    reveal_strlit("max_f32");
    reveal_strlit("ceil_f32");
    reveal_strlit("floor_f32");
    reveal_strlit("round_half_away_from_zero_f32");
    reveal_strlit("round_half_to_even_f32");
    reveal_strlit("trunc_f32");
    reveal_strlit("fract_f32");
    reveal_strlit("cbrt_f32");
    reveal_strlit("exp_f32");
    reveal_strlit("exp2_f32");
    reveal_strlit("ln_f32");
    reveal_strlit("log2_f32");
    reveal_strlit("log10_f32");
    reveal_strlit("sin_f32");
    reveal_strlit("cos_f32");
    reveal_strlit("tan_f32");
    reveal_strlit("asin_f32");
    reveal_strlit("acos_f32");
    reveal_strlit("atan_f32");
    reveal_strlit("pow_f32");
    reveal_strlit("log_f32");
    reveal_strlit("abs_f64");
    reveal_strlit("neg_f64");
    reveal_strlit("copysign_f64");
    reveal_strlit("sqrt_f64");
    reveal_strlit("min_f64");
    reveal_strlit("max_f64");
    reveal_strlit("ceil_f64");
    reveal_strlit("floor_f64");
    reveal_strlit("round_half_away_from_zero_f64");
    reveal_strlit("round_half_to_even_f64");
    reveal_strlit("trunc_f64");
    reveal_strlit("fract_f64");
    reveal_strlit("cbrt_f64");
    reveal_strlit("exp_f64");
    reveal_strlit("exp2_f64");
    reveal_strlit("ln_f64");
    reveal_strlit("log2_f64");
    reveal_strlit("log10_f64");
    reveal_strlit("sin_f64");
    reveal_strlit("cos_f64");
    reveal_strlit("tan_f64");
    reveal_strlit("asin_f64");
    reveal_strlit("acos_f64");
    reveal_strlit("atan_f64");
    reveal_strlit("pow_f64");
    reveal_strlit("log_f64");
}

/// The length of each conversion mnemonic, and the characters that tell it from
/// every other mnemonic of the same length.
proof fn lemma_conversion_mnemonics()
    ensures
        "truncate_i64_to_i32"@.len() == 19,
        "truncate_i64_to_i32"@[0] == 't',
        "truncate_i64_to_i32"@[1] == 'r',
        "truncate_i64_to_i32"@[2] == 'u',
        "truncate_i64_to_i32"@[9] == 'i',
        "truncate_i64_to_i32"@[11] == '4',
        "truncate_i64_to_i32"@[12] == '_',
        "truncate_i64_to_i32"@[16] == 'i',
        "truncate_i64_to_i32"@[18] == '2',
        "extend_i32_s_to_i64"@.len() == 19,
        "extend_i32_s_to_i64"@[0] == 'e',
        "extend_i32_s_to_i64"@[1] == 'x',
        "extend_i32_s_to_i64"@[2] == 't',
        "extend_i32_s_to_i64"@[9] == '2',
        "extend_i32_s_to_i64"@[11] == 's',
        "extend_i32_s_to_i64"@[12] == '_',
        "extend_i32_s_to_i64"@[16] == 'i',
        "extend_i32_s_to_i64"@[18] == '4',
        "extend_i32_u_to_i64"@.len() == 19,
        "extend_i32_u_to_i64"@[0] == 'e',
        "extend_i32_u_to_i64"@[1] == 'x',
        "extend_i32_u_to_i64"@[2] == 't',
        "extend_i32_u_to_i64"@[9] == '2',
        "extend_i32_u_to_i64"@[11] == 'u',
        "extend_i32_u_to_i64"@[12] == '_',
        "extend_i32_u_to_i64"@[16] == 'i',
        "extend_i32_u_to_i64"@[18] == '4',
        "demote_f64_to_f32"@.len() == 17,
        "demote_f64_to_f32"@[0] == 'd',
        "demote_f64_to_f32"@[1] == 'e',
        "demote_f64_to_f32"@[2] == 'm',
        "demote_f64_to_f32"@[9] == '4',
        "demote_f64_to_f32"@[10] == '_',
        "demote_f64_to_f32"@[14] == 'f',
        "demote_f64_to_f32"@[16] == '2',
        "promote_f32_to_f64"@.len() == 18,
        "promote_f32_to_f64"@[0] == 'p',
        "promote_f32_to_f64"@[1] == 'r',
        "promote_f32_to_f64"@[2] == 'o',
        "promote_f32_to_f64"@[9] == '3',
        "promote_f32_to_f64"@[10] == '2',
        "promote_f32_to_f64"@[11] == '_',
        "promote_f32_to_f64"@[15] == 'f',
        "promote_f32_to_f64"@[17] == '4',
        "convert_f32_to_i32_s"@.len() == 20,
        "convert_f32_to_i32_s"@[0] == 'c',
        "convert_f32_to_i32_s"@[1] == 'o',
        "convert_f32_to_i32_s"@[2] == 'n',
        "convert_f32_to_i32_s"@[9] == '3',
        "convert_f32_to_i32_s"@[12] == 't',
        "convert_f32_to_i32_s"@[13] == 'o',
        "convert_f32_to_i32_s"@[17] == '2',
        "convert_f32_to_i32_s"@[19] == 's',
        "convert_f32_to_i32_u"@.len() == 20,
        "convert_f32_to_i32_u"@[0] == 'c',
        "convert_f32_to_i32_u"@[1] == 'o',
        "convert_f32_to_i32_u"@[2] == 'n',
        "convert_f32_to_i32_u"@[9] == '3',
        "convert_f32_to_i32_u"@[12] == 't',
        "convert_f32_to_i32_u"@[13] == 'o',
        "convert_f32_to_i32_u"@[17] == '2',
        "convert_f32_to_i32_u"@[19] == 'u',
        "convert_f64_to_i32_s"@.len() == 20,
        "convert_f64_to_i32_s"@[0] == 'c',
        "convert_f64_to_i32_s"@[1] == 'o',
        "convert_f64_to_i32_s"@[2] == 'n',
        "convert_f64_to_i32_s"@[9] == '6',
        "convert_f64_to_i32_s"@[12] == 't',
        "convert_f64_to_i32_s"@[13] == 'o',
        "convert_f64_to_i32_s"@[17] == '2',
        "convert_f64_to_i32_s"@[19] == 's',
        "convert_f64_to_i32_u"@.len() == 20,
        "convert_f64_to_i32_u"@[0] == 'c',
        "convert_f64_to_i32_u"@[1] == 'o',
        "convert_f64_to_i32_u"@[2] == 'n',
        "convert_f64_to_i32_u"@[9] == '6',
        "convert_f64_to_i32_u"@[12] == 't',
        "convert_f64_to_i32_u"@[13] == 'o',
        "convert_f64_to_i32_u"@[17] == '2',
        "convert_f64_to_i32_u"@[19] == 'u',
        "convert_f32_to_i64_s"@.len() == 20,
        "convert_f32_to_i64_s"@[0] == 'c',
        "convert_f32_to_i64_s"@[1] == 'o',
        "convert_f32_to_i64_s"@[2] == 'n',
        "convert_f32_to_i64_s"@[9] == '3',
        "convert_f32_to_i64_s"@[12] == 't',
        "convert_f32_to_i64_s"@[13] == 'o',
        "convert_f32_to_i64_s"@[17] == '4',
        "convert_f32_to_i64_s"@[19] == 's',
        "convert_f32_to_i64_u"@.len() == 20,
        "convert_f32_to_i64_u"@[0] == 'c',
        "convert_f32_to_i64_u"@[1] == 'o',
        "convert_f32_to_i64_u"@[2] == 'n',
        "convert_f32_to_i64_u"@[9] == '3',
        "convert_f32_to_i64_u"@[12] == 't',
        "convert_f32_to_i64_u"@[13] == 'o',
        "convert_f32_to_i64_u"@[17] == '4',
        "convert_f32_to_i64_u"@[19] == 'u',
        "convert_f64_to_i64_s"@.len() == 20,
        "convert_f64_to_i64_s"@[0] == 'c',
        "convert_f64_to_i64_s"@[1] == 'o',
        "convert_f64_to_i64_s"@[2] == 'n',
        "convert_f64_to_i64_s"@[9] == '6',
        "convert_f64_to_i64_s"@[12] == 't',
        "convert_f64_to_i64_s"@[13] == 'o',
        "convert_f64_to_i64_s"@[17] == '4',
        "convert_f64_to_i64_s"@[19] == 's',
        "convert_f64_to_i64_u"@.len() == 20,
        "convert_f64_to_i64_u"@[0] == 'c',
        "convert_f64_to_i64_u"@[1] == 'o',
        "convert_f64_to_i64_u"@[2] == 'n',
        "convert_f64_to_i64_u"@[9] == '6',
        "convert_f64_to_i64_u"@[12] == 't',
        "convert_f64_to_i64_u"@[13] == 'o',
        "convert_f64_to_i64_u"@[17] == '4',
        "convert_f64_to_i64_u"@[19] == 'u',
        "convert_i32_s_to_f32"@.len() == 20,
        "convert_i32_s_to_f32"@[0] == 'c',
        "convert_i32_s_to_f32"@[1] == 'o',
        "convert_i32_s_to_f32"@[2] == 'n',
        "convert_i32_s_to_f32"@[9] == '3',
        "convert_i32_s_to_f32"@[12] == 's',
        "convert_i32_s_to_f32"@[13] == '_',
        "convert_i32_s_to_f32"@[17] == 'f',
        "convert_i32_s_to_f32"@[19] == '2',
        "convert_i32_u_to_f32"@.len() == 20,
        "convert_i32_u_to_f32"@[0] == 'c',
        "convert_i32_u_to_f32"@[1] == 'o',
        "convert_i32_u_to_f32"@[2] == 'n',
        "convert_i32_u_to_f32"@[9] == '3',
        "convert_i32_u_to_f32"@[12] == 'u',
        "convert_i32_u_to_f32"@[13] == '_',
        "convert_i32_u_to_f32"@[17] == 'f',
        "convert_i32_u_to_f32"@[19] == '2',
        "convert_i64_s_to_f32"@.len() == 20,
        "convert_i64_s_to_f32"@[0] == 'c',
        "convert_i64_s_to_f32"@[1] == 'o',
        "convert_i64_s_to_f32"@[2] == 'n',
        "convert_i64_s_to_f32"@[9] == '6',
        "convert_i64_s_to_f32"@[12] == 's',
        "convert_i64_s_to_f32"@[13] == '_',
        "convert_i64_s_to_f32"@[17] == 'f',
        "convert_i64_s_to_f32"@[19] == '2',
        "convert_i64_u_to_f32"@.len() == 20,
        "convert_i64_u_to_f32"@[0] == 'c',
        "convert_i64_u_to_f32"@[1] == 'o',
        "convert_i64_u_to_f32"@[2] == 'n',
        "convert_i64_u_to_f32"@[9] == '6',
        "convert_i64_u_to_f32"@[12] == 'u',
        "convert_i64_u_to_f32"@[13] == '_',
        "convert_i64_u_to_f32"@[17] == 'f',
        "convert_i64_u_to_f32"@[19] == '2',
        "convert_i32_s_to_f64"@.len() == 20,
        "convert_i32_s_to_f64"@[0] == 'c',
        "convert_i32_s_to_f64"@[1] == 'o',
        "convert_i32_s_to_f64"@[2] == 'n',
        "convert_i32_s_to_f64"@[9] == '3',
        "convert_i32_s_to_f64"@[12] == 's',
        "convert_i32_s_to_f64"@[13] == '_',
        "convert_i32_s_to_f64"@[17] == 'f',
        "convert_i32_s_to_f64"@[19] == '4',
        "convert_i32_u_to_f64"@.len() == 20,
        "convert_i32_u_to_f64"@[0] == 'c',
        "convert_i32_u_to_f64"@[1] == 'o',
        "convert_i32_u_to_f64"@[2] == 'n',
        "convert_i32_u_to_f64"@[9] == '3',
        "convert_i32_u_to_f64"@[12] == 'u',
        "convert_i32_u_to_f64"@[13] == '_',
        "convert_i32_u_to_f64"@[17] == 'f',
        "convert_i32_u_to_f64"@[19] == '4',
        "convert_i64_s_to_f64"@.len() == 20,
        "convert_i64_s_to_f64"@[0] == 'c',
        "convert_i64_s_to_f64"@[1] == 'o',
        "convert_i64_s_to_f64"@[2] == 'n',
        "convert_i64_s_to_f64"@[9] == '6',
        "convert_i64_s_to_f64"@[12] == 's',
        "convert_i64_s_to_f64"@[13] == '_',
        "convert_i64_s_to_f64"@[17] == 'f',
        "convert_i64_s_to_f64"@[19] == '4',
        "convert_i64_u_to_f64"@.len() == 20,
        "convert_i64_u_to_f64"@[0] == 'c',
        "convert_i64_u_to_f64"@[1] == 'o',
        "convert_i64_u_to_f64"@[2] == 'n',
        "convert_i64_u_to_f64"@[9] == '6',
        "convert_i64_u_to_f64"@[12] == 'u',
        "convert_i64_u_to_f64"@[13] == '_',
        "convert_i64_u_to_f64"@[17] == 'f',
        "convert_i64_u_to_f64"@[19] == '4',
{
    reveal_strlit("truncate_i64_to_i32");
    reveal_strlit("extend_i32_s_to_i64");
    reveal_strlit("extend_i32_u_to_i64");
    reveal_strlit("demote_f64_to_f32");
    reveal_strlit("promote_f32_to_f64");
    reveal_strlit("convert_f32_to_i32_s");
    reveal_strlit("convert_f32_to_i32_u");
    reveal_strlit("convert_f64_to_i32_s");
    reveal_strlit("convert_f64_to_i32_u");
    reveal_strlit("convert_f32_to_i64_s");
    reveal_strlit("convert_f32_to_i64_u");
    reveal_strlit("convert_f64_to_i64_s");
    reveal_strlit("convert_f64_to_i64_u");
    reveal_strlit("convert_i32_s_to_f32");
    reveal_strlit("convert_i32_u_to_f32");
    reveal_strlit("convert_i64_s_to_f32");
    reveal_strlit("convert_i64_u_to_f32");
    reveal_strlit("convert_i32_s_to_f64");
    reveal_strlit("convert_i32_u_to_f64");
    reveal_strlit("convert_i64_s_to_f64");
    reveal_strlit("convert_i64_u_to_f64");
}

/// The length of each comparison mnemonic, and the characters that tell it from
/// every other mnemonic of the same length.
proof fn lemma_comparison_mnemonics()
    ensures
        "eqz_i32"@.len() == 7,
        "eqz_i32"@[0] == 'e',
        "eqz_i32"@[1] == 'q',
        "eqz_i32"@[2] == 'z',
        "eqz_i32"@[4] == 'i',
        "eqz_i32"@[6] == '2',
        "nez_i32"@.len() == 7,
        "nez_i32"@[0] == 'n',
        "nez_i32"@[1] == 'e',
        "nez_i32"@[2] == 'z',
        "nez_i32"@[4] == 'i',
        "nez_i32"@[6] == '2',
        "eq_i32"@.len() == 6,
        "eq_i32"@[0] == 'e',
        "eq_i32"@[1] == 'q',
        "eq_i32"@[2] == '_',
        "eq_i32"@[3] == 'i',
        "eq_i32"@[5] == '2',
        "ne_i32"@.len() == 6,
        "ne_i32"@[0] == 'n',
        "ne_i32"@[1] == 'e',
        "ne_i32"@[2] == '_',
        "ne_i32"@[3] == 'i',
        "ne_i32"@[5] == '2',
        "lt_i32_s"@.len() == 8,
        "lt_i32_s"@[0] == 'l',
        "lt_i32_s"@[1] == 't',
        "lt_i32_s"@[2] == '_',
        "lt_i32_s"@[5] == '2',
        "lt_i32_s"@[7] == 's',
        "lt_i32_u"@.len() == 8,
        "lt_i32_u"@[0] == 'l',
        "lt_i32_u"@[1] == 't',
        "lt_i32_u"@[2] == '_',
        "lt_i32_u"@[5] == '2',
        "lt_i32_u"@[7] == 'u',
        "gt_i32_s"@.len() == 8,
        "gt_i32_s"@[0] == 'g',
        "gt_i32_s"@[1] == 't',
        "gt_i32_s"@[2] == '_',
        "gt_i32_s"@[5] == '2',
        "gt_i32_s"@[7] == 's',
        "gt_i32_u"@.len() == 8,
        "gt_i32_u"@[0] == 'g',
        "gt_i32_u"@[1] == 't',
        "gt_i32_u"@[2] == '_',
        "gt_i32_u"@[5] == '2',
        "gt_i32_u"@[7] == 'u',
        "le_i32_s"@.len() == 8,
        "le_i32_s"@[0] == 'l',
        "le_i32_s"@[1] == 'e',
        "le_i32_s"@[2] == '_',
        "le_i32_s"@[5] == '2',
        "le_i32_s"@[7] == 's',
        "le_i32_u"@.len() == 8,
        "le_i32_u"@[0] == 'l',
        "le_i32_u"@[1] == 'e',
        "le_i32_u"@[2] == '_',
        "le_i32_u"@[5] == '2',
        "le_i32_u"@[7] == 'u',
        "ge_i32_s"@.len() == 8,
        "ge_i32_s"@[0] == 'g',
        "ge_i32_s"@[1] == 'e',
        "ge_i32_s"@[2] == '_',
        "ge_i32_s"@[5] == '2',
        "ge_i32_s"@[7] == 's',
        "ge_i32_u"@.len() == 8,
        "ge_i32_u"@[0] == 'g',
        "ge_i32_u"@[1] == 'e',
        "ge_i32_u"@[2] == '_',
        "ge_i32_u"@[5] == '2',
        "ge_i32_u"@[7] == 'u',
        "eqz_i64"@.len() == 7,
        "eqz_i64"@[0] == 'e',
        "eqz_i64"@[1] == 'q',
        "eqz_i64"@[2] == 'z',
        "eqz_i64"@[4] == 'i',
        "eqz_i64"@[6] == '4',
        "nez_i64"@.len() == 7,
        "nez_i64"@[0] == 'n',
        "nez_i64"@[1] == 'e',
        "nez_i64"@[2] == 'z',
        "nez_i64"@[4] == 'i',
        "nez_i64"@[6] == '4',
        "eq_i64"@.len() == 6,
        "eq_i64"@[0] == 'e',
        "eq_i64"@[1] == 'q',
        "eq_i64"@[2] == '_',
        "eq_i64"@[3] == 'i',
        "eq_i64"@[5] == '4',
        "ne_i64"@.len() == 6,
        "ne_i64"@[0] == 'n',
        "ne_i64"@[1] == 'e',
        "ne_i64"@[2] == '_',
        "ne_i64"@[3] == 'i',
        "ne_i64"@[5] == '4',
        "lt_i64_s"@.len() == 8,
        "lt_i64_s"@[0] == 'l',
        "lt_i64_s"@[1] == 't',
        "lt_i64_s"@[2] == '_',
        "lt_i64_s"@[5] == '4',
        "lt_i64_s"@[7] == 's',
        "lt_i64_u"@.len() == 8,
        "lt_i64_u"@[0] == 'l',
        "lt_i64_u"@[1] == 't',
        "lt_i64_u"@[2] == '_',
        "lt_i64_u"@[5] == '4',
        "lt_i64_u"@[7] == 'u',
        "gt_i64_s"@.len() == 8,
        "gt_i64_s"@[0] == 'g',
        "gt_i64_s"@[1] == 't',
        "gt_i64_s"@[2] == '_',
        "gt_i64_s"@[5] == '4',
        "gt_i64_s"@[7] == 's',
        "gt_i64_u"@.len() == 8,
        "gt_i64_u"@[0] == 'g',
        "gt_i64_u"@[1] == 't',
        "gt_i64_u"@[2] == '_',
        "gt_i64_u"@[5] == '4',
        "gt_i64_u"@[7] == 'u',
        "le_i64_s"@.len() == 8,
        "le_i64_s"@[0] == 'l',
        "le_i64_s"@[1] == 'e',
        "le_i64_s"@[2] == '_',
        "le_i64_s"@[5] == '4',
        "le_i64_s"@[7] == 's',
        "le_i64_u"@.len() == 8,
        "le_i64_u"@[0] == 'l',
        "le_i64_u"@[1] == 'e',
        "le_i64_u"@[2] == '_',
        "le_i64_u"@[5] == '4',
        "le_i64_u"@[7] == 'u',
        "ge_i64_s"@.len() == 8,
        "ge_i64_s"@[0] == 'g',
        "ge_i64_s"@[1] == 'e',
        "ge_i64_s"@[2] == '_',
        "ge_i64_s"@[5] == '4',
        "ge_i64_s"@[7] == 's',
        "ge_i64_u"@.len() == 8,
        "ge_i64_u"@[0] == 'g',
        "ge_i64_u"@[1] == 'e',
        "ge_i64_u"@[2] == '_',
        "ge_i64_u"@[5] == '4',
        "ge_i64_u"@[7] == 'u',
        "eq_f32"@.len() == 6,
        "eq_f32"@[0] == 'e',
        "eq_f32"@[1] == 'q',
        "eq_f32"@[2] == '_',
        "eq_f32"@[3] == 'f',
        "eq_f32"@[5] == '2',
        "ne_f32"@.len() == 6,
        "ne_f32"@[0] == 'n',
        "ne_f32"@[1] == 'e',
        "ne_f32"@[2] == '_',
        "ne_f32"@[3] == 'f',
        "ne_f32"@[5] == '2',
        "lt_f32"@.len() == 6,
        "lt_f32"@[0] == 'l',
        "lt_f32"@[1] == 't',
        "lt_f32"@[2] == '_',
        "lt_f32"@[3] == 'f',
        "lt_f32"@[5] == '2',
        "gt_f32"@.len() == 6,
        "gt_f32"@[0] == 'g',
        "gt_f32"@[1] == 't',
        "gt_f32"@[2] == '_',
        "gt_f32"@[3] == 'f',
        "gt_f32"@[5] == '2',
        "le_f32"@.len() == 6,
        "le_f32"@[0] == 'l',
        "le_f32"@[1] == 'e',
        "le_f32"@[2] == '_',
        "le_f32"@[3] == 'f',
        "le_f32"@[5] == '2',
        "ge_f32"@.len() == 6,
        "ge_f32"@[0] == 'g',
        "ge_f32"@[1] == 'e',
        "ge_f32"@[2] == '_',
        "ge_f32"@[3] == 'f',
        "ge_f32"@[5] == '2',
        "eq_f64"@.len() == 6,
        "eq_f64"@[0] == 'e',
        "eq_f64"@[1] == 'q',
        "eq_f64"@[2] == '_',
        "eq_f64"@[3] == 'f',
        "eq_f64"@[5] == '4',
        "ne_f64"@.len() == 6,
        "ne_f64"@[0] == 'n',
        "ne_f64"@[1] == 'e',
        "ne_f64"@[2] == '_',
        "ne_f64"@[3] == 'f',
        "ne_f64"@[5] == '4',
        "lt_f64"@.len() == 6,
        "lt_f64"@[0] == 'l',
        "lt_f64"@[1] == 't',
        "lt_f64"@[2] == '_',
        "lt_f64"@[3] == 'f',
        "lt_f64"@[5] == '4',
        "gt_f64"@.len() == 6,
        "gt_f64"@[0] == 'g',
        "gt_f64"@[1] == 't',
        "gt_f64"@[2] == '_',
        "gt_f64"@[3] == 'f',
        "gt_f64"@[5] == '4',
        "le_f64"@.len() == 6,
        "le_f64"@[0] == 'l',
        "le_f64"@[1] == 'e',
        "le_f64"@[2] == '_',
        "le_f64"@[3] == 'f',
        "le_f64"@[5] == '4',
        "ge_f64"@.len() == 6,
        "ge_f64"@[0] == 'g',
        "ge_f64"@[1] == 'e',
        "ge_f64"@[2] == '_',
        "ge_f64"@[3] == 'f',
        "ge_f64"@[5] == '4',
{
    reveal_strlit("eqz_i32");
    reveal_strlit("nez_i32");
    reveal_strlit("eq_i32");
    reveal_strlit("ne_i32");
    reveal_strlit("lt_i32_s");
    reveal_strlit("lt_i32_u");
    reveal_strlit("gt_i32_s");
    reveal_strlit("gt_i32_u");
    reveal_strlit("le_i32_s");
    reveal_strlit("le_i32_u");
    reveal_strlit("ge_i32_s");
    reveal_strlit("ge_i32_u");
    reveal_strlit("eqz_i64");
    reveal_strlit("nez_i64");
    reveal_strlit("eq_i64");
    reveal_strlit("ne_i64");
    reveal_strlit("lt_i64_s");
    reveal_strlit("lt_i64_u");
    reveal_strlit("gt_i64_s");
    reveal_strlit("gt_i64_u");
    reveal_strlit("le_i64_s");
    reveal_strlit("le_i64_u");
    reveal_strlit("ge_i64_s");
    reveal_strlit("ge_i64_u");
    reveal_strlit("eq_f32");
    reveal_strlit("ne_f32");
    reveal_strlit("lt_f32");
    reveal_strlit("gt_f32");
    reveal_strlit("le_f32");
    reveal_strlit("ge_f32");
    reveal_strlit("eq_f64");
    reveal_strlit("ne_f64");
    reveal_strlit("lt_f64");
    reveal_strlit("gt_f64");
    reveal_strlit("le_f64");
    reveal_strlit("ge_f64");
}

/// The length of each control flow mnemonic, and the characters that tell it from
/// every other mnemonic of the same length.
proof fn lemma_control_flow_mnemonics()
    ensures
        "end"@.len() == 3,
        "end"@[0] == 'e',
        "end"@[1] == 'n',
        "end"@[2] == 'd',
        "block"@.len() == 5,
        "block"@[0] == 'b',
        "block"@[1] == 'l',
        "block"@[2] == 'o',
        "block"@[4] == 'k',
        "break"@.len() == 5,
        "break"@[0] == 'b',
        "break"@[1] == 'r',
        "break"@[2] == 'e',
        "break"@[4] == 'k',
        "recur"@.len() == 5,
        "recur"@[0] == 'r',
        "recur"@[1] == 'e',
        "recur"@[2] == 'c',
        "recur"@[4] == 'r',
        "block_alt"@.len() == 9,
        "block_alt"@[0] == 'b',
        "block_alt"@[1] == 'l',
        "block_alt"@[2] == 'o',
        "block_alt"@[6] == 'a',
        "block_alt"@[8] == 't',
        "break_alt"@.len() == 9,
        "break_alt"@[0] == 'b',
        "break_alt"@[1] == 'r',
        "break_alt"@[2] == 'e',
        "break_alt"@[6] == 'a',
        "break_alt"@[8] == 't',
        "block_nez"@.len() == 9,
        "block_nez"@[0] == 'b',
        "block_nez"@[1] == 'l',
        "block_nez"@[2] == 'o',
        "block_nez"@[6] == 'n',
        "block_nez"@[8] == 'z',
        "call"@.len() == 4,
        "call"@[0] == 'c',
        "call"@[1] == 'a',
        "call"@[2] == 'l',
        "call"@[3] == 'l',
        "call_dynamic"@.len() == 12,
        "call_dynamic"@[0] == 'c',
        "call_dynamic"@[1] == 'a',
        "call_dynamic"@[2] == 'l',
        "call_dynamic"@[4] == '_',
        "call_dynamic"@[5] == 'd',
        "call_dynamic"@[9] == 'm',
        "call_dynamic"@[11] == 'c',
        "envcall"@.len() == 7,
        "envcall"@[0] == 'e',
        "envcall"@[1] == 'n',
        "envcall"@[2] == 'v',
        "envcall"@[4] == 'a',
        "envcall"@[6] == 'l',
        "syscall"@.len() == 7,
        "syscall"@[0] == 's',
        "syscall"@[1] == 'y',
        "syscall"@[2] == 's',
        "syscall"@[4] == 'a',
        "syscall"@[6] == 'l',
        "extcall"@.len() == 7,
        "extcall"@[0] == 'e',
        "extcall"@[1] == 'x',
        "extcall"@[2] == 't',
        "extcall"@[4] == 'a',
        "extcall"@[6] == 'l',
{
    reveal_strlit("end");
    reveal_strlit("block");
    reveal_strlit("break");
    reveal_strlit("recur");
    reveal_strlit("block_alt");
    reveal_strlit("break_alt");
    reveal_strlit("block_nez");
    reveal_strlit("call");
    reveal_strlit("call_dynamic");
    reveal_strlit("envcall");
    reveal_strlit("syscall");
    reveal_strlit("extcall");
}

/// The length of each memory mnemonic, and the characters that tell it from
/// every other mnemonic of the same length.
proof fn lemma_memory_mnemonics()
    ensures
        "memory_allocate"@.len() == 15,
        "memory_allocate"@[0] == 'm',
        "memory_allocate"@[1] == 'e',
        "memory_allocate"@[2] == 'm',
        "memory_allocate"@[7] == 'a',
        "memory_allocate"@[8] == 'l',
        "memory_allocate"@[9] == 'l',
        "memory_allocate"@[12] == 'a',
        "memory_allocate"@[14] == 'e',
        "memory_resize"@.len() == 13,
        "memory_resize"@[0] == 'm',
        "memory_resize"@[1] == 'e',
        "memory_resize"@[2] == 'm',
        "memory_resize"@[5] == 'y',
        "memory_resize"@[6] == '_',
        "memory_resize"@[9] == 's',
        "memory_resize"@[10] == 'i',
        "memory_resize"@[12] == 'e',
        "memory_free"@.len() == 11,
        "memory_free"@[0] == 'm',
        "memory_free"@[1] == 'e',
        "memory_free"@[2] == 'm',
        "memory_free"@[3] == 'o',
        "memory_free"@[4] == 'r',
        "memory_free"@[8] == 'r',
        "memory_free"@[9] == 'e',
        "memory_free"@[10] == 'e',
        "memory_fill"@.len() == 11,
        "memory_fill"@[0] == 'm',
        "memory_fill"@[1] == 'e',
        "memory_fill"@[2] == 'm',
        "memory_fill"@[3] == 'o',
        "memory_fill"@[4] == 'r',
        "memory_fill"@[8] == 'i',
        "memory_fill"@[9] == 'l',
        "memory_fill"@[10] == 'l',
        "memory_copy"@.len() == 11,
        "memory_copy"@[0] == 'm',
        "memory_copy"@[1] == 'e',
        "memory_copy"@[2] == 'm',
        "memory_copy"@[3] == 'o',
        "memory_copy"@[4] == 'r',
        "memory_copy"@[8] == 'o',
        "memory_copy"@[9] == 'p',
        "memory_copy"@[10] == 'y',
        "terminate"@.len() == 9,
        "terminate"@[0] == 't',
        "terminate"@[1] == 'e',
        "terminate"@[2] == 'r',
        "terminate"@[6] == 'a',
        "terminate"@[8] == 'e',
{
    reveal_strlit("memory_allocate");
    reveal_strlit("memory_resize");
    reveal_strlit("memory_free");
    reveal_strlit("memory_fill");
    reveal_strlit("memory_copy");
    reveal_strlit("terminate");
}

/// The length of each machine mnemonic, and the characters that tell it from
/// every other mnemonic of the same length.
proof fn lemma_machine_mnemonics()
    ensures
        "get_function"@.len() == 12,
        "get_function"@[0] == 'g',
        "get_function"@[1] == 'e',
        "get_function"@[2] == 't',
        "get_function"@[4] == 'f',
        "get_function"@[5] == 'u',
        "get_function"@[9] == 'i',
        "get_function"@[11] == 'n',
        "get_data"@.len() == 8,
        "get_data"@[0] == 'g',
        "get_data"@[1] == 'e',
        "get_data"@[2] == 't',
        "get_data"@[5] == 'a',
        "get_data"@[7] == 'a',
        "host_addr_function"@.len() == 18,
        "host_addr_function"@[0] == 'h',
        "host_addr_function"@[1] == 'o',
        "host_addr_function"@[2] == 's',
        "host_addr_function"@[9] == '_',
        "host_addr_function"@[10] == 'f',
        "host_addr_function"@[11] == 'u',
        "host_addr_function"@[15] == 'i',
        "host_addr_function"@[17] == 'n',
        "host_addr_function_dynamic"@.len() == 26,
        "host_addr_function_dynamic"@[0] == 'h',
        "host_addr_function_dynamic"@[1] == 'o',
        "host_addr_function_dynamic"@[2] == 's',
        "host_addr_function_dynamic"@[9] == '_',
        "host_addr_function_dynamic"@[18] == '_',
        "host_addr_function_dynamic"@[19] == 'd',
        "host_addr_function_dynamic"@[23] == 'm',
        "host_addr_function_dynamic"@[25] == 'c',
        "host_addr_data"@.len() == 14,
        "host_addr_data"@[0] == 'h',
        "host_addr_data"@[1] == 'o',
        "host_addr_data"@[2] == 's',
        "host_addr_data"@[6] == 'd',
        "host_addr_data"@[7] == 'd',
        "host_addr_data"@[9] == '_',
        "host_addr_data"@[11] == 'a',
        "host_addr_data"@[13] == 'a',
        "host_addr_data_extend"@.len() == 21,
        "host_addr_data_extend"@[0] == 'h',
        "host_addr_data_extend"@[1] == 'o',
        "host_addr_data_extend"@[2] == 's',
        "host_addr_data_extend"@[9] == '_',
        "host_addr_data_extend"@[13] == 'a',
        "host_addr_data_extend"@[14] == '_',
        "host_addr_data_extend"@[18] == 'e',
        "host_addr_data_extend"@[20] == 'd',
        "host_addr_data_dynamic"@.len() == 22,
        "host_addr_data_dynamic"@[0] == 'h',
        "host_addr_data_dynamic"@[1] == 'o',
        "host_addr_data_dynamic"@[2] == 's',
        "host_addr_data_dynamic"@[9] == '_',
        "host_addr_data_dynamic"@[14] == '_',
        "host_addr_data_dynamic"@[15] == 'd',
        "host_addr_data_dynamic"@[19] == 'm',
        "host_addr_data_dynamic"@[21] == 'c',
{
    reveal_strlit("get_function");
    reveal_strlit("get_data");
    reveal_strlit("host_addr_function");
    reveal_strlit("host_addr_function_dynamic");
    reveal_strlit("host_addr_data");
    reveal_strlit("host_addr_data_extend");
    reveal_strlit("host_addr_data_dynamic");
}

} // verus!
