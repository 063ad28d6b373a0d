//! What the eight bytes of an operand mean to the instructions that read
//! them: integers in two's complement, floating-point numbers that are
//! neither NaN nor infinite, and truth values.

use crate::fault::Fault;
use vstd::arithmetic::div_mod::{lemma_fundamental_div_mod, lemma_mod_bound};
use vstd::prelude::*;

verus! {

/// The exponent field of the bits of an `f32`: the eight bits below the sign.
pub open spec fn f32_exponent(bits: u32) -> u32 {
    bits / 0x80_0000 % 0x100
}

/// The exponent field of the bits of an `f64`: the eleven bits below the sign.
pub open spec fn f64_exponent(bits: u64) -> u64 {
    bits / 0x10_0000_0000_0000 % 0x800
}

/// Whether the bits are those of an `f32` that the machine accepts: a normal
/// number, a subnormal number or a zero of either sign. NaN and the
/// infinities, whose exponent field holds ones only, are not accepted.
pub open spec fn f32_accepted(bits: u32) -> bool {
    f32_exponent(bits) != 0xff
}

/// Whether the bits are those of an `f64` that the machine accepts.
pub open spec fn f64_accepted(bits: u64) -> bool {
    f64_exponent(bits) != 0x7ff
}

/// The operand that holds a 32-bit integer: the integer, sign-extended to 64
/// bits.
pub open spec fn i32_operand(value: i32) -> u64 {
    if value < 0 {
        (value + 0x1_0000_0000_0000_0000) as u64
    } else {
        value as u64
    }
}

/// The operand that holds a 64-bit integer.
pub open spec fn i64_operand(value: i64) -> u64 {
    if value < 0 {
        (value + 0x1_0000_0000_0000_0000) as u64
    } else {
        value as u64
    }
}

/// The 64-bit integer that an operand holds.
pub open spec fn operand_i64(operand: u64) -> i64 {
    if operand >= 0x8000_0000_0000_0000 {
        (operand - 0x1_0000_0000_0000_0000) as i64
    } else {
        operand as i64
    }
}

/// The 32-bit integer that the low half of an operand holds.
pub open spec fn operand_i32(operand: u64) -> i32 {
    let low = operand % 0x1_0000_0000;
    if low >= 0x8000_0000 {
        (low - 0x1_0000_0000) as i32
    } else {
        low as i32
    }
}

/// The operand that a comparison pushes: the 64-bit integer 1 for true, 0
/// for false.
pub open spec fn truth_operand(truth: bool) -> u64 {
    if truth {
        1
    } else {
        0
    }
}

/// The remainder of the division that rounds its quotient toward zero. Its
/// sign is that of the dividend, whatever the sign of the divisor.
pub open spec fn truncated_remainder(dividend: int, divisor: int) -> int {
    let size = if divisor < 0 {
        -divisor
    } else {
        divisor
    };
    if dividend < 0 {
        -((-dividend) % size)
    } else {
        dividend % size
    }
}

/// The quotient rounded toward zero.
pub open spec fn truncated_quotient(dividend: int, divisor: int) -> int {
    let size = if divisor < 0 {
        -divisor
    } else {
        divisor
    };
    let quotient = if dividend < 0 {
        -((-dividend) / size)
    } else {
        dividend / size
    };
    if divisor < 0 {
        -quotient
    } else {
        quotient
    }
}

/// Checks the bits of an `f32` that an instruction loads, and hands them on
/// unchanged.
pub fn load_f32(bits: u32) -> (loaded: Result<u32, Fault>)
    ensures
        loaded == if f32_accepted(bits) {
            Ok::<u32, Fault>(bits)
        } else {
            Err::<u32, Fault>(Fault::FloatingPointInvalid)
        },
{
    if bits / 0x80_0000 % 0x100 == 0xff {
        Err(Fault::FloatingPointInvalid)
    } else {
        Ok(bits)
    }
}

/// Checks the bits of an `f64` that an instruction loads, and hands them on
/// unchanged.
pub fn load_f64(bits: u64) -> (loaded: Result<u64, Fault>)
    ensures
        loaded == if f64_accepted(bits) {
            Ok::<u64, Fault>(bits)
        } else {
            Err::<u64, Fault>(Fault::FloatingPointInvalid)
        },
{
    if bits / 0x10_0000_0000_0000 % 0x800 == 0x7ff {
        Err(Fault::FloatingPointInvalid)
    } else {
        Ok(bits)
    }
}

/// The operand that holds `value`.
pub fn operand_from_i32(value: i32) -> (operand: u64)
    ensures
        operand == i32_operand(value),
{
    if value < 0 {
        (value as i128 + 0x1_0000_0000_0000_0000) as u64
    } else {
        value as u64
    }
}

/// The operand that holds `value`.
pub fn operand_from_i64(value: i64) -> (operand: u64)
    ensures
        operand == i64_operand(value),
{
    if value < 0 {
        (value as i128 + 0x1_0000_0000_0000_0000) as u64
    } else {
        value as u64
    }
}

/// The 64-bit integer that `operand` holds.
pub fn operand_to_i64(operand: u64) -> (value: i64)
    ensures
        value == operand_i64(operand),
{
    if operand >= 0x8000_0000_0000_0000 {
        (operand as i128 - 0x1_0000_0000_0000_0000) as i64
    } else {
        operand as i64
    }
}

/// The 32-bit integer that the low half of `operand` holds.
pub fn operand_to_i32(operand: u64) -> (value: i32)
    ensures
        value == operand_i32(operand),
{
    let low = operand % 0x1_0000_0000;
    if low >= 0x8000_0000 {
        (low as i64 - 0x1_0000_0000) as i32
    } else {
        low as i32
    }
}

/// The operand that a comparison pushes for `truth`.
pub fn operand_from_bool(truth: bool) -> (operand: u64)
    ensures
        operand == truth_operand(truth),
{
    if truth {
        1
    } else {
        0
    }
}

/// The remainder of `left` divided by `right`, with the sign of `left`.
pub fn rem_i32_s(left: i32, right: i32) -> (remainder: i32)
    requires
        right != 0,
    ensures
        remainder == truncated_remainder(left as int, right as int),
{
    let size: u32 = if right < 0 {
        (-(right as i64)) as u32
    } else {
        right as u32
    };
    if left < 0 {
        let dividend: u32 = (-(left as i64)) as u32;
        -((dividend % size) as i64) as i32
    } else {
        (left as u32 % size) as i32
    }
}

/// The remainder of `left` divided by `right`, with the sign of `left`.
pub fn rem_i64_s(left: i64, right: i64) -> (remainder: i64)
    requires
        right != 0,
    ensures
        remainder == truncated_remainder(left as int, right as int),
{
    let size: u64 = if right < 0 {
        (-(right as i128)) as u64
    } else {
        right as u64
    };
    if left < 0 {
        let dividend: u64 = (-(left as i128)) as u64;
        -((dividend % size) as i128) as i64
    } else {
        (left as u64 % size) as i64
    }
}

/// The truncated remainder is what the truncated quotient leaves over. It is
/// smaller in size than the divisor, and it is zero or has the sign of the
/// dividend.
pub proof fn lemma_truncated_remainder(dividend: int, divisor: int)
    requires
        divisor != 0,
    ensures
        ({
            let remainder = truncated_remainder(dividend, divisor);
            let quotient = truncated_quotient(dividend, divisor);
            &&& dividend == divisor * quotient + remainder
            &&& -divisor < remainder < divisor || divisor < remainder < -divisor
            &&& dividend >= 0 ==> remainder >= 0
            &&& dividend <= 0 ==> remainder <= 0
        }),
{
    let size = if divisor < 0 {
        -divisor
    } else {
        divisor
    };
    let amount = if dividend < 0 {
        -dividend
    } else {
        dividend
    };
    lemma_fundamental_div_mod(amount, size);
    lemma_mod_bound(amount, size);
    let q = amount / size;
    assert(divisor * truncated_quotient(dividend, divisor) == (if dividend < 0 {
        -(size * q)
    } else {
        size * q
    })) by (nonlinear_arith)
        requires
            size == if divisor < 0 {
                -divisor
            } else {
                divisor
            },
            truncated_quotient(dividend, divisor) == (if divisor < 0 {
                -(if dividend < 0 {
                    -q
                } else {
                    q
                })
            } else {
                (if dividend < 0 {
                    -q
                } else {
                    q
                })
            }),
    ;
}

/// An integer is read back from the operand that holds it.
pub proof fn lemma_operand_read_back(narrow: i32, wide: i64)
    ensures
        operand_i32(i32_operand(narrow)) == narrow,
        operand_i64(i32_operand(narrow)) == narrow,
        operand_i64(i64_operand(wide)) == wide,
{
}

/// The bit patterns of the zeros, of the smallest subnormal number and of
/// the largest finite number are accepted; those of the infinities and of
/// the quiet NaN are not.
pub proof fn lemma_accepted_bits()
    ensures
        f32_accepted(0x0000_0000),
        f32_accepted(0x8000_0000),
        f32_accepted(0x0000_0001),
        f32_accepted(0x7f7f_ffff),
        !f32_accepted(0x7f80_0000),
        !f32_accepted(0xff80_0000),
        !f32_accepted(0x7fc0_0000),
        f64_accepted(0x0000_0000_0000_0000),
        f64_accepted(0x8000_0000_0000_0000),
        f64_accepted(0x0000_0000_0000_0001),
        f64_accepted(0x7fef_ffff_ffff_ffff),
        !f64_accepted(0x7ff0_0000_0000_0000),
        !f64_accepted(0xfff0_0000_0000_0000),
        !f64_accepted(0x7ff8_0000_0000_0000),
{
}

} // verus!
