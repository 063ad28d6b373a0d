use anc_isa::fault::Fault;
use anc_isa::memory::check_allocation;
use anc_isa::operand::{
    load_f32, load_f64, operand_from_bool, operand_from_i32, operand_from_i64, operand_to_i32,
    operand_to_i64, rem_i32_s, rem_i64_s,
};

#[test]
fn f32_bits_accepted() {
    for value in [0.0f32, -0.0, 1.0, -5.0, 0.15625, f32::MIN_POSITIVE, f32::MAX, f32::MIN, 1e-45] {
        assert_eq!(load_f32(value.to_bits()), Ok(value.to_bits()));
    }
    for bits in [0x0000_0000u32, 0x8000_0000, 0x0000_0001, 0x807f_ffff, 0x7f7f_ffff, 0xff7f_ffff] {
        assert_eq!(load_f32(bits), Ok(bits));
    }
}

#[test]
fn f32_bits_rejected() {
    for value in [f32::NAN, f32::INFINITY, f32::NEG_INFINITY, -f32::NAN] {
        assert_eq!(load_f32(value.to_bits()), Err(Fault::FloatingPointInvalid));
    }
    for bits in [0x7f80_0000u32, 0xff80_0000, 0x7fc0_0000, 0xffc0_0000, 0x7f80_0001, 0xffff_ffff] {
        assert_eq!(load_f32(bits), Err(Fault::FloatingPointInvalid));
    }
}

#[test]
fn f32_bits_follow_the_exponent() {
    // every exponent, with a few fractions and both signs
    for exponent in 0..=0xffu32 {
        for fraction in [0u32, 1, 0x40_0000, 0x7f_ffff] {
            for sign in [0u32, 0x8000_0000] {
                let bits = sign | exponent << 23 | fraction;
                let value = f32::from_bits(bits);
                if value.is_nan() || value.is_infinite() {
                    assert_eq!(exponent, 0xff);
                    assert_eq!(load_f32(bits), Err(Fault::FloatingPointInvalid));
                } else {
                    assert_eq!(load_f32(bits), Ok(bits));
                }
            }
        }
    }
}

#[test]
fn f64_bits_accepted_and_rejected() {
    for value in [0.0f64, -0.0, 1.0, -5.0, f64::MIN_POSITIVE, f64::MAX, f64::MIN, 5e-324] {
        assert_eq!(load_f64(value.to_bits()), Ok(value.to_bits()));
    }
    for value in [f64::NAN, f64::INFINITY, f64::NEG_INFINITY, -f64::NAN] {
        assert_eq!(load_f64(value.to_bits()), Err(Fault::FloatingPointInvalid));
    }
    for exponent in 0..=0x7ffu64 {
        for fraction in [0u64, 1, 0x8_0000_0000_0000, 0xf_ffff_ffff_ffff] {
            for sign in [0u64, 0x8000_0000_0000_0000] {
                let bits = sign | exponent << 52 | fraction;
                let value = f64::from_bits(bits);
                if value.is_nan() || value.is_infinite() {
                    assert_eq!(exponent, 0x7ff);
                    assert_eq!(load_f64(bits), Err(Fault::FloatingPointInvalid));
                } else {
                    assert_eq!(load_f64(bits), Ok(bits));
                }
            }
        }
    }
}

#[test]
fn remainder_follows_the_dividend() {
    assert_eq!(rem_i32_s(-5, 3), -2);
    assert_eq!(rem_i32_s(5, -3), 2);
    assert_eq!(rem_i32_s(5, 3), 2);
    assert_eq!(rem_i32_s(-5, -3), -2);
    assert_eq!(rem_i32_s(13, 5), 3);
    assert_eq!(rem_i32_s(0, 7), 0);
    assert_eq!(rem_i32_s(-6, 3), 0);
    assert_eq!(rem_i32_s(i32::MIN, -1), 0);
    assert_eq!(rem_i32_s(i32::MIN, 1), 0);
    assert_eq!(rem_i32_s(i32::MIN, i32::MAX), -1);
    assert_eq!(rem_i32_s(i32::MAX, i32::MIN), i32::MAX);
    assert_eq!(rem_i32_s(i32::MIN, i32::MIN), 0);
    assert_eq!(rem_i64_s(-5, 3), -2);
    assert_eq!(rem_i64_s(5, -3), 2);
    assert_eq!(rem_i64_s(i64::MIN, -1), 0);
    assert_eq!(rem_i64_s(i64::MIN, i64::MAX), -1);
    assert_eq!(rem_i64_s(i64::MAX, i64::MIN), i64::MAX);
    for left in [-17i32, -5, -1, 0, 1, 5, 17, 1000, i32::MAX, i32::MIN + 1] {
        for right in [-7i32, -3, -1, 1, 3, 7, i32::MAX, i32::MIN] {
            assert_eq!(rem_i32_s(left, right), left.wrapping_rem(right));
            assert_eq!(rem_i64_s(left as i64, right as i64), (left as i64).wrapping_rem(right as i64));
        }
    }
}

#[test]
fn integers_in_operands() {
    assert_eq!(operand_from_i32(0), 0);
    assert_eq!(operand_from_i32(1), 1);
    assert_eq!(operand_from_i32(-1), 0xffff_ffff_ffff_ffff);
    assert_eq!(operand_from_i32(i32::MIN), 0xffff_ffff_8000_0000);
    assert_eq!(operand_from_i32(i32::MAX), 0x0000_0000_7fff_ffff);
    assert_eq!(operand_from_i64(-1), 0xffff_ffff_ffff_ffff);
    assert_eq!(operand_from_i64(i64::MIN), 0x8000_0000_0000_0000);
    assert_eq!(operand_from_i64(i64::MAX), 0x7fff_ffff_ffff_ffff);
    assert_eq!(operand_to_i64(0xffff_ffff_ffff_fffe), -2);
    assert_eq!(operand_to_i64(0x8000_0000_0000_0000), i64::MIN);
    assert_eq!(operand_to_i32(0xffff_ffff_ffff_fffe), -2);
    assert_eq!(operand_to_i32(0x1234_5678_8000_0000), i32::MIN);
    assert_eq!(operand_to_i32(0x1234_5678_7fff_ffff), i32::MAX);
    for value in [0i32, 1, -1, 42, -42, i32::MIN, i32::MAX] {
        assert_eq!(operand_to_i32(operand_from_i32(value)), value);
        assert_eq!(operand_to_i64(operand_from_i32(value)), value as i64);
        assert_eq!(operand_from_i32(value), value as i64 as u64);
    }
    for value in [0i64, 1, -1, i64::MIN, i64::MAX] {
        assert_eq!(operand_to_i64(operand_from_i64(value)), value);
    }
}

#[test]
fn comparisons_push_one_or_zero() {
    assert_eq!(operand_from_bool(true), 1);
    assert_eq!(operand_from_bool(false), 0);
}

#[test]
fn allocation_operands() {
    assert_eq!(check_allocation(0, 0), Ok(8));
    assert_eq!(check_allocation(0, 64), Ok(8));
    assert_eq!(check_allocation(8, 8), Ok(8));
    assert_eq!(check_allocation(16, 1024), Ok(16));
    assert_eq!(check_allocation(4096, 8), Ok(4096));
    assert_eq!(check_allocation(4, 8), Err(Fault::MemoryFault));
    assert_eq!(check_allocation(1, 8), Err(Fault::MemoryFault));
    assert_eq!(check_allocation(8, 4), Err(Fault::MemoryFault));
    assert_eq!(check_allocation(0, 1), Err(Fault::MemoryFault));
    assert_eq!(check_allocation(12, 12), Err(Fault::MemoryFault));
}
