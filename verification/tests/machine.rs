use anc_isa::fault::Fault;
use anc_isa::machine::Machine;
use anc_isa::operand::{operand_from_i32, operand_to_i32};

fn operands_of(machine: &mut Machine) -> Vec<u64> {
    let mut operands = Vec::new();
    while let Ok(operand) = machine.pop_operand() {
        operands.push(operand);
    }
    operands.reverse();
    operands
}

#[test]
fn operands_are_pushed_and_popped() {
    let mut machine = Machine::new();
    assert_eq!(machine.depth(), 0);
    assert_eq!(machine.address(), 0);
    assert_eq!(machine.operand_count(), 0);
    assert_eq!(machine.pop_operand(), Err(Fault::TypeViolation));
    machine.push_operand(11);
    machine.push_operand(13);
    assert_eq!(machine.operand_count(), 2);
    assert_eq!(machine.pop_operand(), Ok(13));
    assert_eq!(machine.pop_operand(), Ok(11));
    assert_eq!(machine.pop_operand(), Err(Fault::TypeViolation));
}

#[test]
fn frame_takes_its_arguments() {
    let mut machine = Machine::new();
    machine.push_operand(5);
    machine.push_operand(7);
    machine.push_operand(9);
    assert_eq!(machine.enter_function(2, 1, 3), Ok(()));
    assert_eq!(machine.depth(), 1);
    // the frame starts without operands; what is below it cannot be reached
    assert_eq!(machine.operand_count(), 0);
    assert_eq!(machine.pop_operand(), Err(Fault::TypeViolation));
    // arguments first, in the order in which they were pushed, then zeros
    for (index, expected) in [7u64, 9, 0, 0, 0].into_iter().enumerate() {
        assert_eq!(machine.local_load(0, index as i32), Ok(()));
        assert_eq!(machine.pop_operand(), Ok(expected));
    }
    assert_eq!(machine.local_load(0, 5), Err(Fault::LocalIndexOutOfRange));
    assert_eq!(machine.local_load(0, -1), Err(Fault::LocalIndexOutOfRange));
    assert_eq!(machine.local_load(1, 0), Err(Fault::FrameDepthExceeded));
    assert_eq!(machine.local_load(-1, 0), Err(Fault::FrameDepthExceeded));
    assert_eq!(machine.operand_count(), 0);
    // leaving gives the one result to the operands outside, behind the 5
    machine.push_operand(42);
    assert_eq!(machine.end(), Ok(()));
    assert_eq!(machine.depth(), 0);
    assert_eq!(operands_of(&mut machine), vec![5, 42]);
}

#[test]
fn frame_needs_its_arguments() {
    let mut machine = Machine::new();
    machine.push_operand(1);
    assert_eq!(machine.enter_function(2, 0, 0), Err(Fault::TypeViolation));
    assert_eq!(machine.depth(), 0);
    assert_eq!(machine.operand_count(), 1);
    assert_eq!(machine.enter_function(1, 0, 0), Ok(()));
    machine.push_operand(2);
    assert_eq!(machine.enter_block(2, 0, 0), Err(Fault::TypeViolation));
    assert_eq!(machine.block(2, 0, 0), Err(Fault::TypeViolation));
    assert_eq!(machine.depth(), 1);
    assert_eq!(machine.address(), 0);
    assert_eq!(machine.enter_block(1, 0, 0), Ok(()));
    assert_eq!(machine.depth(), 2);
}

#[test]
fn locals_through_layers() {
    let mut machine = Machine::new();
    machine.push_operand(100);
    assert_eq!(machine.enter_function(1, 0, 1), Ok(()));
    machine.push_operand(200);
    assert_eq!(machine.enter_block(1, 0, 0), Ok(()));
    assert_eq!(machine.enter_block(0, 0, 2), Ok(()));
    assert_eq!(machine.depth(), 3);
    // layers 0 is the innermost frame, layers 2 the function frame
    assert_eq!(machine.local_load(2, 0), Ok(()));
    assert_eq!(machine.local_load(1, 0), Ok(()));
    assert_eq!(machine.local_load(0, 1), Ok(()));
    assert_eq!(operands_of(&mut machine), vec![100, 200, 0]);
    assert_eq!(machine.local_load(3, 0), Err(Fault::FrameDepthExceeded));
    assert_eq!(machine.local_load(1, 1), Err(Fault::LocalIndexOutOfRange));
    assert_eq!(machine.local_load(0, 2), Err(Fault::LocalIndexOutOfRange));
    // a store pops one operand into the slot
    machine.push_operand(7);
    machine.push_operand(8);
    assert_eq!(machine.local_store(2, 1), Ok(()));
    assert_eq!(machine.operand_count(), 1);
    assert_eq!(machine.local_store(0, 0), Ok(()));
    assert_eq!(machine.operand_count(), 0);
    assert_eq!(machine.local_store(0, 0), Err(Fault::TypeViolation));
    machine.push_operand(9);
    assert_eq!(machine.local_store(0, 2), Err(Fault::LocalIndexOutOfRange));
    assert_eq!(machine.local_store(3, 0), Err(Fault::FrameDepthExceeded));
    assert_eq!(machine.operand_count(), 1);
    assert_eq!(machine.pop_operand(), Ok(9));
    assert_eq!(machine.local_load(2, 1), Ok(()));
    assert_eq!(machine.local_load(0, 0), Ok(()));
    assert_eq!(machine.local_load(2, 0), Ok(()));
    assert_eq!(operands_of(&mut machine), vec![8, 7, 100]);
}

#[test]
fn floating_point_locals_are_checked() {
    let mut machine = Machine::new();
    machine.push_operand(1.5f64.to_bits());
    machine.push_operand(f64::NAN.to_bits());
    machine.push_operand(f64::INFINITY.to_bits());
    machine.push_operand(0xdead_beef_0000_0000 | (-2.5f32).to_bits() as u64);
    machine.push_operand(0xdead_beef_0000_0000 | f32::NEG_INFINITY.to_bits() as u64);
    machine.push_operand((-0.0f64).to_bits());
    assert_eq!(machine.enter_function(6, 0, 0), Ok(()));
    assert_eq!(machine.local_load_f64(0, 0), Ok(()));
    assert_eq!(machine.pop_operand(), Ok(1.5f64.to_bits()));
    assert_eq!(machine.local_load_f64(0, 1), Err(Fault::FloatingPointInvalid));
    assert_eq!(machine.local_load_f64(0, 2), Err(Fault::FloatingPointInvalid));
    assert_eq!(machine.local_load_f64(0, 5), Ok(()));
    assert_eq!(machine.pop_operand(), Ok(0x8000_0000_0000_0000));
    assert_eq!(machine.local_load_f32(0, 3), Ok(()));
    assert_eq!(machine.pop_operand(), Ok((-2.5f32).to_bits() as u64));
    assert_eq!(machine.local_load_f32(0, 4), Err(Fault::FloatingPointInvalid));
    // the low half of an f64 NaN is zero, which is an f32
    assert_eq!(machine.local_load_f32(0, 1), Ok(()));
    assert_eq!(machine.pop_operand(), Ok(0));
    assert_eq!(machine.operand_count(), 0);
    assert_eq!(machine.local_load_f32(0, 6), Err(Fault::LocalIndexOutOfRange));
    assert_eq!(machine.local_load_f64(1, 0), Err(Fault::FrameDepthExceeded));
    // the whole cell is loaded unchecked
    assert_eq!(machine.local_load(0, 1), Ok(()));
    assert_eq!(machine.pop_operand(), Ok(f64::NAN.to_bits()));
}

#[test]
fn break_moves_the_results_only() {
    // a block of type () -> (i32, i32) pushes 11, 13 and 17 and breaks
    let mut machine = Machine::new();
    assert_eq!(machine.enter_function(0, 0, 0), Ok(()));
    machine.push_operand(99);
    machine.jump(0);
    assert_eq!(machine.block(0, 2, 0), Ok(()));
    assert_eq!(machine.address(), 12);
    machine.push_operand(11);
    machine.push_operand(13);
    machine.push_operand(17);
    machine.jump(32);
    assert_eq!(machine.break_(0, 18), Ok(()));
    assert_eq!(machine.address(), 50);
    assert_eq!(machine.depth(), 1);
    assert_eq!(machine.operand_count(), 3);
    assert_eq!(machine.pop_operand(), Ok(17));
    assert_eq!(machine.pop_operand(), Ok(13));
    // the 11 is gone; what the function had before is next
    assert_eq!(machine.pop_operand(), Ok(99));
    assert_eq!(machine.pop_operand(), Err(Fault::TypeViolation));
}

#[test]
fn break_through_layers() {
    // three blocks with 3, 2 and 1 results; break 1 leaves the middle one
    let mut machine = Machine::new();
    assert_eq!(machine.enter_function(0, 0, 0), Ok(()));
    assert_eq!(machine.block(0, 3, 0), Ok(()));
    machine.push_operand(1);
    assert_eq!(machine.block(0, 2, 0), Ok(()));
    machine.push_operand(2);
    assert_eq!(machine.block(0, 1, 0), Ok(()));
    machine.push_operand(11);
    machine.push_operand(13);
    machine.push_operand(17);
    assert_eq!(machine.depth(), 4);
    machine.jump(48);
    assert_eq!(machine.break_(1, 16), Ok(()));
    assert_eq!(machine.address(), 64);
    assert_eq!(machine.depth(), 2);
    assert_eq!(operands_of(&mut machine), vec![1, 13, 17]);
}

#[test]
fn break_out_of_the_last_frame() {
    let mut machine = Machine::new();
    machine.push_operand(5);
    machine.push_operand(6);
    assert_eq!(machine.enter_function(1, 2, 0), Ok(()));
    machine.push_operand(7);
    machine.push_operand(8);
    machine.push_operand(9);
    assert_eq!(machine.break_(0, 0), Ok(()));
    assert_eq!(machine.depth(), 0);
    assert_eq!(operands_of(&mut machine), vec![5, 8, 9]);
}

#[test]
fn break_violations() {
    let mut machine = Machine::new();
    assert_eq!(machine.break_(0, 2), Err(Fault::ControlFlowViolation));
    assert_eq!(machine.end(), Err(Fault::ControlFlowViolation));
    assert_eq!(machine.break_alt(2), Err(Fault::ControlFlowViolation));
    assert_eq!(machine.enter_function(0, 1, 0), Ok(()));
    assert_eq!(machine.break_(1, 2), Err(Fault::ControlFlowViolation));
    assert_eq!(machine.break_(-1, 2), Err(Fault::ControlFlowViolation));
    assert_eq!(machine.break_(0, -2), Err(Fault::ControlFlowViolation));
    // one result is owed, none is there
    assert_eq!(machine.break_(0, 2), Err(Fault::TypeViolation));
    assert_eq!(machine.end(), Err(Fault::TypeViolation));
    machine.push_operand(1);
    machine.jump(usize::MAX - 1);
    assert_eq!(machine.break_(0, 2), Err(Fault::ControlFlowViolation));
    assert_eq!(machine.depth(), 1);
    assert_eq!(machine.operand_count(), 1);
    assert_eq!(machine.address(), usize::MAX - 1);
    assert_eq!(machine.break_(0, 1), Ok(()));
    assert_eq!(machine.address(), usize::MAX);
    assert_eq!(machine.depth(), 0);
}

#[test]
fn end_goes_on_behind_itself() {
    let mut machine = Machine::new();
    assert_eq!(machine.enter_function(0, 0, 0), Ok(()));
    assert_eq!(machine.block(0, 1, 0), Ok(()));
    machine.push_operand(3);
    machine.push_operand(4);
    machine.jump(100);
    assert_eq!(machine.end(), Ok(()));
    assert_eq!(machine.address(), 102);
    assert_eq!(machine.depth(), 1);
    assert_eq!(operands_of(&mut machine), vec![4]);
}

#[test]
fn break_alt_leaves_the_innermost_frame() {
    let mut machine = Machine::new();
    assert_eq!(machine.enter_function(0, 0, 0), Ok(()));
    machine.push_operand(1);
    machine.jump(1000);
    assert_eq!(machine.block_alt(0, 1, 0, 158), Ok(()));
    machine.push_operand(55);
    machine.jump(1150);
    assert_eq!(machine.break_alt(202), Ok(()));
    assert_eq!(machine.address(), 1352);
    assert_eq!(machine.depth(), 1);
    assert_eq!(operands_of(&mut machine), vec![55]);
}

#[test]
fn recur_starts_the_block_over() {
    // a block of type (i32, i32) -> () with one more local
    let mut machine = Machine::new();
    assert_eq!(machine.enter_function(0, 0, 0), Ok(()));
    machine.push_operand(1);
    machine.push_operand(2);
    assert_eq!(machine.block(2, 0, 1), Ok(()));
    assert_eq!(machine.address(), 12);
    machine.push_operand(77);
    assert_eq!(machine.local_store(0, 2), Ok(()));
    machine.push_operand(11);
    machine.push_operand(13);
    machine.push_operand(17);
    machine.jump(40);
    assert_eq!(machine.recur(0, 32), Ok(()));
    assert_eq!(machine.address(), 8);
    assert_eq!(machine.depth(), 2);
    assert_eq!(machine.operand_count(), 0);
    assert_eq!(machine.local_load(0, 0), Ok(()));
    assert_eq!(machine.local_load(0, 1), Ok(()));
    assert_eq!(machine.local_load(0, 2), Ok(()));
    assert_eq!(operands_of(&mut machine), vec![13, 17, 0]);
    assert_eq!(machine.local_load(0, 3), Err(Fault::LocalIndexOutOfRange));
}

#[test]
fn recur_through_layers() {
    let mut machine = Machine::new();
    assert_eq!(machine.enter_function(0, 0, 0), Ok(()));
    machine.push_operand(1);
    machine.push_operand(2);
    assert_eq!(machine.block(2, 0, 0), Ok(()));
    machine.push_operand(3);
    assert_eq!(machine.block(1, 0, 0), Ok(()));
    machine.push_operand(11);
    machine.push_operand(13);
    machine.push_operand(17);
    assert_eq!(machine.depth(), 3);
    machine.jump(42);
    assert_eq!(machine.recur(1, 34), Ok(()));
    assert_eq!(machine.address(), 8);
    assert_eq!(machine.depth(), 2);
    assert_eq!(machine.operand_count(), 0);
    assert_eq!(machine.local_load(0, 0), Ok(()));
    assert_eq!(machine.local_load(0, 1), Ok(()));
    assert_eq!(operands_of(&mut machine), vec![13, 17]);
}

#[test]
fn recur_violations() {
    let mut machine = Machine::new();
    assert_eq!(machine.recur(0, 0), Err(Fault::ControlFlowViolation));
    machine.push_operand(1);
    assert_eq!(machine.enter_function(1, 0, 0), Ok(()));
    machine.jump(10);
    assert_eq!(machine.recur(1, 0), Err(Fault::ControlFlowViolation));
    assert_eq!(machine.recur(-1, 0), Err(Fault::ControlFlowViolation));
    assert_eq!(machine.recur(0, -1), Err(Fault::ControlFlowViolation));
    assert_eq!(machine.recur(0, 11), Err(Fault::ControlFlowViolation));
    assert_eq!(machine.recur(0, 10), Err(Fault::TypeViolation));
    assert_eq!(machine.address(), 10);
    assert_eq!(machine.depth(), 1);
    machine.push_operand(2);
    assert_eq!(machine.recur(0, 10), Ok(()));
    assert_eq!(machine.address(), 0);
}

#[test]
fn tail_calls_do_not_grow_the_machine() {
    // accumulate(sum, number): sum + number + (number - 1) + ... + 1
    let start = 500_000i32;
    let mut machine = Machine::new();
    machine.push_operand(operand_from_i32(0));
    machine.push_operand(operand_from_i32(start));
    assert_eq!(machine.enter_function(2, 1, 0), Ok(()));
    let mut calls = 0;
    loop {
        machine.jump(64);
        assert_eq!(machine.depth(), 1);
        assert_eq!(machine.operand_count(), 0);
        assert_eq!(machine.local_load(0, 0), Ok(()));
        let sum = operand_to_i32(machine.pop_operand().unwrap());
        assert_eq!(machine.local_load(0, 1), Ok(()));
        let number = operand_to_i32(machine.pop_operand().unwrap());
        let new_sum = sum.wrapping_add(number);
        if number == 0 {
            machine.push_operand(operand_from_i32(new_sum));
            assert_eq!(machine.end(), Ok(()));
            break;
        }
        // some operands that the tail call leaves behind
        machine.push_operand(1);
        machine.push_operand(2);
        machine.push_operand(operand_from_i32(new_sum));
        machine.push_operand(operand_from_i32(number - 1));
        assert_eq!(machine.recur(0, 64), Ok(()));
        assert_eq!(machine.address(), 0);
        calls += 1;
    }
    assert_eq!(calls, start);
    assert_eq!(machine.depth(), 0);
    assert_eq!(machine.operand_count(), 1);
    let expected = (start as i64 * (start as i64 + 1) / 2) as i32;
    assert_eq!(operand_to_i32(machine.pop_operand().unwrap()), expected);
}

#[test]
fn tail_call_from_inside_a_block() {
    let mut machine = Machine::new();
    machine.push_operand(10);
    assert_eq!(machine.enter_function(1, 0, 2), Ok(()));
    for round in 0..1000u64 {
        machine.push_operand(1);
        assert_eq!(machine.block_nez(0, 100), Ok(()));
        assert_eq!(machine.depth(), 2);
        machine.push_operand(round);
        machine.jump(200);
        // layers 1 is the function frame itself
        assert_eq!(machine.recur(1, 200), Ok(()));
        assert_eq!(machine.depth(), 1);
        assert_eq!(machine.operand_count(), 0);
        assert_eq!(machine.address(), 0);
        assert_eq!(machine.local_load(0, 0), Ok(()));
        assert_eq!(machine.pop_operand(), Ok(round));
    }
}

#[test]
fn block_alt_with_zero_skips_its_block() {
    let mut machine = Machine::new();
    assert_eq!(machine.enter_function(0, 0, 0), Ok(()));
    machine.push_operand(7);
    machine.push_operand(0);
    machine.jump(1000);
    assert_eq!(machine.block_alt(0, 0, 0, 158), Ok(()));
    assert_eq!(machine.address(), 1158);
    assert_eq!(machine.depth(), 1);
    assert_eq!(operands_of(&mut machine), vec![7]);
}

#[test]
fn block_alt_with_nonzero_enters_its_block() {
    for condition in [1u64, 2, 0x8000_0000_0000_0000, u64::MAX, 0x1_0000_0000] {
        let mut machine = Machine::new();
        assert_eq!(machine.enter_function(0, 0, 0), Ok(()));
        machine.push_operand(7);
        machine.push_operand(8);
        machine.push_operand(condition);
        machine.jump(1000);
        assert_eq!(machine.block_alt(1, 0, 2, 158), Ok(()));
        assert_eq!(machine.address(), 1016);
        assert_eq!(machine.depth(), 2);
        assert_eq!(machine.operand_count(), 0);
        assert_eq!(machine.local_load(0, 0), Ok(()));
        assert_eq!(machine.local_load(0, 1), Ok(()));
        assert_eq!(machine.local_load(0, 2), Ok(()));
        assert_eq!(operands_of(&mut machine), vec![8, 0, 0]);
        assert_eq!(machine.local_load(0, 3), Err(Fault::LocalIndexOutOfRange));
        assert_eq!(machine.end(), Ok(()));
        assert_eq!(operands_of(&mut machine), vec![7]);
    }
}

#[test]
fn block_nez() {
    let mut machine = Machine::new();
    assert_eq!(machine.enter_function(0, 0, 0), Ok(()));
    machine.push_operand(0);
    machine.jump(1000);
    assert_eq!(machine.block_nez(3, 102), Ok(()));
    assert_eq!(machine.address(), 1102);
    assert_eq!(machine.depth(), 1);
    assert_eq!(machine.operand_count(), 0);
    machine.push_operand(5);
    machine.push_operand(1);
    machine.jump(1000);
    assert_eq!(machine.block_nez(3, 102), Ok(()));
    assert_eq!(machine.address(), 1012);
    assert_eq!(machine.depth(), 2);
    assert_eq!(machine.operand_count(), 0);
    assert_eq!(machine.local_load(0, 2), Ok(()));
    assert_eq!(machine.pop_operand(), Ok(0));
    assert_eq!(machine.local_load(0, 3), Err(Fault::LocalIndexOutOfRange));
    // the block has no results
    machine.push_operand(6);
    assert_eq!(machine.end(), Ok(()));
    assert_eq!(machine.address(), 1014);
    assert_eq!(operands_of(&mut machine), vec![5]);
}

#[test]
fn branch_violations() {
    let mut machine = Machine::new();
    assert_eq!(machine.enter_function(0, 0, 0), Ok(()));
    // no condition
    assert_eq!(machine.block_alt(0, 0, 0, 16), Err(Fault::TypeViolation));
    assert_eq!(machine.block_nez(0, 12), Err(Fault::TypeViolation));
    // zero, and nowhere to go
    machine.push_operand(0);
    assert_eq!(machine.block_alt(0, 0, 0, -16), Err(Fault::ControlFlowViolation));
    assert_eq!(machine.block_nez(0, -1), Err(Fault::ControlFlowViolation));
    machine.jump(usize::MAX);
    assert_eq!(machine.block_nez(0, 1), Err(Fault::ControlFlowViolation));
    assert_eq!(machine.operand_count(), 1);
    assert_eq!(machine.pop_operand(), Ok(0));
    // not zero, and no room for the next instruction
    machine.push_operand(1);
    assert_eq!(machine.block_nez(0, 1), Err(Fault::ControlFlowViolation));
    assert_eq!(machine.block(0, 0, 0), Err(Fault::ControlFlowViolation));
    machine.jump(usize::MAX - 12);
    assert_eq!(machine.block_alt(0, 0, 0, 1), Err(Fault::ControlFlowViolation));
    // not zero, and an argument is missing: the condition stays
    machine.jump(0);
    assert_eq!(machine.block_alt(1, 0, 0, 16), Err(Fault::TypeViolation));
    assert_eq!(machine.operand_count(), 1);
    assert_eq!(machine.depth(), 1);
    assert_eq!(machine.address(), 0);
    // a negative offset is not looked at where the block is entered
    assert_eq!(machine.block_alt(0, 0, 0, -16), Ok(()));
    assert_eq!(machine.depth(), 2);
    assert_eq!(machine.address(), 16);
}
