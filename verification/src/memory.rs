//! What the memory instructions ask of their operands.

use crate::fault::Fault;
use vstd::prelude::*;

verus! {

/// The alignment that memory is allocated with when none is asked for.
pub const DEFAULT_ALIGNMENT: u16 = 8;

/// The alignment that `memory_allocate` uses for the operands `align` and
/// `size`: `align` itself, or the default where `align` is zero. Fails where
/// `align` or `size` is no multiple of eight.
pub open spec fn allocation_alignment(align: u16, size: u64) -> Result<u16, Fault> {
    if align % 8 != 0 || size % 8 != 0 {
        Err(Fault::MemoryFault)
    } else if align == 0 {
        Ok(DEFAULT_ALIGNMENT)
    } else {
        Ok(align)
    }
}

/// Checks the operands of `memory_allocate` and gives the alignment to
/// allocate with.
pub fn check_allocation(align: u16, size: u64) -> (alignment: Result<u16, Fault>)
    ensures
        alignment == allocation_alignment(align, size),
{
    if align % 8 != 0 || size % 8 != 0 {
        Err(Fault::MemoryFault)
    } else if align == 0 {
        Ok(DEFAULT_ALIGNMENT)
    } else {
        Ok(align)
    }
}

} // verus!
