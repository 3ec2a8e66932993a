//! A minimal hardware platform layer for a RISC-V board, offering two
//! services to a hosting kernel: a byte-oriented serial console and a time
//! service (monotonic ticks, tick/nanosecond conversion, wall-clock epoch
//! offset recovered from a real-time clock, and one-shot timer arming).
//!
//! The hardware-touching edges (memory-mapped register access, SBI calls)
//! are kept behind narrow, documented boundaries; everything that decides or
//! computes is specified and verified here.

use vstd::prelude::*;

pub mod console;
pub mod time;

verus! {

/// Translates a physical device address to the virtual address the kernel
/// has it mapped at, by the board's fixed linear offset.
pub fn phys_to_virt(paddr: usize, phys_virt_offset: usize) -> (vaddr: usize)
    requires
        paddr + phys_virt_offset <= usize::MAX,
    ensures
        vaddr == paddr + phys_virt_offset,
{
    paddr + phys_virt_offset
}

} // verus!
