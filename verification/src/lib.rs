//! Phoenix OS core library: the verified logic of the kernel and its shared types.
use vstd::prelude::*;

pub mod addr;
pub mod error;
pub mod security;
pub mod safe_alloc;
pub mod synapse;
pub mod memory;
pub mod arch;
pub mod events;
pub mod ego;
pub mod audit;
pub mod sentinel;
pub mod services;
pub mod sched;
pub mod kairos;
pub mod mnemosyne;
pub mod drivers;
pub mod fs;
pub mod mem;
pub mod hermes;
pub mod pulse;
pub mod calliope;
pub mod aegis;
pub mod qemu_exit;
pub mod pkg;
pub mod ghost;
pub mod net;

verus! {

/// Adds two numbers.
pub fn add(left: usize, right: usize) -> (sum: usize)
    requires
        left + right <= usize::MAX,
    ensures
        sum == left + right,
{
    left + right
}

} // verus!
