//! Capability-based security types for Phoenix OS.
use vstd::prelude::*;

verus! {

/// Number of capability slots in a token.
pub const CAPABILITY_SLOTS: usize = 32;

/// Represents a specific permission or capability.
#[derive(Debug, Clone, Copy, PartialEq, Eq, Structural)]
pub enum Capability {
    /// Permission to write to the serial port.
    SerialWrite,
    /// Permission to read from the serial port.
    SerialRead,
    /// Permission to allocate physical memory.
    MemAlloc,
    /// Permission to map virtual memory.
    MemMap,
    /// Permission to manage processes.
    ProcessManage,
    /// Permission to register system services.
    ServiceRegister,
    /// Permission to read hardware identity.
    HardwareInfo,
    /// Permission to write to the audit log.
    AuditWrite,
}

/// The slot of a capability in a token's table: its position in the declaration.
pub open spec fn cap_slot(cap: Capability) -> int {
    match cap {
        Capability::SerialWrite => 0,
        Capability::SerialRead => 1,
        Capability::MemAlloc => 2,
        Capability::MemMap => 3,
        Capability::ProcessManage => 4,
        Capability::ServiceRegister => 5,
        Capability::HardwareInfo => 6,
        Capability::AuditWrite => 7,
    }
}

impl Capability {
    /// The slot of this capability in a token's table.
    pub fn slot(self) -> (r: usize)
        ensures
            r == cap_slot(self),
            r < 8,
    {
        match self {
            Capability::SerialWrite => 0,
            Capability::SerialRead => 1,
            Capability::MemAlloc => 2,
            Capability::MemMap => 3,
            Capability::ProcessManage => 4,
            Capability::ServiceRegister => 5,
            Capability::HardwareInfo => 6,
            Capability::AuditWrite => 7,
        }
    }
}

/// A token that grants a set of capabilities.
#[derive(Debug, Clone)]
pub struct Token {
    /// The unique ID of the token.
    pub id: u64,
    /// The table of capabilities granted by this token, one slot per capability.
    pub capabilities: [bool; 32],
}

impl Token {
    /// Whether this token grants `cap`.
    pub open spec fn grants(&self, cap: Capability) -> bool {
        self.capabilities@[cap_slot(cap)]
    }

    /// Create a new token with no capabilities.
    pub fn empty(id: u64) -> (t: Self)
        ensures
            t.id == id,
            forall|i: int| 0 <= i < 32 ==> !#[trigger] t.capabilities@[i],
    {
        Self { id, capabilities: [false; 32] }
    }

    /// Grant a capability to the token.
    pub fn grant(&mut self, cap: Capability)
        ensures
            final(self).id == old(self).id,
            final(self).capabilities@ == old(self).capabilities@.update(cap_slot(cap), true),
    {
        let i = cap.slot();
        self.capabilities[i] = true;
    }

    /// Check if the token has a specific capability.
    pub fn has(&self, cap: Capability) -> (r: bool)
        ensures
            r == self.grants(cap),
    {
        self.capabilities[cap.slot()]
    }
}

/// After `grant(cap)` the token has `cap`, and every other capability is as before.
pub proof fn lemma_grant_then_has(before: Token, after: Token, cap: Capability, other: Capability)
    requires
        after.id == before.id,
        after.capabilities@ == before.capabilities@.update(cap_slot(cap), true),
    ensures
        after.grants(cap),
        other != cap ==> after.grants(other) == before.grants(other),
{
}

/// An empty token grants nothing.
pub proof fn lemma_empty_grants_nothing(t: Token, cap: Capability)
    requires
        forall|i: int| 0 <= i < 32 ==> !#[trigger] t.capabilities@[i],
    ensures
        !t.grants(cap),
{
}

} // verus!
