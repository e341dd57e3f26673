//! Interrupt vectors and the reflective audit of CPU exceptions.
use vstd::prelude::*;
use vstd::string::StringSliceAdditionalSpecFns;
use vstd::utf8::valid_utf8;
use crate::arch::x86_64::time::Clock;
use crate::audit::{log, AuditLog};
use crate::safe_alloc::{clip_str, concat2, concat3, string_bytes};
use crate::security::Token;
use crate::sentinel::audited;

verus! {

/// Interrupt indices for the PIC.
#[derive(Debug, Clone, Copy, PartialEq, Eq, Structural)]
pub enum InterruptIndex {
    /// PIT Timer interrupt (vector 32).
    Timer,
    /// Keyboard interrupt (vector 33).
    Keyboard,
    /// Mouse interrupt (vector 44).
    Mouse,
}

/// The interrupt vector of an index.
pub open spec fn vector_of(i: InterruptIndex) -> u8 {
    match i {
        InterruptIndex::Timer => 32,
        InterruptIndex::Keyboard => 33,
        InterruptIndex::Mouse => 44,
    }
}

impl InterruptIndex {
    /// The interrupt vector.
    pub fn vector(self) -> (v: u8)
        ensures
            v == vector_of(self),
    {
        match self {
            InterruptIndex::Timer => 32,
            InterruptIndex::Keyboard => 33,
            InterruptIndex::Mouse => 44,
        }
    }
}

impl From<InterruptIndex> for u8 {
    fn from(index: InterruptIndex) -> (v: u8) {
        index.vector()
    }
}

impl vstd::std_specs::convert::FromSpecImpl<InterruptIndex> for u8 {
    open spec fn obeys_from_spec() -> bool {
        true
    }

    open spec fn from_spec(index: InterruptIndex) -> u8 {
        vector_of(index)
    }
}

impl From<InterruptIndex> for usize {
    fn from(index: InterruptIndex) -> (v: usize) {
        index.vector() as usize
    }
}

impl vstd::std_specs::convert::FromSpecImpl<InterruptIndex> for usize {
    open spec fn obeys_from_spec() -> bool {
        true
    }

    open spec fn from_spec(index: InterruptIndex) -> usize {
        vector_of(index) as usize
    }
}

/// The audit action recorded for an exception `name` with `details`.
pub open spec fn exception_action(name: Seq<u8>, details: Seq<u8>) -> Seq<u8> {
    clip_str(clip_str("EXCEPTION: ".spec_bytes() + name + " - ".spec_bytes()) + details)
}

/// Records an exception in the audit log under the kernel's token (id 0),
/// with outcome "Reflected".
pub fn reflective_audit(audit: &mut AuditLog, clock: &Clock, name: &'static str, details: &str)
    ensures
        final(audit).wf(),
        final(audit).entries().len() == old(audit).entries().len() + 1,
        final(audit).entries().subrange(0, old(audit).entries().len() as int) == old(audit).entries(),
        string_bytes(final(audit).entries().last().action) == exception_action(
            name.spec_bytes(),
            details.spec_bytes(),
        ),
        final(audit).entries().last().outcome == "Reflected",
        final(audit).entries().last().token_id == 0,
{
    let system_token = Token::empty(0);
    let head = concat3("EXCEPTION: ", name, " - ");
    let action = concat2(head.as_str(), details);
    log(audit, clock, &system_token, action, "Reflected");
}

} // verus!
