//! Userspace processes.
use vstd::prelude::*;

verus! {

/// Represents a userspace process.
#[derive(Debug)]
pub struct Process {
    /// Unique process identifier.
    pub id: u64,
    /// Friendly name of the process.
    pub name: &'static str,
    /// Process executable code.
    pub code: Vec<u8>,
}

/// Loads a userspace process from its code: the process gets id 1 and keeps
/// the name and the code as given.
pub fn load(name: &'static str, code: Vec<u8>) -> (p: Process)
    ensures
        p.id == 1,
        p.name == name,
        p.code@ == code@,
{
    Process { id: 1, name, code }
}

} // verus!
