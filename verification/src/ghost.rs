//! Ghost Shell: the recovery states of the self-healing interface.
use vstd::prelude::*;

verus! {

/// State of the Ghost Shell.
#[derive(Debug)]
pub enum RecoveryState {
    /// Monitoring system health.
    Monitoring,
    /// Actively repairing a service.
    Repairing(String),
    /// Critical failure, awaiting manual intervention.
    Panicked,
}

} // verus!
