//! Pulse: the resource governor's decisions on memory pressure.
use vstd::prelude::*;
use crate::ego::{set_state, Ego, PresenceState};
use crate::events::{publish, EventBus, SIGNIFICANCE_0_6, SIGNIFICANCE_0_9};
use crate::safe_alloc::{lemma_ascii_str, lemma_ascii_valid};

verus! {

/// Memory pressure reported while no measurement exists (0.2, in percent).
pub const SIMULATED_MEMORY_PERCENT: u32 = 20;
/// Pressure above which memory is critical (0.8, in percent).
pub const CRITICAL_PERCENT: u32 = 80;
/// Pressure above which memory is under moderate pressure (0.5, in percent).
pub const MODERATE_PERCENT: u32 = 50;

/// Whether a pruning cycle is due after checking the pressure.
#[derive(Debug, Clone, Copy, PartialEq, Eq, Structural)]
pub enum PulseAction {
    /// Nothing to do.
    Nothing,
    /// Prune memory at this pressure (in percent).
    Prune(u32),
}

/// React to a memory pressure reading (in percent): above 80 publish a
/// critical event (significance 0.9), move to `Dreaming` and prune; above 50
/// publish a moderate event (significance 0.6) and prune; otherwise nothing.
pub fn check_pressure(bus: &mut EventBus, ego: &mut Ego, memory_percent: u32) -> (action: PulseAction)
    ensures
        memory_percent > CRITICAL_PERCENT ==> {
            &&& action == PulseAction::Prune(memory_percent)
            &&& final(ego).state() == PresenceState::Dreaming
            &&& final(bus).events().len() == old(bus).events().len() + 2
            &&& final(bus).events()[old(bus).events().len() as int].name@ == "Pulse: CRITICAL Memory Pressure"@
            &&& final(bus).events()[old(bus).events().len() as int].significance_bits == SIGNIFICANCE_0_9
        },
        MODERATE_PERCENT < memory_percent <= CRITICAL_PERCENT ==> {
            &&& action == PulseAction::Prune(memory_percent)
            &&& final(ego).state() == old(ego).state()
            &&& final(bus).events() == old(bus).events().push(final(bus).events().last())
            &&& final(bus).events().last().name@ == "Pulse: Moderate Memory Pressure"@
            &&& final(bus).events().last().significance_bits == SIGNIFICANCE_0_6
        },
        memory_percent <= MODERATE_PERCENT ==> {
            &&& action == PulseAction::Nothing
            &&& final(bus).events() == old(bus).events()
            &&& *final(ego) == *old(ego)
        },
        final(ego).next_token_id() == old(ego).next_token_id(),
{
    proof {
        reveal_strlit("Pulse: CRITICAL Memory Pressure");
        reveal_strlit("Pulse: Moderate Memory Pressure");
        lemma_ascii_str("Pulse: CRITICAL Memory Pressure"@);
        lemma_ascii_str("Pulse: Moderate Memory Pressure"@);
        lemma_ascii_valid(vstd::string::StringSliceAdditionalSpecFns::spec_bytes("Pulse: CRITICAL Memory Pressure"));
        lemma_ascii_valid(vstd::string::StringSliceAdditionalSpecFns::spec_bytes("Pulse: Moderate Memory Pressure"));
    }
    if memory_percent > CRITICAL_PERCENT {
        publish(bus, "Pulse: CRITICAL Memory Pressure", SIGNIFICANCE_0_9);
        let ghost after_first = bus.events();
        set_state(ego, bus, PresenceState::Dreaming);
        proof {
            assert(bus.events()[old(bus).events().len() as int] == after_first[old(bus).events().len() as int]);
        }
        PulseAction::Prune(memory_percent)
    } else if memory_percent > MODERATE_PERCENT {
        publish(bus, "Pulse: Moderate Memory Pressure", SIGNIFICANCE_0_6);
        assert(bus.events() =~= old(bus).events().push(bus.events().last()));
        PulseAction::Prune(memory_percent)
    } else {
        PulseAction::Nothing
    }
}

/// Check current system pressure (the simulated 20%): below every threshold,
/// so nothing happens.
pub fn monitor(bus: &mut EventBus, ego: &mut Ego) -> (action: PulseAction)
    ensures
        action == PulseAction::Nothing,
        final(bus).events() == old(bus).events(),
        *final(ego) == *old(ego),
{
    check_pressure(bus, ego, SIMULATED_MEMORY_PERCENT)
}

} // verus!
