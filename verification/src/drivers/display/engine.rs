//! The Ambient UI engine: which figures each materialization pattern draws.
use vstd::prelude::*;
use crate::drivers::display::aura::colors::{INTENT_CYAN, MATTE_WHITE};

verus! {

/// Types of materialization patterns.
#[derive(Debug, Clone, Copy, PartialEq, Eq, Structural)]
pub enum Pattern {
    /// JARVIS Concentric Rings.
    ConcentricRings,
    /// Intent Materialization.
    Materialize,
    /// Alert / Warning Pulse.
    Pulse,
    /// JARVIS Voice Activity (Melodic pulse).
    VoiceActivity,
    /// Idle State (Emblem).
    Idle,
}

/// The Ambient UI Engine state.
#[derive(Debug, Clone, Copy)]
pub struct Engine {
    /// Currently active materialization pattern.
    pub active_pattern: Pattern,
    /// The user's current focus/attention point (x, y).
    pub focus_point: (usize, usize),
}

/// One drawing operation of the aura layer.
#[derive(Debug, Clone, Copy)]
pub enum RenderStep {
    /// A geometric ring centred at `(x, y)`.
    Ring { x: usize, y: usize, radius: usize, color: u32 },
    /// Clear the whole screen.
    ClearScreen,
    /// Materialize the workspace for an intent.
    Workspace(&'static str),
    /// The Phoenix OS emblem.
    Emblem,
}

/// The drawing operations of `pattern` around the focus point `(x, y)`, in order.
pub open spec fn pattern_steps(pattern: Pattern, x: usize, y: usize) -> Seq<RenderStep> {
    match pattern {
        Pattern::ConcentricRings => seq![
            RenderStep::Ring { x, y, radius: 40, color: INTENT_CYAN },
            RenderStep::Ring { x, y, radius: 60, color: INTENT_CYAN },
        ],
        Pattern::Materialize => seq![
            RenderStep::ClearScreen,
            RenderStep::Workspace("General Purpose"),
        ],
        Pattern::Pulse => seq![RenderStep::Ring { x, y, radius: 50, color: INTENT_CYAN }],
        Pattern::VoiceActivity => seq![
            RenderStep::Ring { x, y, radius: 45, color: MATTE_WHITE },
            RenderStep::Ring { x, y, radius: 55, color: INTENT_CYAN },
        ],
        Pattern::Idle => seq![RenderStep::Emblem],
    }
}

impl Engine {
    /// The engine at boot: concentric rings around (400, 300).
    pub fn new() -> (e: Self)
        ensures
            e.active_pattern == Pattern::ConcentricRings,
            e.focus_point == (400usize, 300usize),
    {
        Engine { active_pattern: Pattern::ConcentricRings, focus_point: (400, 300) }
    }
}

/// Makes `pattern` the active one and returns what it draws around the
/// focus point, in order.
pub fn materialize(engine: &mut Engine, pattern: Pattern) -> (steps: Vec<RenderStep>)
    ensures
        final(engine).active_pattern == pattern,
        final(engine).focus_point == old(engine).focus_point,
        steps@ == pattern_steps(pattern, old(engine).focus_point.0, old(engine).focus_point.1),
{
    engine.active_pattern = pattern;
    let (x, y) = engine.focus_point;
    match pattern {
        Pattern::ConcentricRings => vec![
            RenderStep::Ring { x, y, radius: 40, color: INTENT_CYAN },
            RenderStep::Ring { x, y, radius: 60, color: INTENT_CYAN },
        ],
        Pattern::Materialize => vec![RenderStep::ClearScreen, RenderStep::Workspace("General Purpose")],
        Pattern::Pulse => vec![RenderStep::Ring { x, y, radius: 50, color: INTENT_CYAN }],
        Pattern::VoiceActivity => vec![
            RenderStep::Ring { x, y, radius: 45, color: MATTE_WHITE },
            RenderStep::Ring { x, y, radius: 55, color: INTENT_CYAN },
        ],
        Pattern::Idle => vec![RenderStep::Emblem],
    }
}

/// Brings the engine online: it materializes the concentric rings.
pub fn init(engine: &mut Engine) -> (steps: Vec<RenderStep>)
    ensures
        final(engine).active_pattern == Pattern::ConcentricRings,
        final(engine).focus_point == old(engine).focus_point,
        steps@ == pattern_steps(
            Pattern::ConcentricRings,
            old(engine).focus_point.0,
            old(engine).focus_point.1,
        ),
{
    materialize(engine, Pattern::ConcentricRings)
}

} // verus!
