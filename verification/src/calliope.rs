//! Calliope: skills and the spoken feedback of the assistant, as sounds and
//! patterns.
use vstd::prelude::*;
use vstd::string::StringExecFns;
use crate::drivers::audio::speaker::{phrase_tones, phrase_tones_spec, HarmonicPhrase};
use crate::drivers::display::engine::{materialize, pattern_steps, Engine, Pattern, RenderStep};
use crate::mnemosyne::{add_node, KnowledgeGraph};
use crate::synapse::Prosody;

verus! {

/// Represents a JARVIS Skill (WASM-based).
#[derive(Debug)]
pub struct Skill {
    /// The name of the skill.
    pub name: String,
    /// The WASM bytecode for the skill.
    pub bytecode: Vec<u8>,
}

/// Runs a skill in its sandbox; every skill completes successfully.
pub fn execute(skill: &Skill) -> (r: Result<(), &'static str>)
    ensures
        r is Ok,
{
    Ok(())
}

/// The harmonic phrase that carries a prosody: rising for calm, a chirp for
/// urgency, the soft pulse for empathy and for thought.
pub open spec fn prosody_phrase(prosody: Prosody) -> HarmonicPhrase {
    match prosody {
        Prosody::Calm => HarmonicPhrase::StartingTask,
        Prosody::Urgent => HarmonicPhrase::Alert,
        Prosody::Empathetic => HarmonicPhrase::Thinking,
        Prosody::Thinking => HarmonicPhrase::Thinking,
    }
}

/// What speaking a line does, in order: the voice-activity pattern is drawn,
/// the phrase of the prosody is played, and the display returns to idle.
#[derive(Debug)]
pub struct Speech {
    /// What the voice-activity pattern draws.
    pub voice: Vec<RenderStep>,
    /// The phrase played.
    pub phrase: HarmonicPhrase,
    /// Its tones, in order.
    pub tones: Vec<u32>,
    /// What the idle pattern draws afterwards.
    pub idle: Vec<RenderStep>,
}

/// The speech of a line with `prosody`, as seen from an engine focused at `(x, y)`.
pub open spec fn speech_of(s: Speech, prosody: Prosody, x: usize, y: usize) -> bool {
    &&& s.voice@ == pattern_steps(Pattern::VoiceActivity, x, y)
    &&& s.phrase == prosody_phrase(prosody)
    &&& s.tones@ == phrase_tones_spec(prosody_phrase(prosody))
    &&& s.idle@ == pattern_steps(Pattern::Idle, x, y)
}

/// Orchestrates speech: voice activity, the harmonic cadence of the prosody,
/// then back to idle.
pub fn speak(engine: &mut Engine, prosody: Prosody) -> (s: Speech)
    ensures
        speech_of(s, prosody, old(engine).focus_point.0, old(engine).focus_point.1),
        final(engine).active_pattern == Pattern::Idle,
        final(engine).focus_point == old(engine).focus_point,
{
    let voice = materialize(engine, Pattern::VoiceActivity);
    let phrase = match prosody {
        Prosody::Calm => HarmonicPhrase::StartingTask,
        Prosody::Urgent => HarmonicPhrase::Alert,
        Prosody::Empathetic => HarmonicPhrase::Thinking,
        Prosody::Thinking => HarmonicPhrase::Thinking,
    };
    let tones = phrase_tones(phrase);
    let idle = materialize(engine, Pattern::Idle);
    Speech { voice, phrase, tones, idle }
}

/// The question asked about an unknown concept.
pub open spec fn unfamiliar_line(label: Seq<char>) -> Seq<char> {
    "I am unfamiliar with '"@ + label + "'. Is this a system component?"@
}

/// The outcome of learning a concept: the question asked (spoken while
/// thinking), the id of the new node, and the calm confirmation.
#[derive(Debug)]
pub struct Learned {
    /// The question asked about the concept.
    pub question: String,
    /// How the question is spoken.
    pub asking: Speech,
    /// The id of the node that now holds the concept.
    pub node_id: u64,
    /// How "Concept integrated into semantic memory." is spoken.
    pub confirming: Speech,
}

/// Learning loop: asks about an unfamiliar concept, indexes it as a new node
/// of the knowledge graph, and confirms.
pub fn learn_concept(graph: &mut KnowledgeGraph, engine: &mut Engine, concept_label: &str) -> (l:
    Learned)
    requires
        old(graph).nodes().len() < u64::MAX,
    ensures
        l.question@ == unfamiliar_line(concept_label@),
        speech_of(l.asking, Prosody::Thinking, old(engine).focus_point.0, old(engine).focus_point.1),
        speech_of(l.confirming, Prosody::Calm, old(engine).focus_point.0, old(engine).focus_point.1),
        final(engine).active_pattern == Pattern::Idle,
        final(engine).focus_point == old(engine).focus_point,
        final(graph).wf(),
        l.node_id == old(graph).nodes().len(),
        final(graph).nodes().len() == old(graph).nodes().len() + 1,
        final(graph).nodes().subrange(0, l.node_id as int) == old(graph).nodes(),
        final(graph).nodes()[l.node_id as int].label@ == concept_label@,
        final(graph).edges() == old(graph).edges(),
{
    let mut question = String::from_str("I am unfamiliar with '");
    question.append(concept_label);
    question.append("'. Is this a system component?");
    let asking = speak(engine, Prosody::Thinking);
    let node_id = add_node(graph, String::from_str(concept_label));
    let confirming = speak(engine, Prosody::Calm);
    Learned { question, asking, node_id, confirming }
}

} // verus!
