//! Hermes: intent parsing and dispatch.
use vstd::prelude::*;
use vstd::string::StringSliceAdditionalSpecFns;
use vstd::utf8::valid_utf8;
use crate::safe_alloc::{clip_str, contains, contains_spec, occurs_at, short_ascii, str_eq, string_bytes, to_string};
use crate::synapse::Message;

verus! {

/// Significance given to every parsed intent: 0.8 as an IEEE-754 single bit pattern.
pub const INTENT_SIGNIFICANCE: u32 = 0x3F4C_CCCD;

/// Represents a parsed intent.
#[derive(Debug)]
pub struct Intent {
    /// The input as given (its first 128 bytes).
    pub raw: String,
    /// The action the input asks for.
    pub action: String,
    /// Significance, as the bit pattern of an IEEE-754 single.
    pub significance_bits: u32,
}

/// The action an input asks for: a knowledge query when it mentions
/// "research", self repair when it mentions "fix" or "heal", else a general interaction.
pub open spec fn action_for(input: Seq<char>) -> Seq<char> {
    if contains_spec(input, "research"@) {
        "KnowledgeQuery"@
    } else if contains_spec(input, "fix"@) || contains_spec(input, "heal"@) {
        "SelfRepair"@
    } else {
        "GeneralInteraction"@
    }
}

/// What an input asks for depends only on the words it mentions, wherever
/// they stand: any mention of "research" makes a knowledge query; otherwise
/// any mention of "fix" or "heal" makes self repair; otherwise it is a
/// general interaction.
pub proof fn lemma_action_by_mention(input: Seq<char>, at: int)
    ensures
        occurs_at(input, "research"@, at) ==> action_for(input) == "KnowledgeQuery"@,
        !contains_spec(input, "research"@) && (occurs_at(input, "fix"@, at) || occurs_at(
            input,
            "heal"@,
            at,
        )) ==> action_for(input) == "SelfRepair"@,
        !contains_spec(input, "research"@) && !contains_spec(input, "fix"@) && !contains_spec(
            input,
            "heal"@,
        ) ==> action_for(input) == "GeneralInteraction"@,
{
}

/// Parse raw input into a structured intent.
pub fn parse(input: &str) -> (intent: Intent)
    ensures
        string_bytes(intent.raw) == clip_str(input.spec_bytes()),
        intent.action@ == action_for(input@),
        intent.significance_bits == INTENT_SIGNIFICANCE,
{
    proof {
        reveal_strlit("KnowledgeQuery");
        reveal_strlit("SelfRepair");
        reveal_strlit("GeneralInteraction");
    }
    let action = if contains(input, "research") {
        short_ascii("KnowledgeQuery")
    } else if contains(input, "fix") || contains(input, "heal") {
        short_ascii("SelfRepair")
    } else {
        short_ascii("GeneralInteraction")
    };
    Intent { raw: to_string(input), action, significance_bits: INTENT_SIGNIFICANCE }
}

/// Where an intent is sent.
#[derive(Debug)]
pub enum Dispatch {
    /// Start the self-healing sequence for the named service.
    Heal(&'static str),
    /// Send the message over the Synapse bus.
    Send(Message),
}

/// Dispatch an intent: self repair heals the targeted service; any other
/// action goes to the cognitive core as a Synapse message.
pub fn dispatch(intent: &Intent) -> (d: Dispatch)
    ensures
        intent.action@ == "SelfRepair"@ ==> d == Dispatch::Heal("TargetedService"),
        intent.action@ != "SelfRepair"@ ==> (d matches Dispatch::Send(m) && m.sender@ == "Hermes"@
            && m.target@ == "CognitiveCore"@ && string_bytes(m.intent) == clip_str(string_bytes(intent.action))),
{
    if str_eq(intent.action.as_str(), "SelfRepair") {
        Dispatch::Heal("TargetedService")
    } else {
        Dispatch::Send(Message::new("Hermes", "CognitiveCore", to_string(intent.action.as_str())))
    }
}

} // verus!
