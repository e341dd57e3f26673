//! Kairòs: the context engine — active intent, system mood and attention focus.
use vstd::prelude::*;
use vstd::string::{StringExecFns, StringSliceAdditionalSpecFns};
use vstd::utf8::{encode_utf8, valid_utf8};
use crate::events::{publish, EventBus, SIGNIFICANCE_0_7};
use crate::safe_alloc::clip_str;

verus! {

/// Represents the current contextual focus of the system.
#[derive(Debug)]
pub struct Context {
    /// The current goal or active intent.
    pub active_intent: String,
    /// System mood based on resource pressure and activity.
    pub system_mood: String,
    /// The specific module or task currently holding attention.
    pub attention_focus: &'static str,
}

/// The event name published when the intent shifts to `intent`.
pub open spec fn intent_shift_message(intent: Seq<char>) -> Seq<char> {
    "Kairòs: Intent shift -> "@ + intent
}

impl Context {
    /// The boot context: intent "Initialization", mood "Calm", focus "KernelCore".
    pub fn new() -> (c: Self)
        ensures
            c.active_intent@ == "Initialization"@,
            c.system_mood@ == "Calm"@,
            c.attention_focus@ == "KernelCore"@,
    {
        Context {
            active_intent: String::from_str("Initialization"),
            system_mood: String::from_str("Calm"),
            attention_focus: "KernelCore",
        }
    }
}

/// Update the active intent and announce the shift on the event bus (significance 0.7).
pub fn set_intent(ctx: &mut Context, bus: &mut EventBus, intent: &str)
    ensures
        final(ctx).active_intent@ == intent@,
        final(ctx).system_mood == old(ctx).system_mood,
        final(ctx).attention_focus == old(ctx).attention_focus,
        final(bus).events().len() == old(bus).events().len() + 1,
        final(bus).events().subrange(0, old(bus).events().len() as int) == old(bus).events(),
        encode_utf8(final(bus).events().last().name@) == clip_str(
            encode_utf8(intent_shift_message(intent@)),
        ),
        final(bus).events().last().significance_bits == SIGNIFICANCE_0_7,
{
    ctx.active_intent = String::from_str(intent);
    let msg = String::from_str("Kairòs: Intent shift -> ").concat(intent);
    publish(bus, msg.as_str(), SIGNIFICANCE_0_7);
}

/// Update the system mood.
pub fn set_mood(ctx: &mut Context, mood: String)
    ensures
        final(ctx).system_mood == mood,
        final(ctx).active_intent == old(ctx).active_intent,
        final(ctx).attention_focus == old(ctx).attention_focus,
{
    ctx.system_mood = mood;
}

/// Get a copy of the current context.
pub fn get_context(ctx: &Context) -> (c: Context)
    ensures
        c.active_intent == ctx.active_intent,
        c.system_mood == ctx.system_mood,
        c.attention_focus == ctx.attention_focus,
{
    Context {
        active_intent: ctx.active_intent.clone(),
        system_mood: ctx.system_mood.clone(),
        attention_focus: ctx.attention_focus,
    }
}

} // verus!
