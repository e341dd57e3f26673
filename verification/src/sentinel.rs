//! Sentinel: anomalous intent detection and security lockdown.
use vstd::prelude::*;
use vstd::string::StringSliceAdditionalSpecFns;
use vstd::utf8::{encode_utf8, valid_utf8};
use crate::arch::x86_64::time::Clock;
use crate::audit::{log, may_audit, AuditLog};
use crate::ego::{set_state, transition_message, Ego, PresenceState};
use crate::events::SIGNIFICANCE_0_8;
use crate::events::EventBus;
use crate::safe_alloc::{
    clip_str, concat2, contains, contains_spec, lemma_ascii_str, lemma_ascii_valid, str_eq,
    string_bytes,
};
use crate::security::Token;

verus! {

/// The reason recorded when a honey-intent or restricted service is touched.
pub open spec fn honey_reason() -> Seq<char> {
    "Access to Honey-Intent/Restricted Service detected"@
}

/// The bytes of the audit action recorded by a lockdown for `reason`.
pub open spec fn lockdown_action(reason: Seq<u8>) -> Seq<u8> {
    clip_str("SECURITY LOCKDOWN: ".spec_bytes() + reason)
}

/// Whether the audit log grew by exactly one entry recording `action` with `outcome`
/// for `token`, or (for a token that may not audit) stayed as it was.
pub open spec fn audited(
    before: AuditLog,
    after: AuditLog,
    token: Token,
    action: Seq<u8>,
    outcome: &'static str,
) -> bool {
    if may_audit(token) {
        &&& after.entries().len() == before.entries().len() + 1
        &&& after.entries().subrange(0, before.entries().len() as int) == before.entries()
        &&& string_bytes(after.entries().last().action) == action
        &&& after.entries().last().outcome == outcome
        &&& after.entries().last().token_id == token.id
    } else {
        after.entries() == before.entries()
    }
}

/// Triggers a system-wide security lockdown: records the reason in the audit
/// log (outcome "Neutralized") and switches the presence to `Maintenance`.
pub fn lockdown(
    audit: &mut AuditLog,
    clock: &Clock,
    ego: &mut Ego,
    bus: &mut EventBus,
    trigger_token: &Token,
    reason: &str,
)
    ensures
        final(audit).wf(),
        audited(
            *old(audit),
            *final(audit),
            *trigger_token,
            lockdown_action(reason.spec_bytes()),
            "Neutralized",
        ),
        final(ego).state() == PresenceState::Maintenance,
        final(ego).next_token_id() == old(ego).next_token_id(),
        final(bus).events().len() == old(bus).events().len() + 1,
        final(bus).events().subrange(0, old(bus).events().len() as int) == old(bus).events(),
        final(bus).events().last().name@ == transition_message(
            old(ego).state(),
            PresenceState::Maintenance,
        ),
        final(bus).events().last().significance_bits == SIGNIFICANCE_0_8,
{
    let action = concat2("SECURITY LOCKDOWN: ", reason);
    log(audit, clock, trigger_token, action, "Neutralized");
    set_state(ego, bus, PresenceState::Maintenance);
}

/// Whether an access to `target` with `intent` is anomalous: the restricted
/// debug service, or an intent mentioning "bypass".
pub open spec fn is_anomalous(target: Seq<char>, intent: Seq<char>) -> bool {
    target == "RestrictedDebugService"@ || contains_spec(intent, "bypass"@)
}

/// Analyzes an intent for anomalous patterns and locks the system down when
/// one is found. Returns whether a lockdown was triggered; otherwise nothing changes.
pub fn analyze_intent(
    audit: &mut AuditLog,
    clock: &Clock,
    ego: &mut Ego,
    bus: &mut EventBus,
    token: &Token,
    target: &str,
    intent: &str,
) -> (triggered: bool)
    ensures
        final(audit).wf(),
        triggered == is_anomalous(target@, intent@),
        triggered ==> {
            &&& audited(
                *old(audit),
                *final(audit),
                *token,
                lockdown_action(encode_utf8(honey_reason())),
                "Neutralized",
            )
            &&& final(ego).state() == PresenceState::Maintenance
            &&& final(bus).events().len() == old(bus).events().len() + 1
            &&& final(bus).events().last().name@ == transition_message(
                old(ego).state(),
                PresenceState::Maintenance,
            )
            &&& final(bus).events().last().significance_bits == SIGNIFICANCE_0_8
        },
        !triggered ==> {
            &&& final(audit).entries() == old(audit).entries()
            &&& final(ego).state() == old(ego).state()
            &&& final(bus).events() == old(bus).events()
        },
        final(ego).next_token_id() == old(ego).next_token_id(),
        final(bus).events().subrange(0, old(bus).events().len() as int) == old(bus).events(),
{
    proof {
        use_type_invariant(&*audit);
    }
    if str_eq(target, "RestrictedDebugService") || contains(intent, "bypass") {
        let reason = "Access to Honey-Intent/Restricted Service detected";
        proof {
            reveal_strlit("Access to Honey-Intent/Restricted Service detected");
            reveal_strlit("SECURITY LOCKDOWN: ");
            lemma_ascii_str(reason@);
            lemma_ascii_str("SECURITY LOCKDOWN: "@);
            lemma_ascii_valid("SECURITY LOCKDOWN: ".spec_bytes() + reason.spec_bytes());
        }
        lockdown(audit, clock, ego, bus, token, reason);
        true
    } else {
        assert(bus.events().subrange(0, bus.events().len() as int) =~= bus.events());
        false
    }
}

} // verus!
