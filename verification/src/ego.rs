//! Ego: the presence state and the issuer of capability tokens.
use vstd::prelude::*;
use vstd::string::StringSliceAdditionalSpecFns;
use vstd::utf8::{encode_utf8, is_ascii_chars};
use crate::events::{publish, EventBus, SIGNIFICANCE_0_8};
use crate::safe_alloc::{
    ascii_bytes, clip, lemma_ascii_str, lemma_ascii_valid, lemma_encode_concat, string_bytes,
    SafeWriter,
};
use crate::security::Token;

verus! {

/// The global state of the Phoenix OS presence.
#[derive(Debug, Clone, Copy, PartialEq, Eq, Structural)]
pub enum PresenceState {
    /// System is initializing.
    Initializing,
    /// System is idle, awaiting intent (Ambient UI mode).
    Idle,
    /// System is actively processing a user task.
    Active,
    /// System is performing internal optimizations (Maintenance).
    Dreaming,
    /// System is in a restricted recovery state.
    Maintenance,
}

/// The debug name of a presence state.
pub open spec fn presence_name(s: PresenceState) -> Seq<char> {
    match s {
        PresenceState::Initializing => "Initializing"@,
        PresenceState::Idle => "Idle"@,
        PresenceState::Active => "Active"@,
        PresenceState::Dreaming => "Dreaming"@,
        PresenceState::Maintenance => "Maintenance"@,
    }
}

/// The event name recorded for a transition from `from` to `to`.
pub open spec fn transition_message(from: PresenceState, to: PresenceState) -> Seq<char> {
    "Ego: State transition "@ + presence_name(from) + " -> "@ + presence_name(to)
}

impl PresenceState {
    /// The debug name of this state.
    pub fn name(self) -> (r: &'static str)
        ensures
            r@ == presence_name(self),
            is_ascii_chars(r@),
            r@.len() <= 12,
    {
        match self {
            PresenceState::Initializing => {
                proof {
                    reveal_strlit("Initializing");
                }
                "Initializing"
            },
            PresenceState::Idle => {
                proof {
                    reveal_strlit("Idle");
                }
                "Idle"
            },
            PresenceState::Active => {
                proof {
                    reveal_strlit("Active");
                }
                "Active"
            },
            PresenceState::Dreaming => {
                proof {
                    reveal_strlit("Dreaming");
                }
                "Dreaming"
            },
            PresenceState::Maintenance => {
                proof {
                    reveal_strlit("Maintenance");
                }
                "Maintenance"
            },
        }
    }
}

/// The presence state and the next token id to hand out.
pub struct Ego {
    state: PresenceState,
    next_token_id: u64,
}

impl Ego {
    /// The current presence state.
    pub closed spec fn state(&self) -> PresenceState {
        self.state
    }

    /// The id the next issued token will carry.
    pub closed spec fn next_token_id(&self) -> u64 {
        self.next_token_id
    }

    /// Initializing, with id 0 reserved for the kernel core and 1 next.
    pub fn new() -> (e: Self)
        ensures
            e.state() == PresenceState::Initializing,
            e.next_token_id() == 1,
    {
        Ego { state: PresenceState::Initializing, next_token_id: 1 }
    }

    /// Number of the next token id (the count of ids handed out, kernel's included).
    pub fn tokens_issued(&self) -> (n: u64)
        ensures
            n == self.next_token_id(),
    {
        self.next_token_id
    }
}

/// Get the current state of the Phoenix presence.
pub fn get_state(ego: &Ego) -> (s: PresenceState)
    ensures
        s == ego.state(),
{
    ego.state
}

/// Set the current state of the Phoenix presence and publish the transition
/// on the event bus (significance 0.8). Returns whether the success chime is
/// due: it is for every transition into `Idle`.
pub fn set_state(ego: &mut Ego, bus: &mut EventBus, new_state: PresenceState) -> (chime: bool)
    ensures
        final(ego).state() == new_state,
        final(ego).next_token_id() == old(ego).next_token_id(),
        chime == (new_state == PresenceState::Idle),
        final(bus).events().len() == old(bus).events().len() + 1,
        final(bus).events().subrange(0, old(bus).events().len() as int) == old(bus).events(),
        final(bus).events().last().name@ == transition_message(old(ego).state(), new_state),
        final(bus).events().last().significance_bits == SIGNIFICANCE_0_8,
        final(bus).events().last().data is None,
{
    let old_state = ego.state;
    ego.state = new_state;
    let chime = new_state == PresenceState::Idle;

    let prefix = "Ego: State transition ";
    let arrow = " -> ";
    let from = old_state.name();
    let to = new_state.name();
    proof {
        reveal_strlit("Ego: State transition ");
        reveal_strlit(" -> ");
        lemma_ascii_str(prefix@);
        lemma_ascii_str(arrow@);
        lemma_ascii_str(from@);
        lemma_ascii_str(to@);
    }
    let mut w = SafeWriter::new();
    w.write_str(prefix);
    w.write_str(from);
    w.write_str(arrow);
    w.write_str(to);
    let ghost all = prefix.spec_bytes() + from.spec_bytes() + arrow.spec_bytes() + to.spec_bytes();
    proof {
        assert(w.bytes() =~= all);
        assert(ascii_bytes(all));
        lemma_ascii_valid(all);
        lemma_encode_concat(prefix@, from@);
        lemma_encode_concat(prefix@ + from@, arrow@);
        lemma_encode_concat(prefix@ + from@ + arrow@, to@);
    }
    let msg = w.into_string();
    proof {
        assert(encode_utf8(msg@) == encode_utf8(transition_message(old_state, new_state)));
        vstd::utf8::encode_utf8_decode_utf8(msg@);
        vstd::utf8::encode_utf8_decode_utf8(transition_message(old_state, new_state));
        assert(vstd::utf8::decode_utf8(encode_utf8(transition_message(old_state, new_state)))
            == transition_message(old_state, new_state));
        lemma_ascii_valid(string_bytes(msg));
    }
    publish(bus, msg.as_str(), SIGNIFICANCE_0_8);
    chime
}

/// Issue a new capability token: it carries the next id and no capabilities.
pub fn issue_token(ego: &mut Ego) -> (t: Token)
    requires
        old(ego).next_token_id() < u64::MAX,
    ensures
        t.id == old(ego).next_token_id(),
        forall|i: int| 0 <= i < 32 ==> !#[trigger] t.capabilities@[i],
        final(ego).next_token_id() == old(ego).next_token_id() + 1,
        final(ego).state() == old(ego).state(),
{
    let token = Token::empty(ego.next_token_id);
    ego.next_token_id = ego.next_token_id + 1;
    token
}

/// Tokens issued one after another carry strictly increasing, hence distinct, ids.
pub proof fn lemma_issued_ids_increase(first: Token, second: Token, before: u64, middle: u64)
    requires
        first.id == before,
        middle == before + 1,
        second.id == middle,
    ensures
        first.id < second.id,
{
}

} // verus!
