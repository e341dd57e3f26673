//! Neural-inspired event bus: every event carries a significance score.
use vstd::prelude::*;
use vstd::string::StringSliceAdditionalSpecFns;
use vstd::utf8::valid_utf8;
use crate::safe_alloc::{clip_str, string_bytes, to_string};

verus! {

/// Significance of 0.6 as an IEEE-754 single bit pattern.
pub const SIGNIFICANCE_0_6: u32 = 0x3F19_999A;
/// Significance of 0.7 as an IEEE-754 single bit pattern.
pub const SIGNIFICANCE_0_7: u32 = 0x3F33_3333;
/// Significance of 0.8 as an IEEE-754 single bit pattern.
pub const SIGNIFICANCE_0_8: u32 = 0x3F4C_CCCD;
/// Significance of 0.9 as an IEEE-754 single bit pattern.
pub const SIGNIFICANCE_0_9: u32 = 0x3F66_6666;

/// A system-wide event.
#[derive(Debug)]
pub struct Event {
    /// The name/type of the event.
    pub name: String,
    /// The importance of the event, as the bit pattern of an IEEE-754 single (0.0 to 1.0).
    pub significance_bits: u32,
    /// Optional structured data (placeholder).
    pub data: Option<String>,
}

/// The bus of published events, oldest first.
pub struct EventBus {
    events: Vec<Event>,
}

impl EventBus {
    /// The events published so far, oldest first.
    pub closed spec fn events(&self) -> Seq<Event> {
        self.events@
    }

    /// An empty bus with room for 64 events.
    pub fn new() -> (b: Self)
        ensures
            b.events().len() == 0,
    {
        EventBus { events: Vec::with_capacity(64) }
    }

    /// Number of events published so far.
    pub fn len(&self) -> (n: usize)
        ensures
            n == self.events().len(),
    {
        self.events.len()
    }

    /// The event at position `i` (0 is the oldest).
    pub fn get(&self, i: usize) -> (e: &Event)
        requires
            i < self.events().len(),
        ensures
            *e == self.events()[i as int],
    {
        &self.events[i]
    }
}

/// Publish an event to the neural bus: it is appended after every earlier event,
/// named by (at most the first 128 bytes of) `name`, with no data.
pub fn publish(bus: &mut EventBus, name: &str, significance_bits: u32)
    ensures
        final(bus).events().len() == old(bus).events().len() + 1,
        final(bus).events().subrange(0, old(bus).events().len() as int) == old(bus).events(),
        string_bytes(final(bus).events().last().name) == clip_str(name.spec_bytes()),
        name.spec_bytes().len() <= 128 ==> final(bus).events().last().name@ == name@,
        final(bus).events().last().significance_bits == significance_bits,
        final(bus).events().last().data is None,
{
    let event = Event { name: to_string(name), significance_bits, data: None };
    bus.events.push(event);
    assert(bus.events@.subrange(0, old(bus).events@.len() as int) =~= old(bus).events@);
}

} // verus!
