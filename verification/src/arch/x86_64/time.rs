//! Chrono: the monotonic tick counter and the PIT programming values.
use vstd::prelude::*;

verus! {

/// Frequency of the PIT (1.193182 MHz).
pub const PIT_FREQUENCY: u32 = 1_193_182;

/// The monotonic tick counter, advanced once per timer interrupt.
pub struct Clock {
    ticks: u64,
}

impl Clock {
    /// Ticks counted so far.
    pub closed spec fn ticks(&self) -> u64 {
        self.ticks
    }

    /// A counter at zero ticks.
    pub fn new() -> (c: Self)
        ensures
            c.ticks() == 0,
    {
        Clock { ticks: 0 }
    }
}

/// Increment the monotonic tick counter.
pub fn tick(clock: &mut Clock)
    requires
        old(clock).ticks() < u64::MAX,
    ensures
        final(clock).ticks() == old(clock).ticks() + 1,
{
    clock.ticks = clock.ticks + 1;
}

/// Returns the number of ticks since boot.
pub fn get_uptime(clock: &Clock) -> (t: u64)
    ensures
        t == clock.ticks(),
{
    clock.ticks
}

/// The PIT reload value for a timer at `frequency` Hz, and the two bytes
/// (low, then high) that programming channel 0 writes.
pub fn pit_divisor(frequency: u32) -> (r: (u32, u8, u8))
    requires
        frequency != 0,
    ensures
        r.0 == PIT_FREQUENCY / frequency,
        r.1 == r.0 % 256,
        r.2 == (r.0 / 256) % 256,
{
    let divisor = PIT_FREQUENCY / frequency;
    let low = (divisor & 0xFF) as u8;
    let high = ((divisor >> 8) & 0xFF) as u8;
    assert(divisor & 0xFF == divisor % 256) by (bit_vector);
    assert((divisor >> 8) & 0xFF == (divisor / 256) % 256) by (bit_vector);
    (divisor, low, high)
}

} // verus!
