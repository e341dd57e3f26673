//! Calliope: tones and phrases of the PC speaker, and the programming of the
//! timer channel that drives it.
use vstd::prelude::*;

verus! {

broadcast use vstd::string::axiom_spec_iter;

/// PC speaker control port.
pub const SPEAKER_PORT: u16 = 0x61;

/// PIT channel 2 data port.
pub const PIT_CHANNEL_2: u16 = 0x42;

/// PIT command port.
pub const PIT_COMMAND: u16 = 0x43;

/// PIT command selecting channel 2, low then high byte, square wave.
pub const PIT_SQUARE_WAVE: u8 = 0xB6;

/// Input clock of the programmable interval timer, in Hz.
pub const PIT_FREQUENCY: u32 = 1_193_180;

/// Types of harmonic phrases.
#[derive(Debug, Clone, Copy, PartialEq, Eq, Structural)]
pub enum HarmonicPhrase {
    /// A rising scale for starting a task.
    StartingTask,
    /// A descending scale for completing a task.
    TaskCompleted,
    /// A soft, rhythmic pulse for background processing.
    Thinking,
    /// A rapid, high-pitched chirp for alerts.
    Alert,
}

/// The tones of a phrase, in the order they are played.
pub open spec fn phrase_tones_spec(phrase: HarmonicPhrase) -> Seq<u32> {
    match phrase {
        HarmonicPhrase::StartingTask => seq![440u32, 554, 659],
        HarmonicPhrase::TaskCompleted => seq![659u32, 554, 440],
        HarmonicPhrase::Thinking => seq![220u32],
        HarmonicPhrase::Alert => seq![880u32, 987],
    }
}

/// The tones of a phrase, in the order they are played; the speaker is
/// silenced after the last one.
pub fn phrase_tones(phrase: HarmonicPhrase) -> (v: Vec<u32>)
    ensures
        v@ == phrase_tones_spec(phrase),
{
    match phrase {
        HarmonicPhrase::StartingTask => vec![440, 554, 659],
        HarmonicPhrase::TaskCompleted => vec![659, 554, 440],
        HarmonicPhrase::Thinking => vec![220],
        HarmonicPhrase::Alert => vec![880, 987],
    }
}

/// How a phrase is announced while it plays.
pub fn phrase_label(phrase: HarmonicPhrase) -> (s: &'static str)
    ensures
        phrase == HarmonicPhrase::StartingTask ==> s@ == "Starting Task (Rising scale)"@,
        phrase == HarmonicPhrase::TaskCompleted ==> s@ == "Task Completed (Falling scale)"@,
        phrase == HarmonicPhrase::Thinking ==> s@ == "Thinking (Soft rhythmic pulse)"@,
        phrase == HarmonicPhrase::Alert ==> s@ == "ALERT (Rapid chirp)"@,
{
    match phrase {
        HarmonicPhrase::StartingTask => "Starting Task (Rising scale)",
        HarmonicPhrase::TaskCompleted => "Task Completed (Falling scale)",
        HarmonicPhrase::Thinking => "Thinking (Soft rhythmic pulse)",
        HarmonicPhrase::Alert => "ALERT (Rapid chirp)",
    }
}

/// The PIT reload value for `frequency` Hz.
pub open spec fn pit_divisor(frequency: u32) -> u32 {
    PIT_FREQUENCY / frequency
}

/// The two bytes written to PIT channel 2 (low, then high) to play
/// `frequency` Hz, or `None` for frequency 0, which plays nothing.
pub fn tone_reload_bytes(frequency: u32) -> (b: Option<(u8, u8)>)
    ensures
        frequency == 0 ==> b is None,
        frequency != 0 ==> b == Some(
            ((pit_divisor(frequency) & 0xFF) as u8, ((pit_divisor(frequency) >> 8u32) & 0xFF) as u8),
        ),
{
    if frequency == 0 {
        return None;
    }
    let divisor = PIT_FREQUENCY / frequency;
    Some(((divisor & 0xFF) as u8, ((divisor >> 8) & 0xFF) as u8))
}

/// The speaker control value that connects the speaker to PIT channel 2, or
/// `None` when both gate bits are already set and nothing needs writing.
pub fn speaker_on(status: u8) -> (w: Option<u8>)
    ensures
        status & 3 == 3 ==> w is None,
        status & 3 != 3 ==> w == Some(status | 3),
{
    let on = status | 3;
    if status != on {
        assert(status & 3 != 3) by (bit_vector)
            requires
                status != status | 3,
        ;
        Some(on)
    } else {
        assert(status & 3 == 3) by (bit_vector)
            requires
                status == status | 3,
        ;
        None
    }
}

/// The speaker control value that disconnects the speaker: both gate bits cleared.
pub fn speaker_off(status: u8) -> (w: u8)
    ensures
        w == status & 0xFC,
{
    status & 0xFC
}

/// `c` with an upper-case ASCII letter turned to lower case.
pub open spec fn ascii_lower(c: char) -> char {
    if 'A' <= c <= 'Z' {
        ((c as u32) + 32) as char
    } else {
        c
    }
}

/// The tone of a character when a line is vocalised: vowels 440 Hz, the
/// sibilants s, f, h 880 Hz, the plosives b, d, g 220 Hz, a space 0 (a
/// pause), anything else 330 Hz; letters of either case alike.
pub open spec fn vocal_frequency_spec(c: char) -> u32 {
    let l = ascii_lower(c);
    if l == 'a' || l == 'e' || l == 'i' || l == 'o' || l == 'u' {
        440
    } else if l == 's' || l == 'f' || l == 'h' {
        880
    } else if l == 'b' || l == 'd' || l == 'g' {
        220
    } else if l == ' ' {
        0
    } else {
        330
    }
}

/// The tone of a character when a line is vocalised.
pub fn vocal_frequency(c: char) -> (f: u32)
    ensures
        f == vocal_frequency_spec(c),
{
    let l = if 'A' <= c && c <= 'Z' {
        ((c as u32) + 32) as u8 as char
    } else {
        c
    };
    assert(l == ascii_lower(c));
    if l == 'a' || l == 'e' || l == 'i' || l == 'o' || l == 'u' {
        440
    } else if l == 's' || l == 'f' || l == 'h' {
        880
    } else if l == 'b' || l == 'd' || l == 'g' {
        220
    } else if l == ' ' {
        0
    } else {
        330
    }
}

/// The tones played for a line of text: one per character, pauses skipped.
pub open spec fn vocal_tones_spec(s: Seq<char>) -> Seq<u32>
    decreases s.len(),
{
    if s.len() == 0 {
        Seq::empty()
    } else {
        let before = vocal_tones_spec(s.drop_last());
        let f = vocal_frequency_spec(s.last());
        if f > 0 {
            before.push(f)
        } else {
            before
        }
    }
}

/// The tones played for a line of text, in order: one per character,
/// pauses skipped (the speaker is silenced after each tone).
pub fn vocal_line_tones(text: &str) -> (v: Vec<u32>)
    ensures
        v@ == vocal_tones_spec(text@),
{
    let mut v: Vec<u32> = Vec::new();
    for c in it: text.chars()
        invariant
            it.seq() == text@,
            v@ == vocal_tones_spec(text@.subrange(0, it.index() as int)),
    {
        proof {
            let k = it.index() as int;
            assert(text@.subrange(0, k + 1).drop_last() =~= text@.subrange(0, k));
        }
        let f = vocal_frequency(c);
        if f > 0 {
            v.push(f);
        }
    }
    proof {
        assert(text@.subrange(0, text@.len() as int) =~= text@);
    }
    v
}

/// The "success" chirp: the tones of `TaskCompleted`.
pub fn beep_success() -> (v: Vec<u32>)
    ensures
        v@ == phrase_tones_spec(HarmonicPhrase::TaskCompleted),
{
    phrase_tones(HarmonicPhrase::TaskCompleted)
}

} // verus!
