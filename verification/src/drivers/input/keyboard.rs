//! Nerve: keyboard text entry for the Chat panel.
use vstd::prelude::*;
use vstd::string::StringSliceAdditionalSpecFns;
use vstd::utf8::{encode_utf8, valid_utf8};
use crate::drivers::display::ambient_ui::{command_key_result, on_key, submit_chat_message, AmbientUi, Focus, UiState};
use crate::drivers::display::{toggle_ghost_shell, AuraDisplay};
use crate::safe_alloc::{clip, push_char, string_bytes, to_string};

verus! {

/// A decoded key, as far as the ambient UI distinguishes keys.
#[derive(Debug, Clone, Copy, PartialEq, Eq, Structural)]
pub enum KeyInput {
    /// A key that produces a character.
    Unicode(char),
    /// The Escape key.
    Escape,
    /// Any other key without a character (arrows, function keys, ...).
    OtherKey,
}

/// What routing `key` does, from the display, UI and chat text before
/// (`d0`, `u0`, `c0`) to those after (`d1`, `u1`, `c1`), with the submitted
/// chat message `sent`: backtick toggles the ghost shell, Escape returns the
/// UI to idle, and any other character wakes the UI and goes to the focused
/// panel (Enter in the Chat panel submits its text).
pub open spec fn routed(
    d0: Option<AuraDisplay>,
    d1: Option<AuraDisplay>,
    u0: AmbientUi,
    u1: AmbientUi,
    c0: Seq<char>,
    c1: Seq<char>,
    key: KeyInput,
    sent: Option<String>,
) -> bool {
    &&& key == KeyInput::Unicode('`') ==> u1 == u0 && c1 == c0 && sent is None && (d0 is None
        ==> d1 is None) && (d0 matches Some(d) ==> (d1 matches Some(e) && e.wf() && e.fb()
        == d.fb() && e.overlay() == !d.overlay()))
    &&& key == KeyInput::Escape ==> u1.ui_state() == UiState::Idle && u1.focus() == u0.focus()
        && u1.command_text() == u0.command_text() && c1 == c0 && d1 == d0 && sent is None
    &&& key == KeyInput::OtherKey ==> u1 == u0 && c1 == c0 && d1 == d0 && sent is None
    &&& key matches KeyInput::Unicode(c) ==> c == '`' || {
        &&& d1 == d0
        &&& u1.ui_state() == UiState::Active
        &&& u1.focus() == u0.focus()
        &&& u0.focus() == Focus::Command ==> u1.command_text() == command_key_result(
            u0.command_text(),
            c,
        ) && c1 == c0 && sent is None
        &&& u0.focus() == Focus::Chat ==> u1.command_text() == u0.command_text() && c1
            == chat_key_result(c0, c) && (c == '\n' ==> (sent matches Some(m) && m@ == c0)) && (c
            != '\n' ==> sent is None)
    }
}

/// Routes a decoded key (see `routed`). Returns the chat message submitted by
/// Enter in the Chat panel, if any.
pub fn handle_key(
    display: &mut Option<AuraDisplay>,
    ui: &mut AmbientUi,
    chat: &mut ChatInput,
    key: KeyInput,
) -> (sent: Option<String>)
    requires
        *old(display) matches Some(d) ==> d.wf() && (key == KeyInput::Unicode('`') ==> d.fb().height
            >= 5),
    ensures
        routed(
            *old(display),
            *final(display),
            *old(ui),
            *final(ui),
            old(chat).text(),
            final(chat).text(),
            key,
            sent,
        ),
{
    match key {
        KeyInput::Unicode(character) => {
            if character == '`' {
                toggle_ghost_shell(display);
                None
            } else {
                on_key(ui, chat, Some(character), false)
            }
        },
        KeyInput::Escape => on_key(ui, chat, None, true),
        KeyInput::OtherKey => None,
    }
}

/// The PS/2 keyboard decoder: scancode set 1, US 104-key layout, control
/// keys not remapped. Its state (pending multi-byte scancodes, held
/// modifiers) is `pc_keyboard`'s own and stays hidden.
#[verifier::external_body]
pub struct KeyDecoder {
    kb: pc_keyboard::PS2Keyboard<pc_keyboard::layouts::Us104Key, pc_keyboard::ScancodeSet1>,
}

impl KeyDecoder {
    /// `pc_keyboard::PS2Keyboard::new` for scancode set 1 and the US 104-key
    /// layout, with control keys not remapped; nothing is claimed of it.
    #[verifier::external_body]
    pub fn new() -> (d: Self) {
        KeyDecoder {
            kb: pc_keyboard::PS2Keyboard::new(
                pc_keyboard::ScancodeSet1::new(),
                pc_keyboard::layouts::Us104Key,
                pc_keyboard::HandleControl::Ignore,
            ),
        }
    }

    /// `PS2Keyboard::add_byte` then `process_keyevent`, with the decoded key
    /// told apart as a character, Escape, or another key. Which key (if any)
    /// comes out depends on the bytes fed before, so nothing is claimed of it.
    #[verifier::external_body]
    fn decode(&mut self, scancode: u8) -> (k: Option<KeyInput>) {
        match self.kb.add_byte(scancode) {
            Ok(Some(event)) => match self.kb.process_keyevent(event) {
                Some(pc_keyboard::DecodedKey::Unicode(c)) => Some(KeyInput::Unicode(c)),
                Some(pc_keyboard::DecodedKey::RawKey(pc_keyboard::KeyCode::Escape)) => Some(KeyInput::Escape),
                Some(pc_keyboard::DecodedKey::RawKey(_)) => Some(KeyInput::OtherKey),
                None => None,
            },
            _ => None,
        }
    }
}

/// The key as routed: the layout gives Escape as the character U+001B, which
/// is the Escape key.
pub fn escape_as_key(k: KeyInput) -> (r: KeyInput)
    ensures
        k == KeyInput::Unicode('\u{1b}') ==> r == KeyInput::Escape,
        k != KeyInput::Unicode('\u{1b}') ==> r == k,
{
    match k {
        KeyInput::Unicode(c) => if c == '\u{1b}' {
            KeyInput::Escape
        } else {
            k
        },
        _ => k,
    }
}

/// Handles one scancode from the keyboard: the decoder turns it into a key
/// (or none yet), and a key is routed exactly as `handle_key` routes it.
/// Returns the chat message submitted by Enter in the Chat panel, if any.
pub fn handle_scancode(
    dec: &mut KeyDecoder,
    display: &mut Option<AuraDisplay>,
    ui: &mut AmbientUi,
    chat: &mut ChatInput,
    scancode: u8,
) -> (sent: Option<String>)
    requires
        *old(display) matches Some(d) ==> d.wf() && d.fb().height >= 5,
    ensures
        (sent is None && *final(display) == *old(display) && *final(ui) == *old(ui)
            && final(chat).text() == old(chat).text()) || exists|key: KeyInput|
            #[trigger] routed(
                *old(display),
                *final(display),
                *old(ui),
                *final(ui),
                old(chat).text(),
                final(chat).text(),
                key,
                sent,
            ),
{
    match dec.decode(scancode) {
        None => None,
        Some(decoded) => {
            let key = escape_as_key(decoded);
            let sent = handle_key(display, ui, chat, key);
            assert(routed(
                *old(display),
                *display,
                *old(ui),
                *ui,
                old(chat).text(),
                chat.text(),
                key,
                sent,
            ));
            sent
        },
    }
}

/// Largest number of bytes the Chat panel buffers before Enter.
pub const CHAT_INPUT_LIMIT: usize = 256;

/// Text typed into the Chat panel, awaiting Enter.
pub struct ChatInput {
    buffer: String,
}

impl ChatInput {
    /// The text typed so far.
    pub closed spec fn text(&self) -> Seq<char> {
        self.buffer@
    }

    /// An empty buffer.
    pub fn new() -> (c: Self)
        ensures
            c.text() == Seq::<char>::empty(),
    {
        ChatInput { buffer: String::new() }
    }

    /// The text typed so far.
    pub fn as_str(&self) -> (s: &str)
        ensures
            s@ == self.text(),
    {
        self.buffer.as_str()
    }
}

/// The Chat panel's text after typing `ch`: Enter submits the text and
/// empties the panel; another character is appended while fewer than 256
/// bytes are held.
pub open spec fn chat_key_result(text: Seq<char>, ch: char) -> Seq<char> {
    if ch == '\n' {
        Seq::empty()
    } else if (encode_utf8(text).len() as usize) < CHAT_INPUT_LIMIT {
        text.push(ch)
    } else {
        text
    }
}

/// Typing into the Chat panel: Enter empties it; any other character,
/// spaces and every other one alike, is appended exactly while fewer than
/// 256 bytes are held, and the text is never changed otherwise (for any
/// text whose bytes fit in memory).
pub proof fn lemma_chat_typing(text: Seq<char>, ch: char)
    requires
        encode_utf8(text).len() <= usize::MAX,
    ensures
        ch == '\n' ==> chat_key_result(text, ch).len() == 0,
        ch != '\n' && encode_utf8(text).len() < 256 ==> chat_key_result(text, ch) == text.push(ch),
        ch != '\n' && encode_utf8(text).len() >= 256 ==> chat_key_result(text, ch) == text,
        ch != '\n' ==> chat_key_result(text, ch).subrange(0, text.len() as int) == text,
{
    if ch != '\n' && encode_utf8(text).len() < 256 {
        assert(text.push(ch).subrange(0, text.len() as int) =~= text);
    } else if ch != '\n' {
        assert(text.subrange(0, text.len() as int) =~= text);
    }
}

/// Handle one character typed while the Chat panel has focus: Enter submits
/// the whole message (returned, for the intent parser) and empties the panel;
/// any other character is appended while the buffer holds fewer than 256 bytes.
pub fn chat_panel_key(chat: &mut ChatInput, character: char) -> (sent: Option<String>)
    ensures
        final(chat).text() == chat_key_result(old(chat).text(), character),
        character == '\n' ==> (sent matches Some(m) && m@ == old(chat).text()),
        character != '\n' ==> sent is None,
{
    if character == '\n' {
        Some(submit_chat_message(chat))
    } else {
        if chat.buffer.as_str().len() < CHAT_INPUT_LIMIT {
            push_char(&mut chat.buffer, character);
        }
        None
    }
}

/// Take and clear the current Chat panel input: the whole text typed so far.
pub fn take_chat_input(chat: &mut ChatInput) -> (taken: String)
    ensures
        taken@ == old(chat).text(),
        final(chat).text() == Seq::<char>::empty(),
{
    let mut taken = String::new();
    std::mem::swap(&mut taken, &mut chat.buffer);
    taken
}

} // verus!
