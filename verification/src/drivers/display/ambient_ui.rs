//! Ambient UI: the idle/active state machine and the panels that take focus.
use vstd::prelude::*;
use vstd::string::StringSliceAdditionalSpecFns;
use vstd::utf8::encode_utf8;
use crate::drivers::display::{cyan_spec, AuraDisplay, Color};
use crate::drivers::input::keyboard::{chat_key_result, chat_panel_key, take_chat_input, ChatInput};
use crate::drivers::input::mouse::{take_click, MouseDriver};
use crate::safe_alloc::push_char;

verus! {

/// Whether the ambient UI is showing just the idle emblem, or the active panels.
#[derive(Debug, Clone, Copy, PartialEq, Eq, Structural)]
pub enum UiState {
    /// Only the idle emblem is shown.
    Idle,
    /// The panels are shown.
    Active,
}

/// Which panel currently receives typed keyboard input.
#[derive(Debug, Clone, Copy, PartialEq, Eq, Structural)]
pub enum Focus {
    /// The Command panel.
    Command,
    /// The Chat panel.
    Chat,
}

/// Largest number of bytes the Command panel buffers before Enter.
pub const COMMAND_INPUT_LIMIT: usize = 256;

/// A panel rectangle in screen pixels.
#[derive(Debug, Clone, Copy, PartialEq, Eq, Structural)]
pub struct Rect {
    /// Left edge.
    pub x: i32,
    /// Top edge.
    pub y: i32,
    /// Width.
    pub w: i32,
    /// Height.
    pub h: i32,
}

/// Whether (`px`, `py`) lies in `r` (left and top edges inclusive).
pub open spec fn rect_contains(r: Rect, px: int, py: int) -> bool {
    px >= r.x && px < r.x + r.w && py >= r.y && py < r.y + r.h
}

impl Rect {
    /// Whether (`px`, `py`) lies in the rectangle.
    pub fn contains(&self, px: i32, py: i32) -> (b: bool)
        requires
            i32::MIN <= self.x + self.w <= i32::MAX,
            i32::MIN <= self.y + self.h <= i32::MAX,
        ensures
            b == rect_contains(*self, px as int, py as int),
    {
        px >= self.x && px < self.x + self.w && py >= self.y && py < self.y + self.h
    }
}

/// The Command panel: the top-left 700x384 pixels.
pub open spec fn command_rect() -> Rect {
    Rect { x: 0, y: 0, w: 700, h: 384 }
}

/// The Chat panel: the 700x384 pixels below the Command panel.
pub open spec fn chat_rect() -> Rect {
    Rect { x: 0, y: 384, w: 700, h: 384 }
}

/// The Command panel's bounds.
pub fn command_panel_rect() -> (r: Rect)
    ensures
        r == command_rect(),
{
    Rect { x: 0, y: 0, w: 700, h: 384 }
}

/// The Chat panel's bounds.
pub fn chat_panel_rect() -> (r: Rect)
    ensures
        r == chat_rect(),
{
    Rect { x: 0, y: 384, w: 700, h: 384 }
}

/// The focus after a click (if any) while the UI is active.
pub open spec fn focus_after_click(focus: Focus, click: Option<(i32, i32)>) -> Focus {
    match click {
        Some((cx, cy)) => if rect_contains(command_rect(), cx as int, cy as int) {
            Focus::Command
        } else if rect_contains(chat_rect(), cx as int, cy as int) {
            Focus::Chat
        } else {
            focus
        },
        None => focus,
    }
}

/// The ambient UI: state, focused panel and the Command panel's input.
pub struct AmbientUi {
    ui_state: UiState,
    focus: Focus,
    command_input: String,
}

impl AmbientUi {
    /// Idle or active.
    pub closed spec fn ui_state(&self) -> UiState {
        self.ui_state
    }

    /// The focused panel.
    pub closed spec fn focus(&self) -> Focus {
        self.focus
    }

    /// The text typed into the Command panel.
    pub closed spec fn command_text(&self) -> Seq<char> {
        self.command_input@
    }

    /// Idle, with the Chat panel focused and no command typed.
    pub fn new() -> (u: Self)
        ensures
            u.ui_state() == UiState::Idle,
            u.focus() == Focus::Chat,
            u.command_text() == Seq::<char>::empty(),
    {
        AmbientUi { ui_state: UiState::Idle, focus: Focus::Chat, command_input: String::new() }
    }
}

/// Called on any mouse movement or left-button change: wakes the UI and lets
/// a pending click move the focus.
pub fn on_mouse_activity(ui: &mut AmbientUi, mouse: &mut MouseDriver)
    ensures
        final(ui).ui_state() == UiState::Active,
        final(ui).focus() == focus_after_click(old(ui).focus(), old(mouse).pending()),
        final(ui).command_text() == old(ui).command_text(),
        final(mouse).pending() is None,
        final(mouse).state() == old(mouse).state(),
        final(mouse).cycle() == old(mouse).cycle(),
        final(mouse).packet() == old(mouse).packet(),
{
    if ui.ui_state == UiState::Idle {
        ui.ui_state = UiState::Active;
    }
    handle_click_focus(ui, mouse);
}

/// Called for every decoded key: `Some(ch)` for a printable key or Enter,
/// `None` with `escape` for Escape, `None` alone for any other key. Escape
/// returns to idle; anything else wakes the UI and goes to the focused panel.
pub fn on_key(ui: &mut AmbientUi, chat: &mut ChatInput, character: Option<char>, escape: bool) -> (sent:
    Option<String>)
    ensures
        !(!escape && old(ui).focus() == Focus::Chat && character == Some('\n')) ==> sent is None,
        !escape && old(ui).focus() == Focus::Chat && character == Some('\n') ==> (sent matches Some(m)
            && m@ == old(chat).text()),
        escape ==> final(ui).ui_state() == UiState::Idle && final(ui).focus() == old(ui).focus()
            && final(ui).command_text() == old(ui).command_text() && final(chat).text() == old(chat).text(),
        !escape ==> final(ui).ui_state() == UiState::Active && final(ui).focus() == old(ui).focus(),
        !escape && (character is None || old(ui).focus() == Focus::Chat) ==> final(ui).command_text()
            == old(ui).command_text(),
        !escape && (character is None || old(ui).focus() == Focus::Command) ==> final(chat).text()
            == old(chat).text(),
        !escape && old(ui).focus() == Focus::Command ==> (character matches Some(ch) ==> final(ui).command_text() == command_key_result(old(ui).command_text(), ch)),
        !escape && old(ui).focus() == Focus::Chat ==> (character matches Some(ch) ==> final(chat).text() == chat_key_result(old(chat).text(), ch)),
{
    if escape {
        ui.ui_state = UiState::Idle;
        return None;
    }
    if ui.ui_state == UiState::Idle {
        ui.ui_state = UiState::Active;
    }
    match character {
        None => None,
        Some(ch) => match ui.focus {
            Focus::Command => {
                command_panel_key(ui, ch);
                None
            },
            Focus::Chat => chat_panel_key(chat, ch),
        },
    }
}

/// The buffered text after typing `ch` into a panel: Enter leaves it (and
/// submits); another character is appended while fewer than 256 bytes are held.
pub open spec fn command_key_result(text: Seq<char>, ch: char) -> Seq<char> {
    if ch == '\n' {
        text
    } else if (encode_utf8(text).len() as usize) < COMMAND_INPUT_LIMIT {
        text.push(ch)
    } else {
        text
    }
}

/// One character typed into the Command panel.
pub fn command_panel_key(ui: &mut AmbientUi, ch: char)
    ensures
        final(ui).command_text() == command_key_result(old(ui).command_text(), ch),
        final(ui).ui_state() == old(ui).ui_state(),
        final(ui).focus() == old(ui).focus(),
{
    if ch == '\n' {
        submit_command();
        return;
    }
    if ui.command_input.as_str().len() < COMMAND_INPUT_LIMIT {
        push_char(&mut ui.command_input, ch);
    }
}

/// Consumes the pending click; while the UI is active a click in the Command
/// or Chat panel focuses that panel.
fn handle_click_focus(ui: &mut AmbientUi, mouse: &mut MouseDriver)
    ensures
        final(ui).ui_state() == old(ui).ui_state(),
        old(ui).ui_state() == UiState::Active ==> final(ui).focus() == focus_after_click(
            old(ui).focus(),
            old(mouse).pending(),
        ),
        old(ui).ui_state() != UiState::Active ==> final(ui).focus() == old(ui).focus(),
        final(ui).command_text() == old(ui).command_text(),
        final(mouse).pending() is None,
        final(mouse).state() == old(mouse).state(),
        final(mouse).cycle() == old(mouse).cycle(),
        final(mouse).packet() == old(mouse).packet(),
{
    let click = take_click(mouse);
    match click {
        None => {},
        Some((cx, cy)) => {
            if ui.ui_state != UiState::Active {
                return;
            }
            if command_panel_rect().contains(cx, cy) {
                ui.focus = Focus::Command;
            } else if chat_panel_rect().contains(cx, cy) {
                ui.focus = Focus::Chat;
            }
        },
    }
}

/// Current UI state.
pub fn current_state(ui: &AmbientUi) -> (s: UiState)
    ensures
        s == ui.ui_state(),
{
    ui.ui_state
}

/// Currently focused panel.
pub fn current_focus(ui: &AmbientUi) -> (f: Focus)
    ensures
        f == ui.focus(),
{
    ui.focus
}

/// Submits the Command panel's input (nothing is dispatched yet).
pub fn submit_command() {
}

/// Submits the Chat panel's input: the whole message is taken (for the
/// intent parser) and the panel emptied.
pub fn submit_chat_message(chat: &mut ChatInput) -> (message: String)
    ensures
        message@ == old(chat).text(),
        final(chat).text() == Seq::<char>::empty(),
{
    take_chat_input(chat)
}

/// Initialize the Ambient UI: draw the current state (see `render`).
pub fn init(display: &mut Option<AuraDisplay>, ui: &AmbientUi)
    requires
        *old(display) matches Some(d) ==> d.wf(),
    ensures
        *old(display) is None ==> *final(display) is None,
        *old(display) matches Some(d) ==> (*final(display) matches Some(e) && e.wf() && e.fb()
            == d.fb()),
        *final(display) matches Some(e) ==> forall|k: int|
            0 <= k < e.pixels().len() ==> #[trigger] e.pixels()[k] == if ui.ui_state()
                == UiState::Idle && crate::drivers::display::on_screen(e.fb(), k)
                && crate::drivers::display::circle_covers(
                40,
                512,
                384,
                crate::drivers::display::col_of(e.fb(), k),
                crate::drivers::display::row_of(e.fb(), k),
            ) {
                crate::drivers::display::pack_spec(cyan_spec())
            } else {
                crate::drivers::display::pack_spec(idle_background())
            },
{
    render(display, ui);
}

/// The idle background (#0A0C10).
pub open spec fn idle_background() -> Color {
    Color { r: 10, g: 12, b: 16, a: 255 }
}

/// Redraw the current state: the screen is cleared to the idle background,
/// then the idle state draws the emblem, a cyan disc of radius 40 centred at
/// (512, 384).
pub fn render(display: &mut Option<AuraDisplay>, ui: &AmbientUi)
    requires
        *old(display) matches Some(d) ==> d.wf(),
    ensures
        *old(display) is None ==> *final(display) is None,
        *old(display) matches Some(d) ==> (*final(display) matches Some(e) && e.wf() && e.fb()
            == d.fb()),
        *final(display) matches Some(e) ==> forall|k: int|
            0 <= k < e.pixels().len() ==> #[trigger] e.pixels()[k] == if ui.ui_state()
                == UiState::Idle && crate::drivers::display::on_screen(e.fb(), k)
                && crate::drivers::display::circle_covers(
                40,
                512,
                384,
                crate::drivers::display::col_of(e.fb(), k),
                crate::drivers::display::row_of(e.fb(), k),
            ) {
                crate::drivers::display::pack_spec(cyan_spec())
            } else {
                crate::drivers::display::pack_spec(idle_background())
            },
{
    match display {
        None => {},
        Some(d) => {
            d.clear(Color { r: 10, g: 12, b: 16, a: 255 });
            match current_state(ui) {
                UiState::Idle => render_idle(d),
                UiState::Active => render_active(d),
            }
        },
    }
}

fn render_idle(display: &mut AuraDisplay)
    requires
        old(display).wf(),
    ensures
        final(display).wf(),
        final(display).fb() == old(display).fb(),
        crate::drivers::display::painted(
            old(display).fb(),
            old(display).pixels(),
            final(display).pixels(),
            crate::drivers::display::pack_spec(cyan_spec()),
            |px: int, py: int| crate::drivers::display::circle_covers(40, 512, 384, px, py),
        ),
{
    display.fill_circle(512, 384, 40, Color::cyan());
}

fn render_active(display: &mut AuraDisplay)
    ensures
        *final(display) == *old(display),
{
}

} // verus!
