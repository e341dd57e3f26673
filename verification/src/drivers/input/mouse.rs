//! PS/2 mouse: assembles three-byte packets into cursor position and buttons.
use vstd::prelude::*;
use crate::drivers::display::ambient_ui::{on_mouse_activity, AmbientUi};

verus! {

/// Right-most cursor column.
pub const MAX_X: i32 = 1023;
/// Bottom-most cursor row.
pub const MAX_Y: i32 = 767;

/// Mouse status flags.
#[derive(Debug, Clone, Copy, PartialEq, Eq, Structural)]
pub struct MouseState {
    /// Cursor column.
    pub x: i32,
    /// Cursor row.
    pub y: i32,
    /// Left button held.
    pub left: bool,
    /// Right button held.
    pub right: bool,
    /// Middle button held.
    pub middle: bool,
}

/// `v` limited to `lo..=hi`.
pub open spec fn clamp(v: int, lo: int, hi: int) -> int {
    if v < lo {
        lo
    } else if v > hi {
        hi
    } else {
        v
    }
}

/// Clamping gives the value of `lo..=hi` nearest `v`: it lies in the range,
/// is `v` itself when `v` is in range, no point of the range is closer to
/// `v`, and it never decreases as `v` grows. So the cursor stops at the
/// screen's edges rather than wrapping round.
pub proof fn lemma_clamp_nearest(v: int, w: int, lo: int, hi: int)
    requires
        lo <= hi,
    ensures
        lo <= clamp(v, lo, hi) <= hi,
        lo <= v <= hi ==> clamp(v, lo, hi) == v,
        lo <= w <= hi ==> (if clamp(v, lo, hi) >= v { clamp(v, lo, hi) - v } else { v - clamp(
            v,
            lo,
            hi,
        ) }) <= (if w >= v { w - v } else { v - w }),
        v <= w ==> clamp(v, lo, hi) <= clamp(w, lo, hi),
{
}

/// The signed horizontal motion of a packet.
pub open spec fn packet_dx(d0: u8, d1: u8) -> int {
    if d0 & 0x10 != 0 {
        d1 - 256
    } else {
        d1 as int
    }
}

/// The signed vertical motion of a packet (positive is up).
pub open spec fn packet_dy(d0: u8, d2: u8) -> int {
    if d0 & 0x20 != 0 {
        d2 - 256
    } else {
        d2 as int
    }
}

/// The PS/2 mouse driver state.
pub struct MouseDriver {
    cycle: u8,
    data: [u8; 3],
    state: MouseState,
    pending_click: Option<(i32, i32)>,
}

impl MouseDriver {
    /// Which byte of a packet comes next (0, 1 or 2).
    pub closed spec fn cycle(&self) -> u8 {
        self.cycle
    }

    /// The bytes of the packet being assembled.
    pub closed spec fn packet(&self) -> Seq<u8> {
        self.data@
    }

    /// Cursor position and buttons.
    pub closed spec fn state(&self) -> MouseState {
        self.state
    }

    /// A click not yet consumed, at the position where the left button went down.
    pub closed spec fn pending(&self) -> Option<(i32, i32)> {
        self.pending_click
    }

    /// The cursor stays on the 1024x768 screen, the packet holds three bytes
    /// and the packet cycle is in range.
    #[verifier::type_invariant]
    pub open spec fn wf(&self) -> bool {
        &&& self.packet().len() == 3
        &&& self.cycle() <= 2
        &&& 0 <= self.state().x <= MAX_X
        &&& 0 <= self.state().y <= MAX_Y
    }

    /// The driver at boot: cursor at (400, 300), no buttons, no click pending.
    pub fn new() -> (m: Self)
        ensures
            m.wf(),
            m.packet().len() == 3,
            m.cycle() == 0,
            m.state() == (MouseState { x: 400, y: 300, left: false, right: false, middle: false }),
            m.pending() is None,
    {
        MouseDriver {
            cycle: 0,
            data: [0, 0, 0],
            state: MouseState { x: 400, y: 300, left: false, right: false, middle: false },
            pending_click: None,
        }
    }
}

/// Whether the controller status says a mouse byte is waiting (output full, auxiliary).
pub fn data_ready(status: u8) -> (r: bool)
    ensures
        r == (status & 0x01 != 0 && status & 0x20 != 0),
{
    (status & 0x01) != 0 && (status & 0x20) != 0
}

fn clamp_i32(v: i32, lo: i32, hi: i32) -> (r: i32)
    requires
        lo <= hi,
    ensures
        r == clamp(v as int, lo as int, hi as int),
{
    if v < lo {
        lo
    } else if v > hi {
        hi
    } else {
        v
    }
}

/// Feed one byte from the mouse. The first byte of a packet is kept only when
/// its always-one bit (0x08) is set, which keeps the stream in step. On the
/// third byte the packet is applied: the cursor moves by the packet's motion
/// (up is positive) and is held on screen, the buttons are taken over, a
/// press of the left button records a click there, and any motion or left
/// button change is reported to the ambient UI.
pub fn handle_byte(mouse: &mut MouseDriver, ui: &mut AmbientUi, data: u8)
    ensures
        final(mouse).wf(),
        old(mouse).cycle() == 0 ==> {
            &&& final(mouse).cycle() == if data & 0x08 != 0 { 1u8 } else { 0u8 }
            &&& final(mouse).packet() == old(mouse).packet().update(0, data)
            &&& final(mouse).state() == old(mouse).state()
            &&& final(mouse).pending() == old(mouse).pending()
            &&& *final(ui) == *old(ui)
        },
        old(mouse).cycle() == 1 ==> {
            &&& final(mouse).cycle() == 2
            &&& final(mouse).packet() == old(mouse).packet().update(1, data)
            &&& final(mouse).state() == old(mouse).state()
            &&& final(mouse).pending() == old(mouse).pending()
            &&& *final(ui) == *old(ui)
        },
        old(mouse).cycle() == 2 ==> {
            let d0 = old(mouse).packet()[0];
            let d1 = old(mouse).packet()[1];
            let s0 = old(mouse).state();
            let s = final(mouse).state();
            let left = d0 & 0x01 != 0;
            let moved = packet_dx(d0, d1) != 0 || packet_dy(d0, data) != 0;
            &&& final(mouse).cycle() == 0
            &&& final(mouse).packet() == old(mouse).packet().update(2, data)
            &&& s.x == clamp(s0.x + packet_dx(d0, d1), 0, MAX_X as int)
            &&& s.y == clamp(s0.y - packet_dy(d0, data), 0, MAX_Y as int)
            &&& s.left == left
            &&& s.right == (d0 & 0x02 != 0)
            &&& s.middle == (d0 & 0x04 != 0)
            &&& (moved || left != s0.left) ==> {
                let click = if left && !s0.left {
                    Some((s.x, s.y))
                } else {
                    old(mouse).pending()
                };
                &&& final(mouse).pending() is None
                &&& final(ui).ui_state() == crate::drivers::display::ambient_ui::UiState::Active
                &&& final(ui).focus() == crate::drivers::display::ambient_ui::focus_after_click(
                    old(ui).focus(),
                    click,
                )
                &&& final(ui).command_text() == old(ui).command_text()
            }
            &&& !(moved || left != s0.left) ==> {
                &&& final(mouse).pending() == old(mouse).pending()
                &&& *final(ui) == *old(ui)
            }
        },
{
    proof {
        use_type_invariant(&*mouse);
    }
    if mouse.cycle == 0 {
        mouse.data[0] = data;
        if (data & 0x08) != 0 {
            mouse.cycle = 1;
        }
    } else if mouse.cycle == 1 {
        mouse.data[1] = data;
        mouse.cycle = 2;
    } else {
        mouse.data[2] = data;
        mouse.cycle = 0;
        let d0 = mouse.data[0];
        let left = (d0 & 0x01) != 0;
        let right = (d0 & 0x02) != 0;
        let middle = (d0 & 0x04) != 0;
        let mut dx = mouse.data[1] as i32;
        let mut dy = mouse.data[2] as i32;
        if (d0 & 0x10) != 0 {
            dx = dx - 256;
        }
        if (d0 & 0x20) != 0 {
            dy = dy - 256;
        }
        let was_left = mouse.state.left;
        mouse.state.x = clamp_i32(mouse.state.x + dx, 0, MAX_X);
        mouse.state.y = clamp_i32(mouse.state.y - dy, 0, MAX_Y);
        mouse.state.left = left;
        mouse.state.right = right;
        mouse.state.middle = middle;
        let moved = dx != 0 || dy != 0;
        let cx = mouse.state.x;
        let cy = mouse.state.y;
        if left && !was_left {
            mouse.pending_click = Some((cx, cy));
        }
        if moved || left != was_left {
            on_mouse_activity(ui, mouse);
        }
    }
}

/// Current tracked cursor position and button state.
pub fn get_state(mouse: &MouseDriver) -> (s: MouseState)
    ensures
        s == mouse.state(),
{
    mouse.state
}

/// Consume the pending click, if any: it is returned at most once.
pub fn take_click(mouse: &mut MouseDriver) -> (c: Option<(i32, i32)>)
    ensures
        c == old(mouse).pending(),
        final(mouse).pending() is None,
        final(mouse).state() == old(mouse).state(),
        final(mouse).cycle() == old(mouse).cycle(),
        final(mouse).packet() == old(mouse).packet(),
{
    proof {
        use_type_invariant(&*mouse);
    }
    let c = mouse.pending_click;
    mouse.pending_click = None;
    c
}

/// A click is handed out once: after `take_click` (which leaves no pending
/// click), a second `take_click` yields nothing.
pub proof fn lemma_click_taken_once(middle: MouseDriver, second: Option<(i32, i32)>)
    requires
        middle.pending() is None,
        second == middle.pending(),
    ensures
        second is None,
{
}

} // verus!
