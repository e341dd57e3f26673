use phoenix::drivers::display::ambient_ui::{
    chat_panel_rect, command_panel_rect, current_focus, current_state, on_key, AmbientUi, Focus,
    UiState,
};
use phoenix::drivers::display::{AuraDisplay, Framebuffer};
use phoenix::drivers::input::keyboard::{
    chat_panel_key, escape_as_key, handle_key, handle_scancode, take_chat_input, ChatInput, KeyDecoder, KeyInput,
};
use phoenix::drivers::input::mouse::{data_ready, get_state, handle_byte, take_click, MouseDriver};

#[test]
fn mouse_packet_moves_cursor_and_clamps() {
    let mut m = MouseDriver::new();
    let mut ui = AmbientUi::new();
    // Header with the always-one bit, dx = +10, dy = +5 (up).
    handle_byte(&mut m, &mut ui, 0x08);
    handle_byte(&mut m, &mut ui, 10);
    handle_byte(&mut m, &mut ui, 5);
    let s = get_state(&m);
    assert_eq!((s.x, s.y), (410, 295));
    assert_eq!(current_state(&ui), UiState::Active);
    // With the x sign bit the motion is 0 - 256: 256 pixels to the left.
    handle_byte(&mut m, &mut ui, 0x18);
    handle_byte(&mut m, &mut ui, 0);
    handle_byte(&mut m, &mut ui, 0);
    assert_eq!(get_state(&m).x, 154);
}

#[test]
fn mouse_resyncs_on_bad_header() {
    let mut m = MouseDriver::new();
    let mut ui = AmbientUi::new();
    handle_byte(&mut m, &mut ui, 0x00);
    handle_byte(&mut m, &mut ui, 0x08);
    handle_byte(&mut m, &mut ui, 1);
    handle_byte(&mut m, &mut ui, 0);
    assert_eq!(get_state(&m).x, 401);
}

#[test]
fn mouse_click_focuses_command_panel() {
    let mut m = MouseDriver::new();
    let mut ui = AmbientUi::new();
    assert_eq!(current_focus(&ui), Focus::Chat);
    // Wake the UI first, then press the left button at (400, 300).
    handle_byte(&mut m, &mut ui, 0x08);
    handle_byte(&mut m, &mut ui, 0);
    handle_byte(&mut m, &mut ui, 0);
    handle_byte(&mut m, &mut ui, 0x08);
    handle_byte(&mut m, &mut ui, 1);
    handle_byte(&mut m, &mut ui, 0);
    handle_byte(&mut m, &mut ui, 0x09);
    handle_byte(&mut m, &mut ui, 0);
    handle_byte(&mut m, &mut ui, 0);
    assert!(get_state(&m).left);
    assert_eq!(current_focus(&ui), Focus::Command);
    assert_eq!(take_click(&mut m), None);
}

#[test]
fn status_byte_readiness() {
    assert!(data_ready(0x21));
    assert!(!data_ready(0x01));
    assert!(!data_ready(0x20));
}

#[test]
fn panel_rects() {
    assert!(command_panel_rect().contains(0, 0));
    assert!(command_panel_rect().contains(699, 383));
    assert!(!command_panel_rect().contains(700, 10));
    assert!(chat_panel_rect().contains(10, 384));
    assert!(!chat_panel_rect().contains(10, 768));
}

#[test]
fn chat_typing_and_taking() {
    let mut chat = ChatInput::new();
    assert_eq!(chat_panel_key(&mut chat, 'h'), None);
    assert_eq!(chat_panel_key(&mut chat, 'i'), None);
    assert_eq!(chat_panel_key(&mut chat, '\n'), Some(String::from("hi")));
    assert_eq!(take_chat_input(&mut chat), "");
    for _ in 0..300 {
        chat_panel_key(&mut chat, 'x');
    }
    assert_eq!(chat.as_str().len(), 256);
    assert_eq!(take_chat_input(&mut chat), "x".repeat(256));
    assert_eq!(take_chat_input(&mut chat), "");
}

#[test]
fn keys_route_by_focus_and_escape_idles() {
    let mut ui = AmbientUi::new();
    let mut chat = ChatInput::new();
    assert_eq!(on_key(&mut ui, &mut chat, Some('a'), false), None);
    assert_eq!(current_state(&ui), UiState::Active);
    on_key(&mut ui, &mut chat, None, true);
    assert_eq!(current_state(&ui), UiState::Idle);
    assert_eq!(take_chat_input(&mut chat), "a");
}

#[test]
fn backtick_toggles_ghost_shell() {
    let fb = Framebuffer { address: 0, pitch: 64, width: 16, height: 8, bpp: 32 };
    let mut display = Some(AuraDisplay::new(fb));
    let mut ui = AmbientUi::new();
    let mut chat = ChatInput::new();
    handle_key(&mut display, &mut ui, &mut chat, KeyInput::Unicode('`'));
    let cyan_bar = display.as_ref().unwrap().pixel_words()[0];
    assert_eq!(cyan_bar, 0xFF00_BCD4);
    handle_key(&mut display, &mut ui, &mut chat, KeyInput::Unicode('`'));
    assert_eq!(display.as_ref().unwrap().pixel_words()[0], 0xFF0A_0C10);
    handle_key(&mut display, &mut ui, &mut chat, KeyInput::Unicode('q'));
    handle_key(&mut display, &mut ui, &mut chat, KeyInput::OtherKey);
    handle_key(&mut display, &mut ui, &mut chat, KeyInput::Escape);
    assert_eq!(current_state(&ui), UiState::Idle);
    assert_eq!(take_chat_input(&mut chat), "q");
    handle_key(&mut display, &mut ui, &mut chat, KeyInput::Unicode('o'));
    handle_key(&mut display, &mut ui, &mut chat, KeyInput::Unicode('k'));
    let sent = handle_key(&mut display, &mut ui, &mut chat, KeyInput::Unicode('\n'));
    assert_eq!(sent, Some(String::from("ok")));
    assert_eq!(chat.as_str(), "");
}

#[test]
fn mouse_packet_with_press_and_negative_dy() {
    let mut m = MouseDriver::new();
    let mut ui = AmbientUi::new();
    handle_byte(&mut m, &mut ui, 0x29);
    handle_byte(&mut m, &mut ui, 0x05);
    handle_byte(&mut m, &mut ui, 0xFD);
    let s = get_state(&m);
    assert_eq!((s.x, s.y, s.left, s.right, s.middle), (405, 303, true, false, false));
    assert_eq!(current_state(&ui), UiState::Active);
    assert_eq!(current_focus(&ui), Focus::Command);
    assert_eq!(take_click(&mut m), None);
}

#[test]
fn scancodes_are_decoded_and_routed() {
    let mut dec = KeyDecoder::new();
    let mut display: Option<AuraDisplay> = None;
    let mut ui = AmbientUi::new();
    let mut chat = ChatInput::new();
    // Set 1: 0x23 = 'h' pressed, 0xA3 = released; 0x17 = 'i'; 0x1C = Enter.
    assert_eq!(handle_scancode(&mut dec, &mut display, &mut ui, &mut chat, 0x23), None);
    assert_eq!(chat.as_str(), "h");
    assert_eq!(current_state(&ui), UiState::Active);
    assert_eq!(handle_scancode(&mut dec, &mut display, &mut ui, &mut chat, 0xA3), None);
    assert_eq!(chat.as_str(), "h");
    handle_scancode(&mut dec, &mut display, &mut ui, &mut chat, 0x17);
    let sent = handle_scancode(&mut dec, &mut display, &mut ui, &mut chat, 0x1C);
    assert_eq!(sent, Some(String::from("hi")));
    assert_eq!(chat.as_str(), "");
    // 0x01 = Escape pressed.
    handle_scancode(&mut dec, &mut display, &mut ui, &mut chat, 0x01);
    assert_eq!(current_state(&ui), UiState::Idle);
}

#[test]
fn escape_character_is_the_escape_key() {
    assert_eq!(escape_as_key(KeyInput::Unicode('\u{1b}')), KeyInput::Escape);
    assert_eq!(escape_as_key(KeyInput::Unicode('a')), KeyInput::Unicode('a'));
    assert_eq!(escape_as_key(KeyInput::OtherKey), KeyInput::OtherKey);
}
