use phoenix::arch::x86_64::pci::{device_ids, discovered_device, pci_config_address};
use phoenix::calliope::{execute, learn_concept, speak, Skill};
use phoenix::drivers::audio::speaker::{
    beep_success, phrase_label, phrase_tones, speaker_off, speaker_on, tone_reload_bytes,
    vocal_frequency, vocal_line_tones, HarmonicPhrase,
};
use phoenix::drivers::display::aura::colors::{INTENT_CYAN, MATTE_WHITE, PHOENIX_GOLD};
use phoenix::drivers::display::aura::{draw_hline, draw_pixel, draw_vline};
use phoenix::drivers::display::engine::{self, materialize, Engine, Pattern, RenderStep};
use phoenix::drivers::display::{AuraDisplay, Color, Framebuffer};
use phoenix::drivers::manager::{register, Device, DeviceManager, DeviceType};
use phoenix::drivers::proxy::{isolate_device, DriverProxy};
use phoenix::mnemosyne::KnowledgeGraph;
use phoenix::synapse::Prosody;

#[test]
fn phrases_have_their_scales() {
    assert_eq!(phrase_tones(HarmonicPhrase::StartingTask), vec![440, 554, 659]);
    assert_eq!(phrase_tones(HarmonicPhrase::TaskCompleted), vec![659, 554, 440]);
    assert_eq!(phrase_tones(HarmonicPhrase::Thinking), vec![220]);
    assert_eq!(phrase_tones(HarmonicPhrase::Alert), vec![880, 987]);
    assert_eq!(beep_success(), vec![659, 554, 440]);
    assert_eq!(phrase_label(HarmonicPhrase::Alert), "ALERT (Rapid chirp)");
}

#[test]
fn tone_reload_bytes_divide_the_pit_clock() {
    assert_eq!(tone_reload_bytes(0), None);
    // 1_193_180 / 440 = 2711 = 0x0A97
    assert_eq!(tone_reload_bytes(440), Some((0x97, 0x0A)));
    // 1_193_180 / 1 = 0x1234DC: the high byte is truncated to 0x34
    assert_eq!(tone_reload_bytes(1), Some((0xDC, 0x34)));
}

#[test]
fn speaker_gate_bits() {
    assert_eq!(speaker_on(0x00), Some(0x03));
    assert_eq!(speaker_on(0x31), Some(0x33));
    assert_eq!(speaker_on(0x03), None);
    assert_eq!(speaker_off(0x33), 0x30);
    assert_eq!(speaker_off(0xFF), 0xFC);
}

#[test]
fn vocal_line_maps_characters_to_tones() {
    assert_eq!(vocal_frequency('a'), 440);
    assert_eq!(vocal_frequency('E'), 440);
    assert_eq!(vocal_frequency('S'), 880);
    assert_eq!(vocal_frequency('g'), 220);
    assert_eq!(vocal_frequency(' '), 0);
    assert_eq!(vocal_frequency('z'), 330);
    assert_eq!(vocal_frequency('!'), 330);
    assert_eq!(vocal_line_tones("Hi bot"), vec![880, 440, 220, 440, 330]);
    assert!(vocal_line_tones("   ").is_empty());
}

#[test]
fn aura_lines_change_nothing() {
    draw_pixel(1, 2, PHOENIX_GOLD);
    draw_hline(390, 290, 20, PHOENIX_GOLD);
    draw_vline(400, 280, 20, PHOENIX_GOLD);
    draw_hline(usize::MAX, 0, 1, INTENT_CYAN);
}

#[test]
fn engine_patterns() {
    let mut e = Engine::new();
    assert_eq!(e.focus_point, (400, 300));
    let steps = engine::init(&mut e);
    assert_eq!(steps.len(), 2);
    assert!(matches!(steps[0], RenderStep::Ring { x: 400, y: 300, radius: 40, color: INTENT_CYAN }));
    assert!(matches!(steps[1], RenderStep::Ring { radius: 60, .. }));
    let steps = materialize(&mut e, Pattern::VoiceActivity);
    assert!(matches!(steps[0], RenderStep::Ring { radius: 45, color: MATTE_WHITE, .. }));
    assert!(matches!(steps[1], RenderStep::Ring { radius: 55, color: INTENT_CYAN, .. }));
    let steps = materialize(&mut e, Pattern::Materialize);
    assert!(matches!(steps[0], RenderStep::ClearScreen));
    assert!(matches!(steps[1], RenderStep::Workspace("General Purpose")));
    let steps = materialize(&mut e, Pattern::Idle);
    assert_eq!(steps.len(), 1);
    assert!(matches!(steps[0], RenderStep::Emblem));
    assert_eq!(e.active_pattern, Pattern::Idle);
}

#[test]
fn speaking_plays_prosody_phrase_between_patterns() {
    let mut e = Engine::new();
    let s = speak(&mut e, Prosody::Urgent);
    assert_eq!(s.phrase, HarmonicPhrase::Alert);
    assert_eq!(s.tones, vec![880, 987]);
    assert_eq!(s.voice.len(), 2);
    assert!(matches!(s.idle[0], RenderStep::Emblem));
    assert_eq!(e.active_pattern, Pattern::Idle);
    assert_eq!(speak(&mut e, Prosody::Empathetic).phrase, HarmonicPhrase::Thinking);
    assert_eq!(speak(&mut e, Prosody::Calm).phrase, HarmonicPhrase::StartingTask);
}

#[test]
fn learning_a_concept_adds_a_node() {
    let mut g = KnowledgeGraph::new();
    let mut e = Engine::new();
    let l = learn_concept(&mut g, &mut e, "Warp Drive");
    assert_eq!(l.question, "I am unfamiliar with 'Warp Drive'. Is this a system component?");
    assert_eq!(l.node_id, 0);
    assert_eq!(g.node(0).unwrap().label, "Warp Drive");
    assert_eq!(l.asking.phrase, HarmonicPhrase::Thinking);
    assert_eq!(l.confirming.phrase, HarmonicPhrase::StartingTask);
    let l2 = learn_concept(&mut g, &mut e, "Flux");
    assert_eq!(l2.node_id, 1);
}

#[test]
fn skills_always_complete() {
    let s = Skill { name: String::from("hello"), bytecode: vec![0, 0x61, 0x73, 0x6d] };
    assert_eq!(execute(&s), Ok(()));
}

#[test]
fn device_registry_keeps_order() {
    let mut m = DeviceManager::new();
    register(&mut m, Device { name: String::from("kbd"), device_type: DeviceType::Input, bus_info: None });
    register(&mut m, Device { name: String::from("disk"), device_type: DeviceType::Storage, bus_info: None });
    assert_eq!(m.len(), 2);
    assert_eq!(m.get(0).name, "kbd");
    assert_eq!(m.get(1).device_type, DeviceType::Storage);
}

#[test]
fn isolating_a_device_registers_its_proxy() {
    let mut m = DeviceManager::new();
    let msg = isolate_device(&mut m, "eth0", DeviceType::Network);
    assert_eq!(msg.sender, "KernelProxy");
    assert_eq!(msg.target, "UserSpaceDriver");
    assert_eq!(msg.intent, "Command: INIT_ISOLATED");
    assert_eq!(m.len(), 1);
    assert_eq!(m.get(0).name, "Proxy-eth0");
    assert_eq!(m.get(0).device_type, DeviceType::Network);
    assert_eq!(m.get(0).bus_info.as_deref(), Some("Isolated via Stark"));
    let p = DriverProxy::new(String::from("gpu"), 7);
    assert_eq!(p.capability_token_id, 7);
    assert_eq!(p.dispatch_command("RESET").intent, "Command: RESET");
}

#[test]
fn pci_addresses_and_devices() {
    assert_eq!(pci_config_address(0, 0, 0, 0), 0x8000_0000);
    assert_eq!(pci_config_address(1, 2, 3, 0x13), 0x8001_1310);
    assert_eq!(device_ids(0xFFFF_FFFF), None);
    assert_eq!(device_ids(0x1234_8086), Some((0x8086, 0x1234)));
    assert!(discovered_device(0, 0, 0x0000_FFFF).is_none());
    let d = discovered_device(2, 31, 0x100E_8086).unwrap();
    assert_eq!(d.name, "PCI-8086:100e");
    assert_eq!(d.device_type, DeviceType::Unknown);
    assert_eq!(d.bus_info.as_deref(), Some("PCI Bus 2, Slot 31"));
}

fn small_fb() -> Framebuffer {
    Framebuffer { address: 0, pitch: 160, width: 40, height: 30, bpp: 32 }
}

#[test]
fn display_init_draws_centered_square() {
    let d = phoenix::drivers::display::init(small_fb());
    let px = d.pixel_words();
    assert_eq!(px.len(), 40 * 30);
    let cyan = Color::cyan().pack();
    let black = Color::black().pack();
    assert_eq!(cyan, 0xFF00_BCD4);
    assert_eq!(black, 0xFF0A_0C10);
    assert_eq!(px[15 * 40 + 20], cyan);
    assert_eq!(px[5 * 40 + 10], cyan);
    assert_eq!(px[4 * 40 + 10], black);
    assert_eq!(px[0], black);
}

#[test]
fn fill_circle_covers_center_and_stays_in_box() {
    let mut d = AuraDisplay::new(small_fb());
    d.fill_circle(20, 15, 5, Color::white());
    let px = d.pixel_words();
    let white = Color::white().pack();
    assert_eq!(px[15 * 40 + 20], white);
    assert_eq!(px[15 * 40 + 25], white);
    assert_eq!(px[15 * 40 + 15], white);
    assert_eq!(px[10 * 40 + 20], white);
    assert_eq!(px[15 * 40 + 26], 0);
    assert_eq!(px[9 * 40 + 20], 0);
    for y in 1..30usize {
        for x in 1..40usize {
            let on = px[y * 40 + x] == white;
            assert_eq!(on, px[y * 40 + (40 - x)] == white, "mirror in x at {x},{y}");
            assert_eq!(on, px[(30 - y) * 40 + x] == white, "mirror in y at {x},{y}");
            if on {
                assert!((15..=25).contains(&x) && (10..=20).contains(&y));
            }
        }
    }
}

#[test]
fn plot_drops_negative_points() {
    let mut d = AuraDisplay::new(small_fb());
    d.plot(-1, 3, 1, 2, 3);
    assert!(d.pixel_words().iter().all(|&w| w == 0));
    d.plot(3, 2, 1, 2, 3);
    assert_eq!(d.pixel_words()[2 * 40 + 3], 0xFF01_0203);
    d.plot(40, 2, 1, 2, 3);
    assert_eq!(d.pixel_words().iter().filter(|&&w| w != 0).count(), 1);
}

#[test]
fn fill_circle_rows_are_single_spans_and_reach_axis_points() {
    let mut d = AuraDisplay::new(small_fb());
    d.fill_circle(20, 15, 7, Color::cyan());
    let px = d.pixel_words();
    let cyan = Color::cyan().pack();
    for (x, y) in [(13usize, 15usize), (27, 15), (20, 8), (20, 22)] {
        assert_eq!(px[y * 40 + x], cyan, "axis point {x},{y}");
    }
    for y in 0..30usize {
        let row: Vec<usize> = (0..40usize).filter(|&x| px[y * 40 + x] == cyan).collect();
        if let (Some(&first), Some(&last)) = (row.first(), row.last()) {
            assert_eq!(row.len(), last - first + 1, "row {y} is one span");
        }
    }
}
