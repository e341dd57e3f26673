use phoenix::aegis::{self, Aegis};
use phoenix::arch::x86_64::fingerprint::{gather_from, supports_huge_pages, vendor_bytes};
use phoenix::arch::x86_64::interrupts::{reflective_audit, InterruptIndex};
use phoenix::arch::x86_64::morph::{self, HotPath, MorphTable};
use phoenix::arch::x86_64::time::Clock;
use phoenix::audit::AuditLog;
use phoenix::ego::{get_state, issue_token, set_state, Ego, PresenceState};
use phoenix::events::{publish, EventBus, SIGNIFICANCE_0_6, SIGNIFICANCE_0_8, SIGNIFICANCE_0_9};
use phoenix::hermes::{dispatch, parse, Dispatch, INTENT_SIGNIFICANCE};
use phoenix::kairos::{get_context, set_intent, set_mood, Context};
use phoenix::mem::frame::{BootFrameAllocator, MemoryRegion};
use phoenix::mem::heap::{heap_pages, page_range, HEAP_SIZE, HEAP_START};
use phoenix::mnemosyne::{add_node, add_relation, KnowledgeGraph};
use phoenix::memory::Relation;
use phoenix::net::udp::{process_packet, PacketKind};
use phoenix::pkg;
use phoenix::pulse::{check_pressure, monitor, PulseAction};
use phoenix::qemu_exit::{exit_status, QemuExitCode};
use phoenix::security::Token;
use phoenix::sentinel::analyze_intent;
use phoenix::synapse::{Dialect, Message, Prosody};

#[test]
fn ego_transitions_publish_and_chime_on_idle() {
    let mut ego = Ego::new();
    let mut bus = EventBus::new();
    assert_eq!(get_state(&ego), PresenceState::Initializing);
    assert!(!set_state(&mut ego, &mut bus, PresenceState::Active));
    assert!(set_state(&mut ego, &mut bus, PresenceState::Idle));
    assert_eq!(get_state(&ego), PresenceState::Idle);
    assert_eq!(bus.len(), 2);
    assert_eq!(bus.get(0).name, "Ego: State transition Initializing -> Active");
    assert_eq!(bus.get(1).name, "Ego: State transition Active -> Idle");
    assert_eq!(bus.get(1).significance_bits, SIGNIFICANCE_0_8);
}

#[test]
fn issued_tokens_have_increasing_ids() {
    let mut ego = Ego::new();
    let a = issue_token(&mut ego);
    let b = issue_token(&mut ego);
    assert_eq!(a.id, 1);
    assert_eq!(b.id, 2);
    assert_eq!(ego.tokens_issued(), 3);
}

#[test]
fn events_are_appended() {
    let mut bus = EventBus::new();
    publish(&mut bus, "boot", SIGNIFICANCE_0_6);
    publish(&mut bus, "ready", SIGNIFICANCE_0_9);
    assert_eq!(bus.len(), 2);
    assert_eq!(bus.get(0).name, "boot");
    assert_eq!(bus.get(1).significance_bits, SIGNIFICANCE_0_9);
    assert!(bus.get(1).data.is_none());
}

#[test]
fn kairos_tracks_intent_and_mood() {
    let mut ctx = Context::new();
    let mut bus = EventBus::new();
    assert_eq!(ctx.active_intent, "Initialization");
    assert_eq!(ctx.system_mood, "Calm");
    set_intent(&mut ctx, &mut bus, "Compile");
    set_mood(&mut ctx, String::from("Focused"));
    let c = get_context(&ctx);
    assert_eq!(c.active_intent, "Compile");
    assert_eq!(c.system_mood, "Focused");
    assert_eq!(c.attention_focus, "KernelCore");
    assert_eq!(bus.get(0).name, "Kairòs: Intent shift -> Compile");
}

#[test]
fn pulse_thresholds() {
    let mut ego = Ego::new();
    let mut bus = EventBus::new();
    assert_eq!(monitor(&mut bus, &mut ego), PulseAction::Nothing);
    assert_eq!(check_pressure(&mut bus, &mut ego, 50), PulseAction::Nothing);
    assert_eq!(bus.len(), 0);
    assert_eq!(check_pressure(&mut bus, &mut ego, 51), PulseAction::Prune(51));
    assert_eq!(bus.get(0).name, "Pulse: Moderate Memory Pressure");
    assert_eq!(get_state(&ego), PresenceState::Initializing);
    assert_eq!(check_pressure(&mut bus, &mut ego, 81), PulseAction::Prune(81));
    assert_eq!(bus.get(1).name, "Pulse: CRITICAL Memory Pressure");
    assert_eq!(get_state(&ego), PresenceState::Dreaming);
}

#[test]
fn hermes_parses_actions() {
    let i = parse("please research black holes");
    assert_eq!(i.action, "KnowledgeQuery");
    assert_eq!(i.raw, "please research black holes");
    assert_eq!(i.significance_bits, INTENT_SIGNIFICANCE);
    assert_eq!(parse("fix the network").action, "SelfRepair");
    assert_eq!(parse("heal yourself").action, "SelfRepair");
    assert_eq!(parse("hello there").action, "GeneralInteraction");
    assert!(matches!(dispatch(&parse("fix it")), Dispatch::Heal("TargetedService")));
    match dispatch(&parse("hello")) {
        Dispatch::Send(m) => {
            assert_eq!(m.sender, "Hermes");
            assert_eq!(m.target, "CognitiveCore");
            assert_eq!(m.intent, "GeneralInteraction");
        }
        Dispatch::Heal(_) => panic!("expected a message"),
    }
}

#[test]
fn sentinel_flags_bypass_and_restricted_service() {
    let mut audit = AuditLog::new();
    let clock = Clock::new();
    let mut ego = Ego::new();
    let mut bus = EventBus::new();
    let kernel = Token::empty(0);
    assert!(!analyze_intent(&mut audit, &clock, &mut ego, &mut bus, &kernel, "Display", "draw"));
    assert_eq!(audit.len(), 0);
    assert!(analyze_intent(&mut audit, &clock, &mut ego, &mut bus, &kernel, "Display", "bypass auth"));
    assert_eq!(get_state(&ego), PresenceState::Maintenance);
    assert_eq!(audit.get(0).outcome, "Neutralized");
    assert!(analyze_intent(&mut audit, &clock, &mut ego, &mut bus, &kernel, "RestrictedDebugService", "x"));
    assert_eq!(audit.len(), 2);
}

#[test]
fn aegis_verifies_after_init() {
    let mut a = Aegis::new();
    assert_eq!(a.reference_hash(), 0);
    assert!(!aegis::verify(&a));
    assert_eq!(aegis::init(&mut a), 0xAAAA_BBBB_CCCC_DDDD);
    assert!(aegis::verify(&a));
}

#[test]
fn qemu_exit_codes() {
    assert_eq!(QemuExitCode::Success.code(), 0x10);
    assert_eq!(QemuExitCode::Failed.code(), 0x11);
    assert_eq!(exit_status(QemuExitCode::Success), 33);
    assert_eq!(exit_status(QemuExitCode::Failed), 35);
}

#[test]
fn base_packages() {
    let l = pkg::list();
    assert_eq!(l.len(), 2);
    assert_eq!(l[0].name, "core-utils");
    assert_eq!(l[0].version, "1.0.0");
    assert_eq!(l[1].name, "shell-basic");
    assert_eq!(l[1].version, "0.1.0");
}

#[test]
fn network_interface_and_packets() {
    let eth0 = phoenix::net::init();
    assert_eq!(eth0.name, "eth0");
    assert_eq!(eth0.ip_addr, [192, 168, 1, 10]);
    assert_eq!(process_packet(&[0u8; 20]), PacketKind::Unrecognized);
    assert_eq!(process_packet(&[0u8; 21]), PacketKind::Ipv4);
    assert_eq!(process_packet(&[0u8; 28]), PacketKind::Ipv4);
    assert_eq!(process_packet(&[0u8; 29]), PacketKind::Ipv4Udp);
}

#[test]
fn heap_page_range() {
    assert_eq!(HEAP_START, 0x_4444_4444_0000);
    assert_eq!(HEAP_SIZE, 32 * 1024 * 1024);
    let (first, last) = heap_pages();
    assert_eq!(first, 0x_4444_4444_0000);
    assert_eq!(last, 0x_4444_4444_0000 + 32 * 1024 * 1024 - 4096);
    assert_eq!(page_range(0x1001, 1), (0x1000, 0x1000));
    assert_eq!(page_range(0x1fff, 2), (0x1000, 0x2000));
}

#[test]
fn frame_allocator_skips_reserved_and_unavailable() {
    let regions = vec![
        MemoryRegion { start: 0, size: 0x3000, available: true },
        MemoryRegion { start: 0x10000, size: 0x2000, available: false },
        MemoryRegion { start: 0x20000, size: 0x2000, available: true },
    ];
    let mut a = BootFrameAllocator::init(regions, 0x2000);
    assert_eq!(a.allocate_frame(), Some(0x2000));
    assert_eq!(a.allocate_frame(), Some(0x20000));
    assert_eq!(a.allocate_frame(), Some(0x21000));
    assert_eq!(a.allocate_frame(), None);
    assert_eq!(a.allocate_frame(), None);
}

#[test]
fn fingerprint_from_cpuid_registers() {
    // "GenuineIntel": EBX="Genu", EDX="ineI", ECX="ntel".
    let ebx = u32::from_le_bytes(*b"Genu");
    let edx = u32::from_le_bytes(*b"ineI");
    let ecx = u32::from_le_bytes(*b"ntel");
    assert_eq!(vendor_bytes(ebx, edx, ecx), b"GenuineIntel".to_vec());
    let fp = gather_from(ebx, edx, ecx, 1 << 26);
    assert_eq!(fp.cpu_vendor, "GenuineIntel");
    assert!(fp.has_huge_pages);
    assert!(!supports_huge_pages(!(1u32 << 26)));
    let bad = gather_from(0xFFFF_FFFF, 0, 0, 0);
    assert_eq!(bad.cpu_vendor, "InvalidVendorString");
    assert!(!bad.has_huge_pages);
}

#[test]
fn morph_selects_paths_and_copies() {
    let mut t = MorphTable::new();
    assert_eq!(t.memcpy, HotPath::Generic);
    let fp = gather_from(0, 0, 0, 1 << 26);
    morph::morph(&mut t, &fp);
    assert_eq!(t.memcpy, HotPath::AvxOptimized);
    assert_eq!(t.memset, HotPath::AvxOptimized);
    let mut dst = [9u8; 5];
    morph::memcpy(&t, &mut dst, &[1, 2, 3], 2);
    assert_eq!(dst, [1, 2, 9, 9, 9]);
    morph::memset(&t, &mut dst, 7, 3);
    assert_eq!(dst, [7, 7, 7, 9, 9]);
    let legacy = gather_from(0, 0, 0, 0);
    morph::morph(&mut t, &legacy);
    assert_eq!(t.memset, HotPath::Generic);
}

#[test]
fn interrupt_vectors_and_reflection() {
    assert_eq!(InterruptIndex::Timer.vector(), 32);
    assert_eq!(u8::from(InterruptIndex::Keyboard), 33);
    assert_eq!(usize::from(InterruptIndex::Mouse), 44);
    let mut audit = AuditLog::new();
    let clock = Clock::new();
    reflective_audit(&mut audit, &clock, "Breakpoint", "Handled");
    assert_eq!(audit.len(), 1);
    assert_eq!(audit.get(0).action, "EXCEPTION: Breakpoint - Handled");
    assert_eq!(audit.get(0).outcome, "Reflected");
    assert_eq!(audit.get(0).token_id, 0);
}

#[test]
fn synapse_messages() {
    let m = Message::new("a", "b", String::from("ping"));
    assert_eq!(m.prosody, Prosody::Calm);
    assert_eq!(m.dialect, Dialect::NaturalLanguage);
    assert!(m.frame.is_none() && m.payload.is_none());
    let m = m.with_frame(0x1000, 64);
    let f = m.frame.unwrap();
    assert_eq!((f.phys_addr, f.size), (0x1000, 64));
    assert_eq!(m.intent, "ping");
}

#[test]
fn knowledge_graph_ids_are_positions() {
    let mut g = KnowledgeGraph::new();
    assert_eq!(add_node(&mut g, String::from("Kernel")), 0);
    assert_eq!(add_node(&mut g, String::from("Scheduler")), 1);
    add_relation(&mut g, 1, 0, Relation::PartOf);
    assert_eq!(g.node_count(), 2);
    assert_eq!(g.edge_count(), 1);
    assert_eq!(g.edge(0).relation, Relation::PartOf);
    assert_eq!(g.node(1).unwrap().label, "Scheduler");
    assert!(g.node(2).is_none());
}

#[test]
fn frame_allocator_hands_out_distinct_frames_then_stays_exhausted() {
    let regions = vec![
        MemoryRegion { start: 0x1000, size: 0x4000, available: true },
        MemoryRegion { start: 0x8000, size: 0x1000, available: false },
        MemoryRegion { start: 0x10000, size: 0x3000, available: true },
    ];
    let mut a = BootFrameAllocator::init(regions, 0x3000);
    let mut frames = Vec::new();
    while let Some(f) = a.allocate_frame() {
        assert!(f >= 0x3000);
        assert!(!frames.contains(&f));
        frames.push(f);
    }
    assert_eq!(frames, vec![0x3000, 0x4000, 0x10000, 0x11000, 0x12000]);
    assert_eq!(a.allocate_frame(), None);
    assert_eq!(a.allocate_frame(), None);
}
