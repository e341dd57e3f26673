use phoenix::arch::x86_64::time::{get_uptime, pit_divisor, tick, Clock};
use phoenix::audit::{calculate_hash, log, AuditLog};
use phoenix::security::{Capability, Token};

#[test]
fn empty_token_has_no_capability() {
    let t = Token::empty(7);
    assert_eq!(t.id, 7);
    assert!(!t.has(Capability::AuditWrite));
    assert!(!t.has(Capability::ServiceRegister));
}

#[test]
fn grant_adds_only_that_capability() {
    let mut t = Token::empty(3);
    t.grant(Capability::MemMap);
    assert!(t.has(Capability::MemMap));
    assert!(!t.has(Capability::MemAlloc));
    assert!(!t.has(Capability::AuditWrite));
    assert_eq!(t.id, 3);
}

#[test]
fn capability_slots_are_distinct() {
    assert_eq!(Capability::SerialWrite.slot(), 0);
    assert_eq!(Capability::ServiceRegister.slot(), 5);
    assert_eq!(Capability::AuditWrite.slot(), 7);
}

#[test]
fn calculate_hash_adds_rotates_and_mixes_each_byte() {
    // One step per byte: add it, rotate left by 7, xor 0xDEAD_BEEF_CAFE_BABE.
    assert_eq!(calculate_hash(0, ""), 0);
    assert_eq!(calculate_hash(1, ""), 1);
    assert_eq!(calculate_hash(0, "A"), 0xdead_beef_cafe_9a3e);
    assert_eq!(calculate_hash(1, "A"), 0xdead_beef_cafe_9bbe);
    assert_eq!(calculate_hash(0, "AB"), 0x8872_c90a_b5b3_fad1);
}

#[test]
fn audit_log_chains_entries() {
    let mut audit = AuditLog::new();
    let mut clock = Clock::new();
    tick(&mut clock);
    tick(&mut clock);
    let kernel = Token::empty(0);
    assert!(log(&mut audit, &clock, &kernel, String::from("first"), "Success"));
    tick(&mut clock);
    assert!(log(&mut audit, &clock, &kernel, String::from("second"), "Denied"));
    assert_eq!(audit.len(), 2);
    let e0 = audit.get(0);
    let e1 = audit.get(1);
    assert_eq!(e0.timestamp, 2);
    assert_eq!(e1.timestamp, 3);
    assert_eq!(e0.action, "first");
    assert_eq!(e1.outcome, "Denied");
    assert_eq!(e0.chain_hash, calculate_hash(0xFEED_FACE_CAFE_BEEF, "first"));
    assert_eq!(e0.chain_hash, 0x916a_756b_10ed_1055);
    assert_eq!(e1.chain_hash, calculate_hash(e0.chain_hash, "second"));
}

#[test]
fn audit_log_refuses_token_without_audit_write() {
    let mut audit = AuditLog::new();
    let clock = Clock::new();
    let stranger = Token::empty(9);
    assert!(!log(&mut audit, &clock, &stranger, String::from("sneaky"), "Success"));
    assert_eq!(audit.len(), 0);
    let mut writer = Token::empty(9);
    writer.grant(Capability::AuditWrite);
    assert!(log(&mut audit, &clock, &writer, String::from("allowed"), "Success"));
    assert_eq!(audit.len(), 1);
    assert_eq!(audit.get(0).token_id, 9);
}

#[test]
fn clock_counts_ticks() {
    let mut clock = Clock::new();
    assert_eq!(get_uptime(&clock), 0);
    for _ in 0..5 {
        tick(&mut clock);
    }
    assert_eq!(get_uptime(&clock), 5);
}

#[test]
fn pit_divisor_for_100_hz() {
    let (d, lo, hi) = pit_divisor(100);
    assert_eq!(d, 11931);
    assert_eq!(lo, (11931 % 256) as u8);
    assert_eq!(hi, (11931 / 256) as u8);
}

#[test]
fn hash_of_concatenation_chains() {
    for h in [0u64, 1, 0xFEED_FACE_CAFE_BEEF] {
        assert_eq!(calculate_hash(h, ""), h);
        assert_eq!(calculate_hash(h, "AB"), calculate_hash(calculate_hash(h, "A"), "B"));
        assert_eq!(
            calculate_hash(h, "Register Service: Net"),
            calculate_hash(calculate_hash(h, "Register "), "Service: Net")
        );
    }
}
