use phoenix::arch::x86_64::time::Clock;
use phoenix::audit::AuditLog;
use phoenix::ego::{get_state, Ego, PresenceState};
use phoenix::events::EventBus;
use phoenix::security::{Capability, Token};
use phoenix::services::{find, register, register_decoy, register_secure, ServiceRegistry};

fn registrar() -> Token {
    let mut t = Token::empty(0);
    t.grant(Capability::ServiceRegister);
    t.grant(Capability::AuditWrite);
    t
}

#[test]
fn register_then_find_returns_entry() {
    let mut reg = ServiceRegistry::new();
    let mut audit = AuditLog::new();
    let clock = Clock::new();
    let mut ego = Ego::new();
    let mut bus = EventBus::new();
    let t = registrar();
    assert!(register(&mut reg, &mut audit, &clock, "Display", 2, &t));
    assert_eq!(reg.len(), 1);
    let found = find(&reg, &mut audit, &clock, &mut ego, &mut bus, "Display", &t).unwrap();
    assert_eq!(found.name, "Display");
    assert_eq!(found.version, 2);
    // One audit entry for the registration, one for the granted access.
    assert_eq!(audit.len(), 2);
    assert_eq!(audit.get(0).action, "Register Service: Display");
    assert_eq!(audit.get(0).outcome, "Success");
    assert_eq!(audit.get(1).action, "Access Service: Display");
    assert_eq!(audit.get(1).outcome, "Granted");
}

#[test]
fn register_without_capability_is_denied_and_audited() {
    let mut reg = ServiceRegistry::new();
    let mut audit = AuditLog::new();
    let clock = Clock::new();
    let mut t = Token::empty(0);
    t.grant(Capability::AuditWrite);
    assert!(!register(&mut reg, &mut audit, &clock, "Rogue", 1, &t));
    assert_eq!(reg.len(), 0);
    assert_eq!(audit.len(), 1);
    assert_eq!(audit.get(0).outcome, "Denied (Unauthorized)");
}

#[test]
fn unknown_service_is_not_found_and_nothing_changes() {
    let reg = ServiceRegistry::new();
    let mut audit = AuditLog::new();
    let clock = Clock::new();
    let mut ego = Ego::new();
    let mut bus = EventBus::new();
    let t = registrar();
    assert!(find(&reg, &mut audit, &clock, &mut ego, &mut bus, "Nothing", &t).is_none());
    assert_eq!(audit.len(), 0);
    assert_eq!(bus.len(), 0);
}

#[test]
fn secure_service_needs_its_capability() {
    let mut reg = ServiceRegistry::new();
    let mut audit = AuditLog::new();
    let clock = Clock::new();
    let mut ego = Ego::new();
    let mut bus = EventBus::new();
    let t = registrar();
    assert!(register_secure(&mut reg, &mut audit, &clock, "Vault", 1, Capability::MemMap, &t));
    assert!(find(&reg, &mut audit, &clock, &mut ego, &mut bus, "Vault", &t).is_none());
    assert_eq!(audit.get(audit.len() - 1).outcome, "Denied (Missing Capability)");
    let mut holder = registrar();
    holder.grant(Capability::MemMap);
    let found = find(&reg, &mut audit, &clock, &mut ego, &mut bus, "Vault", &holder).unwrap();
    assert_eq!(found.required_capability, Some(Capability::MemMap));
    assert_eq!(audit.get(audit.len() - 1).outcome, "Granted");
}

#[test]
fn decoy_is_never_answered() {
    let mut reg = ServiceRegistry::new();
    let mut audit = AuditLog::new();
    let clock = Clock::new();
    let mut ego = Ego::new();
    let mut bus = EventBus::new();
    let t = registrar();
    assert!(register_decoy(&mut reg, &mut audit, &clock, "AdminBackdoor", &t));
    assert!(reg.get(0).is_decoy);
    assert_eq!(reg.get(0).version, 0);
    assert!(find(&reg, &mut audit, &clock, &mut ego, &mut bus, "AdminBackdoor", &t).is_none());
}

#[test]
fn restricted_debug_service_lookup_locks_down() {
    let mut reg = ServiceRegistry::new();
    let mut audit = AuditLog::new();
    let clock = Clock::new();
    let mut ego = Ego::new();
    let mut bus = EventBus::new();
    let t = registrar();
    assert!(register_decoy(&mut reg, &mut audit, &clock, "RestrictedDebugService", &t));
    let before = audit.len();
    assert!(find(&reg, &mut audit, &clock, &mut ego, &mut bus, "RestrictedDebugService", &t).is_none());
    assert_eq!(get_state(&ego), PresenceState::Maintenance);
    assert_eq!(audit.len(), before + 1);
    assert_eq!(
        audit.get(before).action,
        "SECURITY LOCKDOWN: Access to Honey-Intent/Restricted Service detected"
    );
    assert_eq!(audit.get(before).outcome, "Neutralized");
}

#[test]
fn first_registration_of_a_name_wins() {
    let mut reg = ServiceRegistry::new();
    let mut audit = AuditLog::new();
    let clock = Clock::new();
    let mut ego = Ego::new();
    let mut bus = EventBus::new();
    let t = registrar();
    assert!(register(&mut reg, &mut audit, &clock, "Net", 1, &t));
    assert!(register(&mut reg, &mut audit, &clock, "Net", 2, &t));
    let found = find(&reg, &mut audit, &clock, &mut ego, &mut bus, "Net", &t).unwrap();
    assert_eq!(found.version, 1);
}
