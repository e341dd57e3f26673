//! Service registry and discovery.
use vstd::prelude::*;
use vstd::string::StringExecFns;
use vstd::utf8::encode_utf8;
use crate::arch::x86_64::time::Clock;
use crate::audit::{log, may_audit, AuditLog};
use crate::ego::{transition_message, Ego, PresenceState};
use crate::events::EventBus;
use crate::safe_alloc::{contains_spec, occurs_at, str_eq, string_bytes};
use crate::sentinel::{analyze_intent, audited, honey_reason, lockdown_action};
use crate::security::{cap_slot, Capability, Token};

verus! {

/// A service entry in the registry.
#[derive(Debug, Clone, Copy)]
pub struct ServiceEntry {
    /// The name of the service.
    pub name: &'static str,
    /// The version of the service API.
    pub version: u32,
    /// The required capability to use this service.
    pub required_capability: Option<Capability>,
    /// Whether this is a decoy "Honey-Service".
    pub is_decoy: bool,
}

/// `i` is the first entry of `s` named `name`.
pub open spec fn is_first_match(s: Seq<ServiceEntry>, name: Seq<char>, i: int) -> bool {
    &&& 0 <= i < s.len()
    &&& s[i].name@ == name
    &&& forall|j: int| 0 <= j < i ==> (#[trigger] s[j]).name@ != name
}

/// Some entry of `s` is named `name`.
pub open spec fn has_match(s: Seq<ServiceEntry>, name: Seq<char>) -> bool {
    exists|i: int| 0 <= i < s.len() && (#[trigger] s[i]).name@ == name
}

/// Whether a lookup of an entry is answered: not a decoy, and its required
/// capability (if any) is held by `token`.
pub open spec fn access_granted(e: ServiceEntry, token: Token) -> bool {
    !e.is_decoy && (e.required_capability matches Some(cap) ==> token.grants(cap))
}

/// What a lookup of `name` by `token` answers, given the registered entries.
pub open spec fn find_result(s: Seq<ServiceEntry>, name: Seq<char>, token: Token) -> Option<
    ServiceEntry,
> {
    if has_match(s, name) {
        let i = choose|i: int| is_first_match(s, name, i);
        if access_granted(s[i], token) {
            Some(s[i])
        } else {
            None
        }
    } else {
        None
    }
}

/// The sentinel's screening intent for lookups never mentions "bypass".
pub proof fn lemma_find_service_is_benign()
    ensures
        !contains_spec("FindService"@, "bypass"@),
{
    reveal_strlit("FindService");
    reveal_strlit("bypass");
    assert forall|at: int| !occurs_at("FindService"@, "bypass"@, at) by {
        if occurs_at("FindService"@, "bypass"@, at) {
            assert("FindService"@.subrange(at, at + 6)[0] == 'b');
        }
    }
}

/// The first match, when there is one, is unique.
proof fn lemma_first_match(s: Seq<ServiceEntry>, name: Seq<char>, i: int)
    requires
        is_first_match(s, name, i),
    ensures
        has_match(s, name),
        (choose|k: int| is_first_match(s, name, k)) == i,
{
    let k = choose|k: int| is_first_match(s, name, k);
    assert(is_first_match(s, name, k));
    if k < i {
        assert(s[k].name@ != name);
    }
    if i < k {
        assert(s[i].name@ != name);
    }
}

/// What a lookup of an existing name leaves behind. Its first match `e` is
/// screened by the sentinel: for the restricted debug service a lockdown is
/// recorded first ("Neutralized", for a token that may audit) and the
/// presence switches to `Maintenance`, announced on the bus. Then, unless `e`
/// is a decoy, the access is recorded. Nothing else is added to the log.
pub open spec fn screened(
    s: Seq<ServiceEntry>,
    name: Seq<char>,
    token: Token,
    audit_before: AuditLog,
    audit_after: AuditLog,
    ego_before: Ego,
    bus_before: EventBus,
    bus_after: EventBus,
) -> bool {
    let e = s[choose|i: int| is_first_match(s, name, i)];
    let n = audit_before.entries().len();
    let restricted = name == "RestrictedDebugService"@;
    &&& audit_after.entries().len() == n + if may_audit(token) {
        (if restricted { 1int } else { 0int }) + (if e.is_decoy { 0int } else { 1int })
    } else {
        0int
    }
    &&& restricted && may_audit(token) ==> {
        &&& string_bytes(audit_after.entries()[n as int].action) == lockdown_action(
            encode_utf8(honey_reason()),
        )
        &&& audit_after.entries()[n as int].outcome == "Neutralized"
        &&& audit_after.entries()[n as int].token_id == token.id
    }
    &&& restricted ==> {
        &&& bus_after.events().len() == bus_before.events().len() + 1
        &&& bus_after.events().subrange(0, bus_before.events().len() as int) == bus_before.events()
        &&& bus_after.events().last().name@ == transition_message(
            ego_before.state(),
            PresenceState::Maintenance,
        )
    }
}

/// The registry of services, in registration order.
pub struct ServiceRegistry {
    services: Vec<ServiceEntry>,
}

/// The audit action recorded for a registration of `name`.
pub open spec fn register_action(name: Seq<char>) -> Seq<u8> {
    encode_utf8("Register Service: "@ + name)
}

/// The audit action recorded for an access to `name`.
pub open spec fn access_action(name: Seq<char>) -> Seq<u8> {
    encode_utf8("Access Service: "@ + name)
}

impl ServiceRegistry {
    /// The registered services, in registration order.
    pub closed spec fn services(&self) -> Seq<ServiceEntry> {
        self.services@
    }

    /// An empty registry.
    pub fn new() -> (r: Self)
        ensures
            r.services().len() == 0,
    {
        ServiceRegistry { services: Vec::new() }
    }

    /// Number of registered services.
    pub fn len(&self) -> (n: usize)
        ensures
            n == self.services().len(),
    {
        self.services.len()
    }

    /// The service registered at position `i`.
    pub fn get(&self, i: usize) -> (e: ServiceEntry)
        requires
            i < self.services().len(),
        ensures
            e == self.services()[i as int],
    {
        self.services[i]
    }

    /// Adds `entry` when `token` holds `ServiceRegister`; the attempt is audited
    /// either way ("Success" or "Denied (Unauthorized)").
    pub fn register(&mut self, audit: &mut AuditLog, clock: &Clock, entry: &ServiceEntry, token: &Token) -> (ok: bool)
        ensures
            final(audit).wf(),
            ok == token.grants(Capability::ServiceRegister),
            ok ==> final(self).services() == old(self).services().push(*entry),
            !ok ==> final(self).services() == old(self).services(),
            audited(
                *old(audit),
                *final(audit),
                *token,
                register_action(entry.name@),
                if ok { "Success" } else { "Denied (Unauthorized)" },
            ),
    {
        let action = String::from_str("Register Service: ").concat(entry.name);
        if !token.has(Capability::ServiceRegister) {
            log(audit, clock, token, action, "Denied (Unauthorized)");
            return false;
        }
        self.services.push(*entry);
        log(audit, clock, token, action, "Success");
        true
    }

    /// Looks up the first service named `name`. A lookup of an existing name is
    /// screened by the sentinel (intent "FindService"); a decoy is never answered;
    /// a service whose required capability `token` lacks is refused and the
    /// refusal audited ("Denied (Missing Capability)"); any other is answered and
    /// audited ("Granted"). An unknown name changes nothing.
    pub fn find(
        &self,
        audit: &mut AuditLog,
        clock: &Clock,
        ego: &mut Ego,
        bus: &mut EventBus,
        name: &'static str,
        token: &Token,
    ) -> (r: Option<ServiceEntry>)
        ensures
            final(audit).wf(),
            r == find_result(self.services(), name@, *token),
            !has_match(self.services(), name@) ==> {
                &&& final(audit).entries() == old(audit).entries()
                &&& final(ego).state() == old(ego).state()
                &&& final(bus).events() == old(bus).events()
            },
            final(ego).next_token_id() == old(ego).next_token_id(),
            has_match(self.services(), name@) && name@ == "RestrictedDebugService"@
                ==> final(ego).state() == PresenceState::Maintenance,
            has_match(self.services(), name@) ==> {
                let e = self.services()[choose|i: int| is_first_match(self.services(), name@, i)];
                &&& final(audit).entries().len() >= old(audit).entries().len()
                &&& final(audit).entries().subrange(0, old(audit).entries().len() as int) == old(
                    audit,
                ).entries()
                &&& !e.is_decoy && may_audit(*token) ==> {
                    &&& string_bytes(final(audit).entries().last().action) == access_action(name@)
                    &&& final(audit).entries().last().outcome == if access_granted(e, *token) {
                        "Granted"
                    } else {
                        "Denied (Missing Capability)"
                    }
                }
            },
            has_match(self.services(), name@) && name@ != "RestrictedDebugService"@ ==> {
                &&& final(ego).state() == old(ego).state()
                &&& final(bus).events() == old(bus).events()
            },
            has_match(self.services(), name@) ==> screened(
                self.services(),
                name@,
                *token,
                *old(audit),
                *final(audit),
                *old(ego),
                *old(bus),
                *final(bus),
            ),
    {
        proof {
            use_type_invariant(&*audit);
        }
        let n = self.services.len();
        let mut i: usize = 0;
        while i < n
            invariant
                n == self.services@.len(),
                i <= n,
                forall|j: int| 0 <= j < i ==> (#[trigger] self.services@[j]).name@ != name@,
                *audit == *old(audit),
                audit.wf(),
                *ego == *old(ego),
                *bus == *old(bus),
            decreases n - i,
        {
            let service = self.services[i];
            if str_eq(service.name, name) {
                proof {
                    lemma_first_match(self.services@, name@, i as int);
                }
                proof {
                    lemma_find_service_is_benign();
                }
                analyze_intent(audit, clock, ego, bus, token, name, "FindService");
                if service.is_decoy {
                    return None;
                }
                match service.required_capability {
                    Some(cap) => {
                        if !token.has(cap) {
                            let action = String::from_str("Access Service: ").concat(name);
                            log(audit, clock, token, action, "Denied (Missing Capability)");
                            return None;
                        }
                    },
                    None => {},
                }
                let action = String::from_str("Access Service: ").concat(name);
                log(audit, clock, token, action, "Granted");
                return Some(service);
            }
            i += 1;
        }
        None
    }
}

/// Register a new service that anyone may use.
pub fn register(
    registry: &mut ServiceRegistry,
    audit: &mut AuditLog,
    clock: &Clock,
    name: &'static str,
    version: u32,
    token: &Token,
) -> (ok: bool)
    ensures
        final(audit).wf(),
        ok == token.grants(Capability::ServiceRegister),
        ok ==> final(registry).services() == old(registry).services().push(
            ServiceEntry { name, version, required_capability: None, is_decoy: false },
        ),
        !ok ==> final(registry).services() == old(registry).services(),
{
    registry.register(
        audit,
        clock,
        &ServiceEntry { name, version, required_capability: None, is_decoy: false },
        token,
    )
}

/// Register a service that requires a specific capability.
pub fn register_secure(
    registry: &mut ServiceRegistry,
    audit: &mut AuditLog,
    clock: &Clock,
    name: &'static str,
    version: u32,
    cap: Capability,
    token: &Token,
) -> (ok: bool)
    ensures
        final(audit).wf(),
        ok == token.grants(Capability::ServiceRegister),
        ok ==> final(registry).services() == old(registry).services().push(
            ServiceEntry { name, version, required_capability: Some(cap), is_decoy: false },
        ),
        !ok ==> final(registry).services() == old(registry).services(),
{
    registry.register(
        audit,
        clock,
        &ServiceEntry { name, version, required_capability: Some(cap), is_decoy: false },
        token,
    )
}

/// Register a decoy "Honey-Service" for security scanning detection.
pub fn register_decoy(
    registry: &mut ServiceRegistry,
    audit: &mut AuditLog,
    clock: &Clock,
    name: &'static str,
    token: &Token,
) -> (ok: bool)
    ensures
        final(audit).wf(),
        ok == token.grants(Capability::ServiceRegister),
        ok ==> final(registry).services() == old(registry).services().push(
            ServiceEntry { name, version: 0, required_capability: None, is_decoy: true },
        ),
        !ok ==> final(registry).services() == old(registry).services(),
{
    registry.register(
        audit,
        clock,
        &ServiceEntry { name, version: 0, required_capability: None, is_decoy: true },
        token,
    )
}

/// Find a service by name.
pub fn find(
    registry: &ServiceRegistry,
    audit: &mut AuditLog,
    clock: &Clock,
    ego: &mut Ego,
    bus: &mut EventBus,
    name: &'static str,
    token: &Token,
) -> (r: Option<ServiceEntry>)
    ensures
        final(audit).wf(),
        r == find_result(registry.services(), name@, *token),
        !has_match(registry.services(), name@) ==> final(audit).entries() == old(audit).entries(),
        has_match(registry.services(), name@) ==> screened(
            registry.services(),
            name@,
            *token,
            *old(audit),
            *final(audit),
            *old(ego),
            *old(bus),
            *final(bus),
        ),
{
    registry.find(audit, clock, ego, bus, name, token)
}

/// A registered service is found again under its name by any token that may
/// use it, provided no earlier service carries the same name.
pub proof fn lemma_register_then_find(before: Seq<ServiceEntry>, entry: ServiceEntry, token: Token)
    requires
        !has_match(before, entry.name@),
        access_granted(entry, token),
    ensures
        find_result(before.push(entry), entry.name@, token) == Some(entry),
{
    let s = before.push(entry);
    let i = before.len() as int;
    assert forall|j: int| 0 <= j < i implies (#[trigger] s[j]).name@ != entry.name@ by {
        assert(s[j] == before[j]);
    }
    lemma_first_match(s, entry.name@, i);
}

/// A decoy is never handed out, and neither is a service whose required
/// capability the caller lacks.
pub proof fn lemma_find_screens_access(s: Seq<ServiceEntry>, name: Seq<char>, token: Token)
    ensures
        find_result(s, name, token) matches Some(e) ==> {
            &&& !e.is_decoy
            &&& e.name@ == name
            &&& (e.required_capability matches Some(cap) ==> token.grants(cap))
        },
{
    if has_match(s, name) {
        let i = choose|i: int| is_first_match(s, name, i);
        assert(is_first_match(s, name, i)) by {
            let k = choose|k: int| 0 <= k < s.len() && (#[trigger] s[k]).name@ == name;
            lemma_first_match_exists(s, name, k);
        }
    }
}

proof fn lemma_first_match_exists(s: Seq<ServiceEntry>, name: Seq<char>, k: int)
    requires
        0 <= k < s.len(),
        s[k].name@ == name,
    ensures
        exists|i: int| is_first_match(s, name, i),
    decreases k,
{
    if exists|j: int| 0 <= j < k && (#[trigger] s[j]).name@ == name {
        let j = choose|j: int| 0 <= j < k && (#[trigger] s[j]).name@ == name;
        lemma_first_match_exists(s, name, j);
    } else {
        assert(is_first_match(s, name, k));
    }
}

} // verus!
