//! The "Black Box" audit log: an append-only ledger whose entries are chained
//! by a rolling hash over their actions.
use vstd::prelude::*;
use vstd::string::StringSliceAdditionalSpecFns;
use crate::arch::x86_64::time::{get_uptime, Clock};
use crate::safe_alloc::string_bytes;
use crate::security::{Capability, Token};

verus! {

/// The hash the chain starts from, before the first entry.
pub const GENESIS_HASH: u64 = 0xFEED_FACE_CAFE_BEEF;

/// The constant mixed into every step of the rolling hash.
pub const HASH_MIX: u64 = 0xDEAD_BEEF_CAFE_BABE;

/// `x` rotated left by 7 bits.
pub open spec fn rotl7(x: u64) -> u64 {
    (x << 7u64) | (x >> 57u64)
}

/// One step of the rolling hash: add the byte, rotate left by 7, mix.
pub open spec fn hash_step(hash: u64, byte: u8) -> u64 {
    rotl7(hash.wrapping_add(byte as u64)) ^ HASH_MIX
}

/// The rolling hash of `bytes` starting from `prev`.
pub open spec fn hash_bytes(prev: u64, bytes: Seq<u8>) -> u64
    decreases bytes.len(),
{
    if bytes.len() == 0 {
        prev
    } else {
        hash_step(hash_bytes(prev, bytes.drop_last()), bytes.last())
    }
}

/// The hash of no bytes is the starting value, and hashing `a` then `b`
/// is hashing `a + b`: the hash folds over the bytes one at a time.
pub proof fn lemma_hash_concat(h: u64, a: Seq<u8>, b: Seq<u8>)
    ensures
        hash_bytes(h, Seq::<u8>::empty()) == h,
        hash_bytes(h, a + b) == hash_bytes(hash_bytes(h, a), b),
    decreases b.len(),
{
    if b.len() == 0 {
        assert(a + b =~= a);
    } else {
        lemma_hash_concat(h, a, b.drop_last());
        assert((a + b).drop_last() =~= a + b.drop_last());
        assert((a + b).last() == b.last());
    }
}

fn rotate_left_7(x: u64) -> (r: u64)
    ensures
        r == rotl7(x),
{
    (x << 7u64) | (x >> 57u64)
}

/// Simple rolling hash for early ledger integrity.
pub fn calculate_hash(prev_hash: u64, action: &str) -> (h: u64)
    ensures
        h == hash_bytes(prev_hash, action.spec_bytes()),
{
    let bytes = action.as_bytes();
    let mut hash = prev_hash;
    let mut i: usize = 0;
    while i < bytes.len()
        invariant
            i <= bytes@.len(),
            bytes@ == action.spec_bytes(),
            hash == hash_bytes(prev_hash, bytes@.subrange(0, i as int)),
        decreases bytes@.len() - i,
    {
        let ghost before = bytes@.subrange(0, i as int);
        hash = rotate_left_7(hash.wrapping_add(bytes[i] as u64)) ^ HASH_MIX;
        proof {
            let after = bytes@.subrange(0, i + 1);
            assert(after.drop_last() =~= before);
            assert(after.last() == bytes@[i as int]);
        }
        i += 1;
    }
    assert(bytes@.subrange(0, bytes@.len() as int) =~= bytes@);
    hash
}

/// An entry in the audit log.
#[derive(Debug)]
pub struct AuditEntry {
    /// Ticks since boot.
    pub timestamp: u64,
    /// The token ID that initiated the action.
    pub token_id: u64,
    /// The action or intent recorded.
    pub action: String,
    /// The outcome (e.g., "Success", "Denied").
    pub outcome: &'static str,
    /// Hash linking to the previous entry (the immutable chain).
    pub chain_hash: u64,
}

/// The chain hash that precedes entry `i` of `entries`.
pub open spec fn prev_hash_at(entries: Seq<AuditEntry>, i: int) -> u64 {
    if i == 0 {
        GENESIS_HASH
    } else {
        entries[i - 1].chain_hash
    }
}

/// Every entry's hash extends the previous one over its action.
pub open spec fn chain_valid(entries: Seq<AuditEntry>) -> bool {
    forall|i: int|
        0 <= i < entries.len() ==> (#[trigger] entries[i]).chain_hash == hash_bytes(
            prev_hash_at(entries, i),
            string_bytes(entries[i].action),
        )
}

/// The audit log, oldest entry first.
pub struct AuditLog {
    entries: Vec<AuditEntry>,
}

impl AuditLog {
    /// The entries recorded so far, oldest first.
    pub closed spec fn entries(&self) -> Seq<AuditEntry> {
        self.entries@
    }

    /// The hash chain over the entries is intact.
    #[verifier::type_invariant]
    pub open spec fn wf(&self) -> bool {
        chain_valid(self.entries())
    }

    /// An empty log.
    pub fn new() -> (l: Self)
        ensures
            l.entries().len() == 0,
            l.wf(),
    {
        AuditLog { entries: Vec::new() }
    }

    /// Number of entries.
    pub fn len(&self) -> (n: usize)
        ensures
            n == self.entries().len(),
    {
        self.entries.len()
    }

    /// The entry at position `i` (0 is the oldest).
    pub fn get(&self, i: usize) -> (e: &AuditEntry)
        requires
            i < self.entries().len(),
        ensures
            *e == self.entries()[i as int],
    {
        &self.entries[i]
    }
}

/// Whether `token` may write to the audit log: it holds `AuditWrite` or is the kernel's (id 0).
pub open spec fn may_audit(token: Token) -> bool {
    token.grants(Capability::AuditWrite) || token.id == 0
}

/// Log a system action to the black box. Returns whether it was recorded:
/// a token without `AuditWrite` (other than the kernel's, id 0) is refused and
/// the log is left as it was. A recorded entry is stamped with the current
/// uptime and chained to the previous entry's hash.
pub fn log(
    audit: &mut AuditLog,
    clock: &Clock,
    token: &Token,
    action: String,
    outcome: &'static str,
) -> (recorded: bool)
    ensures
        final(audit).wf(),
        recorded == may_audit(*token),
        !recorded ==> final(audit).entries() == old(audit).entries(),
        recorded ==> {
            &&& final(audit).entries().len() == old(audit).entries().len() + 1
            &&& final(audit).entries().subrange(0, old(audit).entries().len() as int)
                == old(audit).entries()
            &&& final(audit).entries().last().timestamp == clock.ticks()
            &&& final(audit).entries().last().token_id == token.id
            &&& final(audit).entries().last().action == action
            &&& final(audit).entries().last().outcome == outcome
            &&& final(audit).entries().last().chain_hash == hash_bytes(
                prev_hash_at(final(audit).entries(), old(audit).entries().len() as int),
                string_bytes(action),
            )
        },
{
    proof {
        use_type_invariant(&*audit);
    }
    if !token.has(Capability::AuditWrite) && token.id != 0 {
        return false;
    }
    let n = audit.entries.len();
    let prev_hash = if n == 0 {
        GENESIS_HASH
    } else {
        audit.entries[n - 1].chain_hash
    };
    let new_hash = calculate_hash(prev_hash, action.as_str());
    let entry = AuditEntry {
        timestamp: get_uptime(clock),
        token_id: token.id,
        action,
        outcome,
        chain_hash: new_hash,
    };
    let mut entries: Vec<AuditEntry> = Vec::new();
    std::mem::swap(&mut entries, &mut audit.entries);
    entries.push(entry);
    proof {
        let e = entries@;
        assert(e.subrange(0, n as int) =~= old(audit).entries@);
        assert forall|i: int| 0 <= i < e.len() implies (#[trigger] e[i]).chain_hash == hash_bytes(
            prev_hash_at(e, i),
            string_bytes(e[i].action),
        ) by {
            if i < n {
                assert(e[i] == old(audit).entries@[i]);
                if i > 0 {
                    assert(e[i - 1] == old(audit).entries@[i - 1]);
                }
            }
        }
    }
    audit.entries = entries;
    true
}

/// Recording an action never alters what was recorded before it, and the
/// chain stays intact: entry `k` of the older log is entry `k` of the newer.
pub proof fn lemma_log_is_append_only(before: AuditLog, after: AuditLog, k: int)
    requires
        before.wf(),
        after.wf(),
        after.entries().len() >= before.entries().len(),
        after.entries().subrange(0, before.entries().len() as int) == before.entries(),
        0 <= k < before.entries().len(),
    ensures
        after.entries()[k] == before.entries()[k],
        after.entries()[k].chain_hash == hash_bytes(
            prev_hash_at(before.entries(), k),
            string_bytes(before.entries()[k].action),
        ),
{
    assert(after.entries().subrange(0, before.entries().len() as int)[k] == after.entries()[k]);
}

} // verus!
