//! The hash-chained audit log.
//!
//! Each record's hash is FNV-1a (64 bit) over the previous hash and every
//! field of the decision, encoded as `encoding` describes, written as sixteen
//! hexadecimal digits repeated four times. FNV-1a is not collision resistant: the chain
//! shows accidental damage and careless edits, not a determined forger.

use vstd::prelude::*;
use vstd::string::StringExecFns;

use crate::storage::{lemma_unfiltered_query_is_whole_log, query_result, unconditioned, Storage};
use crate::encoding::{
    decision_fits, hash_payload, lemma_payload_injective, payload_of, same_decision, text_fits,
};
use crate::text::{hex16, hex_prefix, push_hex_prefix};
use crate::types::{AuditFilter, AuditRecord, Decision};

verus! {

/// FNV-1a 64-bit offset basis.
pub const FNV_OFFSET: u64 = 14695981039346656037;

/// FNV-1a 64-bit prime.
pub const FNV_PRIME: u64 = 1099511628211;

/// FNV-1a (64 bit) of `bytes`.
pub open spec fn fnv1a(bytes: Seq<u8>) -> u64
    decreases bytes.len(),
{
    if bytes.len() == 0 {
        FNV_OFFSET
    } else {
        (fnv1a(bytes.drop_last()) ^ (bytes.last() as u64)).wrapping_mul(FNV_PRIME)
    }
}

/// The 64-bit hash of a record.
pub open spec fn chain_value(prev_hash: Seq<char>, d: Decision) -> u64 {
    fnv1a(hash_payload(prev_hash, d))
}

/// The hash text of a record: sixteen hexadecimal digits, four times.
pub open spec fn chain_hash(prev_hash: Seq<char>, d: Decision) -> Seq<char> {
    let h = hex16(chain_value(prev_hash, d));
    h + h + h + h
}

/// The id of a record: the action, a dash, and the first eight hash digits.
pub open spec fn record_id(prev_hash: Seq<char>, d: Decision) -> Seq<char> {
    d.action@ + "-"@ + hex_prefix(chain_value(prev_hash, d), 8)
}

/// `n` zero digits.
pub open spec fn zeros(n: nat) -> Seq<char>
    decreases n,
{
    if n == 0 {
        Seq::empty()
    } else {
        zeros((n - 1) as nat) + "0"@
    }
}

/// The `prev_hash` of the first record of a chain: sixty-four zeros.
pub open spec fn genesis_hash() -> Seq<char> {
    zeros(64)
}

/// `r` is the record that logging `d` on a chain whose tip is `tip` appends.
pub open spec fn sealed_record(r: AuditRecord, tip: Seq<char>, d: Decision) -> bool {
    &&& r.decision == d
    &&& r.prev_hash@ == tip
    &&& r.hash@ == chain_hash(tip, d)
    &&& r.id@ == record_id(tip, d)
    &&& r.timestamp_ms == d.timestamp_ms
}

/// From `start` on, each record of `log` carries the hash of its own
/// contents, the first points at the genesis hash, each later one at the hash
/// of the one before, and `tip` is the hash of the last (or the genesis
/// hash when there is none).
pub open spec fn chain_linked(log: Seq<AuditRecord>, start: nat, tip: Seq<char>) -> bool {
    &&& start <= log.len()
    &&& forall|i: int|
        start <= i < log.len() ==> #[trigger] log[i].hash@ == chain_hash(
            log[i].prev_hash@,
            log[i].decision,
        ) && log[i].id@ == record_id(log[i].prev_hash@, log[i].decision)
    &&& forall|i: int| start < i < log.len() ==> #[trigger] log[i].prev_hash@ == log[i - 1].hash@
    &&& log.len() > start ==> log[start as int].prev_hash@ == genesis_hash()
    &&& tip == if log.len() > start {
        log[log.len() - 1].hash@
    } else {
        genesis_hash()
    }
}

/// FNV-1a (64 bit) of `bytes`.
pub fn fnv1a_64(bytes: &[u8]) -> (r: u64)
    ensures
        r == fnv1a(bytes@),
{
    let mut hash: u64 = FNV_OFFSET;
    let mut i: usize = 0;
    while i < bytes.len()
        invariant
            i <= bytes@.len(),
            hash == fnv1a(bytes@.subrange(0, i as int)),
        decreases bytes@.len() - i,
    {
        assert(bytes@.subrange(0, i + 1).drop_last() =~= bytes@.subrange(0, i as int));
        hash = hash ^ (bytes[i] as u64);
        hash = hash.wrapping_mul(FNV_PRIME);
        i = i + 1;
    }
    assert(bytes@.subrange(0, bytes@.len() as int) =~= bytes@);
    hash
}

/// The sixteen hexadecimal digits of `value`, zero-padded.
pub fn u64_to_hex(value: u64) -> (r: String)
    ensures
        r@ == hex16(value),
{
    let mut out = String::new();
    push_hex_prefix(&mut out, value, 16);
    assert(out@ =~= hex16(value));
    out
}

/// The genesis hash, sixty-four zeros.
pub fn genesis_text() -> (r: String)
    ensures
        r@ == genesis_hash(),
{
    let mut out = String::new();
    let mut i: u64 = 0;
    while i < 64
        invariant
            i <= 64,
            out@ == zeros(i as nat),
        decreases 64 - i,
    {
        out.append("0");
        i = i + 1;
    }
    out
}

/// The 64-bit hash of a record holding `decision` after `prev_hash`.
pub fn chain_value_of(decision: &Decision, prev_hash: &str) -> (r: u64)
    ensures
        r == chain_value(prev_hash@, *decision),
{
    let payload = payload_of(decision, prev_hash);
    fnv1a_64(payload.as_slice())
}

/// Sixteen hexadecimal digits of `value`, written four times.
fn hash_text(value: u64) -> (r: String)
    ensures
        r@ == hex16(value) + hex16(value) + hex16(value) + hex16(value),
{
    let hex = u64_to_hex(value);
    let mut out = hex.clone();
    out.append(hex.as_str());
    out.append(hex.as_str());
    out.append(hex.as_str());
    out
}

/// The hash text of a record holding `decision` after `prev_hash`.
pub fn compute_hash(decision: &Decision, prev_hash: &str) -> (r: String)
    ensures
        r@ == chain_hash(prev_hash@, *decision),
{
    hash_text(chain_value_of(decision, prev_hash))
}

/// Appends decisions to a hash chain kept in storage and answers queries.
///
/// The chain tip lives in this value only: a logger built over storage that
/// already holds records starts a new chain at the genesis hash after them.
pub struct AuditLogger<S: Storage> {
    storage: S,
    last_hash: String,
    chain_start: Ghost<nat>,
}

impl<S: Storage> AuditLogger<S> {
    /// The logger's storage.
    pub closed spec fn store(&self) -> S {
        self.storage
    }

    /// Hash of the last record this logger appended, or the genesis hash.
    pub closed spec fn tip(&self) -> Seq<char> {
        self.last_hash@
    }

    /// Position in the log of the first record of this logger's chain.
    pub closed spec fn chain_start(&self) -> nat {
        self.chain_start@
    }

    /// The records the logger appended form an intact chain ending at `tip`.
    pub open spec fn wf(&self) -> bool {
        &&& self.store().inv()
        &&& chain_linked(self.store().audit_log(), self.chain_start(), self.tip())
    }

    /// A logger whose chain starts at the genesis hash, after whatever
    /// `storage` already holds.
    pub fn new(storage: S) -> (r: Self)
        requires
            storage.inv(),
        ensures
            r.wf(),
            r.store() == storage,
            r.tip() == genesis_hash(),
            r.chain_start() == storage.audit_log().len(),
    {
        let ghost start = storage.audit_log().len();
        AuditLogger { storage, last_hash: genesis_text(), chain_start: Ghost(start) }
    }

    /// Appends `decision` to the chain: its record points at the current tip
    /// and becomes the new tip.
    pub fn log(&mut self, decision: Decision)
        requires
            old(self).wf(),
        ensures
            final(self).wf(),
            final(self).chain_start() == old(self).chain_start(),
            final(self).store().audit_log().len() == old(self).store().audit_log().len() + 1,
            final(self).store().audit_log().drop_last() == old(self).store().audit_log(),
            sealed_record(final(self).store().audit_log().last(), old(self).tip(), decision),
            final(self).tip() == chain_hash(old(self).tip(), decision),
            final(self).store().trust_entries() == old(self).store().trust_entries(),
            final(self).store().envelope_entries() == old(self).store().envelope_entries(),
            final(self).store().consent_entries() == old(self).store().consent_entries(),
    {
        let value = chain_value_of(&decision, self.last_hash.as_str());
        let hash = hash_text(value);
        let mut id = decision.action.clone();
        id.append("-");
        push_hex_prefix(&mut id, value, 8);
        let timestamp_ms = decision.timestamp_ms;
        let prev_hash = self.last_hash.clone();
        let record = AuditRecord { id, decision, hash: hash.clone(), prev_hash, timestamp_ms };
        self.last_hash = hash;
        self.storage.append_audit(record);
        proof {
            let log = self.storage.audit_log();
            let before = old(self).storage.audit_log();
            assert(log.drop_last() =~= before);
            assert forall|i: int|
                self.chain_start@ < i < log.len() implies #[trigger] log[i].prev_hash@ == log[i
                    - 1].hash@ by {
                if i < log.len() - 1 {
                    assert(log[i] == before[i]);
                    assert(log[i - 1] == before[i - 1]);
                }
            }
        }
    }

    /// The records that pass `filter`, oldest first.
    pub fn query(&self, filter: &AuditFilter) -> (r: Vec<AuditRecord>)
        requires
            self.wf(),
        ensures
            r@ == query_result(self.store().audit_log(), *filter),
            unconditioned(*filter) ==> r@ == self.store().audit_log(),
    {
        proof {
            if unconditioned(*filter) {
                lemma_unfiltered_query_is_whole_log(self.store().audit_log(), *filter);
            }
        }
        self.storage.query_audit(filter)
    }

    /// Hash of the last record appended, for checking continuity of exported
    /// records.
    pub fn chain_tip(&self) -> (r: &str)
        ensures
            r@ == self.tip(),
    {
        self.last_hash.as_str()
    }

    /// The logger's storage.
    pub fn storage(&self) -> (r: &S)
        ensures
            *r == self.store(),
    {
        &self.storage
    }
}

/// Chain integrity: from the logger's first record on, every record points
/// at the hash of the record before it, the first points at the genesis
/// hash, recomputing a record's hash from its `prev_hash` and decision gives
/// its stored hash, and the tip is the hash of the last record.
pub proof fn lemma_audit_chain_linked<S: Storage>(logger: &AuditLogger<S>)
    requires
        logger.wf(),
    ensures
        ({
            let log = logger.store().audit_log();
            let start = logger.chain_start() as int;
            &&& forall|i: int| start < i < log.len() ==> #[trigger] log[i].prev_hash@ == log[i
                - 1].hash@
            &&& log.len() > start ==> log[start].prev_hash@ == genesis_hash()
            &&& forall|i: int|
                start <= i < log.len() ==> #[trigger] log[i].hash@ == chain_hash(
                    log[i].prev_hash@,
                    log[i].decision,
                )
            &&& log.len() > start ==> logger.tip() == log.last().hash@
        }),
{
}

} // verus!

verus! {

/// Tamper evidence: a record whose decision differs from the recorded one in
/// any field, after the same previous hash, is hashed from different bytes;
/// its recomputed hash can match the stored one only by a collision of
/// FNV-1a.
pub proof fn lemma_altered_decision_changes_hashed_bytes(
    prev_hash: Seq<char>,
    recorded: Decision,
    altered: Decision,
)
    requires
        text_fits(prev_hash),
        decision_fits(recorded),
        decision_fits(altered),
        !same_decision(recorded, altered),
    ensures
        hash_payload(prev_hash, recorded) != hash_payload(prev_hash, altered),
{
    if hash_payload(prev_hash, recorded) == hash_payload(prev_hash, altered) {
        lemma_payload_injective(prev_hash, recorded, prev_hash, altered);
    }
}

} // verus!
