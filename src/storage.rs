//! The persistence contract the managers are written against, and a
//! volatile in-memory implementation of it.

use vstd::prelude::*;
use vstd::string::StringExecFns;
use vstd::utf8::encode_utf8;

use crate::keyed::KeyedTable;
use crate::types::{AuditFilter, AuditRecord, Envelope, TrustAssignment};

verus! {

/// The value stored under `k`, if any.
pub open spec fn lookup<V>(m: Map<Seq<char>, V>, k: Seq<char>) -> Option<V> {
    if m.contains_key(k) {
        Some(m[k])
    } else {
        None
    }
}

/// Key under which a pair (agent and scope, or agent and action) is stored:
/// the two texts joined by a colon.
pub open spec fn pair_key(left: Seq<char>, right: Seq<char>) -> Seq<char> {
    left + ":"@ + right
}

/// `s` starts with `p`, comparing their UTF-8 bytes.
pub open spec fn starts_with_text(s: Seq<char>, p: Seq<char>) -> bool {
    encode_utf8(p).len() <= encode_utf8(s).len() && encode_utf8(s).subrange(
        0,
        encode_utf8(p).len() as int,
    ) == encode_utf8(p)
}

/// An audit record passes every condition that `f` sets.
pub open spec fn record_matches(r: AuditRecord, f: AuditFilter) -> bool {
    &&& (f.agent_id matches Some(a) ==> starts_with_text(r.id@, a@))
    &&& (f.action matches Some(act) ==> r.decision.action@ == act@)
    &&& (f.since_ms matches Some(since) ==> r.timestamp_ms >= since)
    &&& (f.until_ms matches Some(until) ==> r.timestamp_ms <= until)
}

/// There is room for one more record: no limit, or fewer than `limit`
/// records taken so far.
pub open spec fn below_limit(limit: Option<usize>, taken: nat) -> bool {
    match limit {
        Some(n) => taken < n,
        None => true,
    }
}

/// The records of `log` that pass `f`, in log order, stopping at `f.limit`
/// records when a limit is set.
pub open spec fn query_result(log: Seq<AuditRecord>, f: AuditFilter) -> Seq<AuditRecord>
    decreases log.len(),
{
    if log.len() == 0 {
        Seq::empty()
    } else {
        let before = query_result(log.drop_last(), f);
        if below_limit(f.limit, before.len()) && record_matches(log.last(), f) {
            before.push(log.last())
        } else {
            before
        }
    }
}

/// `f` sets no condition and no limit.
pub open spec fn unconditioned(f: AuditFilter) -> bool {
    &&& f.agent_id is None
    &&& f.action is None
    &&& f.since_ms is None
    &&& f.until_ms is None
    &&& f.limit is None
}

/// A query that sets no condition returns the whole log.
pub proof fn lemma_unfiltered_query_is_whole_log(log: Seq<AuditRecord>, f: AuditFilter)
    requires
        unconditioned(f),
    ensures
        query_result(log, f) == log,
    decreases log.len(),
{
    if log.len() > 0 {
        lemma_unfiltered_query_is_whole_log(log.drop_last(), f);
        assert(log.drop_last().push(log.last()) =~= log);
    }
}

/// Persistence used by the trust, budget, consent and audit managers.
///
/// Reads of missing keys give the absence value (`None`, `false`); nothing
/// here fails. Implementations can be shared between threads, so that hosts
/// may put them behind a lock.
pub trait Storage: Sized + Send + Sync {
    /// The implementation's own consistency condition.
    spec fn inv(&self) -> bool;

    /// Trust assignments, keyed by `pair_key(agent, scope)`.
    spec fn trust_entries(&self) -> Map<Seq<char>, TrustAssignment>;

    /// Envelopes, keyed by category.
    spec fn envelope_entries(&self) -> Map<Seq<char>, Envelope>;

    /// Consent flags, keyed by `pair_key(agent, action)`.
    spec fn consent_entries(&self) -> Map<Seq<char>, bool>;

    /// The audit records, oldest first.
    spec fn audit_log(&self) -> Seq<AuditRecord>;

    /// An independent copy holding the same data.
    fn duplicate(&self) -> (r: Self)
        requires
            self.inv(),
        ensures
            r.inv(),
            r.trust_entries() == self.trust_entries(),
            r.envelope_entries() == self.envelope_entries(),
            r.consent_entries() == self.consent_entries(),
            r.audit_log() == self.audit_log(),
    ;

    /// The trust assignment stored for `(agent_id, scope)`.
    fn get_trust(&self, agent_id: &str, scope: &str) -> (r: Option<TrustAssignment>)
        requires
            self.inv(),
        ensures
            r == lookup(self.trust_entries(), pair_key(agent_id@, scope@)),
    ;

    /// Stores `assignment` for `(agent_id, scope)`, replacing any earlier one.
    fn set_trust(&mut self, agent_id: &str, scope: &str, assignment: TrustAssignment)
        requires
            old(self).inv(),
        ensures
            final(self).inv(),
            final(self).trust_entries() == old(self).trust_entries().insert(
                pair_key(agent_id@, scope@),
                assignment,
            ),
            final(self).envelope_entries() == old(self).envelope_entries(),
            final(self).consent_entries() == old(self).consent_entries(),
            final(self).audit_log() == old(self).audit_log(),
    ;

    /// The envelope stored for `category`.
    fn get_envelope(&self, category: &str) -> (r: Option<Envelope>)
        requires
            self.inv(),
        ensures
            r == lookup(self.envelope_entries(), category@),
    ;

    /// Stores `envelope` for `category`, replacing any earlier one.
    fn set_envelope(&mut self, category: &str, envelope: Envelope)
        requires
            old(self).inv(),
        ensures
            final(self).inv(),
            final(self).envelope_entries() == old(self).envelope_entries().insert(
                category@,
                envelope,
            ),
            final(self).trust_entries() == old(self).trust_entries(),
            final(self).consent_entries() == old(self).consent_entries(),
            final(self).audit_log() == old(self).audit_log(),
    ;

    /// The consent flag for `(agent_id, action)`; `false` when none is stored.
    fn get_consent(&self, agent_id: &str, action: &str) -> (r: bool)
        requires
            self.inv(),
        ensures
            r == (lookup(self.consent_entries(), pair_key(agent_id@, action@)) == Some(true)),
    ;

    /// Stores the consent flag for `(agent_id, action)`.
    fn set_consent(&mut self, agent_id: &str, action: &str, granted: bool)
        requires
            old(self).inv(),
        ensures
            final(self).inv(),
            final(self).consent_entries() == old(self).consent_entries().insert(
                pair_key(agent_id@, action@),
                granted,
            ),
            final(self).trust_entries() == old(self).trust_entries(),
            final(self).envelope_entries() == old(self).envelope_entries(),
            final(self).audit_log() == old(self).audit_log(),
    ;

    /// Appends `record` to the audit log.
    fn append_audit(&mut self, record: AuditRecord)
        requires
            old(self).inv(),
        ensures
            final(self).inv(),
            final(self).audit_log() == old(self).audit_log().push(record),
            final(self).trust_entries() == old(self).trust_entries(),
            final(self).envelope_entries() == old(self).envelope_entries(),
            final(self).consent_entries() == old(self).consent_entries(),
    ;

    /// The audit records that pass `filter`, oldest first.
    fn query_audit(&self, filter: &AuditFilter) -> (r: Vec<AuditRecord>)
        requires
            self.inv(),
        ensures
            r@ == query_result(self.audit_log(), *filter),
    ;
}

/// Whether `s` starts with `p`, compared byte by byte.
pub fn starts_with(s: &str, p: &str) -> (r: bool)
    ensures
        r == starts_with_text(s@, p@),
{
    let sb = s.as_bytes();
    let pb = p.as_bytes();
    if pb.len() > sb.len() {
        return false;
    }
    let mut i: usize = 0;
    while i < pb.len()
        invariant
            sb@ == encode_utf8(s@),
            pb@ == encode_utf8(p@),
            pb@.len() <= sb@.len(),
            i <= pb@.len(),
            forall|j: int| 0 <= j < i ==> sb@[j] == pb@[j],
        decreases pb@.len() - i,
    {
        if sb[i] != pb[i] {
            return false;
        }
        i = i + 1;
    }
    assert(sb@.subrange(0, pb@.len() as int) =~= pb@);
    true
}

/// Whether `record` passes every condition that `filter` sets.
pub fn record_passes(record: &AuditRecord, filter: &AuditFilter) -> (r: bool)
    ensures
        r == record_matches(*record, *filter),
{
    if let Some(agent_id) = &filter.agent_id {
        if !starts_with(record.id.as_str(), agent_id.as_str()) {
            return false;
        }
    }
    if let Some(action) = &filter.action {
        if record.decision.action != *action {
            return false;
        }
    }
    if let Some(since_ms) = filter.since_ms {
        if record.timestamp_ms < since_ms {
            return false;
        }
    }
    if let Some(until_ms) = filter.until_ms {
        if record.timestamp_ms > until_ms {
            return false;
        }
    }
    true
}

/// The records of `log` that pass `filter`, oldest first, at most
/// `filter.limit` of them.
pub fn filter_audit_records(log: &Vec<AuditRecord>, filter: &AuditFilter) -> (r: Vec<
    AuditRecord,
>)
    ensures
        r@ == query_result(log@, *filter),
{
    let mut out: Vec<AuditRecord> = Vec::new();
    let mut i: usize = 0;
    while i < log.len()
        invariant
            i <= log@.len(),
            out@ == query_result(log@.subrange(0, i as int), *filter),
        decreases log@.len() - i,
    {
        let ghost prefix = log@.subrange(0, i as int);
        let ghost next = log@.subrange(0, i + 1);
        assert(next.drop_last() =~= prefix);
        let room = match filter.limit {
            Some(n) => out.len() < n,
            None => true,
        };
        if room && record_passes(&log[i], filter) {
            out.push(log[i].clone());
        }
        i = i + 1;
    }
    assert(log@.subrange(0, log@.len() as int) =~= log@);
    out
}

/// Key text for a pair: `left`, a colon, then `right`.
pub fn pair_key_text(left: &str, right: &str) -> (r: String)
    ensures
        r@ == pair_key(left@, right@),
{
    let mut key = left.to_owned();
    key.append(":");
    key.append(right);
    key
}

/// Volatile storage held in process memory.
pub struct InMemoryStorage {
    trust: KeyedTable<TrustAssignment>,
    envelopes: KeyedTable<Envelope>,
    consent: KeyedTable<bool>,
    audit: Vec<AuditRecord>,
}

impl InMemoryStorage {
    /// Empty storage.
    pub fn new() -> (r: Self)
        ensures
            r.inv(),
            r.trust_entries().dom() == Set::<Seq<char>>::empty(),
            r.envelope_entries().dom() == Set::<Seq<char>>::empty(),
            r.consent_entries().dom() == Set::<Seq<char>>::empty(),
            r.audit_log() == Seq::<AuditRecord>::empty(),
    {
        InMemoryStorage {
            trust: KeyedTable::new(),
            envelopes: KeyedTable::new(),
            consent: KeyedTable::new(),
            audit: Vec::new(),
        }
    }
}

impl InMemoryStorage {
    /// Storage holding the given tables and audit log.
    pub fn from_parts(
        trust: KeyedTable<TrustAssignment>,
        envelopes: KeyedTable<Envelope>,
        consent: KeyedTable<bool>,
        audit: Vec<AuditRecord>,
    ) -> (r: Self)
        requires
            trust.wf(),
            envelopes.wf(),
            consent.wf(),
        ensures
            r.inv(),
            r.trust_entries() == trust@,
            r.envelope_entries() == envelopes@,
            r.consent_entries() == consent@,
            r.audit_log() == audit@,
    {
        InMemoryStorage { trust, envelopes, consent, audit }
    }

    /// Trust assignments, keyed by `pair_key(agent, scope)`.
    pub fn trust_table(&self) -> (r: &KeyedTable<TrustAssignment>)
        ensures
            r@ == self.trust_entries(),
            self.inv() ==> r.wf(),
    {
        &self.trust
    }

    /// Envelopes, keyed by category.
    pub fn envelope_table(&self) -> (r: &KeyedTable<Envelope>)
        ensures
            r@ == self.envelope_entries(),
            self.inv() ==> r.wf(),
    {
        &self.envelopes
    }

    /// Consent flags, keyed by `pair_key(agent, action)`.
    pub fn consent_table(&self) -> (r: &KeyedTable<bool>)
        ensures
            r@ == self.consent_entries(),
            self.inv() ==> r.wf(),
    {
        &self.consent
    }

    /// The audit records, oldest first.
    pub fn audit_records(&self) -> (r: &Vec<AuditRecord>)
        ensures
            r@ == self.audit_log(),
    {
        &self.audit
    }
}

impl Clone for InMemoryStorage {
    fn clone(&self) -> (r: Self)
        ensures
            self.inv() ==> r.inv(),
            self.inv() ==> r.trust_entries() == self.trust_entries(),
            self.inv() ==> r.envelope_entries() == self.envelope_entries(),
            self.inv() ==> r.consent_entries() == self.consent_entries(),
            r.audit_log() == self.audit_log(),
    {
        let trust = self.trust.clone();
        let envelopes = self.envelopes.clone();
        let consent = self.consent.clone();
        let mut audit: Vec<AuditRecord> = Vec::new();
        let mut i: usize = 0;
        while i < self.audit.len()
            invariant
                i <= self.audit@.len(),
                audit@ == self.audit@.subrange(0, i as int),
            decreases self.audit@.len() - i,
        {
            audit.push(self.audit[i].clone());
            i = i + 1;
        }
        assert(audit@ =~= self.audit@);
        let r = InMemoryStorage { trust, envelopes, consent, audit };
        assert(self.inv() ==> r.trust_entries() =~= self.trust_entries());
        assert(self.inv() ==> r.envelope_entries() =~= self.envelope_entries());
        assert(self.inv() ==> r.consent_entries() =~= self.consent_entries());
        r
    }
}

impl Storage for InMemoryStorage {
    closed spec fn inv(&self) -> bool {
        self.trust.wf() && self.envelopes.wf() && self.consent.wf()
    }

    closed spec fn trust_entries(&self) -> Map<Seq<char>, TrustAssignment> {
        self.trust@
    }

    closed spec fn envelope_entries(&self) -> Map<Seq<char>, Envelope> {
        self.envelopes@
    }

    closed spec fn consent_entries(&self) -> Map<Seq<char>, bool> {
        self.consent@
    }

    closed spec fn audit_log(&self) -> Seq<AuditRecord> {
        self.audit@
    }

    fn duplicate(&self) -> (r: Self) {
        self.clone()
    }

    fn get_trust(&self, agent_id: &str, scope: &str) -> (r: Option<TrustAssignment>) {
        let key = pair_key_text(agent_id, scope);
        match self.trust.get(key.as_str()) {
            Some(assignment) => Some(assignment.clone()),
            None => None,
        }
    }

    fn set_trust(&mut self, agent_id: &str, scope: &str, assignment: TrustAssignment) {
        let key = pair_key_text(agent_id, scope);
        self.trust.insert(key.as_str(), assignment);
    }

    fn get_envelope(&self, category: &str) -> (r: Option<Envelope>) {
        match self.envelopes.get(category) {
            Some(envelope) => Some(envelope.clone()),
            None => None,
        }
    }

    fn set_envelope(&mut self, category: &str, envelope: Envelope) {
        self.envelopes.insert(category, envelope);
    }

    fn get_consent(&self, agent_id: &str, action: &str) -> (r: bool) {
        let key = pair_key_text(agent_id, action);
        match self.consent.get(key.as_str()) {
            Some(granted) => *granted,
            None => false,
        }
    }

    fn set_consent(&mut self, agent_id: &str, action: &str, granted: bool) {
        let key = pair_key_text(agent_id, action);
        self.consent.insert(key.as_str(), granted);
    }

    fn append_audit(&mut self, record: AuditRecord) {
        self.audit.push(record);
    }

    fn query_audit(&self, filter: &AuditFilter) -> (r: Vec<AuditRecord>) {
        filter_audit_records(&self.audit, filter)
    }
}

/// Receives the whole store after every change, to persist it.
pub trait SnapshotSink {
    /// Takes the store as it stands after a change.
    fn save(&mut self, store: &InMemoryStorage);
}

/// In-memory storage that hands itself to `sink` after every change.
pub struct FlushingStorage<W: SnapshotSink> {
    inner: InMemoryStorage,
    sink: W,
}

impl<W: SnapshotSink> FlushingStorage<W> {
    /// Storage starting from `inner`, saved through `sink`.
    pub fn new(inner: InMemoryStorage, sink: W) -> (r: Self)
        ensures
            r.inner() == inner,
    {
        FlushingStorage { inner, sink }
    }

    /// The store held.
    pub closed spec fn inner(&self) -> InMemoryStorage {
        self.inner
    }

    /// The store held.
    pub fn store(&self) -> (r: &InMemoryStorage)
        ensures
            *r == self.inner(),
    {
        &self.inner
    }

    /// Where the store is saved.
    pub fn sink(&self) -> &W {
        &self.sink
    }
}

impl<W: SnapshotSink + Clone + Send + Sync> Storage for FlushingStorage<W> {
    closed spec fn inv(&self) -> bool {
        self.inner.inv()
    }

    closed spec fn trust_entries(&self) -> Map<Seq<char>, TrustAssignment> {
        self.inner.trust_entries()
    }

    closed spec fn envelope_entries(&self) -> Map<Seq<char>, Envelope> {
        self.inner.envelope_entries()
    }

    closed spec fn consent_entries(&self) -> Map<Seq<char>, bool> {
        self.inner.consent_entries()
    }

    closed spec fn audit_log(&self) -> Seq<AuditRecord> {
        self.inner.audit_log()
    }

    fn duplicate(&self) -> (r: Self) {
        FlushingStorage { inner: self.inner.duplicate(), sink: self.sink.clone() }
    }

    fn get_trust(&self, agent_id: &str, scope: &str) -> (r: Option<TrustAssignment>) {
        self.inner.get_trust(agent_id, scope)
    }

    fn set_trust(&mut self, agent_id: &str, scope: &str, assignment: TrustAssignment) {
        self.inner.set_trust(agent_id, scope, assignment);
        self.sink.save(&self.inner);
    }

    fn get_envelope(&self, category: &str) -> (r: Option<Envelope>) {
        self.inner.get_envelope(category)
    }

    fn set_envelope(&mut self, category: &str, envelope: Envelope) {
        self.inner.set_envelope(category, envelope);
        self.sink.save(&self.inner);
    }

    fn get_consent(&self, agent_id: &str, action: &str) -> (r: bool) {
        self.inner.get_consent(agent_id, action)
    }

    fn set_consent(&mut self, agent_id: &str, action: &str, granted: bool) {
        self.inner.set_consent(agent_id, action, granted);
        self.sink.save(&self.inner);
    }

    fn append_audit(&mut self, record: AuditRecord) {
        self.inner.append_audit(record);
        self.sink.save(&self.inner);
    }

    fn query_audit(&self, filter: &AuditFilter) -> (r: Vec<AuditRecord>) {
        self.inner.query_audit(filter)
    }
}

} // verus!
