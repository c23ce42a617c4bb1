//! Consent grants per agent and action: record, check, revoke.

use vstd::prelude::*;
use vstd::string::StringExecFns;

use crate::config::Config;
use crate::storage::{lookup, pair_key, Storage};
use crate::types::ConsentResult;

verus! {

/// Active consent is stored for `(agent, action)`.
pub open spec fn consent_granted(
    entries: Map<Seq<char>, bool>,
    agent: Seq<char>,
    action: Seq<char>,
) -> bool {
    lookup(entries, pair_key(agent, action)) == Some(true)
}

/// Reason given by a consent check.
pub open spec fn consent_reason(agent: Seq<char>, action: Seq<char>, granted: bool) -> Seq<char> {
    (if granted {
        "Active consent exists for agent '"@
    } else {
        "No consent recorded for agent '"@
    }) + agent + "' on action '"@ + action + "'."@
}

/// `r` is what a consent check of `(agent, action)` gives over `entries`.
pub open spec fn consent_outcome(
    r: ConsentResult,
    entries: Map<Seq<char>, bool>,
    agent: Seq<char>,
    action: Seq<char>,
) -> bool {
    &&& r.permitted == consent_granted(entries, agent, action)
    &&& r.reason@ == consent_reason(agent, action, r.permitted)
}

/// Records, checks and revokes consent. Consent is only ever granted by an
/// explicit call.
pub struct ConsentManager<S: Storage> {
    config: Config,
    storage: S,
}

impl<S: Storage> ConsentManager<S> {
    /// The settings the manager was built with.
    pub closed spec fn settings(&self) -> Config {
        self.config
    }

    /// The manager's storage.
    pub closed spec fn store(&self) -> S {
        self.storage
    }

    /// The storage is consistent.
    pub open spec fn wf(&self) -> bool {
        self.store().inv()
    }

    /// A manager over `storage`.
    pub fn new(config: Config, storage: S) -> (r: Self)
        ensures
            r.settings() == config,
            r.store() == storage,
    {
        ConsentManager { config, storage }
    }

    /// Grants consent for `(agent_id, action)`; granting twice is the same
    /// as granting once.
    pub fn record(&mut self, agent_id: &str, action: &str)
        requires
            old(self).wf(),
        ensures
            final(self).wf(),
            final(self).settings() == old(self).settings(),
            final(self).store().consent_entries() == old(self).store().consent_entries().insert(
                pair_key(agent_id@, action@),
                true,
            ),
            final(self).store().trust_entries() == old(self).store().trust_entries(),
            final(self).store().envelope_entries() == old(self).store().envelope_entries(),
            final(self).store().audit_log() == old(self).store().audit_log(),
    {
        self.storage.set_consent(agent_id, action, true);
    }

    /// Whether active consent exists for `(agent_id, action)`.
    pub fn check(&self, agent_id: &str, action: &str) -> (r: ConsentResult)
        requires
            self.wf(),
        ensures
            consent_outcome(r, self.store().consent_entries(), agent_id@, action@),
    {
        let granted = self.storage.get_consent(agent_id, action);
        let mut reason = if granted {
            "Active consent exists for agent '".to_owned()
        } else {
            "No consent recorded for agent '".to_owned()
        };
        reason.append(agent_id);
        reason.append("' on action '");
        reason.append(action);
        reason.append("'.");
        ConsentResult { permitted: granted, reason }
    }

    /// Withdraws consent for `(agent_id, action)`; a pair never granted stays
    /// without consent.
    pub fn revoke(&mut self, agent_id: &str, action: &str)
        requires
            old(self).wf(),
        ensures
            final(self).wf(),
            final(self).settings() == old(self).settings(),
            final(self).store().consent_entries() == old(self).store().consent_entries().insert(
                pair_key(agent_id@, action@),
                false,
            ),
            final(self).store().trust_entries() == old(self).store().trust_entries(),
            final(self).store().envelope_entries() == old(self).store().envelope_entries(),
            final(self).store().audit_log() == old(self).store().audit_log(),
    {
        self.storage.set_consent(agent_id, action, false);
    }

    /// The manager's storage.
    pub fn storage(&self) -> (r: &S)
        ensures
            *r == self.store(),
    {
        &self.storage
    }
}

/// Consent round trip: after a grant the pair is permitted, after a revoke it
/// is denied, and revoking a pair that was never granted changes no check's
/// answer.
pub proof fn lemma_consent_round_trip(
    entries: Map<Seq<char>, bool>,
    agent: Seq<char>,
    action: Seq<char>,
)
    ensures
        consent_granted(entries.insert(pair_key(agent, action), true), agent, action),
        !consent_granted(entries.insert(pair_key(agent, action), false), agent, action),
        !consent_granted(
            entries.insert(pair_key(agent, action), true).insert(pair_key(agent, action), false),
            agent,
            action,
        ),
        !consent_granted(entries, agent, action) ==> forall|a: Seq<char>, b: Seq<char>|
            #[trigger] consent_granted(entries.insert(pair_key(agent, action), false), a, b)
                == consent_granted(entries, a, b),
{
}

} // verus!
