//! Trust tiers: assignment by an owner, lookup, and checks against a
//! required tier.

use vstd::prelude::*;
use vstd::string::StringExecFns;

use crate::clock::current_time_ms;
use crate::config::Config;
use crate::storage::{lookup, pair_key, Storage};
use crate::types::{TrustAssignment, TrustLevel, TrustResult};

verus! {

/// The assignment for `(agent, scope)` that still counts at `now_ms`.
pub open spec fn live_assignment(
    entries: Map<Seq<char>, TrustAssignment>,
    agent: Seq<char>,
    scope: Seq<char>,
    now_ms: u64,
) -> Option<TrustAssignment> {
    match lookup(entries, pair_key(agent, scope)) {
        Some(a) => if a.spec_live_at(now_ms) {
            Some(a)
        } else {
            None
        },
        None => None,
    }
}

/// Reason given when an assignment is found.
pub open spec fn found_reason(
    agent: Seq<char>,
    level: TrustLevel,
    required: TrustLevel,
) -> Seq<char> {
    "Agent '"@ + agent + "' has trust level '"@ + level.spec_display_name() + (if level.spec_at_least(
        required,
    ) {
        "' which meets required '"@
    } else {
        "' which is below required '"@
    }) + required.spec_display_name() + "'."@
}

/// Reason given when no live assignment is found.
pub open spec fn missing_reason(
    agent: Seq<char>,
    scope: Seq<char>,
    default_observer: bool,
) -> Seq<char> {
    "No trust assignment found for agent '"@ + agent + "' in scope '"@ + scope + (if default_observer {
        "'; defaulting to Observer."@
    } else {
        "'."@
    })
}

/// `r` is what a trust check of `(agent, scope)` against `required` gives at
/// `now_ms`, over the stored `entries` and the settings `config`.
pub open spec fn trust_outcome(
    r: TrustResult,
    entries: Map<Seq<char>, TrustAssignment>,
    config: Config,
    agent: Seq<char>,
    scope: Seq<char>,
    required: TrustLevel,
    now_ms: u64,
) -> bool {
    &&& r.required_level == required
    &&& match live_assignment(entries, agent, scope, now_ms) {
        Some(a) => {
            &&& r.current_level == a.level
            &&& r.permitted == a.level.spec_at_least(required)
            &&& r.reason@ == found_reason(agent, a.level, required)
        },
        None => {
            &&& r.current_level == TrustLevel::Observer
            &&& r.permitted == (config.default_observer_on_missing
                && TrustLevel::Observer.spec_at_least(required))
            &&& r.reason@ == missing_reason(agent, scope, config.default_observer_on_missing)
        },
    }
}

/// Assigns and checks trust tiers. Tiers change only through `set_level`
/// and `set_level_with_expiry`.
pub struct TrustManager<S: Storage> {
    config: Config,
    storage: S,
}

impl<S: Storage> TrustManager<S> {
    /// The settings the manager was built with.
    pub closed spec fn settings(&self) -> Config {
        self.config
    }

    /// The manager's storage.
    pub closed spec fn store(&self) -> S {
        self.storage
    }

    /// The storage is consistent.
    pub open spec fn wf(&self) -> bool {
        self.store().inv()
    }

    /// A manager over `storage`.
    pub fn new(config: Config, storage: S) -> (r: Self)
        ensures
            r.settings() == config,
            r.store() == storage,
    {
        TrustManager { config, storage }
    }

    /// Grants `level` to `agent_id` within `scope`, replacing any earlier
    /// assignment for that pair; the assignment never expires.
    pub fn set_level(&mut self, agent_id: &str, scope: &str, level: TrustLevel, assigned_by: &str)
        requires
            old(self).wf(),
        ensures
            final(self).wf(),
            final(self).settings() == old(self).settings(),
            assigned(old(self).store(), final(self).store(), agent_id@, scope@, level, assigned_by@, None),
    {
        let now = current_time_ms();
        self.assign(agent_id, scope, level, assigned_by, now, None);
    }

    /// Grants `level` to `agent_id` within `scope` until `expires_at_ms`,
    /// after which the assignment counts as absent.
    pub fn set_level_with_expiry(
        &mut self,
        agent_id: &str,
        scope: &str,
        level: TrustLevel,
        assigned_by: &str,
        expires_at_ms: u64,
    )
        requires
            old(self).wf(),
        ensures
            final(self).wf(),
            final(self).settings() == old(self).settings(),
            assigned(
                old(self).store(),
                final(self).store(),
                agent_id@,
                scope@,
                level,
                assigned_by@,
                Some(expires_at_ms),
            ),
    {
        let now = current_time_ms();
        self.assign(agent_id, scope, level, assigned_by, now, Some(expires_at_ms));
    }

    fn assign(
        &mut self,
        agent_id: &str,
        scope: &str,
        level: TrustLevel,
        assigned_by: &str,
        now_ms: u64,
        expires_at_ms: Option<u64>,
    )
        requires
            old(self).wf(),
        ensures
            final(self).wf(),
            final(self).settings() == old(self).settings(),
            assigned(old(self).store(), final(self).store(), agent_id@, scope@, level, assigned_by@, expires_at_ms),
    {
        let assignment = TrustAssignment {
            agent_id: agent_id.to_owned(),
            level,
            scope: scope.to_owned(),
            assigned_at_ms: now_ms,
            expires_at_ms,
            assigned_by: assigned_by.to_owned(),
        };
        self.storage.set_trust(agent_id, scope, assignment);
        proof {
            let k = pair_key(agent_id@, scope@);
            assert(self.storage.trust_entries().remove(k) =~= old(self).storage.trust_entries().remove(k));
        }
    }

    /// The assignment for `(agent_id, scope)` if there is one and it has not
    /// expired by the current time.
    pub fn get_level(&self, agent_id: &str, scope: &str) -> (r: Option<TrustAssignment>)
        requires
            self.wf(),
        ensures
            exists|now_ms: u64|
                r == live_assignment(self.store().trust_entries(), agent_id@, scope@, now_ms),
    {
        let now = current_time_ms();
        self.get_level_at(agent_id, scope, now)
    }

    /// The assignment for `(agent_id, scope)` that still counts at `now_ms`.
    pub fn get_level_at(&self, agent_id: &str, scope: &str, now_ms: u64) -> (r: Option<
        TrustAssignment,
    >)
        requires
            self.wf(),
        ensures
            r == live_assignment(self.store().trust_entries(), agent_id@, scope@, now_ms),
    {
        match self.storage.get_trust(agent_id, scope) {
            Some(assignment) => {
                if assignment.live_at(now_ms) {
                    Some(assignment)
                } else {
                    None
                }
            },
            None => None,
        }
    }

    /// Checks the tier of `agent_id` in `scope` against `required` at the
    /// current time.
    pub fn check_level(&self, agent_id: &str, scope: &str, required: TrustLevel) -> (r: TrustResult)
        requires
            self.wf(),
        ensures
            exists|now_ms: u64|
                trust_outcome(
                    r,
                    self.store().trust_entries(),
                    self.settings(),
                    agent_id@,
                    scope@,
                    required,
                    now_ms,
                ),
    {
        let now = current_time_ms();
        self.check_level_at(agent_id, scope, required, now)
    }

    /// Checks the tier of `agent_id` in `scope` against `required` at
    /// `now_ms`: a live assignment passes iff its tier is at or above
    /// `required`; without one the agent counts as `Observer` when the
    /// settings say so, and is denied otherwise.
    pub fn check_level_at(
        &self,
        agent_id: &str,
        scope: &str,
        required: TrustLevel,
        now_ms: u64,
    ) -> (r: TrustResult)
        requires
            self.wf(),
        ensures
            trust_outcome(
                r,
                self.store().trust_entries(),
                self.settings(),
                agent_id@,
                scope@,
                required,
                now_ms,
            ),
    {
        match self.get_level_at(agent_id, scope, now_ms) {
            Some(assignment) => {
                let permitted = assignment.level.at_least(required);
                let mut reason = "Agent '".to_owned();
                reason.append(agent_id);
                reason.append("' has trust level '");
                reason.append(assignment.level.display_name());
                if permitted {
                    reason.append("' which meets required '");
                } else {
                    reason.append("' which is below required '");
                }
                reason.append(required.display_name());
                reason.append("'.");
                TrustResult { permitted, current_level: assignment.level, required_level: required, reason }
            },
            None => {
                let observer = self.config.default_observer_on_missing;
                let mut reason = "No trust assignment found for agent '".to_owned();
                reason.append(agent_id);
                reason.append("' in scope '");
                reason.append(scope);
                if observer {
                    reason.append("'; defaulting to Observer.");
                } else {
                    reason.append("'.");
                }
                let permitted = observer && TrustLevel::Observer.at_least(required);
                TrustResult {
                    permitted,
                    current_level: TrustLevel::Observer,
                    required_level: required,
                    reason,
                }
            },
        }
    }

    /// The manager's storage.
    pub fn storage(&self) -> (r: &S)
        ensures
            *r == self.store(),
    {
        &self.storage
    }

    /// The manager's storage, for direct edits.
    pub fn storage_mut(&mut self) -> (r: &mut S)
        ensures
            *r == old(self).store(),
            final(self).store() == *final(r),
            final(self).settings() == old(self).settings(),
    {
        &mut self.storage
    }
}

/// `after` differs from `before` only in that `(agent, scope)` now holds an
/// assignment of `level` by `by`, expiring at `expires`.
pub open spec fn assigned<S: Storage>(
    before: S,
    after: S,
    agent: Seq<char>,
    scope: Seq<char>,
    level: TrustLevel,
    by: Seq<char>,
    expires: Option<u64>,
) -> bool {
    let k = pair_key(agent, scope);
    &&& after.inv()
    &&& after.trust_entries().contains_key(k)
    &&& after.trust_entries()[k].agent_id@ == agent
    &&& after.trust_entries()[k].scope@ == scope
    &&& after.trust_entries()[k].level == level
    &&& after.trust_entries()[k].assigned_by@ == by
    &&& after.trust_entries()[k].expires_at_ms == expires
    &&& after.trust_entries().remove(k) == before.trust_entries().remove(k)
    &&& after.envelope_entries() == before.envelope_entries()
    &&& after.consent_entries() == before.consent_entries()
    &&& after.audit_log() == before.audit_log()
}

/// Tier order: against a live assignment, a trust check passes iff the
/// assigned tier is at or above the required one in the six-tier order.
pub proof fn lemma_trust_check_follows_order(
    r: TrustResult,
    entries: Map<Seq<char>, TrustAssignment>,
    config: Config,
    agent: Seq<char>,
    scope: Seq<char>,
    required: TrustLevel,
    now_ms: u64,
)
    requires
        trust_outcome(r, entries, config, agent, scope, required, now_ms),
        live_assignment(entries, agent, scope, now_ms) is Some,
    ensures
        r.permitted <==> live_assignment(entries, agent, scope, now_ms)->Some_0.level.spec_rank()
            >= required.spec_rank(),
{
}

} // verus!
