//! Request gating for an edge deployment: an agent's tier comes from the
//! caller (a key-value lookup), the request cost from the caller's estimate,
//! and the engine decides.

use vstd::prelude::*;

use crate::audit::chain_hash;
use crate::budget::{after_spend, budget_permits};
use crate::config::Config;
use crate::engine::{verdict_reason, GovernanceEngine};
use crate::storage::{query_result, InMemoryStorage, Storage};
use crate::types::{AuditFilter, AuditRecord, Context, TrustLevel};

verus! {

/// Default tier required to pass: `Suggest`.
pub fn default_required_trust() -> (r: u8)
    ensures
        r == 2,
{
    2
}

/// Default envelope category: `"api-calls"`.
pub fn default_budget_category() -> (r: String)
    ensures
        r@ == "api-calls"@,
{
    "api-calls".to_owned()
}

/// Default envelope limit per period.
pub fn default_budget_limit() -> (r: u64)
    ensures
        r == 1000,
{
    1000
}

/// Length of the envelope period the middleware defines: one day.
pub const ENVELOPE_PERIOD_MS: u64 = 86_400_000;

/// Settings of the middleware.
#[derive(Debug)]
pub struct CfConfig {
    /// Name of the key-value namespace that maps agent ids to tiers.
    pub trust_kv_binding: String,
    /// Tier (`0..=5`) given to agents the namespace does not know.
    pub default_trust_level: u8,
    /// Tier (`0..=5`) a request needs; an out-of-range value means `Suggest`.
    pub required_trust_level: u8,
    /// Category of the envelope requests are charged to.
    pub budget_category: String,
    /// Limit of that envelope per period.
    pub budget_limit: u64,
    /// Carried into the engine settings.
    pub require_consent: bool,
}

impl Clone for CfConfig {
    fn clone(&self) -> (r: Self)
        ensures
            r == *self,
    {
        CfConfig {
            trust_kv_binding: self.trust_kv_binding.clone(),
            default_trust_level: self.default_trust_level,
            required_trust_level: self.required_trust_level,
            budget_category: self.budget_category.clone(),
            budget_limit: self.budget_limit,
            require_consent: self.require_consent,
        }
    }
}

impl Default for CfConfig {
    fn default() -> (r: Self)
        ensures
            r.trust_kv_binding@ == "TRUST_KV"@,
            r.default_trust_level == 0,
            r.required_trust_level == 2,
            r.budget_category@ == "api-calls"@,
            r.budget_limit == 1000,
            !r.require_consent,
    {
        CfConfig {
            trust_kv_binding: "TRUST_KV".to_owned(),
            default_trust_level: 0,
            required_trust_level: default_required_trust(),
            budget_category: default_budget_category(),
            budget_limit: default_budget_limit(),
            require_consent: false,
        }
    }
}

/// What the middleware answers for one request.
#[derive(Debug)]
pub enum MiddlewareDecision {
    /// Pass the request on.
    Allow {
        /// The tier the agent was evaluated at.
        agent_trust_level: u8,
        /// Reason of the engine's decision.
        reason: String,
    },
    /// Refuse the request.
    Deny {
        /// HTTP status, `403`.
        status: u16,
        /// Machine-readable code, `GOVERNANCE_DENIED`.
        code: String,
        /// Reason of the engine's decision.
        reason: String,
    },
    /// The request did not say which agent sent it.
    MissingAgent {
        /// HTTP status, `401`.
        status: u16,
        /// Human-readable reason.
        reason: String,
    },
}

/// The tier with rank `value`, or `fallback` when `value` is above `5`.
pub open spec fn tier_or(value: u8, fallback: TrustLevel) -> TrustLevel {
    if value == 0 {
        TrustLevel::Observer
    } else if value == 1 {
        TrustLevel::Monitor
    } else if value == 2 {
        TrustLevel::Suggest
    } else if value == 3 {
        TrustLevel::ActWithApproval
    } else if value == 4 {
        TrustLevel::ActAndReport
    } else if value == 5 {
        TrustLevel::Autonomous
    } else {
        fallback
    }
}

/// The tier with rank `value`, or `fallback` when `value` is above `5`.
fn resolve_tier(value: u8, fallback: TrustLevel) -> (r: TrustLevel)
    ensures
        r == tier_or(value, fallback),
{
    match TrustLevel::from_u8(value) {
        Some(level) => level,
        None => fallback,
    }
}

/// The engine settings the middleware runs with.
pub open spec fn engine_settings(require_consent: bool) -> Config {
    Config { require_consent, default_observer_on_missing: true, pass_on_missing_envelope: true }
}

/// Governance for incoming requests, over an in-memory engine.
pub struct CfGovernanceMiddleware {
    config: CfConfig,
    engine: GovernanceEngine<InMemoryStorage>,
}

impl CfGovernanceMiddleware {
    /// The middleware's settings.
    pub closed spec fn settings(&self) -> CfConfig {
        self.config
    }

    /// The engine behind the middleware.
    pub closed spec fn engine_state(&self) -> GovernanceEngine<InMemoryStorage> {
        self.engine
    }

    /// The engine is consistent and runs with the middleware's settings.
    pub open spec fn wf(&self) -> bool {
        &&& self.engine_state().wf()
        &&& self.engine_state().trust.settings() == engine_settings(self.settings().require_consent)
        &&& self.engine_state().budget.settings() == engine_settings(
            self.settings().require_consent,
        )
    }

    /// A middleware whose engine treats unknown agents as `Observer`, passes
    /// categories without an envelope, and holds one envelope of
    /// `config.budget_limit` per day for `config.budget_category`.
    pub fn new(config: CfConfig) -> (r: Self)
        ensures
            r.wf(),
            r.settings() == config,
            r.engine_state().budget.store().envelope_entries().contains_key(config.budget_category@),
            r.engine_state().budget.store().envelope_entries()[config.budget_category@].limit
                == config.budget_limit,
            r.engine_state().budget.store().envelope_entries()[config.budget_category@].spent == 0,
            r.engine_state().audit.store().audit_log().len() == 0,
    {
        let engine_config = Config {
            require_consent: config.require_consent,
            default_observer_on_missing: true,
            pass_on_missing_envelope: true,
        };
        let mut engine = GovernanceEngine::new(engine_config, InMemoryStorage::new());
        engine.budget.create_envelope(
            config.budget_category.as_str(),
            config.budget_limit,
            ENVELOPE_PERIOD_MS,
            0,
        );
        CfGovernanceMiddleware { config, engine }
    }

    /// Evaluates a request of `agent_id`, whose tier is `trust_level_value`
    /// (an out-of-range value counts as `Observer`), costing `estimated_cost`
    /// (`0` for none), for `action`.
    ///
    /// The tier is assigned to the agent in scope `default` first; the engine
    /// then checks it against the required tier and charges the cost to the
    /// configured envelope. The request is allowed iff the engine permits it.
    pub fn evaluate_agent(
        &mut self,
        agent_id: &str,
        trust_level_value: u8,
        estimated_cost: u64,
        action: &str,
    ) -> (r: MiddlewareDecision)
        requires
            old(self).wf(),
        ensures
            final(self).wf(),
            final(self).settings() == old(self).settings(),
            ({
                let level = tier_or(trust_level_value, TrustLevel::Observer);
                let required = tier_or(old(self).settings().required_trust_level, TrustLevel::Suggest);
                let category = old(self).settings().budget_category@;
                let envelopes = old(self).engine_state().budget.store().envelope_entries();
                let trust_ok = level.spec_at_least(required);
                let budget_ok = estimated_cost == 0 || budget_permits(
                    envelopes,
                    engine_settings(old(self).settings().require_consent),
                    category,
                    estimated_cost,
                );
                let log = final(self).engine_state().audit.store().audit_log();
                &&& log.len() == old(self).engine_state().audit.store().audit_log().len() + 1
                &&& log.last().decision.permitted == (trust_ok && budget_ok)
                &&& log.last().decision.action@ == action@
                &&& final(self).engine_state().budget.store().envelope_entries() == if trust_ok
                    && estimated_cost > 0 && budget_ok {
                    after_spend(envelopes, category, estimated_cost)
                } else {
                    envelopes
                }
                &&& match r {
                    MiddlewareDecision::Allow { agent_trust_level, reason } => {
                        &&& trust_ok && budget_ok
                        &&& agent_trust_level == level.spec_rank()
                        &&& reason@ == verdict_reason(true, true, true)
                    },
                    MiddlewareDecision::Deny { status, code, reason } => {
                        &&& !(trust_ok && budget_ok)
                        &&& status == 403
                        &&& code@ == "GOVERNANCE_DENIED"@
                        &&& reason@ == verdict_reason(trust_ok, budget_ok, true)
                    },
                    MiddlewareDecision::MissingAgent { .. } => false,
                }
            }),
    {
        let trust_level = resolve_tier(trust_level_value, TrustLevel::Observer);
        let required = resolve_tier(self.config.required_trust_level, TrustLevel::Suggest);
        self.engine.trust.set_level(agent_id, "default", trust_level, "kv-lookup");
        let context = Context {
            agent_id: agent_id.to_owned(),
            scope: "default".to_owned(),
            required_trust: required,
            cost: if estimated_cost > 0 {
                Some(estimated_cost)
            } else {
                None
            },
            category: self.config.budget_category.clone(),
            data_type: None,
            purpose: None,
        };
        let decision = self.engine.check(action, &context);
        if decision.permitted {
            MiddlewareDecision::Allow { agent_trust_level: trust_level.rank(), reason: decision.reason }
        } else {
            MiddlewareDecision::Deny {
                status: 403,
                code: "GOVERNANCE_DENIED".to_owned(),
                reason: decision.reason,
            }
        }
    }

    /// The audit records that pass `filter`, oldest first.
    pub fn audit_trail(&self, filter: &AuditFilter) -> (r: Vec<AuditRecord>)
        requires
            self.wf(),
        ensures
            r@ == query_result(self.engine_state().audit.store().audit_log(), *filter),
    {
        self.engine.query_audit(filter)
    }

    /// The middleware's settings.
    pub fn config(&self) -> (r: &CfConfig)
        ensures
            *r == self.settings(),
    {
        &self.config
    }
}

} // verus!
