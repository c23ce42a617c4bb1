//! The evaluation pipeline: trust gate, budget gate, consent gate, and an
//! audit record for every outcome.

use vstd::prelude::*;

use crate::audit::{chain_hash, sealed_record, AuditLogger};
use crate::budget::{after_spend, budget_outcome, BudgetManager};
use crate::clock::current_time_ms;
use crate::config::Config;
use crate::consent::{consent_outcome, ConsentManager};
use crate::storage::{query_result, unconditioned, Storage};
use crate::trust::{trust_outcome, TrustManager};
use crate::types::{
    AuditFilter, AuditRecord, BudgetResult, ConsentResult, Context, Decision, TrustResult,
};

verus! {

/// `r` is the budget result of a request whose budget gate was not entered.
pub open spec fn budget_skipped(r: BudgetResult, category: Seq<char>) -> bool {
    &&& r.permitted
    &&& r.available == u64::MAX
    &&& r.requested == 0
    &&& r.category@ == category
    &&& r.reason@ == "Budget gate skipped (no cost specified)."@
}

/// `r` is the consent result of a request whose consent gate was not entered.
pub open spec fn consent_skipped(r: ConsentResult) -> bool {
    &&& r.permitted
    &&& r.reason@ == "Consent gate skipped (no data type specified)."@
}

/// The cost that enters the budget gate: present and positive.
pub open spec fn gated_cost(ctx: Context) -> Option<u64> {
    match ctx.cost {
        Some(c) => if c > 0 {
            Some(c)
        } else {
            None
        },
        None => None,
    }
}

/// The reason of a decision, naming the first gate that denied.
pub open spec fn verdict_reason(trust: bool, budget: bool, consent: bool) -> Seq<char> {
    if !trust {
        "Trust gate denied."@
    } else if !budget {
        "Budget gate denied."@
    } else if !consent {
        "Consent gate denied."@
    } else {
        "All governance gates passed."@
    }
}

/// The cost that enters the budget gate: present and positive.
pub fn gated_cost_of(ctx: &Context) -> (r: Option<u64>)
    ensures
        r == gated_cost(*ctx),
{
    match ctx.cost {
        Some(c) if c > 0 => Some(c),
        _ => None,
    }
}

/// Budget result for a request without a cost.
pub fn skipped_budget_result(category: &str) -> (r: BudgetResult)
    ensures
        budget_skipped(r, category@),
{
    BudgetResult {
        permitted: true,
        available: u64::MAX,
        requested: 0,
        category: category.to_owned(),
        reason: "Budget gate skipped (no cost specified).".to_owned(),
    }
}

/// Consent result for a request without a data type.
pub fn skipped_consent_result() -> (r: ConsentResult)
    ensures
        consent_skipped(r),
{
    ConsentResult {
        permitted: true,
        reason: "Consent gate skipped (no data type specified).".to_owned(),
    }
}

/// The decision from the three gate results.
pub fn conclude(
    trust: TrustResult,
    budget: BudgetResult,
    consent: ConsentResult,
    action: &str,
    timestamp_ms: u64,
) -> (r: Decision)
    ensures
        r.permitted == (trust.permitted && budget.permitted && consent.permitted),
        r.reason@ == verdict_reason(trust.permitted, budget.permitted, consent.permitted),
        r.trust == trust,
        r.budget == budget,
        r.consent == consent,
        r.action@ == action@,
        r.timestamp_ms == timestamp_ms,
{
    let reason = if !trust.permitted {
        "Trust gate denied."
    } else if !budget.permitted {
        "Budget gate denied."
    } else if !consent.permitted {
        "Consent gate denied."
    } else {
        "All governance gates passed."
    };
    Decision {
        permitted: trust.permitted && budget.permitted && consent.permitted,
        trust,
        budget,
        consent,
        action: action.to_owned(),
        timestamp_ms,
        reason: reason.to_owned(),
    }
}

/// What an evaluation does next, once the results so far are known.
pub enum PipelineStep {
    /// Check the envelope of the request's category for `amount`.
    CheckBudget {
        /// The request's cost.
        amount: u64,
    },
    /// The budget check passed: debit `amount`, then go on.
    Debit {
        /// The request's cost.
        amount: u64,
        /// The passing budget result.
        budget: BudgetResult,
    },
    /// Check consent of the agent for `data_type`.
    CheckConsent {
        /// The data type the request touches.
        data_type: String,
        /// The budget result so far (passed or skipped).
        budget: BudgetResult,
    },
    /// Nothing is left to check: append this decision to the audit chain.
    Log(Decision),
}

/// `d` is the decision concluded from the three gate results.
pub open spec fn concluded(
    d: Decision,
    action: Seq<char>,
    now_ms: u64,
    trust: TrustResult,
    budget: BudgetResult,
    consent: ConsentResult,
) -> bool {
    &&& d.trust == trust
    &&& d.budget == budget
    &&& d.consent == consent
    &&& d.permitted == (trust.permitted && budget.permitted && consent.permitted)
    &&& d.reason@ == verdict_reason(trust.permitted, budget.permitted, consent.permitted)
    &&& d.action@ == action
    &&& d.timestamp_ms == now_ms
}

/// `r` is the step after a budget gate that passed or was skipped with
/// `budget`: the consent check when the request names a data type, else the
/// decision with consent skipped.
pub open spec fn consent_step(
    r: PipelineStep,
    action: Seq<char>,
    ctx: Context,
    now_ms: u64,
    trust: TrustResult,
    budget: BudgetResult,
) -> bool {
    match ctx.data_type {
        Some(dt) => (r matches PipelineStep::CheckConsent { data_type, budget: b } && data_type@
            == dt@ && b == budget),
        None => (r matches PipelineStep::Log(d) && consent_skipped(d.consent) && concluded(
            d,
            action,
            now_ms,
            trust,
            budget,
            d.consent,
        )),
    }
}

/// The budget result a step carries.
pub open spec fn carried_budget(r: PipelineStep) -> BudgetResult {
    match r {
        PipelineStep::Debit { budget, .. } => budget,
        PipelineStep::CheckConsent { budget, .. } => budget,
        PipelineStep::Log(d) => d.budget,
        PipelineStep::CheckBudget { .. } => arbitrary(),
    }
}

/// The step after the trust gate gave `trust`: a denial is logged with the
/// other gates skipped; otherwise the budget gate runs when the request has a
/// positive cost, and is skipped when it has none.
pub fn after_trust(action: &str, ctx: &Context, now_ms: u64, trust: &TrustResult) -> (r:
    PipelineStep)
    ensures
        !trust.permitted ==> (r matches PipelineStep::Log(d) && budget_skipped(
            d.budget,
            ctx.category@,
        ) && consent_skipped(d.consent) && concluded(
            d,
            action@,
            now_ms,
            *trust,
            d.budget,
            d.consent,
        )),
        trust.permitted && gated_cost(*ctx) is Some ==> r == (PipelineStep::CheckBudget {
            amount: gated_cost(*ctx)->Some_0,
        }),
        trust.permitted && gated_cost(*ctx) is None ==> budget_skipped(
            carried_budget(r),
            ctx.category@,
        ) && consent_step(r, action@, *ctx, now_ms, *trust, carried_budget(r)),
{
    if !trust.permitted {
        return PipelineStep::Log(
            conclude(
                trust.clone(),
                skipped_budget_result(ctx.category.as_str()),
                skipped_consent_result(),
                action,
                now_ms,
            ),
        );
    }
    match gated_cost_of(ctx) {
        Some(amount) => PipelineStep::CheckBudget { amount },
        None => after_debit(action, ctx, now_ms, trust, skipped_budget_result(ctx.category.as_str())),
    }
}

/// The step after the budget gate gave `budget` for `amount`: a denial is
/// logged with consent skipped; a pass debits the envelope next.
pub fn after_budget(
    action: &str,
    now_ms: u64,
    trust: &TrustResult,
    amount: u64,
    budget: BudgetResult,
) -> (r: PipelineStep)
    ensures
        !budget.permitted ==> (r matches PipelineStep::Log(d) && consent_skipped(d.consent)
            && concluded(d, action@, now_ms, *trust, budget, d.consent)),
        budget.permitted ==> r == (PipelineStep::Debit { amount, budget }),
{
    if budget.permitted {
        PipelineStep::Debit { amount, budget }
    } else {
        PipelineStep::Log(conclude(trust.clone(), budget, skipped_consent_result(), action, now_ms))
    }
}

/// The step once the budget gate passed (and was debited) or was skipped,
/// with `budget`.
pub fn after_debit(
    action: &str,
    ctx: &Context,
    now_ms: u64,
    trust: &TrustResult,
    budget: BudgetResult,
) -> (r: PipelineStep)
    ensures
        consent_step(r, action@, *ctx, now_ms, *trust, budget),
        carried_budget(r) == budget,
{
    match &ctx.data_type {
        Some(data_type) => PipelineStep::CheckConsent { data_type: data_type.clone(), budget },
        None => PipelineStep::Log(
            conclude(trust.clone(), budget, skipped_consent_result(), action, now_ms),
        ),
    }
}

/// The decision once the consent gate gave `consent`.
pub fn after_consent(
    action: &str,
    now_ms: u64,
    trust: &TrustResult,
    budget: BudgetResult,
    consent: ConsentResult,
) -> (d: Decision)
    ensures
        concluded(d, action@, now_ms, *trust, budget, consent),
{
    conclude(trust.clone(), budget, consent, action, now_ms)
}

/// The four managers composed into one evaluation pipeline.
pub struct GovernanceEngine<S: Storage> {
    /// Trust tiers.
    pub trust: TrustManager<S>,
    /// Spending envelopes.
    pub budget: BudgetManager<S>,
    /// Consent grants.
    pub consent: ConsentManager<S>,
    /// The audit chain.
    pub audit: AuditLogger<S>,
}

/// `after` is `before` once `d` has been decided for `action` and `ctx` at
/// `now_ms`: the gates ran in order, each only if every earlier one passed,
/// only a passed budget gate debited its envelope, and exactly one record
/// holding `d` was appended to the audit chain.
pub open spec fn evaluated<S: Storage>(
    before: GovernanceEngine<S>,
    after: GovernanceEngine<S>,
    action: Seq<char>,
    ctx: Context,
    now_ms: u64,
    d: Decision,
) -> bool {
    let envelopes = before.budget.store().envelope_entries();
    &&& after.trust == before.trust
    &&& after.consent == before.consent
    &&& after.budget.settings() == before.budget.settings()
    &&& after.audit.chain_start() == before.audit.chain_start()
    &&& d.action@ == action
    &&& d.timestamp_ms == now_ms
    &&& trust_outcome(
        d.trust,
        before.trust.store().trust_entries(),
        before.trust.settings(),
        ctx.agent_id@,
        ctx.scope@,
        ctx.required_trust,
        now_ms,
    )
    &&& if d.trust.permitted && gated_cost(ctx) is Some {
        let c = gated_cost(ctx)->Some_0;
        &&& budget_outcome(d.budget, envelopes, before.budget.settings(), ctx.category@, c)
        &&& after.budget.store().envelope_entries() == if d.budget.permitted {
            after_spend(envelopes, ctx.category@, c)
        } else {
            envelopes
        }
    } else {
        &&& budget_skipped(d.budget, ctx.category@)
        &&& after.budget.store().envelope_entries() == envelopes
    }
    &&& if d.trust.permitted && d.budget.permitted && ctx.data_type is Some {
        consent_outcome(
            d.consent,
            before.consent.store().consent_entries(),
            ctx.agent_id@,
            ctx.data_type->Some_0@,
        )
    } else {
        consent_skipped(d.consent)
    }
    &&& d.permitted == (d.trust.permitted && d.budget.permitted && d.consent.permitted)
    &&& d.reason@ == verdict_reason(d.trust.permitted, d.budget.permitted, d.consent.permitted)
    &&& after.audit.store().audit_log().len() == before.audit.store().audit_log().len() + 1
    &&& after.audit.store().audit_log().drop_last() == before.audit.store().audit_log()
    &&& sealed_record(after.audit.store().audit_log().last(), before.audit.tip(), d)
    &&& after.audit.tip() == chain_hash(before.audit.tip(), d)
}

impl<S: Storage> GovernanceEngine<S> {
    /// Every manager's storage is consistent and the audit chain is intact.
    pub open spec fn wf(&self) -> bool {
        &&& self.trust.wf()
        &&& self.budget.wf()
        &&& self.consent.wf()
        &&& self.audit.wf()
    }

    /// An engine whose four managers each get their own copy of `storage`,
    /// with a fresh audit chain.
    pub fn new(config: Config, storage: S) -> (r: Self)
        requires
            storage.inv(),
        ensures
            r.wf(),
            r.trust.settings() == config,
            r.budget.settings() == config,
            r.consent.settings() == config,
            r.trust.store().trust_entries() == storage.trust_entries(),
            r.budget.store().envelope_entries() == storage.envelope_entries(),
            r.consent.store().consent_entries() == storage.consent_entries(),
            r.audit.store() == storage,
            r.audit.tip() == crate::audit::genesis_hash(),
            r.audit.chain_start() == storage.audit_log().len(),
    {
        GovernanceEngine {
            trust: TrustManager::new(config, storage.duplicate()),
            budget: BudgetManager::new(config, storage.duplicate()),
            consent: ConsentManager::new(config, storage.duplicate()),
            audit: AuditLogger::new(storage),
        }
    }

    /// An engine from four managers built elsewhere.
    pub fn from_parts(
        trust: TrustManager<S>,
        budget: BudgetManager<S>,
        consent: ConsentManager<S>,
        audit: AuditLogger<S>,
    ) -> (r: Self)
        ensures
            r.trust == trust,
            r.budget == budget,
            r.consent == consent,
            r.audit == audit,
    {
        GovernanceEngine { trust, budget, consent, audit }
    }

    /// Evaluates `action` for `ctx` at the current time; see `check_at`.
    pub fn check(&mut self, action: &str, ctx: &Context) -> (d: Decision)
        requires
            old(self).wf(),
        ensures
            final(self).wf(),
            exists|now_ms: u64| evaluated(*old(self), *final(self), action@, *ctx, now_ms, d),
    {
        let now = current_time_ms();
        self.check_at(action, ctx, now)
    }

    /// Evaluates `action` for `ctx` at `now_ms`.
    ///
    /// 1. Trust gate: the agent's tier against `ctx.required_trust`.
    /// 2. Budget gate, when the cost is present and positive: the envelope of
    ///    `ctx.category` is checked and, if the spend fits, debited at once.
    /// 3. Consent gate, when a data type is given: consent of the agent for it.
    ///
    /// The first denial ends the pipeline; the gates not reached report
    /// themselves skipped. Every decision is appended to the audit chain.
    pub fn check_at(&mut self, action: &str, ctx: &Context, now_ms: u64) -> (d: Decision)
        requires
            old(self).wf(),
        ensures
            final(self).wf(),
            evaluated(*old(self), *final(self), action@, *ctx, now_ms, d),
    {
        let trust = self.trust.check_level_at(
            ctx.agent_id.as_str(),
            ctx.scope.as_str(),
            ctx.required_trust,
            now_ms,
        );
        let first = after_trust(action, ctx, now_ms, &trust);
        let second = match first {
            PipelineStep::CheckBudget { amount } => {
                let budget = self.budget.check(ctx.category.as_str(), amount);
                after_budget(action, now_ms, &trust, amount, budget)
            },
            other => other,
        };
        let third = match second {
            PipelineStep::Debit { amount, budget } => {
                self.budget.record(ctx.category.as_str(), amount);
                after_debit(action, ctx, now_ms, &trust, budget)
            },
            other => other,
        };
        let decision = match third {
            PipelineStep::CheckConsent { data_type, budget } => {
                let consent = self.consent.check(ctx.agent_id.as_str(), data_type.as_str());
                after_consent(action, now_ms, &trust, budget, consent)
            },
            PipelineStep::Log(d) => d,
            _ => unreached(),
        };
        self.audit.log(decision.clone());
        decision
    }

    /// The audit records that pass `filter`, oldest first.
    pub fn query_audit(&self, filter: &AuditFilter) -> (r: Vec<AuditRecord>)
        requires
            self.wf(),
        ensures
            r@ == query_result(self.audit.store().audit_log(), *filter),
            unconditioned(*filter) ==> r@ == self.audit.store().audit_log(),
    {
        self.audit.query(filter)
    }
}

/// Short circuit: a trust denial leaves the envelopes alone and skips the
/// budget and consent gates; a budget denial skips the consent gate and
/// debits nothing; whatever the outcome, exactly one audit record is added.
pub proof fn lemma_pipeline_short_circuit<S: Storage>(
    before: GovernanceEngine<S>,
    after: GovernanceEngine<S>,
    action: Seq<char>,
    ctx: Context,
    now_ms: u64,
    d: Decision,
)
    requires
        evaluated(before, after, action, ctx, now_ms, d),
    ensures
        !d.trust.permitted ==> {
            &&& budget_skipped(d.budget, ctx.category@)
            &&& consent_skipped(d.consent)
            &&& after.budget.store().envelope_entries() == before.budget.store().envelope_entries()
            &&& !d.permitted
        },
        d.trust.permitted && !d.budget.permitted ==> {
            &&& consent_skipped(d.consent)
            &&& after.budget.store().envelope_entries() == before.budget.store().envelope_entries()
            &&& !d.permitted
        },
        after.consent == before.consent,
        after.audit.store().audit_log().len() == before.audit.store().audit_log().len() + 1,
        after.audit.store().audit_log().last().decision == d,
{
}

} // verus!
