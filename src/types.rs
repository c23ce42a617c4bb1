//! Plain data shared by the trust, budget, consent and audit components.

use vstd::prelude::*;

verus! {

/// Six-tier trust hierarchy, lowest first.
///
/// Tiers are only ever assigned by an owner; nothing in the library promotes
/// an agent on its own.
#[derive(Debug, Clone, Copy, PartialEq, Eq, Structural, PartialOrd, Ord, Hash)]
pub enum TrustLevel {
    /// Read-only observer.
    Observer,
    /// Monitoring with alerting, no mutations.
    Monitor,
    /// Suggestions only; every output is reviewed by a human.
    Suggest,
    /// May act, with explicit human approval of each action.
    ActWithApproval,
    /// May act on its own and reports afterwards.
    ActAndReport,
    /// Fully autonomous within its scope.
    Autonomous,
}

impl TrustLevel {
    /// Position of the tier in the hierarchy, `0` for `Observer` up to `5`.
    pub open spec fn spec_rank(self) -> nat {
        match self {
            TrustLevel::Observer => 0,
            TrustLevel::Monitor => 1,
            TrustLevel::Suggest => 2,
            TrustLevel::ActWithApproval => 3,
            TrustLevel::ActAndReport => 4,
            TrustLevel::Autonomous => 5,
        }
    }

    /// `self` is at or above `other` in the hierarchy.
    pub open spec fn spec_at_least(self, other: TrustLevel) -> bool {
        self.spec_rank() >= other.spec_rank()
    }

    /// The display name of each tier.
    pub open spec fn spec_display_name(self) -> Seq<char> {
        match self {
            TrustLevel::Observer => "Observer"@,
            TrustLevel::Monitor => "Monitor"@,
            TrustLevel::Suggest => "Suggest"@,
            TrustLevel::ActWithApproval => "Act-with-Approval"@,
            TrustLevel::ActAndReport => "Act-and-Report"@,
            TrustLevel::Autonomous => "Autonomous"@,
        }
    }

    /// Position of the tier in the hierarchy (its wire value).
    pub fn rank(self) -> (r: u8)
        ensures
            r == self.spec_rank(),
    {
        match self {
            TrustLevel::Observer => 0,
            TrustLevel::Monitor => 1,
            TrustLevel::Suggest => 2,
            TrustLevel::ActWithApproval => 3,
            TrustLevel::ActAndReport => 4,
            TrustLevel::Autonomous => 5,
        }
    }

    /// Whether `self` is at or above `other` in the hierarchy.
    pub fn at_least(self, other: TrustLevel) -> (r: bool)
        ensures
            r == self.spec_at_least(other),
    {
        self.rank() >= other.rank()
    }

    /// Human-readable name for logs and user interfaces.
    pub fn display_name(self) -> (r: &'static str)
        ensures
            r@ == self.spec_display_name(),
    {
        match self {
            TrustLevel::Observer => "Observer",
            TrustLevel::Monitor => "Monitor",
            TrustLevel::Suggest => "Suggest",
            TrustLevel::ActWithApproval => "Act-with-Approval",
            TrustLevel::ActAndReport => "Act-and-Report",
            TrustLevel::Autonomous => "Autonomous",
        }
    }

    /// The tier whose rank is `value`, or `None` for values above `5`.
    pub fn from_u8(value: u8) -> (r: Option<TrustLevel>)
        ensures
            match r {
                Some(level) => value <= 5 && level.spec_rank() == value,
                None => value > 5,
            },
    {
        match value {
            0 => Some(TrustLevel::Observer),
            1 => Some(TrustLevel::Monitor),
            2 => Some(TrustLevel::Suggest),
            3 => Some(TrustLevel::ActWithApproval),
            4 => Some(TrustLevel::ActAndReport),
            5 => Some(TrustLevel::Autonomous),
            _ => None,
        }
    }
}


/// Copy of an optional string that keeps its contents.
pub fn copy_opt_string(s: &Option<String>) -> (r: Option<String>)
    ensures
        r == *s,
{
    match s {
        Some(v) => Some(v.clone()),
        None => None,
    }
}

/// A trust tier granted to an agent within a scope.
#[derive(Debug)]
pub struct TrustAssignment {
    /// Identifier of the agent.
    pub agent_id: String,
    /// The tier granted.
    pub level: TrustLevel,
    /// Domain the tier applies to (e.g. `"finance"`).
    pub scope: String,
    /// Unix epoch milliseconds at which the assignment was made.
    pub assigned_at_ms: u64,
    /// Unix epoch milliseconds after which the assignment no longer counts.
    pub expires_at_ms: Option<u64>,
    /// Who made the assignment.
    pub assigned_by: String,
}

impl TrustAssignment {
    /// The assignment still counts at time `now_ms`.
    pub open spec fn spec_live_at(&self, now_ms: u64) -> bool {
        match self.expires_at_ms {
            Some(expiry) => now_ms <= expiry,
            None => true,
        }
    }

    /// Whether the assignment still counts at time `now_ms`.
    pub fn live_at(&self, now_ms: u64) -> (r: bool)
        ensures
            r == self.spec_live_at(now_ms),
    {
        match self.expires_at_ms {
            Some(expiry) => now_ms <= expiry,
            None => true,
        }
    }
}

impl Clone for TrustAssignment {
    fn clone(&self) -> (r: Self)
        ensures
            r == *self,
    {
        TrustAssignment {
            agent_id: self.agent_id.clone(),
            level: self.level,
            scope: self.scope.clone(),
            assigned_at_ms: self.assigned_at_ms,
            expires_at_ms: self.expires_at_ms,
            assigned_by: self.assigned_by.clone(),
        }
    }
}

/// Outcome of a trust check.
#[derive(Debug)]
pub struct TrustResult {
    /// The agent's tier meets the required one.
    pub permitted: bool,
    /// The tier the agent was found to hold.
    pub current_level: TrustLevel,
    /// The tier the action requires.
    pub required_level: TrustLevel,
    /// Human-readable explanation.
    pub reason: String,
}

impl Clone for TrustResult {
    fn clone(&self) -> (r: Self)
        ensures
            r == *self,
    {
        TrustResult {
            permitted: self.permitted,
            current_level: self.current_level,
            required_level: self.required_level,
            reason: self.reason.clone(),
        }
    }
}

/// A static spending allowance for one cost category.
///
/// Amounts are whole units of whatever currency or quota the category
/// counts (cents, tokens, calls).
#[derive(Debug)]
pub struct Envelope {
    /// Category this envelope tracks (e.g. `"financial"`).
    pub category: String,
    /// Largest total spend allowed in the period.
    pub limit: u64,
    /// Total spent so far in the period.
    pub spent: u64,
    /// Length of one period in milliseconds.
    pub period_ms: u64,
    /// Unix epoch milliseconds at which the period began.
    pub starts_at_ms: u64,
}

impl Envelope {
    /// What is left before the limit: `max(limit - spent, 0)`.
    pub open spec fn spec_available(&self) -> nat {
        if self.spent <= self.limit {
            (self.limit - self.spent) as nat
        } else {
            0
        }
    }

    /// `amount` more fits under the limit.
    pub open spec fn spec_can_spend(&self, amount: u64) -> bool {
        self.spent + amount <= self.limit
    }

    /// Amount left before the limit is reached; never negative.
    pub fn available(&self) -> (r: u64)
        ensures
            r == self.spec_available(),
    {
        if self.spent <= self.limit {
            self.limit - self.spent
        } else {
            0
        }
    }

    /// Whether spending `amount` more keeps the total within the limit.
    pub fn can_spend(&self, amount: u64) -> (r: bool)
        ensures
            r == self.spec_can_spend(amount),
    {
        self.spent <= self.limit && amount <= self.limit - self.spent
    }
}

impl Clone for Envelope {
    fn clone(&self) -> (r: Self)
        ensures
            r == *self,
    {
        Envelope {
            category: self.category.clone(),
            limit: self.limit,
            spent: self.spent,
            period_ms: self.period_ms,
            starts_at_ms: self.starts_at_ms,
        }
    }
}

/// Outcome of a budget check.
#[derive(Debug)]
pub struct BudgetResult {
    /// The requested spend fits.
    pub permitted: bool,
    /// Amount left in the envelope before this request.
    pub available: u64,
    /// Amount requested.
    pub requested: u64,
    /// Category whose envelope was checked.
    pub category: String,
    /// Human-readable explanation.
    pub reason: String,
}

impl Clone for BudgetResult {
    fn clone(&self) -> (r: Self)
        ensures
            r == *self,
    {
        BudgetResult {
            permitted: self.permitted,
            available: self.available,
            requested: self.requested,
            category: self.category.clone(),
            reason: self.reason.clone(),
        }
    }
}

/// A consent grant as a record, for callers that keep their own history.
#[derive(Debug)]
pub struct ConsentRecord {
    /// Agent the consent applies to.
    pub agent_id: String,
    /// Data type or action class covered.
    pub action: String,
    /// The consent is active.
    pub granted: bool,
    /// Unix epoch milliseconds at which it was recorded.
    pub recorded_at_ms: u64,
    /// Unix epoch milliseconds after which it lapses.
    pub expires_at_ms: Option<u64>,
}

impl Clone for ConsentRecord {
    fn clone(&self) -> (r: Self)
        ensures
            r == *self,
    {
        ConsentRecord {
            agent_id: self.agent_id.clone(),
            action: self.action.clone(),
            granted: self.granted,
            recorded_at_ms: self.recorded_at_ms,
            expires_at_ms: self.expires_at_ms,
        }
    }
}

/// Outcome of a consent check.
#[derive(Debug)]
pub struct ConsentResult {
    /// Active consent exists.
    pub permitted: bool,
    /// Human-readable explanation.
    pub reason: String,
}

impl Clone for ConsentResult {
    fn clone(&self) -> (r: Self)
        ensures
            r == *self,
    {
        ConsentResult { permitted: self.permitted, reason: self.reason.clone() }
    }
}

/// One request handed to the engine.
#[derive(Debug)]
pub struct Context {
    /// Agent requesting the action.
    pub agent_id: String,
    /// Scope passed to the trust check.
    pub scope: String,
    /// Lowest tier allowed to perform the action.
    pub required_trust: TrustLevel,
    /// Cost of the action; `None` or `Some(0)` skips the budget gate.
    pub cost: Option<u64>,
    /// Category whose envelope pays for the action.
    pub category: String,
    /// Data type the action touches; `None` skips the consent gate.
    pub data_type: Option<String>,
    /// Purpose label, carried for callers.
    pub purpose: Option<String>,
}

impl Clone for Context {
    fn clone(&self) -> (r: Self)
        ensures
            r == *self,
    {
        Context {
            agent_id: self.agent_id.clone(),
            scope: self.scope.clone(),
            required_trust: self.required_trust,
            cost: self.cost,
            category: self.category.clone(),
            data_type: copy_opt_string(&self.data_type),
            purpose: copy_opt_string(&self.purpose),
        }
    }
}

/// The engine's answer to one request.
#[derive(Debug)]
pub struct Decision {
    /// Every gate passed.
    pub permitted: bool,
    /// Outcome of the trust gate.
    pub trust: TrustResult,
    /// Outcome of the budget gate.
    pub budget: BudgetResult,
    /// Outcome of the consent gate.
    pub consent: ConsentResult,
    /// Name of the action evaluated.
    pub action: String,
    /// Unix epoch milliseconds at which the decision was made.
    pub timestamp_ms: u64,
    /// Which gate denied the request, or that every gate passed.
    pub reason: String,
}

impl Clone for Decision {
    fn clone(&self) -> (r: Self)
        ensures
            r == *self,
    {
        Decision {
            permitted: self.permitted,
            trust: self.trust.clone(),
            budget: self.budget.clone(),
            consent: self.consent.clone(),
            action: self.action.clone(),
            timestamp_ms: self.timestamp_ms,
            reason: self.reason.clone(),
        }
    }
}

/// One entry of the audit chain.
#[derive(Debug)]
pub struct AuditRecord {
    /// Record identifier: the action, `-`, and the first eight hash digits.
    pub id: String,
    /// The decision recorded.
    pub decision: Decision,
    /// Hash over the previous hash and the decision.
    pub hash: String,
    /// Hash of the record before, or the all-zero genesis value.
    pub prev_hash: String,
    /// Unix epoch milliseconds of the decision.
    pub timestamp_ms: u64,
}

impl Clone for AuditRecord {
    fn clone(&self) -> (r: Self)
        ensures
            r == *self,
    {
        AuditRecord {
            id: self.id.clone(),
            decision: self.decision.clone(),
            hash: self.hash.clone(),
            prev_hash: self.prev_hash.clone(),
            timestamp_ms: self.timestamp_ms,
        }
    }
}

/// Narrows an audit query; every field left `None` matches everything.
#[derive(Debug)]
pub struct AuditFilter {
    /// Keep records whose id starts with this text.
    pub agent_id: Option<String>,
    /// Keep records whose action is exactly this.
    pub action: Option<String>,
    /// Keep records at or after this time.
    pub since_ms: Option<u64>,
    /// Keep records at or before this time.
    pub until_ms: Option<u64>,
    /// Return at most this many records.
    pub limit: Option<usize>,
}

impl Clone for AuditFilter {
    fn clone(&self) -> (r: Self)
        ensures
            r == *self,
    {
        AuditFilter {
            agent_id: copy_opt_string(&self.agent_id),
            action: copy_opt_string(&self.action),
            since_ms: self.since_ms,
            until_ms: self.until_ms,
            limit: self.limit,
        }
    }
}

impl Default for AuditFilter {
    fn default() -> (r: Self)
        ensures
            r.agent_id is None,
            r.action is None,
            r.since_ms is None,
            r.until_ms is None,
            r.limit is None,
    {
        AuditFilter { agent_id: None, action: None, since_ms: None, until_ms: None, limit: None }
    }
}

} // verus!
