//! Static spending envelopes: definition, checks and debits.

use vstd::prelude::*;
use vstd::string::StringExecFns;

use crate::config::Config;
use crate::storage::{lookup, Storage};
use crate::text::{decimal, push_decimal};
use crate::types::{BudgetResult, Envelope};

verus! {

/// Whether a spend of `amount` in `category` passes the budget check.
pub open spec fn budget_permits(
    entries: Map<Seq<char>, Envelope>,
    config: Config,
    category: Seq<char>,
    amount: u64,
) -> bool {
    match lookup(entries, category) {
        Some(e) => e.spec_can_spend(amount),
        None => config.pass_on_missing_envelope,
    }
}

/// `spent + amount`, held at `u64::MAX`.
pub open spec fn add_spend(spent: u64, amount: u64) -> u64 {
    if spent + amount > u64::MAX {
        u64::MAX
    } else {
        (spent + amount) as u64
    }
}

/// The envelopes after `amount` is recorded against `category`; unchanged
/// when the category has no envelope.
pub open spec fn after_spend(
    entries: Map<Seq<char>, Envelope>,
    category: Seq<char>,
    amount: u64,
) -> Map<Seq<char>, Envelope> {
    match lookup(entries, category) {
        Some(e) => entries.insert(category, Envelope { spent: add_spend(e.spent, amount), ..e }),
        None => entries,
    }
}

/// Reason given when an envelope exists.
pub open spec fn envelope_reason(category: Seq<char>, amount: u64, e: Envelope) -> Seq<char> {
    if e.spec_can_spend(amount) {
        "Spend of "@ + decimal(amount as nat) + " fits within envelope '"@ + category
            + "' (available: "@ + decimal(e.spec_available()) + ")."@
    } else {
        "Spend of "@ + decimal(amount as nat) + " exceeds envelope '"@ + category
            + "' (available: "@ + decimal(e.spec_available()) + ", limit: "@ + decimal(
            e.limit as nat,
        ) + ")."@
    }
}

/// Reason given when the category has no envelope.
pub open spec fn no_envelope_reason(category: Seq<char>, pass: bool) -> Seq<char> {
    "No envelope configured for '"@ + category + (if pass {
        "'; passing (open budget)."@
    } else {
        "'; denying (strict mode)."@
    })
}

/// `r` is what a budget check of `amount` in `category` gives over the stored
/// `entries` and the settings `config`.
pub open spec fn budget_outcome(
    r: BudgetResult,
    entries: Map<Seq<char>, Envelope>,
    config: Config,
    category: Seq<char>,
    amount: u64,
) -> bool {
    &&& r.requested == amount
    &&& r.category@ == category
    &&& r.permitted == budget_permits(entries, config, category, amount)
    &&& match lookup(entries, category) {
        Some(e) => r.available == e.spec_available() && r.reason@ == envelope_reason(
            category,
            amount,
            e,
        ),
        None => r.available == (if config.pass_on_missing_envelope {
            u64::MAX
        } else {
            0
        }) && r.reason@ == no_envelope_reason(category, config.pass_on_missing_envelope),
    }
}

/// Defines, checks and debits spending envelopes. Allocations are static:
/// nothing here resets or rebalances an envelope.
pub struct BudgetManager<S: Storage> {
    config: Config,
    storage: S,
}

impl<S: Storage> BudgetManager<S> {
    /// The settings the manager was built with.
    pub closed spec fn settings(&self) -> Config {
        self.config
    }

    /// The manager's storage.
    pub closed spec fn store(&self) -> S {
        self.storage
    }

    /// The storage is consistent.
    pub open spec fn wf(&self) -> bool {
        self.store().inv()
    }

    /// A manager over `storage`.
    pub fn new(config: Config, storage: S) -> (r: Self)
        ensures
            r.settings() == config,
            r.store() == storage,
    {
        BudgetManager { config, storage }
    }

    /// Defines the envelope of `category`, replacing any earlier one, with
    /// nothing spent.
    pub fn create_envelope(&mut self, category: &str, limit: u64, period_ms: u64, starts_at_ms: u64)
        requires
            old(self).wf(),
        ensures
            final(self).wf(),
            final(self).settings() == old(self).settings(),
            final(self).store().envelope_entries().contains_key(category@),
            final(self).store().envelope_entries()[category@].category@ == category@,
            final(self).store().envelope_entries()[category@].limit == limit,
            final(self).store().envelope_entries()[category@].spent == 0,
            final(self).store().envelope_entries()[category@].period_ms == period_ms,
            final(self).store().envelope_entries()[category@].starts_at_ms == starts_at_ms,
            final(self).store().envelope_entries().remove(category@) == old(
                self,
            ).store().envelope_entries().remove(category@),
            final(self).store().trust_entries() == old(self).store().trust_entries(),
            final(self).store().consent_entries() == old(self).store().consent_entries(),
            final(self).store().audit_log() == old(self).store().audit_log(),
    {
        let envelope = Envelope {
            category: category.to_owned(),
            limit,
            spent: 0,
            period_ms,
            starts_at_ms,
        };
        self.storage.set_envelope(category, envelope);
        proof {
            assert(self.storage.envelope_entries().remove(category@) =~= old(
                self,
            ).storage.envelope_entries().remove(category@));
        }
    }

    /// Checks whether `amount` fits in the envelope of `category`. Reads only.
    pub fn check(&self, category: &str, amount: u64) -> (r: BudgetResult)
        requires
            self.wf(),
        ensures
            budget_outcome(r, self.store().envelope_entries(), self.settings(), category@, amount),
    {
        match self.storage.get_envelope(category) {
            Some(envelope) => {
                let available = envelope.available();
                let permitted = envelope.can_spend(amount);
                let mut reason = "Spend of ".to_owned();
                push_decimal(&mut reason, amount);
                if permitted {
                    reason.append(" fits within envelope '");
                    reason.append(category);
                    reason.append("' (available: ");
                    push_decimal(&mut reason, available);
                    reason.append(").");
                } else {
                    reason.append(" exceeds envelope '");
                    reason.append(category);
                    reason.append("' (available: ");
                    push_decimal(&mut reason, available);
                    reason.append(", limit: ");
                    push_decimal(&mut reason, envelope.limit);
                    reason.append(").");
                }
                BudgetResult {
                    permitted,
                    available,
                    requested: amount,
                    category: category.to_owned(),
                    reason,
                }
            },
            None => {
                let pass = self.config.pass_on_missing_envelope;
                let mut reason = "No envelope configured for '".to_owned();
                reason.append(category);
                if pass {
                    reason.append("'; passing (open budget).");
                } else {
                    reason.append("'; denying (strict mode).");
                }
                BudgetResult {
                    permitted: pass,
                    available: if pass {
                        u64::MAX
                    } else {
                        0
                    },
                    requested: amount,
                    category: category.to_owned(),
                    reason,
                }
            },
        }
    }

    /// Adds `amount` to what `category` has spent (held at `u64::MAX`); does
    /// nothing when the category has no envelope. Does not check the limit:
    /// call `check` first.
    pub fn record(&mut self, category: &str, amount: u64)
        requires
            old(self).wf(),
        ensures
            final(self).wf(),
            final(self).settings() == old(self).settings(),
            final(self).store().envelope_entries() == after_spend(
                old(self).store().envelope_entries(),
                category@,
                amount,
            ),
            final(self).store().trust_entries() == old(self).store().trust_entries(),
            final(self).store().consent_entries() == old(self).store().consent_entries(),
            final(self).store().audit_log() == old(self).store().audit_log(),
    {
        if let Some(mut envelope) = self.storage.get_envelope(category) {
            envelope.spent = envelope.spent.saturating_add(amount);
            self.storage.set_envelope(category, envelope);
        }
    }

    /// The envelope of `category`.
    pub fn get_envelope(&self, category: &str) -> (r: Option<Envelope>)
        requires
            self.wf(),
        ensures
            r == lookup(self.store().envelope_entries(), category@),
    {
        self.storage.get_envelope(category)
    }

    /// The manager's storage.
    pub fn storage(&self) -> (r: &S)
        ensures
            *r == self.store(),
    {
        &self.storage
    }
}

/// A spend that passed the budget check and is then recorded leaves the
/// envelope at or under its limit; a category without an envelope is left
/// without one.
pub proof fn lemma_checked_spend_within_limit(
    entries: Map<Seq<char>, Envelope>,
    config: Config,
    category: Seq<char>,
    amount: u64,
)
    requires
        budget_permits(entries, config, category, amount),
    ensures
        entries.contains_key(category) ==> after_spend(entries, category, amount)[category].spent
            == entries[category].spent + amount,
        entries.contains_key(category) ==> after_spend(entries, category, amount)[category].spent
            <= entries[category].limit,
        !entries.contains_key(category) ==> after_spend(entries, category, amount) == entries,
        after_spend(entries, category, amount).remove(category) == entries.remove(category),
{
    if entries.contains_key(category) {
        assert(after_spend(entries, category, amount).remove(category) =~= entries.remove(category));
    }
}

} // verus!
