//! An arena of engines addressed by integer handles, for hosts that cannot
//! hold an engine value across their boundary.

use vstd::prelude::*;
use std::collections::HashMap;

use crate::budget::budget_permits;
use crate::config::Config;
use crate::consent::consent_granted;
use crate::engine::{evaluated, GovernanceEngine};
use crate::storage::{pair_key, query_result, InMemoryStorage, Storage};
use crate::trust::{assigned, live_assignment};
use crate::types::{AuditFilter, AuditRecord, Context, Decision, TrustLevel};

verus! {

broadcast use vstd::std_specs::hash::group_hash_axioms;

/// The handle that names no engine; never handed out.
pub const INVALID_HANDLE: u32 = u32::MAX;

/// The handle handed out after `h`: the next number, wrapping to `0` before
/// `INVALID_HANDLE`.
pub open spec fn handle_after(h: u32) -> u32 {
    if h >= u32::MAX - 1 {
        0
    } else {
        (h + 1) as u32
    }
}

/// Engines over in-memory storage, each under its own handle.
pub struct EngineRegistry {
    engines: HashMap<u32, GovernanceEngine<InMemoryStorage>>,
    next_handle: u32,
}

impl EngineRegistry {
    /// The engines by handle.
    pub closed spec fn engines(&self) -> Map<u32, GovernanceEngine<InMemoryStorage>> {
        self.engines@
    }

    /// The handle the next engine gets.
    pub closed spec fn next(&self) -> u32 {
        self.next_handle
    }

    /// Every engine is consistent, and the next handle is a valid one.
    pub open spec fn wf(&self) -> bool {
        &&& self.next() != INVALID_HANDLE
        &&& forall|h: u32| #[trigger] self.engines().contains_key(h) ==> self.engines()[h].wf()
    }

    /// A registry without engines.
    pub fn new() -> (r: Self)
        ensures
            r.wf(),
            r.engines().dom() == Set::<u32>::empty(),
            r.next() == 0,
    {
        let r = EngineRegistry { engines: HashMap::new(), next_handle: 0 };
        assert(r.engines().dom() =~= Set::<u32>::empty());
        r
    }

    fn take_handle(&mut self) -> (h: u32)
        requires
            old(self).wf(),
        ensures
            final(self).wf(),
            h == old(self).next(),
            final(self).next() == handle_after(h),
            final(self).engines() == old(self).engines(),
    {
        let h = self.next_handle;
        self.next_handle = if h >= u32::MAX - 1 {
            0
        } else {
            h + 1
        };
        assert(self.engines() == old(self).engines());
        assert forall|k: u32| #[trigger] self.engines().contains_key(k) implies self.engines()[k].wf() by {
            assert(old(self).engines().contains_key(k));
        }
        h
    }

    /// Adds an engine with the default settings and returns its handle.
    pub fn create_engine(&mut self) -> (h: u32)
        requires
            old(self).wf(),
        ensures
            final(self).wf(),
            h == old(self).next(),
            h != INVALID_HANDLE,
            final(self).next() == handle_after(h),
            final(self).engines().contains_key(h),
            final(self).engines().remove(h) == old(self).engines().remove(h),
            !final(self).engines()[h].trust.settings().require_consent,
            !final(self).engines()[h].trust.settings().default_observer_on_missing,
            final(self).engines()[h].trust.settings().pass_on_missing_envelope,
            final(self).engines()[h].budget.settings() == final(self).engines()[h].trust.settings(),
            final(self).engines()[h].consent.settings() == final(self).engines()[h].trust.settings(),
            final(self).engines()[h].trust.store().trust_entries().dom() == Set::<Seq<char>>::empty(),
            final(self).engines()[h].budget.store().envelope_entries().dom() == Set::<
                Seq<char>,
            >::empty(),
            final(self).engines()[h].consent.store().consent_entries().dom() == Set::<
                Seq<char>,
            >::empty(),
            final(self).engines()[h].audit.store().audit_log().len() == 0,
    {
        self.create_engine_with_config(Config::default())
    }

    /// Adds an engine with `config` and returns its handle. An engine already
    /// under that handle (after the handles wrapped) is replaced.
    pub fn create_engine_with_config(&mut self, config: Config) -> (h: u32)
        requires
            old(self).wf(),
        ensures
            final(self).wf(),
            h == old(self).next(),
            h != INVALID_HANDLE,
            final(self).next() == handle_after(h),
            final(self).engines().contains_key(h),
            final(self).engines()[h].trust.settings() == config,
            final(self).engines()[h].budget.settings() == config,
            final(self).engines()[h].consent.settings() == config,
            final(self).engines()[h].trust.store().trust_entries().dom() == Set::<Seq<char>>::empty(),
            final(self).engines()[h].budget.store().envelope_entries().dom() == Set::<
                Seq<char>,
            >::empty(),
            final(self).engines()[h].consent.store().consent_entries().dom() == Set::<
                Seq<char>,
            >::empty(),
            final(self).engines()[h].audit.store().audit_log().len() == 0,
            final(self).engines().remove(h) == old(self).engines().remove(h),
    {
        let h = self.take_handle();
        let engine = GovernanceEngine::new(config, InMemoryStorage::new());
        self.engines.insert(h, engine);
        assert(self.engines().remove(h) =~= old(self).engines().remove(h));
        proof {
            self.lemma_engines_wf(old(self).engines(), h);
        }
        h
    }

    /// Drops the engine under `handle`; nothing happens if there is none.
    pub fn destroy_engine(&mut self, handle: u32)
        requires
            old(self).wf(),
        ensures
            final(self).wf(),
            final(self).next() == old(self).next(),
            final(self).engines() == old(self).engines().remove(handle),
    {
        self.engines.remove(&handle);
        assert(self.engines() =~= old(self).engines().remove(handle));
        assert(self.engines().remove(handle) =~= old(self).engines().remove(handle));
        proof {
            self.lemma_engines_wf(old(self).engines(), handle);
        }
    }

    /// Grants tier `level` (`0..=5`) to `agent_id` in `scope` on the engine
    /// under `handle`; nothing happens for an unknown handle or a level above
    /// `5`.
    pub fn set_trust_level(
        &mut self,
        handle: u32,
        agent_id: &str,
        scope: &str,
        level: u8,
        assigned_by: &str,
    )
        requires
            old(self).wf(),
        ensures
            final(self).wf(),
            final(self).next() == old(self).next(),
            final(self).engines().dom() == old(self).engines().dom(),
            final(self).engines().remove(handle) == old(self).engines().remove(handle),
            !(old(self).engines().contains_key(handle) && level <= 5) ==> final(self).engines()
                == old(self).engines(),
            old(self).engines().contains_key(handle) && level <= 5 ==> {
                let before = old(self).engines()[handle];
                let after = final(self).engines()[handle];
                &&& after.budget == before.budget
                &&& after.consent == before.consent
                &&& after.audit == before.audit
                &&& after.trust.settings() == before.trust.settings()
                &&& exists|t: TrustLevel|
                    t.spec_rank() == level && #[trigger] assigned(
                        before.trust.store(),
                        after.trust.store(),
                        agent_id@,
                        scope@,
                        t,
                        assigned_by@,
                        None,
                    )
            },
    {
        let trust_level = match TrustLevel::from_u8(level) {
            Some(t) => t,
            None => return,
        };
        match self.engines.remove(&handle) {
            Some(mut engine) => {
                assert(old(self).engines().contains_key(handle));
                assert(engine.wf());
                engine.trust.set_level(agent_id, scope, trust_level, assigned_by);
                self.engines.insert(handle, engine);
                assert(self.engines().remove(handle) =~= old(self).engines().remove(handle));
                assert(self.engines().dom() =~= old(self).engines().dom());
                proof {
                    self.lemma_engines_wf(old(self).engines(), handle);
                }
            },
            None => {
                assert(self.engines() =~= old(self).engines());
            },
        }
    }

    /// Whether `agent_id` meets tier `required_level` (`0..=5`) in `scope` on
    /// the engine under `handle`, at the current time; `false` for an
    /// unknown handle or a level above `5`.
    pub fn check_trust(&self, handle: u32, agent_id: &str, scope: &str, required_level: u8) -> (r:
        bool)
        requires
            self.wf(),
        ensures
            !(self.engines().contains_key(handle) && required_level <= 5) ==> !r,
            self.engines().contains_key(handle) && required_level <= 5 ==> exists|now_ms: u64|
                r == match #[trigger] live_assignment(
                    self.engines()[handle].trust.store().trust_entries(),
                    agent_id@,
                    scope@,
                    now_ms,
                ) {
                    Some(a) => a.level.spec_rank() >= required_level,
                    None => self.engines()[handle].trust.settings().default_observer_on_missing
                        && required_level == 0,
                },
    {
        let required = match TrustLevel::from_u8(required_level) {
            Some(t) => t,
            None => return false,
        };
        match self.engines.get(&handle) {
            Some(engine) => {
                assert(self.engines().contains_key(handle));
                engine.trust.check_level(agent_id, scope, required).permitted
            },
            None => false,
        }
    }

    /// Defines the envelope of `category` on the engine under `handle`;
    /// nothing happens for an unknown handle.
    pub fn create_budget(
        &mut self,
        handle: u32,
        category: &str,
        limit: u64,
        period_ms: u32,
        starts_at_ms: u32,
    )
        requires
            old(self).wf(),
        ensures
            final(self).wf(),
            final(self).next() == old(self).next(),
            final(self).engines().dom() == old(self).engines().dom(),
            final(self).engines().remove(handle) == old(self).engines().remove(handle),
            !old(self).engines().contains_key(handle) ==> final(self).engines() == old(
                self,
            ).engines(),
            old(self).engines().contains_key(handle) ==> {
                let before = old(self).engines()[handle];
                let after = final(self).engines()[handle];
                let entries = after.budget.store().envelope_entries();
                &&& after.trust == before.trust
                &&& after.consent == before.consent
                &&& after.audit == before.audit
                &&& after.budget.settings() == before.budget.settings()
                &&& entries.contains_key(category@)
                &&& entries[category@].category@ == category@
                &&& entries[category@].limit == limit
                &&& entries[category@].spent == 0
                &&& entries[category@].period_ms == period_ms
                &&& entries[category@].starts_at_ms == starts_at_ms
                &&& entries.remove(category@) == before.budget.store().envelope_entries().remove(
                    category@,
                )
            },
    {
        match self.engines.remove(&handle) {
            Some(mut engine) => {
                assert(old(self).engines().contains_key(handle));
                assert(engine.wf());
                engine.budget.create_envelope(category, limit, period_ms as u64, starts_at_ms as u64);
                self.engines.insert(handle, engine);
                assert(self.engines().remove(handle) =~= old(self).engines().remove(handle));
                assert(self.engines().dom() =~= old(self).engines().dom());
                proof {
                    self.lemma_engines_wf(old(self).engines(), handle);
                }
            },
            None => {
                assert(self.engines() =~= old(self).engines());
            },
        }
    }

    /// Whether `amount` fits in the envelope of `category` on the engine
    /// under `handle`; `false` for an unknown handle.
    pub fn check_budget(&self, handle: u32, category: &str, amount: u64) -> (r: bool)
        requires
            self.wf(),
        ensures
            r == (self.engines().contains_key(handle) && budget_permits(
                self.engines()[handle].budget.store().envelope_entries(),
                self.engines()[handle].budget.settings(),
                category@,
                amount,
            )),
    {
        match self.engines.get(&handle) {
            Some(engine) => {
                assert(self.engines().contains_key(handle));
                engine.budget.check(category, amount).permitted
            },
            None => false,
        }
    }

    /// Grants (`granted`) or revokes consent for `(agent_id, action)` on the
    /// engine under `handle`; nothing happens for an unknown handle.
    fn set_consent(&mut self, handle: u32, agent_id: &str, action: &str, granted: bool)
        requires
            old(self).wf(),
        ensures
            consent_set(*old(self), *final(self), handle, agent_id@, action@, granted),
    {
        match self.engines.remove(&handle) {
            Some(mut engine) => {
                assert(old(self).engines().contains_key(handle));
                assert(engine.wf());
                if granted {
                    engine.consent.record(agent_id, action);
                } else {
                    engine.consent.revoke(agent_id, action);
                }
                self.engines.insert(handle, engine);
                assert(self.engines().remove(handle) =~= old(self).engines().remove(handle));
                assert(self.engines().dom() =~= old(self).engines().dom());
                proof {
                    self.lemma_engines_wf(old(self).engines(), handle);
                }
            },
            None => {
                assert(self.engines() =~= old(self).engines());
            },
        }
    }

    /// Grants consent for `(agent_id, action)` on the engine under `handle`;
    /// nothing happens for an unknown handle.
    pub fn record_consent(&mut self, handle: u32, agent_id: &str, action: &str)
        requires
            old(self).wf(),
        ensures
            consent_set(*old(self), *final(self), handle, agent_id@, action@, true),
    {
        self.set_consent(handle, agent_id, action, true)
    }

    /// Revokes consent for `(agent_id, action)` on the engine under `handle`;
    /// nothing happens for an unknown handle.
    pub fn revoke_consent(&mut self, handle: u32, agent_id: &str, action: &str)
        requires
            old(self).wf(),
        ensures
            consent_set(*old(self), *final(self), handle, agent_id@, action@, false),
    {
        self.set_consent(handle, agent_id, action, false)
    }

    /// Evaluates `action` for `ctx` on the engine under `handle` at the
    /// current time; `None` for an unknown handle.
    pub fn evaluate(&mut self, handle: u32, action: &str, ctx: &Context) -> (r: Option<Decision>)
        requires
            old(self).wf(),
        ensures
            final(self).wf(),
            final(self).next() == old(self).next(),
            final(self).engines().dom() == old(self).engines().dom(),
            final(self).engines().remove(handle) == old(self).engines().remove(handle),
            r is None <==> !old(self).engines().contains_key(handle),
            r is None ==> final(self).engines() == old(self).engines(),
            r matches Some(d) ==> exists|now_ms: u64|
                evaluated(
                    old(self).engines()[handle],
                    final(self).engines()[handle],
                    action@,
                    *ctx,
                    now_ms,
                    d,
                ),
    {
        match self.engines.remove(&handle) {
            Some(mut engine) => {
                assert(old(self).engines().contains_key(handle));
                assert(engine.wf());
                let decision = engine.check(action, ctx);
                self.engines.insert(handle, engine);
                assert(self.engines().remove(handle) =~= old(self).engines().remove(handle));
                assert(self.engines().dom() =~= old(self).engines().dom());
                proof {
                    self.lemma_engines_wf(old(self).engines(), handle);
                }
                Some(decision)
            },
            None => {
                assert(self.engines() =~= old(self).engines());
                None
            },
        }
    }

    /// The audit records of the engine under `handle` that pass `filter`;
    /// `None` for an unknown handle.
    pub fn audit_records(&self, handle: u32, filter: &AuditFilter) -> (r: Option<Vec<AuditRecord>>)
        requires
            self.wf(),
        ensures
            r is None <==> !self.engines().contains_key(handle),
            r matches Some(v) ==> v@ == query_result(
                self.engines()[handle].audit.store().audit_log(),
                *filter,
            ),
    {
        match self.engines.get(&handle) {
            Some(engine) => {
                assert(self.engines().contains_key(handle));
                Some(engine.query_audit(filter))
            },
            None => None,
        }
    }
}

impl EngineRegistry {
    /// Every engine is consistent when only the one under `handle` differs
    /// from a map of consistent engines, and that one is consistent too.
    proof fn lemma_engines_wf(&self, before: Map<u32, GovernanceEngine<InMemoryStorage>>, handle: u32)
        requires
            forall|k: u32| #[trigger] before.contains_key(k) ==> before[k].wf(),
            self.engines().remove(handle) == before.remove(handle),
            self.engines().contains_key(handle) ==> self.engines()[handle].wf(),
        ensures
            forall|k: u32| #[trigger] self.engines().contains_key(k) ==> self.engines()[k].wf(),
    {
        assert forall|k: u32| #[trigger] self.engines().contains_key(k) implies self.engines()[k].wf() by {
            if k != handle {
                assert(self.engines().remove(handle).contains_key(k));
                assert(before.remove(handle)[k] == before[k]);
            }
        }
    }
}

/// `after` is `before` with the consent flag of `(agent, action)` set to
/// `granted` on the engine under `handle`, or `before` itself when there is
/// no such engine.
pub open spec fn consent_set(
    before: EngineRegistry,
    after: EngineRegistry,
    handle: u32,
    agent: Seq<char>,
    action: Seq<char>,
    granted: bool,
) -> bool {
    &&& after.wf()
    &&& after.next() == before.next()
    &&& after.engines().dom() == before.engines().dom()
    &&& after.engines().remove(handle) == before.engines().remove(handle)
    &&& !before.engines().contains_key(handle) ==> after.engines() == before.engines()
    &&& before.engines().contains_key(handle) ==> {
        let b = before.engines()[handle];
        let a = after.engines()[handle];
        &&& a.trust == b.trust
        &&& a.budget == b.budget
        &&& a.audit == b.audit
        &&& a.consent.settings() == b.consent.settings()
        &&& a.consent.store().consent_entries() == b.consent.store().consent_entries().insert(
            pair_key(agent, action),
            granted,
        )
        &&& consent_granted(a.consent.store().consent_entries(), agent, action) == granted
    }
}

} // verus!
