//! Policy evaluation for actions requested by autonomous agents.
//!
//! Three statically configured gates (trust tier, spending allowance and
//! recorded consent) are composed into one [`Decision`], and every decision
//! is appended to a hash-chained audit log.
//!
//! ```text
//! GovernanceEngine<S: Storage>
//!   ├── TrustManager<S>    assign / look up / check trust tiers
//!   ├── BudgetManager<S>   define / check / debit spending envelopes
//!   ├── ConsentManager<S>  record / check / revoke consent
//!   └── AuditLogger<S>     append decisions to the chain, query it
//! ```

pub mod audit;
pub mod budget;
pub(crate) mod clock;
pub mod config;
pub mod config_loader;
pub mod consent;
pub mod encoding;
pub mod engine;
pub mod keyed;
pub mod middleware;
pub mod registry;
pub mod storage;
pub mod text;
pub mod trust;
pub mod types;

pub use audit::AuditLogger;
pub use budget::BudgetManager;
pub use config::Config;
pub use config_loader::{AuditLevel, ConfigError};
pub use consent::ConsentManager;
pub use engine::GovernanceEngine;
pub use middleware::{CfConfig, CfGovernanceMiddleware, MiddlewareDecision};
pub use registry::EngineRegistry;
pub use storage::{FlushingStorage, InMemoryStorage, SnapshotSink, Storage};
pub use trust::TrustManager;
pub use types::{
    AuditFilter, AuditRecord, BudgetResult, ConsentRecord, ConsentResult, Context, Decision,
    Envelope, TrustAssignment, TrustLevel, TrustResult,
};
