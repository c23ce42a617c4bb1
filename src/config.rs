//! Settings fixed when the engine is built.

use vstd::prelude::*;

verus! {

/// Engine settings.
#[derive(Debug, Clone, Copy, PartialEq, Eq, Structural)]
pub struct Config {
    /// Ask for consent even when a request names no data type. Carried for
    /// callers; the pipeline gates on the data type alone.
    pub require_consent: bool,
    /// A missing trust assignment counts as `Observer` instead of a denial.
    pub default_observer_on_missing: bool,
    /// A missing envelope leaves the category unlimited instead of denying.
    pub pass_on_missing_envelope: bool,
}

impl Default for Config {
    /// Consent on data type only, deny on a missing assignment, pass on a
    /// missing envelope.
    fn default() -> (r: Self)
        ensures
            !r.require_consent,
            !r.default_observer_on_missing,
            r.pass_on_missing_envelope,
    {
        Config {
            require_consent: false,
            default_observer_on_missing: false,
            pass_on_missing_envelope: true,
        }
    }
}

} // verus!
