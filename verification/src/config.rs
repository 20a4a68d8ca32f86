//! Profile configuration: which checks run, when they run, and how a
//! failure may be recovered.

use vstd::prelude::*;

verus! {

/// One named configuration unit: the ordered checks to run, the hook events
/// that trigger them, the branches they are scoped to, and the recovery
/// flags.
///
/// An empty `branches` list means the profile applies on any branch. The
/// order of `checks` is the execution order: a later check never runs before
/// an earlier one has passed.
pub struct PreflightConfig {
    pub run_when: Vec<String>,
    pub branches: Vec<String>,
    pub checks: Vec<String>,
    pub autofix: bool,
    pub over_ride: bool,
}

impl Default for PreflightConfig {
    /// The stock profile: format and test on every push, autofix enabled.
    fn default() -> (r: Self)
        ensures
            r.run_when@.len() == 1,
            r.run_when@[0]@ == "push"@,
            r.branches@.len() == 0,
            r.checks@.len() == 2,
            r.checks@[0]@ == "fmt"@,
            r.checks@[1]@ == "test"@,
            r.autofix,
            !r.over_ride,
    {
        PreflightConfig {
            run_when: vec!["push".to_owned()],
            branches: Vec::new(),
            checks: vec!["fmt".to_owned(), "test".to_owned()],
            autofix: true,
            over_ride: false,
        }
    }
}

/// An ordered collection of profiles, loaded once per invocation and
/// read-only for the remainder of the run.
pub struct PreflightConfigWrapper {
    pub preflight: Vec<PreflightConfig>,
}

impl Default for PreflightConfigWrapper {
    /// A single stock profile.
    fn default() -> (r: Self)
        ensures
            r.preflight@.len() == 1,
            r.preflight@[0].run_when@.len() == 1,
            r.preflight@[0].run_when@[0]@ == "push"@,
            r.preflight@[0].branches@.len() == 0,
            r.preflight@[0].checks@.len() == 2,
            r.preflight@[0].checks@[0]@ == "fmt"@,
            r.preflight@[0].checks@[1]@ == "test"@,
            r.preflight@[0].autofix,
            !r.preflight@[0].over_ride,
    {
        PreflightConfigWrapper { preflight: vec![PreflightConfig::default()] }
    }
}

} // verus!
