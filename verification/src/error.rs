//! The failure taxonomy of a preflight run, and the mapping from a failure
//! back to the position of the check that produced it.

use vstd::prelude::*;

verus! {

/// Everything that can make a preflight run stop: one variant per check
/// that can fail (carrying the tool's captured output), one for an
/// unrecognised check or hook name in the configuration, and a sentinel
/// for a user who declined to override a failed check.
#[derive(Debug)]
pub enum PreflightError {
    /// An entry of `checks` that names no known check.
    InvalidCheck { config: String },
    /// An entry of `run_when` that names no known hook event.
    InvalidHook { config: String },
    /// The formatting check failed.
    FormatFailed { fmt_output: String },
    /// The lint check failed.
    ClippyFailed { clippy_output: String },
    /// Compiling the tests failed.
    CheckTestsFailed { check_outputs: String },
    /// Compiling the examples failed.
    CheckExamplesFailed { check_outputs: String },
    /// Compiling the benchmarks failed.
    CheckBenchesFailed { check_outputs: String },
    /// The test run failed.
    TestsFailed { test_outputs: String },
    /// The unused-dependency scan failed.
    ShearFailed { shear_output: String },
    /// The secret scan failed.
    SecretsFailed { ripsecrets_output: String },
    /// The user was offered an override for a failed check and declined.
    OverrideCancelled { failed_check: String },
}

impl Clone for PreflightError {
    fn clone(&self) -> (r: Self)
        ensures
            r == *self,
    {
        match self {
            PreflightError::InvalidCheck { config } => PreflightError::InvalidCheck {
                config: config.clone(),
            },
            PreflightError::InvalidHook { config } => PreflightError::InvalidHook {
                config: config.clone(),
            },
            PreflightError::FormatFailed { fmt_output } => PreflightError::FormatFailed {
                fmt_output: fmt_output.clone(),
            },
            PreflightError::ClippyFailed { clippy_output } => PreflightError::ClippyFailed {
                clippy_output: clippy_output.clone(),
            },
            PreflightError::CheckTestsFailed { check_outputs } => PreflightError::CheckTestsFailed {
                check_outputs: check_outputs.clone(),
            },
            PreflightError::CheckExamplesFailed { check_outputs } => PreflightError::CheckExamplesFailed {
                check_outputs: check_outputs.clone(),
            },
            PreflightError::CheckBenchesFailed { check_outputs } => PreflightError::CheckBenchesFailed {
                check_outputs: check_outputs.clone(),
            },
            PreflightError::TestsFailed { test_outputs } => PreflightError::TestsFailed {
                test_outputs: test_outputs.clone(),
            },
            PreflightError::ShearFailed { shear_output } => PreflightError::ShearFailed {
                shear_output: shear_output.clone(),
            },
            PreflightError::SecretsFailed { ripsecrets_output } => PreflightError::SecretsFailed {
                ripsecrets_output: ripsecrets_output.clone(),
            },
            PreflightError::OverrideCancelled { failed_check } => PreflightError::OverrideCancelled {
                failed_check: failed_check.clone(),
            },
        }
    }
}

/// The canonical check identifier a failure maps back to: the fixed name of
/// the check that produced it, the offending literal for an unrecognised
/// check, and `"hook"` for an unrecognised hook (which is never a check
/// name, so it locates nowhere).
pub open spec fn spec_failed_check_name(e: PreflightError) -> Seq<char> {
    match e {
        PreflightError::InvalidCheck { config } => config@,
        PreflightError::InvalidHook { config: _ } => "hook"@,
        PreflightError::FormatFailed { fmt_output: _ } => "fmt"@,
        PreflightError::ClippyFailed { clippy_output: _ } => "clippy"@,
        PreflightError::CheckTestsFailed { check_outputs: _ } => "check_tests"@,
        PreflightError::CheckExamplesFailed { check_outputs: _ } => "check_examples"@,
        PreflightError::CheckBenchesFailed { check_outputs: _ } => "check_benches"@,
        PreflightError::TestsFailed { test_outputs: _ } => "test"@,
        PreflightError::ShearFailed { shear_output: _ } => "unused_deps"@,
        PreflightError::SecretsFailed { ripsecrets_output: _ } => "secrets"@,
        PreflightError::OverrideCancelled { failed_check } => failed_check@,
    }
}

/// The first position at or after `i` whose entry has exactly the
/// characters `name`.
pub open spec fn spec_first_index(checks: Seq<String>, name: Seq<char>, i: int) -> Option<int>
    decreases checks.len() - i,
{
    if i < 0 || i >= checks.len() {
        None
    } else if checks[i]@ == name {
        Some(i)
    } else {
        spec_first_index(checks, name, i + 1)
    }
}

/// Where recovery for the failure `e` re-enters the check list: the first
/// position of `checks` holding the canonical identifier of `e`, if any.
pub open spec fn spec_locate(checks: Seq<String>, e: PreflightError) -> Option<int> {
    spec_first_index(checks, spec_failed_check_name(e), 0)
}

/// `spec_first_index` finds exactly the first occurrence.
pub proof fn lemma_first_index_characterizes(checks: Seq<String>, name: Seq<char>, i: int)
    requires
        0 <= i <= checks.len(),
    ensures
        match spec_first_index(checks, name, i) {
            Some(k) => i <= k < checks.len() && checks[k]@ == name && forall|j: int|
                i <= j < k ==> checks[j]@ != name,
            None => forall|j: int| i <= j < checks.len() ==> checks[j]@ != name,
        },
    decreases checks.len() - i,
{
    if i < checks.len() && checks[i]@ != name {
        lemma_first_index_characterizes(checks, name, i + 1);
    }
}

/// Maps a failure back to the index of the check that caused it: the first
/// position in `checks` whose entry is the failure's canonical check
/// identifier, or `None` when the failing reason maps to no configured
/// check. A declined override is not the failure of any one check, so it
/// is not a legal argument.
pub fn failed_check_index(checks: &Vec<String>, error: &PreflightError) -> (r: Option<usize>)
    requires
        !(error matches PreflightError::OverrideCancelled { .. }),
    ensures
        match r {
            Some(i) => spec_locate(checks@, *error) == Some(i as int) && i < checks@.len()
                && checks@[i as int]@ == spec_failed_check_name(*error) && forall|j: int|
                0 <= j < i ==> checks@[j]@ != spec_failed_check_name(*error),
            None => spec_locate(checks@, *error) is None && forall|j: int|
                0 <= j < checks@.len() ==> checks@[j]@ != spec_failed_check_name(*error),
        },
{
    let target: String = match error {
        PreflightError::InvalidCheck { config } => config.clone(),
        PreflightError::InvalidHook { config: _ } => "hook".to_owned(),
        PreflightError::FormatFailed { fmt_output: _ } => "fmt".to_owned(),
        PreflightError::ClippyFailed { clippy_output: _ } => "clippy".to_owned(),
        PreflightError::CheckTestsFailed { check_outputs: _ } => "check_tests".to_owned(),
        PreflightError::CheckExamplesFailed { check_outputs: _ } => "check_examples".to_owned(),
        PreflightError::CheckBenchesFailed { check_outputs: _ } => "check_benches".to_owned(),
        PreflightError::TestsFailed { test_outputs: _ } => "test".to_owned(),
        PreflightError::ShearFailed { shear_output: _ } => "unused_deps".to_owned(),
        PreflightError::SecretsFailed { ripsecrets_output: _ } => "secrets".to_owned(),
        PreflightError::OverrideCancelled { failed_check } => failed_check.clone(),
    };
    let mut i: usize = 0;
    proof {
        lemma_first_index_characterizes(checks@, spec_failed_check_name(*error), 0);
    }
    while i < checks.len()
        invariant
            i <= checks@.len(),
            target@ == spec_failed_check_name(*error),
            forall|j: int| 0 <= j < i ==> checks@[j]@ != target@,
            ({
                match spec_locate(checks@, *error) {
                    Some(k) => 0 <= k < checks@.len() && checks@[k]@ == target@ && forall|j: int|
                        0 <= j < k ==> checks@[j]@ != target@,
                    None => forall|j: int| 0 <= j < checks@.len() ==> checks@[j]@ != target@,
                }
            }),
        decreases checks@.len() - i,
    {
        if checks[i] == target {
            return Some(i);
        }
        i += 1;
    }
    None
}

} // verus!
