//! The fixed check vocabulary, the outcome of running one check, and the
//! fail-fast semantics of running an ordered slice of checks.

use vstd::prelude::*;

use crate::error::PreflightError;

verus! {

/// The closed vocabulary of checks a profile may name. A configuration
/// entry outside this set is not a configuration-load error: it surfaces
/// at run time, in order, as an invalid-check failure.
#[derive(Clone, Copy, PartialEq, Eq, Structural, Debug)]
pub enum CheckId {
    Fmt,
    Clippy,
    Test,
    CheckTests,
    CheckExamples,
    CheckBenches,
    UnusedDeps,
    Secrets,
}

/// The check a configured name stands for, if any.
pub open spec fn spec_check_id(name: Seq<char>) -> Option<CheckId> {
    if name == "fmt"@ {
        Some(CheckId::Fmt)
    } else if name == "clippy"@ {
        Some(CheckId::Clippy)
    } else if name == "test"@ {
        Some(CheckId::Test)
    } else if name == "check_tests"@ {
        Some(CheckId::CheckTests)
    } else if name == "check_examples"@ {
        Some(CheckId::CheckExamples)
    } else if name == "check_benches"@ {
        Some(CheckId::CheckBenches)
    } else if name == "unused_deps"@ {
        Some(CheckId::UnusedDeps)
    } else if name == "secrets"@ {
        Some(CheckId::Secrets)
    } else {
        None
    }
}

/// Resolves a configured check name against the vocabulary.
pub fn parse_check(name: &String) -> (r: Option<CheckId>)
    ensures
        r == spec_check_id(name@),
{
    if *name == "fmt".to_owned() {
        Some(CheckId::Fmt)
    } else if *name == "clippy".to_owned() {
        Some(CheckId::Clippy)
    } else if *name == "test".to_owned() {
        Some(CheckId::Test)
    } else if *name == "check_tests".to_owned() {
        Some(CheckId::CheckTests)
    } else if *name == "check_examples".to_owned() {
        Some(CheckId::CheckExamples)
    } else if *name == "check_benches".to_owned() {
        Some(CheckId::CheckBenches)
    } else if *name == "unused_deps".to_owned() {
        Some(CheckId::UnusedDeps)
    } else if *name == "secrets".to_owned() {
        Some(CheckId::Secrets)
    } else {
        None
    }
}

/// The result of running one check: it passed, or it failed with the
/// reason and the tool's captured output.
#[derive(Debug)]
pub enum CheckOutcome {
    Passed,
    Failed { error: PreflightError },
}

impl Clone for CheckOutcome {
    fn clone(&self) -> (r: Self)
        ensures
            r == *self,
    {
        match self {
            CheckOutcome::Passed => CheckOutcome::Passed,
            CheckOutcome::Failed { error } => CheckOutcome::Failed { error: error.clone() },
        }
    }
}

/// Whether position `k` stops a run: its name is outside the vocabulary,
/// or the tool reported failure there.
pub open spec fn spec_check_fails(checks: Seq<String>, outcomes: Seq<CheckOutcome>, k: int) -> bool {
    spec_check_id(checks[k]@) is None || !(outcomes[k] is Passed)
}

/// The first position at or after `start` that stops a run, if any.
pub open spec fn spec_stop(checks: Seq<String>, outcomes: Seq<CheckOutcome>, start: int) -> Option<
    int,
>
    decreases checks.len() - start,
{
    if start < 0 || start >= checks.len() {
        None
    } else if spec_check_fails(checks, outcomes, start) {
        Some(start)
    } else {
        spec_stop(checks, outcomes, start + 1)
    }
}

/// The failure reported when a run stops at position `k`: an
/// invalid-check failure carrying the offending name, or the tool's own
/// failure.
pub open spec fn spec_stop_error(
    checks: Seq<String>,
    outcomes: Seq<CheckOutcome>,
    k: int,
) -> PreflightError {
    if spec_check_id(checks[k]@) is None {
        PreflightError::InvalidCheck { config: checks[k] }
    } else {
        outcomes[k]->error
    }
}

/// `spec_stop` finds exactly the first stopping position.
pub proof fn lemma_stop_characterizes(checks: Seq<String>, outcomes: Seq<CheckOutcome>, start: int)
    requires
        0 <= start <= checks.len(),
    ensures
        match spec_stop(checks, outcomes, start) {
            Some(k) => start <= k < checks.len() && spec_check_fails(checks, outcomes, k)
                && forall|j: int| start <= j < k ==> !spec_check_fails(checks, outcomes, j),
            None => forall|j: int| start <= j < checks.len() ==> !spec_check_fails(
                checks,
                outcomes,
                j,
            ),
        },
    decreases checks.len() - start,
{
    if start < checks.len() && !spec_check_fails(checks, outcomes, start) {
        lemma_stop_characterizes(checks, outcomes, start + 1);
    }
}

/// A clean prefix does not move the stopping position: if nothing in
/// `[start, i)` stops the run, the run from `start` stops exactly where
/// the run from `i` does.
proof fn lemma_stop_skip_clean_prefix(
    checks: Seq<String>,
    outcomes: Seq<CheckOutcome>,
    start: int,
    i: int,
)
    requires
        0 <= start <= i <= checks.len(),
        forall|j: int| start <= j < i ==> !spec_check_fails(checks, outcomes, j),
    ensures
        spec_stop(checks, outcomes, start) == spec_stop(checks, outcomes, i),
    decreases i - start,
{
    if start < i {
        lemma_stop_skip_clean_prefix(checks, outcomes, start + 1, i);
    }
}

/// Runs `checks[start..]` in order against the outcomes the external
/// tools produced, stopping at the first failure. Returns the terminal
/// outcome together with the index at which execution stopped, or the
/// length of `checks` on success. `outcomes[k]` is what the tool for
/// `checks[k]` reports when it is reached; a name outside the vocabulary
/// fails by itself, without consulting any tool.
pub fn run_checks(checks: &Vec<String>, outcomes: &Vec<CheckOutcome>, start: usize) -> (r: (
    CheckOutcome,
    usize,
))
    requires
        start <= checks@.len(),
        outcomes@.len() == checks@.len(),
    ensures
        match spec_stop(checks@, outcomes@, start as int) {
            None => r.1 == checks@.len() && r.0 is Passed,
            Some(k) => r.1 == k && (r.0 matches CheckOutcome::Failed { error } && error
                == spec_stop_error(checks@, outcomes@, k)),
        },
        start <= r.1 <= checks@.len(),
        forall|j: int| start <= j < r.1 ==> !spec_check_fails(checks@, outcomes@, j),
        r.0 is Passed <==> spec_stop(checks@, outcomes@, start as int) is None,
{
    let mut i: usize = start;
    while i < checks.len()
        invariant
            start <= i <= checks@.len(),
            outcomes@.len() == checks@.len(),
            forall|j: int| start <= j < i ==> !spec_check_fails(checks@, outcomes@, j),
        decreases checks@.len() - i,
    {
        proof {
            lemma_stop_skip_clean_prefix(checks@, outcomes@, start as int, i as int);
        }
        match parse_check(&checks[i]) {
            None => {
                return (
                    CheckOutcome::Failed {
                        error: PreflightError::InvalidCheck { config: checks[i].clone() },
                    },
                    i,
                );
            },
            Some(_) => {
                match &outcomes[i] {
                    CheckOutcome::Passed => {
                    },
                    CheckOutcome::Failed { error } => {
                        return (CheckOutcome::Failed { error: error.clone() }, i);
                    },
                }
            },
        }
        i += 1;
    }
    proof {
        lemma_stop_skip_clean_prefix(checks@, outcomes@, start as int, checks@.len() as int);
    }
    (CheckOutcome::Passed, checks.len())
}

/// Checks before the start index are never consulted: replacing the
/// outcomes of positions below `start` changes nothing about the run
/// from `start`.
pub proof fn lemma_run_ignores_before_start(
    checks: Seq<String>,
    outcomes1: Seq<CheckOutcome>,
    outcomes2: Seq<CheckOutcome>,
    start: int,
)
    requires
        outcomes1.len() == checks.len(),
        outcomes2.len() == checks.len(),
        0 <= start <= checks.len(),
        forall|k: int| start <= k < checks.len() ==> outcomes1[k] == outcomes2[k],
    ensures
        spec_stop(checks, outcomes1, start) == spec_stop(checks, outcomes2, start),
        spec_stop(checks, outcomes1, start) matches Some(k) ==> spec_stop_error(
            checks,
            outcomes1,
            k,
        ) == spec_stop_error(checks, outcomes2, k),
    decreases checks.len() - start,
{
    if start < checks.len() && !spec_check_fails(checks, outcomes1, start) {
        lemma_run_ignores_before_start(checks, outcomes1, outcomes2, start + 1);
    }
}

/// The run is fail-fast: nothing after the first failure is consulted.
/// If two outcome assignments agree up to and including the stopping
/// position, the run stops at the same place with the same failure,
/// whatever the tools would have reported later.
pub proof fn lemma_run_fail_fast(
    checks: Seq<String>,
    outcomes1: Seq<CheckOutcome>,
    outcomes2: Seq<CheckOutcome>,
    start: int,
    k: int,
)
    requires
        outcomes1.len() == checks.len(),
        outcomes2.len() == checks.len(),
        0 <= start <= checks.len(),
        spec_stop(checks, outcomes1, start) == Some(k),
        forall|j: int| start <= j <= k ==> outcomes1[j] == outcomes2[j],
    ensures
        spec_stop(checks, outcomes2, start) == Some(k),
        spec_stop_error(checks, outcomes1, k) == spec_stop_error(checks, outcomes2, k),
    decreases checks.len() - start,
{
    lemma_stop_characterizes(checks, outcomes1, start);
    if start < checks.len() && !spec_check_fails(checks, outcomes1, start) {
        lemma_run_fail_fast(checks, outcomes1, outcomes2, start + 1, k);
    }
}

} // verus!
