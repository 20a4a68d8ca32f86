//! The branch gate: whether a profile's branch scope covers the branch the
//! repository is currently on.

use vstd::prelude::*;

use crate::util::{contains_string, spec_contains_str};

verus! {

/// Whether a profile scoped to `branches` applies when the repository is
/// on `current`. An empty scope applies everywhere. When no current
/// branch could be resolved the profile deliberately applies anyway, so
/// that an unrelated environment problem never silently disables the
/// checks.
pub open spec fn spec_applies(branches: Seq<String>, current: Option<String>) -> bool {
    branches.len() == 0 || (match current {
        None => true,
        Some(b) => spec_contains_str(branches, b@),
    })
}

/// Decides whether a profile scoped to `branches` applies on the branch
/// `current`, resolved by the caller. An empty scope always applies; an
/// unresolved branch applies regardless of the scope's contents; a
/// resolved branch applies exactly when the scope lists it.
pub fn branch_applies(branches: &Vec<String>, current: &Option<String>) -> (r: bool)
    ensures
        r == spec_applies(branches@, *current),
        branches@.len() == 0 ==> r,
        current is None ==> r,
        branches@.len() > 0 ==> (match *current {
            Some(b) => r <==> spec_contains_str(branches@, b@),
            None => r,
        }),
{
    if branches.len() == 0 {
        true
    } else {
        match current {
            None => true,
            Some(b) => contains_string(branches, b),
        }
    }
}

/// Relies on git2 (`Repository::open`, `Repository::head`,
/// `Reference::shorthand`): the short name of the HEAD branch of the
/// repository in the current working directory, or `None` when there is
/// no repository there, no HEAD, or no resolvable short name. The result
/// depends on on-disk state, so nothing is promised of it.
#[verifier::external_body]
pub fn get_current_branch_name() -> Option<String> {
    let repo = git2::Repository::open(".").ok()?;
    let head = repo.head().ok()?;
    let name = head.shorthand().ok()?;
    Some(name.to_owned())
}

/// Whether the profile scoped to `branches` applies on the repository's
/// current branch. An empty scope applies without looking the branch up
/// at all; otherwise the branch is resolved, and a branch that cannot be
/// resolved applies regardless of the scope.
pub fn check_branch_rules(branches: &Vec<String>) -> (r: bool)
    ensures
        branches@.len() == 0 ==> r,
{
    if branches.len() == 0 {
        return true;
    }
    let current = get_current_branch_name();
    branch_applies(branches, &current)
}

} // verus!
