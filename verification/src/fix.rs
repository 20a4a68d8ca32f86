//! Automatic repair: which checks have a fixer, and which fixer a failed
//! check calls for.

use vstd::prelude::*;

use crate::error::PreflightError;

verus! {

/// The automatic repairs the driver can perform.
#[derive(Clone, Copy, PartialEq, Eq, Structural, Debug)]
pub enum FixKind {
    /// Rewrite the sources with the formatter.
    Fmt,
    /// Apply the linter's machine-applicable suggestions.
    Clippy,
}

/// The fixer a check name calls for: only the formatting and lint checks
/// can be repaired automatically.
pub open spec fn spec_autofix_kind(name: Seq<char>) -> Option<FixKind> {
    if name == "fmt"@ {
        Some(FixKind::Fmt)
    } else if name == "clippy"@ {
        Some(FixKind::Clippy)
    } else {
        None
    }
}

/// Selects the automatic fix for a failed check. A check with no declared
/// fixer cannot be repaired: asking for its fix is itself an
/// invalid-check failure, which leaves recovery to fall through to an
/// override or to termination.
pub fn autofix(check: &String) -> (r: Result<FixKind, PreflightError>)
    ensures
        spec_autofix_kind(check@) matches Some(k) ==> r == Ok::<FixKind, PreflightError>(k),
        spec_autofix_kind(check@) is None ==> r == Err::<FixKind, PreflightError>(
            PreflightError::InvalidCheck { config: *check },
        ),
{
    if *check == "fmt".to_owned() {
        Ok(FixKind::Fmt)
    } else if *check == "clippy".to_owned() {
        Ok(FixKind::Clippy)
    } else {
        Err(PreflightError::InvalidCheck { config: check.clone() })
    }
}

} // verus!
