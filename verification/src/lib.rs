//! A local pre-commit / pre-push gate: runs a configurable, ordered sequence
//! of repository health checks and decides, on failure, whether to abort,
//! attempt an automatic fix, or let the user explicitly override and
//! continue.
//!
//! The heart of the crate is the check-orchestration engine in
//! [`preflight`]: a resumable execution pipeline that runs an ordered list of
//! named checks, maps a failure back to the check that produced it, and
//! re-enters the pipeline at a computed resume point after an autofix or an
//! override decision, across multiple independently configured profiles.
//! The concrete external tools (formatter, linter, test runner, prompts) are
//! collaborators: the engine tells its driver what to do next and consumes
//! the results the driver hands back.

pub mod checks;
pub mod config;
pub mod error;
pub mod fix;
pub mod git;
pub mod preflight;
pub mod util;

use vstd::prelude::*;

verus! {

} // verus!
