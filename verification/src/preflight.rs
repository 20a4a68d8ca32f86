//! The check-orchestration engine.
//!
//! A run is a state machine over the loaded profiles. The engine owns every
//! decision: which profile runs next, which check runs next, where the
//! pipeline re-enters after an automatic fix or an override, and when the
//! run is over. Everything it cannot do itself — looking up the current
//! branch, running a tool, prompting the user — it requests from its driver
//! as an [`Action`]; the driver performs the work and hands the result back
//! as an [`Event`]. The driver performs actions; it decides nothing.

use vstd::prelude::*;

use crate::checks::{spec_check_fails, spec_check_id, spec_stop, CheckOutcome};
use crate::config::{PreflightConfig, PreflightConfigWrapper};
use crate::error::{failed_check_index, spec_locate, PreflightError};
use crate::fix::{autofix, spec_autofix_kind, FixKind};
use crate::git::{branch_applies, spec_applies};
use crate::util::{contains_string, spec_contains_str};

verus! {

/// What a user answered at a prompt. A cancelled or interrupted prompt is
/// never escalated to a crash: at the override prompt it counts as a
/// decline, and at the autofix prompt it quietly ends the profile with
/// the failure unrecovered.
#[derive(Clone, Copy, PartialEq, Eq, Structural, Debug)]
pub enum PromptAnswer {
    Yes,
    No,
    Cancelled,
}

/// Where one profile's run currently stands.
pub enum Phase {
    /// Awaiting the current branch name for the profile's branch gate.
    Gate,
    /// About to run the check at `index`.
    Ready { index: usize },
    /// The check at `index` failed; awaiting the autofix prompt's answer.
    AwaitFix { index: usize, error: PreflightError },
    /// Autofix accepted; awaiting the outcome of the fixer `kind`.
    Fixing { index: usize, kind: FixKind, error: PreflightError },
    /// Awaiting the override prompt's answer for the check at `index`.
    AwaitOverride { index: usize, error: PreflightError },
}

/// The whole state of one invocation: the loaded profiles, the triggering
/// hook, the cursor into the profiles, the current profile's phase, and
/// whether any profile has terminated with an unrecovered failure.
pub struct RunState {
    pub configs: PreflightConfigWrapper,
    pub hook: String,
    pub run_all: bool,
    pub profile: usize,
    pub phase: Phase,
    pub failed: bool,
}

/// The outside work the engine asks its driver to perform next.
pub enum Action {
    /// Resolve the repository's current branch name.
    LookupBranch,
    /// Run the named check and report its outcome.
    RunCheck { index: usize, check: String },
    /// Ask the user whether to apply an automatic fix for the named check.
    PromptAutofix { index: usize, check: String },
    /// Run the fixer and report its outcome.
    ApplyFix { index: usize, kind: FixKind },
    /// Ask the user whether to override the named failed check.
    PromptOverride { index: usize, check: String },
    /// The run is over; exit successfully iff `ok`.
    Done { ok: bool },
}

/// The result of the outside work, handed back to the engine.
pub enum Event {
    /// The current branch, or `None` when it could not be resolved.
    BranchIs { current: Option<String> },
    /// The outcome of the check the engine asked to run.
    CheckDone { outcome: CheckOutcome },
    /// The user's answer to the autofix prompt.
    AutofixAnswer { answer: PromptAnswer },
    /// The outcome of the fixer the engine asked to apply.
    FixDone { outcome: CheckOutcome },
    /// The user's answer to the override prompt.
    OverrideAnswer { answer: PromptAnswer },
}

/// How many profiles the run holds.
pub open spec fn num_profiles(st: RunState) -> int {
    st.configs.preflight@.len() as int
}

/// The profile the cursor currently points at.
pub open spec fn cur_cfg(st: RunState) -> PreflightConfig {
    st.configs.preflight@[st.profile as int]
}

/// Whether this invocation runs `cfg` at all: either every profile runs
/// (the explicit run-everything mode), or the triggering hook is among the
/// profile's `run_when` triggers.
pub open spec fn spec_selected(cfg: PreflightConfig, hook: Seq<char>, run_all: bool) -> bool {
    run_all || spec_contains_str(cfg.run_when@, hook)
}

/// A profile the cursor may stop at: selected for this invocation and
/// holding at least one check.
pub open spec fn spec_runnable(cfg: PreflightConfig, hook: Seq<char>, run_all: bool) -> bool {
    spec_selected(cfg, hook, run_all) && cfg.checks@.len() > 0
}

/// The profile's phase is consistent with the profile itself.
pub open spec fn phase_wf(phase: Phase, cfg: PreflightConfig) -> bool {
    match phase {
        Phase::Gate => cfg.branches@.len() > 0,
        Phase::Ready { index } => index < cfg.checks@.len(),
        Phase::AwaitFix { index, error: _ } => index < cfg.checks@.len() && cfg.autofix,
        Phase::Fixing { index, kind, error: _ } => index < cfg.checks@.len() && cfg.autofix
            && spec_autofix_kind(cfg.checks@[index as int]@) == Some(kind),
        Phase::AwaitOverride { index, error: _ } => index < cfg.checks@.len() && cfg.over_ride,
    }
}

/// The run's invariant: the cursor is in range, it only ever points at a
/// profile this invocation selected (so an unselected profile is never
/// entered, let alone run), and the phase fits that profile.
pub open spec fn wf(st: RunState) -> bool {
    &&& st.profile as int <= num_profiles(st)
    &&& (st.profile as int) < num_profiles(st) ==> spec_runnable(cur_cfg(st), st.hook@, st.run_all)
        && phase_wf(st.phase, cur_cfg(st))
    &&& st.profile as int == num_profiles(st) ==> st.phase == (Phase::Ready { index: 0usize })
}

/// The position and opening phase of the next runnable profile at or after
/// `p`: unselected profiles and profiles with nothing to check are passed
/// over; a profile scoped to named branches opens at its branch gate, any
/// other at its first check.
pub open spec fn spec_enter(
    w: Seq<PreflightConfig>,
    hook: Seq<char>,
    run_all: bool,
    p: int,
) -> (int, Phase)
    decreases w.len() - p,
{
    if p < 0 || p >= w.len() {
        (w.len() as int, Phase::Ready { index: 0usize })
    } else if !spec_runnable(w[p], hook, run_all) {
        spec_enter(w, hook, run_all, p + 1)
    } else if w[p].branches@.len() > 0 {
        (p, Phase::Gate)
    } else {
        (p, Phase::Ready { index: 0usize })
    }
}

/// Entering lands on a runnable profile (or past the end), in a phase that
/// fits it, and passes over exactly the profiles that are not runnable:
/// a profile not selected by the triggering hook is skipped entirely,
/// with no check run and no branch looked up for it.
pub proof fn lemma_enter_props(w: Seq<PreflightConfig>, hook: Seq<char>, run_all: bool, p: int)
    requires
        0 <= p <= w.len(),
    ensures
        ({
            let e = spec_enter(w, hook, run_all, p);
            &&& p <= e.0 <= w.len()
            &&& e.0 < w.len() ==> spec_runnable(w[e.0], hook, run_all) && phase_wf(e.1, w[e.0])
            &&& e.0 == w.len() ==> e.1 == (Phase::Ready { index: 0usize })
            &&& forall|q: int| p <= q < e.0 ==> !#[trigger] spec_runnable(w[q], hook, run_all)
        }),
    decreases w.len() - p,
{
    if p < w.len() && !spec_runnable(w[p], hook, run_all) {
        lemma_enter_props(w, hook, run_all, p + 1);
    }
}

/// The state after a profile has ended, successfully or not: the failure
/// flag picks up an unrecovered failure, and the cursor moves to the next
/// runnable profile, so one profile's end never prevents the profiles
/// after it from running.
pub open spec fn spec_finish(
    configs: PreflightConfigWrapper,
    hook: String,
    run_all: bool,
    profile: int,
    failed: bool,
    profile_failed: bool,
) -> RunState {
    let e = spec_enter(configs.preflight@, hook@, run_all, profile + 1);
    RunState {
        configs,
        hook,
        run_all,
        profile: e.0 as usize,
        phase: e.1,
        failed: failed || profile_failed,
    }
}

/// Recovery after a declined or impossible autofix: fall through to the
/// override prompt when the profile allows overrides, otherwise the
/// profile terminates with the failure unrecovered.
pub open spec fn spec_fall_through(
    configs: PreflightConfigWrapper,
    hook: String,
    run_all: bool,
    profile: int,
    failed: bool,
    index: usize,
    error: PreflightError,
) -> RunState {
    if configs.preflight@[profile].over_ride {
        RunState {
            configs,
            hook,
            run_all,
            profile: profile as usize,
            phase: Phase::AwaitOverride { index, error },
            failed,
        }
    } else {
        spec_finish(configs, hook, run_all, profile, failed, true)
    }
}

/// The event fits what the engine is waiting for. A check outcome never
/// carries the declined-override sentinel: that is not the failure of any
/// tool.
pub open spec fn event_wf(st: RunState, ev: Event) -> bool {
    match (st.phase, ev) {
        (Phase::Gate, Event::BranchIs { current: _ }) => true,
        (Phase::Ready { index: _ }, Event::CheckDone { outcome }) => !(outcome
            matches CheckOutcome::Failed { error: PreflightError::OverrideCancelled { .. } }),
        (Phase::AwaitFix { .. }, Event::AutofixAnswer { answer: _ }) => true,
        (Phase::Fixing { .. }, Event::FixDone { outcome: _ }) => true,
        (Phase::AwaitOverride { .. }, Event::OverrideAnswer { answer: _ }) => true,
        _ => false,
    }
}

/// One transition of the engine.
///
/// - At the branch gate, a branch the scope covers (or none resolvable,
///   which deliberately counts as covered) opens the profile at its first
///   check; any other branch skips the profile without failing the run.
/// - A passed check advances to the next check; passing the last ends the
///   profile successfully.
/// - A failed check is located by its reason's canonical identifier: the
///   recovery index is the first position of `checks` holding it. With
///   `autofix` set recovery asks for a fix first; otherwise, with
///   `over_ride` set, for an override; with neither, the profile
///   terminates with the failure unrecovered. A failure locating nowhere
///   terminates the profile the same way.
/// - An accepted autofix applies the declared fixer and, when the fixer
///   succeeds, retries the same index; a declined autofix, an impossible
///   one (no declared fixer), and a failed fixer all fall through to the
///   override prompt or to termination. A cancelled autofix prompt ends
///   the profile with the failure unrecovered, without further prompts.
/// - An accepted override resumes at the index after the failing check;
///   a declined one terminates the profile with the failure unrecovered.
/// - A terminated profile, recovered or not, never stops the profiles
///   after it: the cursor always moves on to the next runnable profile.
pub open spec fn spec_step(st: RunState, ev: Event) -> RunState {
    let cfg = cur_cfg(st);
    match (st.phase, ev) {
        (Phase::Gate, Event::BranchIs { current }) => {
            if spec_applies(cfg.branches@, current) {
                RunState { phase: Phase::Ready { index: 0usize }, ..st }
            } else {
                spec_finish(st.configs, st.hook, st.run_all, st.profile as int, st.failed, false)
            }
        },
        (Phase::Ready { index }, Event::CheckDone { outcome }) => match outcome {
            CheckOutcome::Passed => {
                if index + 1 < cfg.checks@.len() {
                    RunState { phase: Phase::Ready { index: (index + 1) as usize }, ..st }
                } else {
                    spec_finish(
                        st.configs,
                        st.hook,
                        st.run_all,
                        st.profile as int,
                        st.failed,
                        false,
                    )
                }
            },
            CheckOutcome::Failed { error } => match spec_locate(cfg.checks@, error) {
                None => spec_finish(
                    st.configs,
                    st.hook,
                    st.run_all,
                    st.profile as int,
                    st.failed,
                    true,
                ),
                Some(j) => if cfg.autofix {
                    RunState { phase: Phase::AwaitFix { index: j as usize, error }, ..st }
                } else if cfg.over_ride {
                    RunState { phase: Phase::AwaitOverride { index: j as usize, error }, ..st }
                } else {
                    spec_finish(
                        st.configs,
                        st.hook,
                        st.run_all,
                        st.profile as int,
                        st.failed,
                        true,
                    )
                },
            },
        },
        (Phase::AwaitFix { index, error }, Event::AutofixAnswer { answer }) => match answer {
            PromptAnswer::Yes => match spec_autofix_kind(cfg.checks@[index as int]@) {
                Some(kind) => RunState { phase: Phase::Fixing { index, kind, error }, ..st },
                None => spec_fall_through(
                    st.configs,
                    st.hook,
                    st.run_all,
                    st.profile as int,
                    st.failed,
                    index,
                    error,
                ),
            },
            PromptAnswer::No => spec_fall_through(
                st.configs,
                st.hook,
                st.run_all,
                st.profile as int,
                st.failed,
                index,
                error,
            ),
            PromptAnswer::Cancelled => spec_finish(
                st.configs,
                st.hook,
                st.run_all,
                st.profile as int,
                st.failed,
                true,
            ),
        },
        (Phase::Fixing { index, kind: _, error }, Event::FixDone { outcome }) => match outcome {
            CheckOutcome::Passed => RunState { phase: Phase::Ready { index }, ..st },
            CheckOutcome::Failed { .. } => spec_fall_through(
                st.configs,
                st.hook,
                st.run_all,
                st.profile as int,
                st.failed,
                index,
                error,
            ),
        },
        (Phase::AwaitOverride { index, error: _ }, Event::OverrideAnswer { answer }) => match answer {
            PromptAnswer::Yes => {
                if index + 1 < cfg.checks@.len() {
                    RunState { phase: Phase::Ready { index: (index + 1) as usize }, ..st }
                } else {
                    spec_finish(
                        st.configs,
                        st.hook,
                        st.run_all,
                        st.profile as int,
                        st.failed,
                        false,
                    )
                }
            },
            _ => spec_finish(st.configs, st.hook, st.run_all, st.profile as int, st.failed, true),
        },
        _ => st,
    }
}

/// Decides whether this invocation selects `cfg` at all.
fn is_selected(cfg: &PreflightConfig, hook: &String, run_all: bool) -> (r: bool)
    ensures
        r == spec_selected(*cfg, hook@, run_all),
{
    run_all || contains_string(&cfg.run_when, hook)
}

/// Moves the cursor to the next runnable profile at or after `p`.
fn enter(w: &Vec<PreflightConfig>, hook: &String, run_all: bool, p: usize) -> (r: (usize, Phase))
    requires
        p <= w@.len(),
    ensures
        (r.0 as int, r.1) == spec_enter(w@, hook@, run_all, p as int),
    decreases w@.len() - p,
{
    if p >= w.len() {
        (w.len(), Phase::Ready { index: 0 })
    } else {
        let cfg = &w[p];
        if !is_selected(cfg, hook, run_all) || cfg.checks.len() == 0 {
            enter(w, hook, run_all, p + 1)
        } else if cfg.branches.len() > 0 {
            (p, Phase::Gate)
        } else {
            (p, Phase::Ready { index: 0 })
        }
    }
}

/// Ends the current profile, recording `profile_failed`, and moves on.
fn finish_profile(
    configs: PreflightConfigWrapper,
    hook: String,
    run_all: bool,
    profile: usize,
    failed: bool,
    profile_failed: bool,
) -> (r: RunState)
    requires
        (profile as int) < configs.preflight@.len(),
    ensures
        r == spec_finish(configs, hook, run_all, profile as int, failed, profile_failed),
        wf(r),
{
    let n = configs.preflight.len();
    assert(profile < n);
    let (next, phase) = enter(&configs.preflight, &hook, run_all, profile + 1);
    proof {
        lemma_enter_props(configs.preflight@, hook@, run_all, profile + 1);
    }
    RunState { configs, hook, run_all, profile: next, phase, failed: failed || profile_failed }
}

/// Falls through from a failed or declined autofix: to the override
/// prompt when the profile allows it, otherwise the profile ends with
/// the failure unrecovered.
fn fall_through(
    configs: PreflightConfigWrapper,
    hook: String,
    run_all: bool,
    profile: usize,
    failed: bool,
    index: usize,
    error: PreflightError,
) -> (r: RunState)
    requires
        (profile as int) < configs.preflight@.len(),
        spec_runnable(configs.preflight@[profile as int], hook@, run_all),
        index < configs.preflight@[profile as int].checks@.len(),
    ensures
        r == spec_fall_through(configs, hook, run_all, profile as int, failed, index, error),
        wf(r),
{
    if configs.preflight[profile].over_ride {
        RunState {
            configs,
            hook,
            run_all,
            profile,
            phase: Phase::AwaitOverride { index, error },
            failed,
        }
    } else {
        finish_profile(configs, hook, run_all, profile, failed, true)
    }
}

/// Starts a run over the loaded profiles: the cursor opens at the first
/// profile this invocation selects, and no failure has been recorded yet.
pub fn new_run(configs: PreflightConfigWrapper, hook: String, run_all: bool) -> (st: RunState)
    ensures
        wf(st),
        st.configs == configs,
        st.hook == hook,
        st.run_all == run_all,
        !st.failed,
        (st.profile as int, st.phase) == spec_enter(configs.preflight@, hook@, run_all, 0),
{
    let (profile, phase) = enter(&configs.preflight, &hook, run_all, 0);
    proof {
        lemma_enter_props(configs.preflight@, hook@, run_all, 0);
    }
    RunState { configs, hook, run_all, profile, phase, failed: false }
}

/// What the driver must do next. Every action addresses the profile the
/// cursor currently points at — never a skipped or a finished one.
pub fn next_action(st: &RunState) -> (a: Action)
    requires
        wf(*st),
    ensures
        st.profile as int == num_profiles(*st) ==> a == (Action::Done { ok: !st.failed }),
        (st.profile as int) < num_profiles(*st) ==> (match st.phase {
            Phase::Gate => a == Action::LookupBranch,
            Phase::Ready { index } => a matches Action::RunCheck { index: i, check } && i == index
                && check@ == cur_cfg(*st).checks@[index as int]@,
            Phase::AwaitFix { index, .. } => a matches Action::PromptAutofix { index: i, check }
                && i == index && check@ == cur_cfg(*st).checks@[index as int]@,
            Phase::Fixing { index, kind, .. } => a == (Action::ApplyFix { index, kind }),
            Phase::AwaitOverride { index, .. } => a matches Action::PromptOverride {
                index: i,
                check,
            } && i == index && check@ == cur_cfg(*st).checks@[index as int]@,
        }),
{
    if st.profile >= st.configs.preflight.len() {
        return Action::Done { ok: !st.failed };
    }
    match &st.phase {
        Phase::Gate => Action::LookupBranch,
        Phase::Ready { index } => Action::RunCheck {
            index: *index,
            check: st.configs.preflight[st.profile].checks[*index].clone(),
        },
        Phase::AwaitFix { index, error: _ } => Action::PromptAutofix {
            index: *index,
            check: st.configs.preflight[st.profile].checks[*index].clone(),
        },
        Phase::Fixing { index, kind, error: _ } => Action::ApplyFix { index: *index, kind: *kind },
        Phase::AwaitOverride { index, error: _ } => Action::PromptOverride {
            index: *index,
            check: st.configs.preflight[st.profile].checks[*index].clone(),
        },
    }
}

/// One transition of the engine: consumes the event the driver produced
/// for the pending action and returns the next state. See [`spec_step`]
/// for the transition rules.
pub fn step(st: RunState, ev: Event) -> (r: RunState)
    requires
        wf(st),
        (st.profile as int) < num_profiles(st),
        event_wf(st, ev),
    ensures
        r == spec_step(st, ev),
        wf(r),
{
    let RunState { configs, hook, run_all, profile, phase, failed } = st;
    match (phase, ev) {
        (Phase::Gate, Event::BranchIs { current }) => {
            if branch_applies(&configs.preflight[profile].branches, &current) {
                RunState { configs, hook, run_all, profile, phase: Phase::Ready { index: 0 }, failed }
            } else {
                finish_profile(configs, hook, run_all, profile, failed, false)
            }
        },
        (Phase::Ready { index }, Event::CheckDone { outcome }) => match outcome {
            CheckOutcome::Passed => {
                let n = configs.preflight[profile].checks.len();
                assert(index < n);
                if index + 1 < n {
                    RunState {
                        configs,
                        hook,
                        run_all,
                        profile,
                        phase: Phase::Ready { index: index + 1 },
                        failed,
                    }
                } else {
                    finish_profile(configs, hook, run_all, profile, failed, false)
                }
            },
            CheckOutcome::Failed { error } => {
                let located = failed_check_index(&configs.preflight[profile].checks, &error);
                match located {
                    None => finish_profile(configs, hook, run_all, profile, failed, true),
                    Some(j) => {
                        if configs.preflight[profile].autofix {
                            RunState {
                                configs,
                                hook,
                                run_all,
                                profile,
                                phase: Phase::AwaitFix { index: j, error },
                                failed,
                            }
                        } else if configs.preflight[profile].over_ride {
                            RunState {
                                configs,
                                hook,
                                run_all,
                                profile,
                                phase: Phase::AwaitOverride { index: j, error },
                                failed,
                            }
                        } else {
                            finish_profile(configs, hook, run_all, profile, failed, true)
                        }
                    },
                }
            },
        },
        (Phase::AwaitFix { index, error }, Event::AutofixAnswer { answer }) => match answer {
            PromptAnswer::Yes => {
                match autofix(&configs.preflight[profile].checks[index]) {
                    Ok(kind) => RunState {
                        configs,
                        hook,
                        run_all,
                        profile,
                        phase: Phase::Fixing { index, kind, error },
                        failed,
                    },
                    Err(_) => fall_through(configs, hook, run_all, profile, failed, index, error),
                }
            },
            PromptAnswer::No => fall_through(configs, hook, run_all, profile, failed, index, error),
            PromptAnswer::Cancelled => finish_profile(configs, hook, run_all, profile, failed, true),
        },
        (Phase::Fixing { index, kind: _, error }, Event::FixDone { outcome }) => match outcome {
            CheckOutcome::Passed => RunState {
                configs,
                hook,
                run_all,
                profile,
                phase: Phase::Ready { index },
                failed,
            },
            CheckOutcome::Failed { error: _ } => fall_through(
                configs,
                hook,
                run_all,
                profile,
                failed,
                index,
                error,
            ),
        },
        (Phase::AwaitOverride { index, error: _ }, Event::OverrideAnswer { answer }) => match answer {
            PromptAnswer::Yes => {
                let n = configs.preflight[profile].checks.len();
                assert(index < n);
                if index + 1 < n {
                    RunState {
                        configs,
                        hook,
                        run_all,
                        profile,
                        phase: Phase::Ready { index: index + 1 },
                        failed,
                    }
                } else {
                    finish_profile(configs, hook, run_all, profile, failed, false)
                }
            },
            PromptAnswer::No | PromptAnswer::Cancelled => finish_profile(
                configs,
                hook,
                run_all,
                profile,
                failed,
                true,
            ),
        },
        (ph, _) => RunState { configs, hook, run_all, profile, phase: ph, failed },
    }
}

/// A profile this invocation does not select is skipped entirely: the
/// cursor never points at it, so no branch is looked up and no check is
/// run for it — every action addresses the profile the cursor points at,
/// and the cursor only ever stops on selected profiles.
pub proof fn lemma_unselected_profile_never_entered(st: RunState, q: int)
    requires
        wf(st),
        0 <= q < num_profiles(st),
        !spec_selected(st.configs.preflight@[q], st.hook@, st.run_all),
    ensures
        st.profile as int != q,
{
}

/// After a failed check, the engine never proceeds to another check of
/// the same profile on its own: either the profile is over (and the
/// cursor has moved past it), or the engine is waiting for an explicit
/// recovery decision.
pub proof fn lemma_failure_blocks_following_checks(st: RunState, ev: Event)
    requires
        wf(st),
        (st.profile as int) < num_profiles(st),
        event_wf(st, ev),
        st.phase matches Phase::Ready { .. },
        ev matches Event::CheckDone { outcome: CheckOutcome::Failed { .. } },
    ensures
        ({
            let r = spec_step(st, ev);
            r.profile == st.profile ==> (r.phase matches Phase::AwaitFix { .. } || r.phase
                matches Phase::AwaitOverride { .. })
        }),
{
    assert(st.configs.preflight.len() == st.configs.preflight@.len());
    lemma_enter_props(st.configs.preflight@, st.hook@, st.run_all, st.profile + 1);
}

/// An unrecovered failure is isolated to its own profile: with neither
/// recovery flag set, a failed check marks the run failed and moves the
/// cursor past the profile to the next runnable one, whose checks run
/// exactly as if the failure had not happened.
pub proof fn lemma_profile_failure_is_isolated(st: RunState, ev: Event)
    requires
        wf(st),
        (st.profile as int) < num_profiles(st),
        event_wf(st, ev),
        st.phase matches Phase::Ready { .. },
        ev matches Event::CheckDone { outcome: CheckOutcome::Failed { .. } },
        !cur_cfg(st).autofix,
        !cur_cfg(st).over_ride,
    ensures
        ({
            let r = spec_step(st, ev);
            &&& r.failed
            &&& r.profile > st.profile
            &&& (r.profile as int, r.phase) == spec_enter(
                st.configs.preflight@,
                st.hook@,
                st.run_all,
                st.profile + 1,
            )
            &&& r.configs == st.configs
            &&& r.hook == st.hook
            &&& r.run_all == st.run_all
        }),
{
    assert(st.configs.preflight.len() == st.configs.preflight@.len());
    lemma_enter_props(st.configs.preflight@, st.hook@, st.run_all, st.profile + 1);
}

/// A successful automatic fix re-enters the pipeline at the failed
/// check's own index: the just-fixed check is retried, not skipped, and
/// nothing is recorded as failed by the fix itself.
pub proof fn lemma_fix_retries_same_check(st: RunState, ev: Event)
    requires
        wf(st),
        (st.profile as int) < num_profiles(st),
        event_wf(st, ev),
        st.phase matches Phase::Fixing { .. },
        ev matches Event::FixDone { outcome: CheckOutcome::Passed },
    ensures
        spec_step(st, ev).profile == st.profile,
        spec_step(st, ev).phase == (Phase::Ready { index: st.phase->Fixing_index }),
        spec_step(st, ev).failed == st.failed,
{
}

/// An accepted override resumes at the index after the failing check:
/// that check is skipped for the rest of the run, the following check
/// (if any) runs next, and the skip itself never marks the run failed.
pub proof fn lemma_override_skips_to_next(st: RunState, ev: Event)
    requires
        wf(st),
        (st.profile as int) < num_profiles(st),
        event_wf(st, ev),
        st.phase matches Phase::AwaitOverride { .. },
        ev matches Event::OverrideAnswer { answer: PromptAnswer::Yes },
    ensures
        ({
            let r = spec_step(st, ev);
            let i = st.phase->AwaitOverride_index;
            &&& r.failed == st.failed
            &&& i + 1 < cur_cfg(st).checks@.len() ==> r.profile == st.profile && r.phase == (
            Phase::Ready { index: (i + 1) as usize })
            &&& i + 1 == cur_cfg(st).checks@.len() ==> r.profile > st.profile
        }),
{
    assert(st.configs.preflight.len() == st.configs.preflight@.len());
    assert(cur_cfg(st).checks.len() == cur_cfg(st).checks@.len());
    lemma_enter_props(st.configs.preflight@, st.hook@, st.run_all, st.profile + 1);
}

/// The event a faithful driver reports for the check at position `k` of
/// `checks`, when `outcomes[k]` is what the tool for that position would
/// report: a name outside the vocabulary is an invalid-check failure by
/// itself, with no tool consulted.
pub open spec fn spec_check_event(
    checks: Seq<String>,
    outcomes: Seq<CheckOutcome>,
    k: int,
) -> Event {
    Event::CheckDone {
        outcome: if spec_check_id(checks[k]@) is None {
            CheckOutcome::Failed { error: PreflightError::InvalidCheck { config: checks[k] } }
        } else {
            outcomes[k]
        },
    }
}

/// The engine driven for `n` check rounds: as long as a check is about to
/// run, its scripted outcome is fed back in.
pub open spec fn spec_drive_checks(st: RunState, outcomes: Seq<CheckOutcome>, n: nat) -> RunState
    decreases n,
{
    if n == 0 {
        st
    } else {
        match st.phase {
            Phase::Ready { index } => if (st.profile as int) < num_profiles(st) {
                spec_drive_checks(
                    spec_step(st, spec_check_event(cur_cfg(st).checks@, outcomes, index as int)),
                    outcomes,
                    (n - 1) as nat,
                )
            } else {
                st
            },
            _ => st,
        }
    }
}

/// The engine implements the fail-fast sequence semantics: driven from
/// position `i` with scripted outcomes whose first stopping position at
/// or after `i` is `k`, it runs exactly the checks at `i..=k` — each
/// earlier check passes it by one position — and arrives at `k` without
/// ever consulting a position before `i` or after `k`.
pub proof fn lemma_engine_stops_at_first_failure(
    st: RunState,
    outcomes: Seq<CheckOutcome>,
    i: usize,
    k: int,
)
    requires
        wf(st),
        (st.profile as int) < num_profiles(st),
        st.phase == (Phase::Ready { index: i }),
        outcomes.len() == cur_cfg(st).checks@.len(),
        spec_stop(cur_cfg(st).checks@, outcomes, i as int) == Some(k),
    ensures
        spec_drive_checks(st, outcomes, (k - i) as nat) == (RunState {
            phase: Phase::Ready { index: k as usize },
            ..st
        }),
    decreases k - i,
{
    crate::checks::lemma_stop_characterizes(cur_cfg(st).checks@, outcomes, i as int);
    assert(cur_cfg(st).checks.len() == cur_cfg(st).checks@.len());
    if (i as int) < k {
        let st2 = RunState { phase: Phase::Ready { index: (i + 1) as usize }, ..st };
        assert(spec_step(st, spec_check_event(cur_cfg(st).checks@, outcomes, i as int)) == st2);
        crate::checks::lemma_stop_characterizes(cur_cfg(st2).checks@, outcomes, i + 1);
        lemma_stop_from_next(cur_cfg(st).checks@, outcomes, i as int, k);
        lemma_engine_stops_at_first_failure(st2, outcomes, (i + 1) as usize, k);
    }
}

/// A stop strictly past a clean position is also the stop from the next
/// position.
proof fn lemma_stop_from_next(checks: Seq<String>, outcomes: Seq<CheckOutcome>, i: int, k: int)
    requires
        0 <= i < checks.len(),
        outcomes.len() == checks.len(),
        spec_stop(checks, outcomes, i) == Some(k),
        i < k,
    ensures
        spec_stop(checks, outcomes, i + 1) == Some(k),
{
}

/// The engine completes a profile whose remaining checks all pass: driven
/// from position `i` with scripted outcomes that stop nowhere at or after
/// `i`, it runs each remaining check once and then ends the profile
/// successfully, moving on to the next runnable one.
pub proof fn lemma_engine_completes_profile_when_all_pass(
    st: RunState,
    outcomes: Seq<CheckOutcome>,
    i: usize,
)
    requires
        wf(st),
        (st.profile as int) < num_profiles(st),
        st.phase == (Phase::Ready { index: i }),
        outcomes.len() == cur_cfg(st).checks@.len(),
        spec_stop(cur_cfg(st).checks@, outcomes, i as int) is None,
    ensures
        spec_drive_checks(st, outcomes, (cur_cfg(st).checks@.len() - i) as nat) == spec_finish(
            st.configs,
            st.hook,
            st.run_all,
            st.profile as int,
            st.failed,
            false,
        ),
    decreases cur_cfg(st).checks@.len() - i,
{
    crate::checks::lemma_stop_characterizes(cur_cfg(st).checks@, outcomes, i as int);
    assert(cur_cfg(st).checks.len() == cur_cfg(st).checks@.len());
    assert(!spec_check_fails(cur_cfg(st).checks@, outcomes, i as int));
    if (i + 1) as int == cur_cfg(st).checks@.len() {
        let ev = spec_check_event(cur_cfg(st).checks@, outcomes, i as int);
        let done = spec_step(st, ev);
        assert(spec_drive_checks(done, outcomes, 0) == done);
        assert(spec_drive_checks(st, outcomes, 1) == done);
    } else {
        let st2 = RunState { phase: Phase::Ready { index: (i + 1) as usize }, ..st };
        assert(spec_step(st, spec_check_event(cur_cfg(st).checks@, outcomes, i as int)) == st2);
        lemma_stop_from_next_none(cur_cfg(st).checks@, outcomes, i as int);
        lemma_engine_completes_profile_when_all_pass(st2, outcomes, (i + 1) as usize);
    }
}

/// No stop from a clean position means no stop from the next one either.
proof fn lemma_stop_from_next_none(checks: Seq<String>, outcomes: Seq<CheckOutcome>, i: int)
    requires
        0 <= i < checks.len(),
        outcomes.len() == checks.len(),
        spec_stop(checks, outcomes, i) is None,
    ensures
        spec_stop(checks, outcomes, i + 1) is None,
{
}


} // verus!
