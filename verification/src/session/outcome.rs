//! Mapping a finished run to an outcome.

use crate::exit_code;
use crate::stats::{FinalRunStats, NextestRunMode, RunStats, RunStatsFailureKind};
use vstd::prelude::*;

verus! {

/// How to treat a run in which no tests were selected.
#[derive(Clone, Copy, Debug, Eq, PartialEq, Structural)]
pub enum NoTestsBehavior {
    /// Succeed.
    Pass,

    /// Succeed, with a warning.
    Warn,

    /// Fail.
    Fail,

    /// Fail, except on a rerun, where outstanding tests decide instead.
    Auto,
}

/// Why a run that executed did not succeed.
///
/// This is the shared truth about the outcome; each frontend maps it onto its
/// own error type or exit-code convention. [`exit_code`](Self::exit_code)
/// carries the canonical code so the mapping cannot drift between them.
#[derive(Clone, Copy, Debug, Eq, PartialEq, Structural)]
pub enum RunFailure {
    /// No tests were selected to run.
    NoTestsRun {
        /// Whether the run was in test or benchmark mode.
        mode: NextestRunMode,

        /// Whether this outcome came from the default behavior rather than an
        /// explicit request to fail.
        is_default: bool,
    },

    /// A setup script failed.
    SetupScriptFailed,

    /// At least one test failed, or the run was cancelled after a failure.
    TestRunFailed {
        /// Whether a recording is available to rerun from.
        rerun_available: bool,
    },

    /// A rerun finished without seeing all of the outstanding tests.
    RerunTestsOutstanding {
        /// How many outstanding tests were not seen.
        count: usize,

        /// Whether a recording is available to rerun from.
        rerun_available: bool,
    },
}

impl RunFailure {
    /// The canonical exit code for this failure.
    pub open spec fn code(&self) -> i32 {
        match self {
            RunFailure::NoTestsRun { .. } => 4,
            RunFailure::SetupScriptFailed => 105,
            RunFailure::TestRunFailed { .. } => 100,
            RunFailure::RerunTestsOutstanding { .. } => 5,
        }
    }

    /// Returns the process exit code for this failure.
    pub fn exit_code(&self) -> (code: i32)
        ensures
            code == self.code(),
    {
        match self {
            RunFailure::NoTestsRun { .. } => exit_code::no_tests_run(),
            RunFailure::SetupScriptFailed => exit_code::setup_script_failed(),
            RunFailure::TestRunFailed { .. } => exit_code::test_run_failed(),
            RunFailure::RerunTestsOutstanding { .. } => exit_code::rerun_tests_outstanding(),
        }
    }
}

/// The exit code for an outcome, which is zero for a success.
pub open spec fn outcome_code(outcome: Result<(), RunFailure>) -> i32 {
    match outcome {
        Ok(()) => 0,
        Err(failure) => failure.code(),
    }
}

/// Returns the process exit code for an outcome.
pub fn outcome_exit_code(outcome: &Result<(), RunFailure>) -> (code: i32)
    ensures
        code == outcome_code(*outcome),
{
    match outcome {
        Ok(()) => 0,
        Err(failure) => failure.exit_code(),
    }
}

/// The failure a summary amounts to on its own, if any.
pub open spec fn stats_failure(
    final_stats: FinalRunStats,
    mode: NextestRunMode,
    rerun_available: bool,
) -> Option<RunFailure> {
    match final_stats {
        FinalRunStats::Success => None,
        FinalRunStats::NoTestsRun => Some(RunFailure::NoTestsRun { mode, is_default: true }),
        FinalRunStats::Cancelled { kind, .. } | FinalRunStats::Failed { kind } => match kind {
            RunStatsFailureKind::SetupScript => Some(RunFailure::SetupScriptFailed),
            RunStatsFailureKind::Test { .. } => Some(RunFailure::TestRunFailed { rerun_available }),
        },
    }
}

/// What outstanding tests make of a run that did not fail otherwise.
pub open spec fn outstanding_outcome(
    outstanding_not_seen_count: Option<usize>,
    rerun_available: bool,
) -> Result<(), RunFailure> {
    match outstanding_not_seen_count {
        Some(count) if count > 0 => Err(
            RunFailure::RerunTestsOutstanding { count, rerun_available },
        ),
        _ => Ok(()),
    }
}

/// The outcome of a run with the given summary.
pub open spec fn run_outcome(
    mode: NextestRunMode,
    final_stats: FinalRunStats,
    no_tests: Option<NoTestsBehavior>,
    outstanding_not_seen_count: Option<usize>,
    rerun_available: bool,
) -> Result<(), RunFailure> {
    if final_stats is NoTestsRun {
        match (no_tests, outstanding_not_seen_count) {
            (Some(NoTestsBehavior::Pass), _) | (Some(NoTestsBehavior::Warn), _) => Ok(()),
            (Some(NoTestsBehavior::Fail), _) | (Some(NoTestsBehavior::Auto), None) => Err(
                RunFailure::NoTestsRun { mode, is_default: false },
            ),
            (None, None) => Err(RunFailure::NoTestsRun { mode, is_default: true }),
            (_, Some(_)) => outstanding_outcome(outstanding_not_seen_count, rerun_available),
        }
    } else {
        match stats_failure(final_stats, mode, rerun_available) {
            Some(failure) => Err(failure),
            None => outstanding_outcome(outstanding_not_seen_count, rerun_available),
        }
    }
}

/// Determines the final outcome of a test run.
///
/// A `no_tests` of `None` behaves as [`NoTestsBehavior::Auto`] but is reported
/// as the default rather than a choice. `outstanding_not_seen_count` is `Some`
/// exactly when the run was a rerun; `rerun_available` says whether this run
/// was recorded, so a failure can point at rerunning it.
pub fn final_outcome(
    mode: NextestRunMode,
    run_stats: RunStats,
    no_tests: Option<NoTestsBehavior>,
    outstanding_not_seen_count: Option<usize>,
    rerun_available: bool,
) -> (outcome: Result<(), RunFailure>)
    ensures
        outcome == run_outcome(
            mode,
            run_stats.summary(),
            no_tests,
            outstanding_not_seen_count,
            rerun_available,
        ),
{
    outcome_for_summary(
        mode,
        run_stats.summarize_final(),
        no_tests,
        outstanding_not_seen_count,
        rerun_available,
    )
}

/// Determines the final outcome of a test run that is already summarized.
pub fn outcome_for_summary(
    mode: NextestRunMode,
    final_stats: FinalRunStats,
    no_tests: Option<NoTestsBehavior>,
    outstanding_not_seen_count: Option<usize>,
    rerun_available: bool,
) -> (outcome: Result<(), RunFailure>)
    ensures
        outcome == run_outcome(
            mode,
            final_stats,
            no_tests,
            outstanding_not_seen_count,
            rerun_available,
        ),
{
    let is_rerun = outstanding_not_seen_count.is_some();

    // Handle the no-tests-run case first.
    if matches!(final_stats, FinalRunStats::NoTestsRun) {
        match no_tests {
            Some(NoTestsBehavior::Pass) | Some(NoTestsBehavior::Warn) => {
                return Ok(());
            },
            Some(NoTestsBehavior::Fail) => {
                return Err(RunFailure::NoTestsRun { mode, is_default: false });
            },
            // For reruns, `Auto` and the default check outstanding tests
            // below. For everything else they fail.
            Some(NoTestsBehavior::Auto) => {
                if !is_rerun {
                    return Err(RunFailure::NoTestsRun { mode, is_default: false });
                }
            },
            None => {
                if !is_rerun {
                    return Err(RunFailure::NoTestsRun { mode, is_default: true });
                }
            },
        }
    } else if let Some(failure) = failure_for_stats(final_stats, mode, rerun_available) {
        // Tests ran, and the run failed.
        return Err(failure);
    }

    // The run succeeded (or no tests ran on a rerun). Check for outstanding
    // tests.
    match outstanding_not_seen_count {
        Some(count) => if count == 0 {
            Ok(())
        } else {
            Err(RunFailure::RerunTestsOutstanding { count, rerun_available })
        },
        None => Ok(()),
    }
}

/// Converts final run statistics to a failure, if the run failed.
///
/// For `NoTestsRun` this always reports `is_default: true`; [`final_outcome`]
/// handles [`NoTestsBehavior`] before it gets here.
pub fn failure_for_stats(
    final_stats: FinalRunStats,
    mode: NextestRunMode,
    rerun_available: bool,
) -> (failure: Option<RunFailure>)
    ensures
        failure == stats_failure(final_stats, mode, rerun_available),
{
    match final_stats {
        FinalRunStats::Success => None,
        FinalRunStats::NoTestsRun => Some(RunFailure::NoTestsRun { mode, is_default: true }),
        FinalRunStats::Cancelled { kind, .. } | FinalRunStats::Failed { kind } => match kind {
            RunStatsFailureKind::SetupScript => Some(RunFailure::SetupScriptFailed),
            RunStatsFailureKind::Test { .. } => Some(RunFailure::TestRunFailed { rerun_available }),
        },
    }
}

/// Something worth saying about a successful outcome.
#[derive(Clone, Copy, Debug, Eq, PartialEq, Structural)]
pub enum OutcomeNotice {
    /// A warning: there was nothing to run.
    NothingToRun {
        /// Whether the run was in test or benchmark mode.
        mode: NextestRunMode,
    },

    /// Information: a rerun saw every outstanding test.
    NoneOutstanding,
}

/// What is worth saying about the outcome of a run with the given summary.
pub open spec fn run_notice(
    mode: NextestRunMode,
    final_stats: FinalRunStats,
    no_tests: Option<NoTestsBehavior>,
    outstanding_not_seen_count: Option<usize>,
) -> Option<OutcomeNotice> {
    match (final_stats, no_tests) {
        (FinalRunStats::NoTestsRun, Some(NoTestsBehavior::Pass)) => None,
        (FinalRunStats::NoTestsRun, Some(NoTestsBehavior::Fail)) => None,
        (FinalRunStats::NoTestsRun, Some(NoTestsBehavior::Warn)) => Some(
            OutcomeNotice::NothingToRun { mode },
        ),
        (FinalRunStats::Success, _) | (FinalRunStats::NoTestsRun, _) => {
            if outstanding_not_seen_count == Some(0usize) {
                Some(OutcomeNotice::NoneOutstanding)
            } else {
                None
            }
        },
        _ => None,
    }
}

/// Returns what is worth saying about the outcome [`final_outcome`] gives.
pub fn outcome_notice(
    mode: NextestRunMode,
    run_stats: RunStats,
    no_tests: Option<NoTestsBehavior>,
    outstanding_not_seen_count: Option<usize>,
) -> (notice: Option<OutcomeNotice>)
    ensures
        notice == run_notice(mode, run_stats.summary(), no_tests, outstanding_not_seen_count),
{
    match run_stats.summarize_final() {
        FinalRunStats::NoTestsRun => match no_tests {
            Some(NoTestsBehavior::Pass) | Some(NoTestsBehavior::Fail) => {
                return None;
            },
            Some(NoTestsBehavior::Warn) => {
                return Some(OutcomeNotice::NothingToRun { mode });
            },
            _ => {},
        },
        FinalRunStats::Success => {},
        _ => {
            return None;
        },
    }
    match outstanding_not_seen_count {
        Some(count) => if count == 0 {
            Some(OutcomeNotice::NoneOutstanding)
        } else {
            None
        },
        None => None,
    }
}

/// A process exits zero exactly when the run succeeded, and otherwise with one
/// of the four documented codes.
pub proof fn law_exit_codes(outcome: Result<(), RunFailure>)
    ensures
        outcome_code(outcome) == 0 <==> outcome is Ok,
        outcome is Err ==> {
            ||| outcome_code(outcome) == 4
            ||| outcome_code(outcome) == 5
            ||| outcome_code(outcome) == 100
            ||| outcome_code(outcome) == 105
        },
{
}

/// Different kinds of failure never share an exit code.
pub proof fn law_exit_codes_tell_failures_apart(left: RunFailure, right: RunFailure)
    ensures
        left.code() == right.code() <==> {
            ||| left is NoTestsRun && right is NoTestsRun
            ||| left is SetupScriptFailed && right is SetupScriptFailed
            ||| left is TestRunFailed && right is TestRunFailed
            ||| left is RerunTestsOutstanding && right is RerunTestsOutstanding
        },
{
}

/// The default behaves as `Auto`, except that a failure for want of tests says
/// that it came from the default.
pub proof fn law_default_is_auto(
    mode: NextestRunMode,
    final_stats: FinalRunStats,
    outstanding: Option<usize>,
    rerun_available: bool,
)
    ensures
        ({
            let auto = run_outcome(
                mode,
                final_stats,
                Some(NoTestsBehavior::Auto),
                outstanding,
                rerun_available,
            );
            let default = run_outcome(mode, final_stats, None, outstanding, rerun_available);
            if auto == Err::<(), RunFailure>(RunFailure::NoTestsRun { mode, is_default: false }) {
                default == Err::<(), RunFailure>(RunFailure::NoTestsRun { mode, is_default: true })
            } else {
                default == auto
            }
        }),
{
}

/// A failure in the run takes precedence over outstanding tests, and over how
/// a run without tests is treated.
pub proof fn law_failures_take_precedence(
    mode: NextestRunMode,
    run_stats: RunStats,
    no_tests: Option<NoTestsBehavior>,
    outstanding: Option<usize>,
    rerun_available: bool,
)
    requires
        run_stats.setup_script_failures() || run_stats.test_failures(),
    ensures
        run_outcome(mode, run_stats.summary(), no_tests, outstanding, rerun_available) is Err,
        run_outcome(mode, run_stats.summary(), no_tests, outstanding, rerun_available)
            == run_outcome(mode, run_stats.summary(), None, None, rerun_available),
        run_stats.setup_script_failures() ==> run_outcome(
            mode,
            run_stats.summary(),
            no_tests,
            outstanding,
            rerun_available,
        ) == Err::<(), RunFailure>(RunFailure::SetupScriptFailed),
{
}

/// How a run without tests is treated matters to no other run.
pub proof fn law_no_tests_is_the_only_knob(
    mode: NextestRunMode,
    final_stats: FinalRunStats,
    first: Option<NoTestsBehavior>,
    second: Option<NoTestsBehavior>,
    outstanding: Option<usize>,
    rerun_available: bool,
)
    requires
        !(final_stats is NoTestsRun),
    ensures
        run_outcome(mode, final_stats, first, outstanding, rerun_available) == run_outcome(
            mode,
            final_stats,
            second,
            outstanding,
            rerun_available,
        ),
{
}

/// A rerun with outstanding tests succeeds only where no tests were selected
/// and that was asked to be no failure.
pub proof fn law_outstanding_tests_are_not_a_success(
    mode: NextestRunMode,
    final_stats: FinalRunStats,
    no_tests: Option<NoTestsBehavior>,
    outstanding: usize,
    rerun_available: bool,
)
    requires
        outstanding > 0,
    ensures
        run_outcome(mode, final_stats, no_tests, Some(outstanding), rerun_available) is Ok <==> {
            &&& final_stats is NoTestsRun
            &&& no_tests == Some(NoTestsBehavior::Pass) || no_tests == Some(NoTestsBehavior::Warn)
        },
{
}

/// Something is said only about a success.
pub proof fn law_notices_are_about_successes(
    mode: NextestRunMode,
    final_stats: FinalRunStats,
    no_tests: Option<NoTestsBehavior>,
    outstanding: Option<usize>,
    rerun_available: bool,
)
    ensures
        run_notice(mode, final_stats, no_tests, outstanding) is Some ==> run_outcome(
            mode,
            final_stats,
            no_tests,
            outstanding,
            rerun_available,
        ) is Ok,
{
}

/// Whatever was asked for, a run in which a test failed, could not be started or
/// timed out has failed, as long as the setup scripts all ran and none failed.
pub proof fn law_failed_tests_fail_the_run(
    mode: NextestRunMode,
    run_stats: RunStats,
    no_tests: Option<NoTestsBehavior>,
    outstanding: Option<usize>,
    rerun_available: bool,
)
    requires
        run_stats.failed > 0 || run_stats.exec_failed > 0 || run_stats.failed_timed_out > 0,
        run_stats.setup_scripts_failed == 0,
        run_stats.setup_scripts_exec_failed == 0,
        run_stats.setup_scripts_timed_out == 0,
        run_stats.setup_scripts_initial_count <= run_stats.setup_scripts_finished_count,
    ensures
        run_outcome(mode, run_stats.summary(), no_tests, outstanding, rerun_available) == Err::<
            (),
            RunFailure,
        >(RunFailure::TestRunFailed { rerun_available }),
{
}

/// Whatever was asked for, a run that stopped before all its tests had run has
/// failed, even if none of them did.
pub proof fn law_unfinished_tests_fail_the_run(
    mode: NextestRunMode,
    run_stats: RunStats,
    no_tests: Option<NoTestsBehavior>,
    outstanding: Option<usize>,
    rerun_available: bool,
)
    requires
        run_stats.finished_count < run_stats.initial_run_count,
        run_stats.setup_scripts_failed == 0,
        run_stats.setup_scripts_exec_failed == 0,
        run_stats.setup_scripts_timed_out == 0,
        run_stats.setup_scripts_initial_count <= run_stats.setup_scripts_finished_count,
    ensures
        run_outcome(mode, run_stats.summary(), no_tests, outstanding, rerun_available) == Err::<
            (),
            RunFailure,
        >(RunFailure::TestRunFailed { rerun_available }),
{
}

/// Whatever was asked for, and whatever the tests did, the outcome is that a setup
/// script failed exactly when one failed, could not be started, timed out or was
/// left over.
pub proof fn law_failed_setup_scripts_fail_the_run(
    mode: NextestRunMode,
    run_stats: RunStats,
    no_tests: Option<NoTestsBehavior>,
    outstanding: Option<usize>,
    rerun_available: bool,
)
    ensures
        run_outcome(mode, run_stats.summary(), no_tests, outstanding, rerun_available) == Err::<
            (),
            RunFailure,
        >(RunFailure::SetupScriptFailed) <==> {
            ||| run_stats.setup_scripts_failed > 0
            ||| run_stats.setup_scripts_exec_failed > 0
            ||| run_stats.setup_scripts_timed_out > 0
            ||| run_stats.setup_scripts_initial_count > run_stats.setup_scripts_finished_count
        },
{
}

/// A run that ran all its tests without a failure succeeds, unless it was a rerun
/// that did not see some outstanding tests, and then it fails with their number.
pub proof fn law_clean_runs_succeed(
    mode: NextestRunMode,
    run_stats: RunStats,
    no_tests: Option<NoTestsBehavior>,
    outstanding: Option<usize>,
    rerun_available: bool,
)
    requires
        run_stats.failed == 0,
        run_stats.exec_failed == 0,
        run_stats.failed_timed_out == 0,
        run_stats.setup_scripts_failed == 0,
        run_stats.setup_scripts_exec_failed == 0,
        run_stats.setup_scripts_timed_out == 0,
        run_stats.setup_scripts_initial_count <= run_stats.setup_scripts_finished_count,
        run_stats.finished_count >= run_stats.initial_run_count,
        run_stats.finished_count > 0,
    ensures
        outstanding is None || outstanding == Some(0usize) ==> run_outcome(
            mode,
            run_stats.summary(),
            no_tests,
            outstanding,
            rerun_available,
        ) == Ok::<(), RunFailure>(()),
        outstanding matches Some(count) && count > 0 ==> run_outcome(
            mode,
            run_stats.summary(),
            no_tests,
            outstanding,
            rerun_available,
        ) == Err::<(), RunFailure>(
            RunFailure::RerunTestsOutstanding { count: outstanding->0, rerun_available },
        ),
{
}

/// A run with nothing to run is what it was asked to be: a success with `Pass` or
/// `Warn`, a failure with `Fail`, and otherwise a failure unless it is a rerun,
/// which fails only if tests are outstanding.
pub proof fn law_empty_runs_are_as_asked(
    mode: NextestRunMode,
    run_stats: RunStats,
    no_tests: Option<NoTestsBehavior>,
    outstanding: Option<usize>,
    rerun_available: bool,
)
    requires
        run_stats.failed == 0,
        run_stats.exec_failed == 0,
        run_stats.failed_timed_out == 0,
        run_stats.setup_scripts_failed == 0,
        run_stats.setup_scripts_exec_failed == 0,
        run_stats.setup_scripts_timed_out == 0,
        run_stats.setup_scripts_initial_count <= run_stats.setup_scripts_finished_count,
        run_stats.initial_run_count == 0,
        run_stats.finished_count == 0,
    ensures
        ({
            let outcome = run_outcome(
                mode,
                run_stats.summary(),
                no_tests,
                outstanding,
                rerun_available,
            );
            let asked = no_tests == Some(NoTestsBehavior::Fail) || no_tests == Some(
                NoTestsBehavior::Auto,
            );
            &&& no_tests == Some(NoTestsBehavior::Pass) || no_tests == Some(NoTestsBehavior::Warn)
                ==> outcome == Ok::<(), RunFailure>(())
            &&& no_tests == Some(NoTestsBehavior::Fail) || (no_tests == Some(NoTestsBehavior::Auto)
                || no_tests is None) && outstanding is None ==> outcome == Err::<(), RunFailure>(
                RunFailure::NoTestsRun { mode, is_default: !asked },
            )
            &&& (no_tests == Some(NoTestsBehavior::Auto) || no_tests is None) && outstanding is Some
                && outstanding->0 > 0 ==> outcome == Err::<(), RunFailure>(
                RunFailure::RerunTestsOutstanding { count: outstanding->0, rerun_available },
            )
            &&& (no_tests == Some(NoTestsBehavior::Auto) || no_tests is None) && outstanding
                == Some(0usize) ==> outcome == Ok::<(), RunFailure>(())
        }),
{
}

/// Each kind of failure has its own fixed exit code.
pub proof fn law_failures_have_fixed_codes(
    mode: NextestRunMode,
    is_default: bool,
    count: usize,
    rerun_available: bool,
)
    ensures
        outcome_code(Ok(())) == 0,
        outcome_code(Err(RunFailure::NoTestsRun { mode, is_default })) == 4,
        outcome_code(Err(RunFailure::RerunTestsOutstanding { count, rerun_available })) == 5,
        outcome_code(Err(RunFailure::TestRunFailed { rerun_available })) == 100,
        outcome_code(Err(RunFailure::SetupScriptFailed)) == 105,
{
}

/// A summary fails on its own account exactly when it is no success, and what
/// failed in it is what the failure says.
pub proof fn law_summaries_fail_on_their_own_account(
    final_stats: FinalRunStats,
    mode: NextestRunMode,
    rerun_available: bool,
)
    ensures
        match stats_failure(final_stats, mode, rerun_available) {
            None => final_stats == FinalRunStats::Success,
            Some(RunFailure::NoTestsRun { mode: told, is_default }) => {
                &&& final_stats == FinalRunStats::NoTestsRun
                &&& told == mode
                &&& is_default
            },
            Some(RunFailure::SetupScriptFailed) => {
                ||| final_stats matches FinalRunStats::Failed { kind } && kind is SetupScript
                ||| final_stats matches FinalRunStats::Cancelled { kind, .. } && kind is SetupScript
            },
            Some(RunFailure::TestRunFailed { rerun_available: told }) => {
                &&& told == rerun_available
                &&& {
                    ||| final_stats matches FinalRunStats::Failed { kind } && kind is Test
                    ||| final_stats matches FinalRunStats::Cancelled { kind, .. } && kind is Test
                }
            },
            Some(RunFailure::RerunTestsOutstanding { .. }) => false,
        },
{
}

/// There is something to say exactly when a run without tests was asked to warn,
/// or a rerun that did not fail left nothing outstanding.
pub proof fn law_what_is_worth_saying(
    mode: NextestRunMode,
    final_stats: FinalRunStats,
    no_tests: Option<NoTestsBehavior>,
    outstanding: Option<usize>,
)
    ensures
        ({
            let notice = run_notice(mode, final_stats, no_tests, outstanding);
            &&& notice == Some(OutcomeNotice::NothingToRun { mode }) <==> final_stats
                == FinalRunStats::NoTestsRun && no_tests == Some(NoTestsBehavior::Warn)
            &&& notice == Some(OutcomeNotice::NoneOutstanding) <==> {
                &&& outstanding == Some(0usize)
                &&& final_stats == FinalRunStats::Success || final_stats
                    == FinalRunStats::NoTestsRun && (no_tests is None || no_tests == Some(
                    NoTestsBehavior::Auto,
                ))
            }
            &&& notice matches Some(OutcomeNotice::NothingToRun { mode: told }) ==> told == mode
        }),
{
}

} // verus!
