//! How a finished run is judged.

use buck2_nextest::session::outcome::{
    failure_for_stats, final_outcome, outcome_exit_code, outcome_for_summary, outcome_notice,
    NoTestsBehavior, OutcomeNotice, RunFailure,
};
use buck2_nextest::stats::{
    CancelReason, FinalRunStats, NextestRunMode, RunStats, RunStatsFailureKind,
};
use nextest_metadata::NextestExitCode;

fn make_run_stats(initial_run_count: usize, finished_count: usize, passed: usize) -> RunStats {
    RunStats {
        initial_run_count,
        finished_count,
        passed,
        ..Default::default()
    }
}

#[test]
fn no_tests_pass_succeeds() {
    let stats = make_run_stats(0, 0, 0);
    let result = final_outcome(
        NextestRunMode::Test,
        stats,
        Some(NoTestsBehavior::Pass),
        None,
        false,
    );
    assert!(result.is_ok(), "no-tests=pass should succeed");
}

#[test]
fn no_tests_warn_succeeds() {
    let stats = make_run_stats(0, 0, 0);
    let result = final_outcome(
        NextestRunMode::Test,
        stats,
        Some(NoTestsBehavior::Warn),
        None,
        false,
    );
    assert!(result.is_ok(), "no-tests=warn should succeed");
}

#[test]
fn no_tests_fail_fails() {
    let stats = make_run_stats(0, 0, 0);
    let result = final_outcome(
        NextestRunMode::Test,
        stats,
        Some(NoTestsBehavior::Fail),
        None,
        false,
    );
    assert_eq!(
        result,
        Err(RunFailure::NoTestsRun {
            mode: NextestRunMode::Test,
            is_default: false,
        }),
        "no-tests=fail should fail"
    );
}

#[test]
fn no_tests_auto_fails_outside_a_rerun() {
    let stats = make_run_stats(0, 0, 0);
    let result = final_outcome(
        NextestRunMode::Test,
        stats,
        Some(NoTestsBehavior::Auto),
        None,
        false,
    );
    assert_eq!(
        result,
        Err(RunFailure::NoTestsRun {
            mode: NextestRunMode::Test,
            is_default: false,
        }),
        "no-tests=auto (not a rerun) should fail"
    );
}

#[test]
fn no_tests_auto_defers_to_outstanding_on_a_rerun() {
    let stats = make_run_stats(0, 0, 0);
    let result = final_outcome(
        NextestRunMode::Test,
        stats,
        Some(NoTestsBehavior::Auto),
        Some(5),
        false,
    );
    assert_eq!(
        result,
        Err(RunFailure::RerunTestsOutstanding {
            count: 5,
            rerun_available: false,
        }),
        "no-tests=auto (rerun with outstanding) should report outstanding tests"
    );

    let stats = make_run_stats(0, 0, 0);
    let result = final_outcome(
        NextestRunMode::Test,
        stats,
        Some(NoTestsBehavior::Auto),
        Some(0),
        false,
    );
    assert!(
        result.is_ok(),
        "no-tests=auto (rerun, no outstanding) should succeed"
    );
}

#[test]
fn the_default_matches_auto_but_reports_as_default() {
    let stats = make_run_stats(0, 0, 0);
    let result = final_outcome(NextestRunMode::Test, stats, None, None, false);
    assert_eq!(
        result,
        Err(RunFailure::NoTestsRun {
            mode: NextestRunMode::Test,
            is_default: true,
        }),
        "the default (not a rerun) should fail with is_default: true"
    );

    let stats = make_run_stats(0, 0, 0);
    let result = final_outcome(NextestRunMode::Test, stats, None, Some(3), false);
    assert_eq!(
        result,
        Err(RunFailure::RerunTestsOutstanding {
            count: 3,
            rerun_available: false,
        }),
        "the default (rerun with outstanding) should report outstanding tests"
    );
}

#[test]
fn a_passing_run_succeeds() {
    let stats = make_run_stats(5, 5, 5);
    let result = final_outcome(NextestRunMode::Test, stats, None, None, false);
    assert!(result.is_ok(), "all tests passed should succeed");

    let result = final_outcome(NextestRunMode::Test, stats, None, Some(0), false);
    assert!(
        result.is_ok(),
        "all tests passed (rerun, no outstanding) should succeed"
    );
}

#[test]
fn a_passing_rerun_with_outstanding_tests_fails() {
    let stats = make_run_stats(5, 5, 5);
    let result = final_outcome(NextestRunMode::Test, stats, None, Some(2), false);
    assert_eq!(
        result,
        Err(RunFailure::RerunTestsOutstanding {
            count: 2,
            rerun_available: false,
        }),
    );

    // With a recording, the failure can point at continuing the rerun.
    let result = final_outcome(NextestRunMode::Test, stats, None, Some(2), true);
    assert_eq!(
        result,
        Err(RunFailure::RerunTestsOutstanding {
            count: 2,
            rerun_available: true,
        }),
    );
}

#[test]
fn test_failures_fail_the_run() {
    let mut stats = make_run_stats(5, 5, 3);
    stats.failed = 2;
    let result = final_outcome(NextestRunMode::Test, stats, None, None, false);
    assert_eq!(
        result,
        Err(RunFailure::TestRunFailed {
            rerun_available: false
        }),
    );

    let result = final_outcome(NextestRunMode::Test, stats, None, None, true);
    assert_eq!(
        result,
        Err(RunFailure::TestRunFailed {
            rerun_available: true
        }),
    );
}

#[test]
fn test_failures_take_precedence_over_outstanding_tests() {
    let mut stats = make_run_stats(5, 5, 3);
    stats.failed = 2;
    let result = final_outcome(NextestRunMode::Test, stats, None, Some(10), false);
    assert_eq!(
        result,
        Err(RunFailure::TestRunFailed {
            rerun_available: false
        }),
    );
}

#[test]
fn setup_script_failures_are_distinct_from_test_failures() {
    for final_stats in [
        FinalRunStats::Failed {
            kind: RunStatsFailureKind::SetupScript,
        },
        FinalRunStats::Cancelled {
            reason: None,
            kind: RunStatsFailureKind::SetupScript,
        },
    ] {
        assert_eq!(
            failure_for_stats(final_stats, NextestRunMode::Test, false),
            Some(RunFailure::SetupScriptFailed),
            "{final_stats:?} is a setup script failure"
        );
    }

    for final_stats in [
        FinalRunStats::Failed {
            kind: RunStatsFailureKind::Test {
                initial_run_count: 5,
                not_run: 0,
            },
        },
        FinalRunStats::Cancelled {
            reason: None,
            kind: RunStatsFailureKind::Test {
                initial_run_count: 5,
                not_run: 2,
            },
        },
    ] {
        assert_eq!(
            failure_for_stats(final_stats, NextestRunMode::Test, true),
            Some(RunFailure::TestRunFailed {
                rerun_available: true
            }),
            "{final_stats:?} is a test failure"
        );
    }
}

#[test]
fn exit_codes_match_the_canonical_constants() {
    assert_eq!(
        RunFailure::NoTestsRun {
            mode: NextestRunMode::Test,
            is_default: true,
        }
        .exit_code(),
        NextestExitCode::NO_TESTS_RUN,
    );
    assert_eq!(
        RunFailure::SetupScriptFailed.exit_code(),
        NextestExitCode::SETUP_SCRIPT_FAILED,
    );
    assert_eq!(
        RunFailure::TestRunFailed {
            rerun_available: false
        }
        .exit_code(),
        NextestExitCode::TEST_RUN_FAILED,
    );
    assert_eq!(
        RunFailure::RerunTestsOutstanding {
            count: 1,
            rerun_available: false,
        }
        .exit_code(),
        NextestExitCode::RERUN_TESTS_OUTSTANDING,
    );
}

/// Whether a run was cancelled from outside or by its own failures, a failed
/// test fails it, and a failed setup script is what is reported before that.
#[test]
fn cancelled_runs_are_failures() {
    let mut stats = make_run_stats(5, 3, 3);
    stats.cancel_reason = Some(CancelReason::Interrupt);
    assert_eq!(
        stats.summarize_final(),
        FinalRunStats::Cancelled {
            reason: Some(CancelReason::Interrupt),
            kind: RunStatsFailureKind::Test {
                initial_run_count: 5,
                not_run: 2,
            },
        }
    );
    assert_eq!(
        final_outcome(NextestRunMode::Test, stats, None, Some(0), false),
        Err(RunFailure::TestRunFailed {
            rerun_available: false
        })
    );

    stats.failed = 1;
    stats.setup_scripts_failed = 1;
    assert_eq!(
        final_outcome(NextestRunMode::Test, stats, None, Some(7), true),
        Err(RunFailure::SetupScriptFailed)
    );
    stats.cancel_reason = Some(CancelReason::TestFailure);
    assert_eq!(
        stats.summarize_final(),
        FinalRunStats::Failed {
            kind: RunStatsFailureKind::SetupScript
        }
    );
}

/// Setup scripts left over mean the run ended before its tests.
#[test]
fn leftover_setup_scripts_cancel_the_run() {
    let mut stats = make_run_stats(0, 0, 0);
    stats.setup_scripts_initial_count = 2;
    stats.setup_scripts_finished_count = 1;
    assert_eq!(
        stats.summarize_final(),
        FinalRunStats::Cancelled {
            reason: None,
            kind: RunStatsFailureKind::SetupScript
        }
    );
}

#[test]
fn outcomes_map_onto_exit_codes() {
    assert_eq!(outcome_exit_code(&Ok(())), 0);
    assert_eq!(outcome_exit_code(&Err(RunFailure::SetupScriptFailed)), 105);
    assert_eq!(
        outcome_exit_code(&final_outcome(
            NextestRunMode::Benchmark,
            make_run_stats(0, 0, 0),
            None,
            None,
            false
        )),
        4
    );
}

#[test]
fn successes_may_be_worth_a_word() {
    let none = make_run_stats(0, 0, 0);
    assert_eq!(
        outcome_notice(NextestRunMode::Test, none, Some(NoTestsBehavior::Warn), None),
        Some(OutcomeNotice::NothingToRun {
            mode: NextestRunMode::Test
        })
    );
    assert_eq!(
        outcome_notice(NextestRunMode::Test, none, Some(NoTestsBehavior::Pass), Some(0)),
        None
    );
    assert_eq!(
        outcome_notice(NextestRunMode::Test, make_run_stats(1, 1, 1), None, Some(0)),
        Some(OutcomeNotice::NoneOutstanding)
    );
    assert_eq!(
        outcome_notice(NextestRunMode::Test, make_run_stats(1, 1, 1), None, Some(1)),
        None
    );
}

/// A summary is judged the same however it was come by.
#[test]
fn a_summary_settles_the_outcome() {
    let judge = |final_stats, outstanding| {
        outcome_for_summary(NextestRunMode::Test, final_stats, None, outstanding, true)
    };
    assert_eq!(judge(FinalRunStats::Success, None), Ok(()));
    assert_eq!(
        judge(FinalRunStats::Success, Some(2)),
        Err(RunFailure::RerunTestsOutstanding {
            count: 2,
            rerun_available: true
        })
    );
    assert_eq!(
        judge(
            FinalRunStats::Cancelled {
                reason: Some(CancelReason::Interrupt),
                kind: RunStatsFailureKind::Test {
                    initial_run_count: 3,
                    not_run: 1
                }
            },
            Some(2)
        ),
        Err(RunFailure::TestRunFailed {
            rerun_available: true
        })
    );
}
