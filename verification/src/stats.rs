//! Statistics for a run, and the judgement they add up to.

use vstd::prelude::*;

verus! {

/// Whether a run executes tests or benchmarks.
#[derive(Clone, Copy, Debug, Eq, PartialEq, Structural)]
pub enum NextestRunMode {
    /// Tests.
    Test,

    /// Benchmarks.
    Benchmark,
}

/// Why a run was cancelled, from the mildest reason to the most urgent.
#[derive(Clone, Copy, Debug, Eq, PartialEq, Structural)]
pub enum CancelReason {
    /// A setup script failed.
    SetupScriptFailure,

    /// A test failed, and the run stops at the first failure.
    TestFailure,

    /// Results could not be reported.
    ReportError,

    /// The run as a whole took too long.
    GlobalTimeout,

    /// A test failed, and running tests are stopped at once.
    TestFailureImmediate,

    /// A termination signal arrived.
    Signal,

    /// An interrupt arrived.
    Interrupt,

    /// A second signal arrived.
    SecondSignal,
}

impl CancelReason {
    /// Whether the reason is something other than a failure within the run
    /// itself.
    pub open spec fn beyond_failure(self) -> bool {
        !(self is SetupScriptFailure) && !(self is TestFailure)
    }

    /// Returns whether the reason is something other than a failure within the
    /// run itself.
    pub fn is_beyond_failure(self) -> (beyond: bool)
        ensures
            beyond == self.beyond_failure(),
    {
        match self {
            CancelReason::SetupScriptFailure | CancelReason::TestFailure => false,
            _ => true,
        }
    }
}

/// What a run counted.
#[derive(Clone, Copy, Debug, Eq, PartialEq, Structural)]
pub struct RunStats {
    /// How many tests were selected to run.
    pub initial_run_count: usize,

    /// How many of them finished.
    pub finished_count: usize,

    /// How many setup scripts were to run.
    pub setup_scripts_initial_count: usize,

    /// How many setup scripts finished.
    pub setup_scripts_finished_count: usize,

    /// How many setup scripts passed.
    pub setup_scripts_passed: usize,

    /// How many setup scripts failed.
    pub setup_scripts_failed: usize,

    /// How many setup scripts could not be started.
    pub setup_scripts_exec_failed: usize,

    /// How many setup scripts timed out.
    pub setup_scripts_timed_out: usize,

    /// How many tests passed.
    pub passed: usize,

    /// How many tests failed.
    pub failed: usize,

    /// How many tests timed out in a way that counts as a failure.
    pub failed_timed_out: usize,

    /// How many tests could not be started.
    pub exec_failed: usize,

    /// How many tests were skipped.
    pub skipped: usize,

    /// Why the run was cancelled, if it was.
    pub cancel_reason: Option<CancelReason>,
}

impl Default for RunStats {
    fn default() -> (stats: Self)
        ensures
            stats == (RunStats {
                initial_run_count: 0,
                finished_count: 0,
                setup_scripts_initial_count: 0,
                setup_scripts_finished_count: 0,
                setup_scripts_passed: 0,
                setup_scripts_failed: 0,
                setup_scripts_exec_failed: 0,
                setup_scripts_timed_out: 0,
                passed: 0,
                failed: 0,
                failed_timed_out: 0,
                exec_failed: 0,
                skipped: 0,
                cancel_reason: None,
            }),
    {
        RunStats {
            initial_run_count: 0,
            finished_count: 0,
            setup_scripts_initial_count: 0,
            setup_scripts_finished_count: 0,
            setup_scripts_passed: 0,
            setup_scripts_failed: 0,
            setup_scripts_exec_failed: 0,
            setup_scripts_timed_out: 0,
            passed: 0,
            failed: 0,
            failed_timed_out: 0,
            exec_failed: 0,
            skipped: 0,
            cancel_reason: None,
        }
    }
}

/// What failed in a run.
#[derive(Clone, Copy, Debug, Eq, PartialEq, Structural)]
pub enum RunStatsFailureKind {
    /// A setup script.
    SetupScript,

    /// A test.
    Test {
        /// How many tests were selected to run.
        initial_run_count: usize,

        /// How many of them did not run.
        not_run: usize,
    },
}

/// A finished run, summarized.
#[derive(Clone, Copy, Debug, Eq, PartialEq, Structural)]
pub enum FinalRunStats {
    /// Tests ran, and all of them passed.
    Success,

    /// No tests were selected to run.
    NoTestsRun,

    /// The run ended early.
    Cancelled {
        /// Why, if known.
        reason: Option<CancelReason>,

        /// What failed.
        kind: RunStatsFailureKind,
    },

    /// Something failed.
    Failed {
        /// What failed.
        kind: RunStatsFailureKind,
    },
}

impl RunStats {
    /// Some setup script failed, in any of the ways it can.
    pub open spec fn setup_script_failures(&self) -> bool {
        self.setup_scripts_failed > 0 || self.setup_scripts_exec_failed > 0
            || self.setup_scripts_timed_out > 0
    }

    /// Some test failed, in any of the ways it can.
    pub open spec fn test_failures(&self) -> bool {
        self.failed > 0 || self.exec_failed > 0 || self.failed_timed_out > 0
    }

    /// Setup scripts were left over, so the run ended before the tests.
    pub open spec fn setup_scripts_left(&self) -> bool {
        self.setup_scripts_initial_count > self.setup_scripts_finished_count
    }

    /// The run was cancelled for a reason other than a failure of its own.
    pub open spec fn cancelled_from_outside(&self) -> bool {
        self.cancel_reason matches Some(reason) && reason.beyond_failure()
    }

    /// How the tests that did not finish are described.
    pub open spec fn test_failure_kind(&self) -> RunStatsFailureKind {
        RunStatsFailureKind::Test {
            initial_run_count: self.initial_run_count,
            not_run: if self.initial_run_count > self.finished_count {
                (self.initial_run_count - self.finished_count) as usize
            } else {
                0
            },
        }
    }

    /// The summary of the run: setup scripts are looked at before tests, and
    /// failures before anything left unfinished.
    pub open spec fn summary(&self) -> FinalRunStats {
        if self.setup_script_failures() {
            if self.cancelled_from_outside() {
                FinalRunStats::Cancelled {
                    reason: self.cancel_reason,
                    kind: RunStatsFailureKind::SetupScript,
                }
            } else {
                FinalRunStats::Failed { kind: RunStatsFailureKind::SetupScript }
            }
        } else if self.setup_scripts_left() {
            FinalRunStats::Cancelled {
                reason: self.cancel_reason,
                kind: RunStatsFailureKind::SetupScript,
            }
        } else if self.test_failures() && !self.cancelled_from_outside() {
            FinalRunStats::Failed { kind: self.test_failure_kind() }
        } else if self.test_failures() || self.initial_run_count > self.finished_count {
            FinalRunStats::Cancelled { reason: self.cancel_reason, kind: self.test_failure_kind() }
        } else if self.finished_count == 0 {
            FinalRunStats::NoTestsRun
        } else {
            FinalRunStats::Success
        }
    }

    /// Summarizes the run once it is over.
    pub fn summarize_final(&self) -> (summary: FinalRunStats)
        ensures
            summary == self.summary(),
    {
        let from_outside = match self.cancel_reason {
            Some(reason) => reason.is_beyond_failure(),
            None => false,
        };
        let not_run: usize = if self.initial_run_count > self.finished_count {
            self.initial_run_count - self.finished_count
        } else {
            0
        };
        let test_kind = RunStatsFailureKind::Test {
            initial_run_count: self.initial_run_count,
            not_run,
        };

        if self.setup_scripts_failed > 0 || self.setup_scripts_exec_failed > 0
            || self.setup_scripts_timed_out > 0 {
            if from_outside {
                FinalRunStats::Cancelled {
                    reason: self.cancel_reason,
                    kind: RunStatsFailureKind::SetupScript,
                }
            } else {
                FinalRunStats::Failed { kind: RunStatsFailureKind::SetupScript }
            }
        } else if self.setup_scripts_initial_count > self.setup_scripts_finished_count {
            FinalRunStats::Cancelled {
                reason: self.cancel_reason,
                kind: RunStatsFailureKind::SetupScript,
            }
        } else if self.failed > 0 || self.exec_failed > 0 || self.failed_timed_out > 0 {
            if from_outside {
                FinalRunStats::Cancelled { reason: self.cancel_reason, kind: test_kind }
            } else {
                FinalRunStats::Failed { kind: test_kind }
            }
        } else if self.initial_run_count > self.finished_count {
            FinalRunStats::Cancelled { reason: self.cancel_reason, kind: test_kind }
        } else if self.finished_count == 0 {
            FinalRunStats::NoTestsRun
        } else {
            FinalRunStats::Success
        }
    }
}

/// A run is a success exactly when every count of something gone wrong is zero,
/// nothing was left unfinished, and something ran.
pub proof fn law_a_success_has_no_failures(stats: RunStats)
    ensures
        stats.summary() == FinalRunStats::Success <==> {
            &&& stats.failed == 0
            &&& stats.exec_failed == 0
            &&& stats.failed_timed_out == 0
            &&& stats.setup_scripts_failed == 0
            &&& stats.setup_scripts_exec_failed == 0
            &&& stats.setup_scripts_timed_out == 0
            &&& stats.setup_scripts_finished_count >= stats.setup_scripts_initial_count
            &&& stats.finished_count >= stats.initial_run_count
            &&& stats.finished_count > 0
        },
        stats.summary() == FinalRunStats::NoTestsRun <==> {
            &&& stats.failed == 0
            &&& stats.exec_failed == 0
            &&& stats.failed_timed_out == 0
            &&& stats.setup_scripts_failed == 0
            &&& stats.setup_scripts_exec_failed == 0
            &&& stats.setup_scripts_timed_out == 0
            &&& stats.setup_scripts_finished_count >= stats.setup_scripts_initial_count
            &&& stats.initial_run_count == 0
            &&& stats.finished_count == 0
        },
{
}

/// What went wrong is put down to a setup script whenever one failed or was left
/// over, and otherwise to the tests, with what did not run of them.
pub proof fn law_setup_scripts_are_blamed_first(stats: RunStats)
    ensures
        stats.setup_scripts_failed > 0 || stats.setup_scripts_exec_failed > 0
            || stats.setup_scripts_timed_out > 0 || stats.setup_scripts_initial_count
            > stats.setup_scripts_finished_count <==> {
            ||| stats.summary() == (FinalRunStats::Failed {
                kind: RunStatsFailureKind::SetupScript,
            })
            ||| stats.summary() == (FinalRunStats::Cancelled {
                reason: stats.cancel_reason,
                kind: RunStatsFailureKind::SetupScript,
            })
        },
        match stats.summary() {
            FinalRunStats::Failed { kind } | FinalRunStats::Cancelled { kind, .. } => match kind {
                RunStatsFailureKind::Test { initial_run_count, not_run } => {
                    &&& initial_run_count == stats.initial_run_count
                    &&& stats.finished_count <= stats.initial_run_count ==> not_run
                        + stats.finished_count == stats.initial_run_count
                    &&& stats.finished_count > stats.initial_run_count ==> not_run == 0
                },
                RunStatsFailureKind::SetupScript => true,
            },
            _ => true,
        },
{
}

/// A run that failed is said to have been cancelled only if it was cancelled for
/// something other than a failure in it; one that failed at nothing is, if it
/// left anything unfinished. A cancelled run always says why.
pub proof fn law_failures_are_told_from_cancellations(stats: RunStats)
    ensures
        stats.summary() is Failed <==> {
            &&& stats.setup_scripts_failed > 0 || stats.setup_scripts_exec_failed > 0
                || stats.setup_scripts_timed_out > 0 || stats.setup_scripts_initial_count
                <= stats.setup_scripts_finished_count && (stats.failed > 0 || stats.exec_failed > 0
                || stats.failed_timed_out > 0)
            &&& stats.cancel_reason is None || stats.cancel_reason == Some(
                CancelReason::SetupScriptFailure,
            ) || stats.cancel_reason == Some(CancelReason::TestFailure)
        },
        stats.summary() matches FinalRunStats::Cancelled { reason, .. } ==> reason
            == stats.cancel_reason,
{
}

} // verus!
