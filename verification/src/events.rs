//! What a run reports while it executes.

use crate::duration::{self, Duration};
use vstd::prelude::*;

verus! {

/// What a profile makes of a test that leaks handles.
#[derive(Clone, Copy, Debug, Eq, PartialEq, Structural)]
pub enum LeakTimeoutResult {
    /// The test passes.
    Pass,

    /// The test fails.
    Fail,
}

/// What a profile makes of a test that is terminated for running too long.
#[derive(Clone, Copy, Debug, Eq, PartialEq, Structural)]
pub enum SlowTimeoutResult {
    /// The test passes.
    Pass,

    /// The test fails.
    Fail,
}

/// What a profile makes of a test that passes only on a later attempt.
#[derive(Clone, Copy, Debug, Eq, PartialEq, Structural)]
pub enum FlakyResult {
    /// The test passes.
    Pass,

    /// The test fails.
    Fail,
}

/// How a test process failed.
#[derive(Debug, Eq, PartialEq)]
pub enum FailureDescription {
    /// It exited with a code other than zero.
    ExitCode {
        /// The code.
        code: i32,
    },

    /// It was aborted.
    Abort {
        /// By what.
        description: String,
    },
}

/// How one attempt at a test went.
#[allow(inconsistent_fields)]
#[derive(Debug, Eq, PartialEq)]
pub enum ExecutionResultDescription {
    /// The test passed.
    Pass,

    /// The test passed, but leaked handles.
    Leak {
        /// What the profile makes of that.
        result: LeakTimeoutResult,
    },

    /// The test failed.
    Fail {
        /// How its process failed.
        failure: FailureDescription,

        /// Whether it leaked handles as well.
        leaked: bool,
    },

    /// The test process could not be started.
    ExecFail,

    /// The test was terminated for running too long.
    Timeout {
        /// What the profile makes of that.
        result: SlowTimeoutResult,
    },
}

impl ExecutionResultDescription {
    /// The attempt counts as a success.
    pub open spec fn success(&self) -> bool {
        match self {
            ExecutionResultDescription::Pass => true,
            ExecutionResultDescription::Leak { result } => *result == LeakTimeoutResult::Pass,
            ExecutionResultDescription::Timeout { result } => *result == SlowTimeoutResult::Pass,
            ExecutionResultDescription::Fail { .. } | ExecutionResultDescription::ExecFail => false,
        }
    }

    /// Returns whether the attempt counts as a success.
    pub fn is_success(&self) -> (success: bool)
        ensures
            success == self.success(),
    {
        match self {
            ExecutionResultDescription::Pass => true,
            ExecutionResultDescription::Leak { result } => match result {
                LeakTimeoutResult::Pass => true,
                LeakTimeoutResult::Fail => false,
            },
            ExecutionResultDescription::Timeout { result } => match result {
                SlowTimeoutResult::Pass => true,
                SlowTimeoutResult::Fail => false,
            },
            ExecutionResultDescription::Fail { .. } | ExecutionResultDescription::ExecFail => false,
        }
    }
}

/// Which attempt at a test this is.
#[derive(Clone, Copy, Debug, Eq, PartialEq, Structural)]
pub struct RetryData {
    /// The attempt, counting from one.
    pub attempt: u32,

    /// How many attempts the profile allows.
    pub total_attempts: u32,
}

/// What an error amounts to, in brief and in full.
#[derive(Debug, Eq, PartialEq)]
pub struct ErrorSummary {
    /// The error in one line.
    pub short_message: String,

    /// The error in full.
    pub description: String,
}

/// The part of a test's output that says what went wrong.
#[derive(Debug, Eq, PartialEq)]
pub struct OutputErrorSlice {
    /// The text.
    pub slice: String,
}

/// What a test process wrote.
#[derive(Debug, Eq, PartialEq)]
pub enum ChildOutputDescription {
    /// The two streams, each if it was captured.
    Split {
        /// Standard output.
        stdout: Option<Vec<u8>>,

        /// Standard error.
        stderr: Option<Vec<u8>>,
    },

    /// Both streams together.
    Combined {
        /// What was written to either.
        output: Vec<u8>,
    },

    /// The output is not at hand.
    NotLoaded,
}

/// What there is to show for an attempt.
#[derive(Debug, Eq, PartialEq)]
pub enum ChildExecutionOutputDescription {
    /// The process was started.
    Output {
        /// What it wrote.
        output: ChildOutputDescription,
    },

    /// The process could not be started.
    StartError(String),
}

/// One attempt at a test.
#[derive(Debug, Eq, PartialEq)]
pub struct ExecuteStatus {
    /// Which attempt it was.
    pub retry_data: RetryData,

    /// What there is to show for it.
    pub output: ChildExecutionOutputDescription,

    /// How it went.
    pub result: ExecutionResultDescription,

    /// How long it took.
    pub time_taken: Duration,

    /// The error, if nextest could work one out.
    pub error_summary: Option<ErrorSummary>,

    /// The telling part of the output, if nextest could find it.
    pub output_error_slice: Option<OutputErrorSlice>,
}

/// How long some attempts took together, in nanoseconds.
pub open spec fn total_time(statuses: Seq<ExecuteStatus>) -> nat
    decreases statuses.len(),
{
    if statuses.len() == 0 {
        0
    } else {
        total_time(statuses.drop_last()) + statuses.last().time_taken.total()
    }
}

/// Starting fewer attempts takes no longer.
proof fn lemma_total_time_of_prefix(statuses: Seq<ExecuteStatus>, count: int)
    requires
        0 <= count <= statuses.len(),
    ensures
        total_time(statuses.subrange(0, count)) <= total_time(statuses),
    decreases statuses.len(),
{
    if count == statuses.len() {
        assert(statuses.subrange(0, count) == statuses);
    } else {
        lemma_total_time_of_prefix(statuses.drop_last(), count);
        assert(statuses.drop_last().subrange(0, count) == statuses.subrange(0, count));
    }
}

/// Adds up how long some attempts took, if that can be represented.
fn add_times(statuses: &Vec<ExecuteStatus>) -> (total: Option<Duration>)
    ensures
        match total {
            Some(total) => total.total() == total_time(statuses@) <= duration::longest(),
            None => total_time(statuses@) > duration::longest(),
        },
{
    let mut total = Duration::zero();
    let mut index: usize = 0;
    while index < statuses.len()
        invariant
            index <= statuses.len(),
            total.total() == total_time(statuses@.subrange(0, index as int)),
            total.total() <= duration::longest(),
        decreases statuses.len() - index,
    {
        proof {
            let next = statuses@.subrange(0, index + 1);
            assert(next.drop_last() == statuses@.subrange(0, index as int));
            assert(next.last() == statuses@[index as int]);
            lemma_total_time_of_prefix(statuses@, index + 1);
        }
        match total.checked_add(statuses[index].time_taken) {
            Some(sum) => {
                total = sum;
            },
            None => {
                return None;
            },
        }
        index += 1;
    }
    assert(statuses@.subrange(0, index as int) == statuses@);
    Some(total)
}

/// Every attempt at a test, in order.
///
/// There is at least one, and together they took no longer than a [`Duration`]
/// can hold.
#[derive(Debug, Eq, PartialEq)]
pub struct ExecutionStatuses {
    statuses: Vec<ExecuteStatus>,
    flaky_result: FlakyResult,
}

/// What the attempts at a test amount to.
#[derive(Clone, Copy, Debug)]
pub enum ExecutionDescription<'a> {
    /// The only attempt succeeded.
    Success {
        /// That attempt.
        single_status: &'a ExecuteStatus,
    },

    /// The last attempt succeeded, after others that did not.
    Flaky {
        /// The last attempt.
        last_status: &'a ExecuteStatus,

        /// The attempts before it.
        prior_statuses: &'a [ExecuteStatus],

        /// What the profile makes of that.
        result: FlakyResult,
    },

    /// The last attempt did not succeed.
    Failure {
        /// The first attempt.
        first_status: &'a ExecuteStatus,

        /// The last attempt.
        last_status: &'a ExecuteStatus,

        /// The attempts after the first.
        retries: &'a [ExecuteStatus],
    },
}

impl ExecutionStatuses {
    #[verifier::type_invariant]
    spec fn well_formed(self) -> bool {
        &&& self.statuses@.len() > 0
        &&& total_time(self.statuses@) <= duration::longest()
    }

    /// The attempts, in order.
    pub closed spec fn attempts(&self) -> Seq<ExecuteStatus> {
        self.statuses@
    }

    /// What the profile makes of the test passing only on a later attempt.
    pub closed spec fn flaky(&self) -> FlakyResult {
        self.flaky_result
    }

    /// Collects the attempts at a test.
    ///
    /// Returns `None` if there are none, or if together they took longer than a
    /// [`Duration`] can hold.
    pub fn new(statuses: Vec<ExecuteStatus>, flaky_result: FlakyResult) -> (collected: Option<Self>)
        ensures
            match collected {
                Some(collected) => {
                    &&& collected.attempts() == statuses@
                    &&& collected.flaky() == flaky_result
                    &&& statuses@.len() > 0
                    &&& total_time(statuses@) <= duration::longest()
                },
                None => statuses@.len() == 0 || total_time(statuses@) > duration::longest(),
            },
    {
        if statuses.len() == 0 {
            return None;
        }
        match add_times(&statuses) {
            Some(_) => Some(ExecutionStatuses { statuses, flaky_result }),
            None => None,
        }
    }

    /// Returns the number of attempts.
    pub fn len(&self) -> (length: usize)
        ensures
            length == self.attempts().len(),
            length > 0,
    {
        proof {
            use_type_invariant(self);
        }
        self.statuses.len()
    }

    /// Returns how long the attempts took together.
    pub fn time_taken(&self) -> (total: Duration)
        ensures
            total.total() == total_time(self.attempts()),
    {
        proof {
            use_type_invariant(self);
        }
        match add_times(&self.statuses) {
            Some(total) => total,
            None => Duration::zero(),
        }
    }

    /// Returns the last attempt.
    pub fn last_status(&self) -> (last: &ExecuteStatus)
        ensures
            self.attempts().len() > 0,
            *last == self.attempts().last(),
    {
        proof {
            use_type_invariant(self);
        }
        &self.statuses[self.statuses.len() - 1]
    }

    /// Says what the attempts amount to.
    pub fn describe(&self) -> (description: ExecutionDescription<'_>)
        ensures
            self.attempts().len() > 0,
            match description {
                ExecutionDescription::Success { single_status } => {
                    &&& self.attempts() == seq![*single_status]
                    &&& single_status.result.success()
                },
                ExecutionDescription::Flaky { last_status, prior_statuses, result } => {
                    &&& self.attempts() == prior_statuses@.push(*last_status)
                    &&& prior_statuses@.len() > 0
                    &&& last_status.result.success()
                    &&& result == self.flaky()
                },
                ExecutionDescription::Failure { first_status, last_status, retries } => {
                    &&& self.attempts() == seq![*first_status] + retries@
                    &&& *last_status == self.attempts().last()
                    &&& !last_status.result.success()
                },
            },
    {
        proof {
            use_type_invariant(self);
        }
        let count: usize = self.statuses.len();
        let all: &[ExecuteStatus] = self.statuses.as_slice();
        let last_status: &ExecuteStatus = &self.statuses[count - 1];
        if last_status.result.is_success() {
            if count == 1 {
                assert(self.attempts() =~= seq![*last_status]);
                ExecutionDescription::Success { single_status: last_status }
            } else {
                let prior_statuses = vstd::slice::slice_subrange(all, 0, count - 1);
                assert(self.attempts() =~= prior_statuses@.push(*last_status));
                ExecutionDescription::Flaky {
                    last_status,
                    prior_statuses,
                    result: self.flaky_result,
                }
            }
        } else {
            let retries = vstd::slice::slice_subrange(all, 1, count);
            let first_status: &ExecuteStatus = &self.statuses[0];
            assert(self.attempts() =~= seq![*first_status] + retries@);
            ExecutionDescription::Failure { first_status, last_status, retries }
        }
    }
}

/// A test in a binary.
#[derive(Debug, Eq, PartialEq)]
pub struct TestInstanceId {
    /// The binary's ID.
    pub binary_id: String,

    /// The test's name within it.
    pub test_name: String,
}

/// Why a filter set a test aside.
#[derive(Clone, Copy, Debug, Eq, PartialEq, Structural)]
pub enum MismatchReason {
    /// Only benchmarks were asked for, and this is not one.
    NotBenchmark,

    /// The test is ignored or not, contrary to what was asked for.
    Ignored,

    /// No string filter matches.
    String,

    /// No expression filter matches.
    Expression,

    /// The test belongs to another partition.
    Partition,

    /// The test passed in the run that is being repeated.
    RerunAlreadyPassed,

    /// The profile's default filter leaves the test out.
    DefaultFilter,
}

/// Something that happened to a test.
#[derive(Debug, Eq, PartialEq)]
pub enum TestEventKind {
    /// A test ran to completion.
    TestFinished {
        /// The test.
        test_instance: TestInstanceId,

        /// The attempts at it.
        run_statuses: ExecutionStatuses,
    },

    /// A test was set aside.
    TestSkipped {
        /// The test.
        test_instance: TestInstanceId,

        /// Why.
        reason: MismatchReason,
    },

    /// Anything else, such as the run starting or a test being slow.
    Progress,
}

/// Something a run reports.
#[derive(Debug, Eq, PartialEq)]
pub enum ReporterEvent {
    /// Time passed.
    Tick,

    /// Something happened to a test.
    Test {
        /// What.
        kind: TestEventKind,
    },
}

/// Nextest counts a success in three cases and no others: the test passed, it
/// leaked handles and the profile lets that pass, or it timed out and the profile
/// lets that pass.
pub proof fn law_three_results_are_successes(result: ExecutionResultDescription)
    ensures
        result.success() <==> {
            ||| result == ExecutionResultDescription::Pass
            ||| result == (ExecutionResultDescription::Leak { result: LeakTimeoutResult::Pass })
            ||| result == (ExecutionResultDescription::Timeout { result: SlowTimeoutResult::Pass })
        },
{
}

/// A process that failed is no success, however it failed and whether or not it
/// leaked handles as well.
pub proof fn law_failed_processes_are_no_success(failure: FailureDescription, leaked: bool)
    ensures
        !(ExecutionResultDescription::Fail { failure, leaked }).success(),
        !ExecutionResultDescription::ExecFail.success(),
{
}

/// The time that two runs of attempts took is the sum of what each took, and the
/// time that one attempt took is its own.
pub proof fn law_times_add_up(
    first: Seq<ExecuteStatus>,
    second: Seq<ExecuteStatus>,
    single: ExecuteStatus,
)
    ensures
        total_time(first + second) == total_time(first) + total_time(second),
        total_time(seq![single]) == single.time_taken.total(),
        total_time(Seq::empty()) == 0,
    decreases second.len(),
{
    assert(total_time(Seq::empty()) == 0);
    let one = seq![single];
    assert(one.drop_last() == Seq::<ExecuteStatus>::empty());
    assert(one.last() == single);
    if second.len() == 0 {
        assert(first + second == first);
    } else {
        law_times_add_up(first, second.drop_last(), single);
        assert((first + second).drop_last() == first + second.drop_last());
        assert((first + second).last() == second.last());
    }
}

} // verus!
