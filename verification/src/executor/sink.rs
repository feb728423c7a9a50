//! Streaming test results back to Buck2 as they happen.
//!
//! Nextest hands results to a callback that must not block -- while it is
//! running, no test start, completion, signal, or timeout is processed. So the
//! callback does the cheapest thing that preserves the information: it converts
//! the event into an owned message and pushes it onto a bounded channel, which
//! something else drains.
//!
//! The channel is bounded, so a Buck2 that stops reading applies backpressure
//! rather than letting results pile up without limit. That backpressure is
//! itself bounded: see [`send_step`] for why the callback gives up on a Buck2
//! that never catches up rather than waiting on it forever.

use crate::duration::{Duration, NANOS_PER_SEC};
use crate::events::{
    ExecutionResultDescription, ExecutionStatuses, FailureDescription, LeakTimeoutResult,
    MismatchReason, ReporterEvent, SlowTimeoutResult, TestEventKind, TestInstanceId,
};
use crate::executor::spec::ConfiguredTargetHandle;
use crate::string_map::StringMap;
use crate::text::{decimal, optional_text, push_decimal};
use vstd::prelude::*;
use vstd::string::*;

verus! {

/// How many results may be in flight before the callback starts waiting.
///
/// Large enough that a normal run never blocks on it, small enough that a
/// wedged Buck2 is noticed rather than absorbed.
pub const CHANNEL_DEPTH: usize = 128;

/// How long the callback waits for Buck2 to catch up before giving up on it, in
/// seconds.
///
/// Generous, since exceeding it abandons a run that might still be healthy, and
/// only a Buck2 that has stopped reading results altogether gets this far.
pub const SEND_TIMEOUT_SECS: u64 = 60;

/// How often to look for room while the channel is full, in milliseconds.
pub const SEND_RETRY_INTERVAL_MILLIS: u64 = 10;

/// A test's outcome, in the protocol's vocabulary.
#[derive(Clone, Copy, Debug, Eq, PartialEq, Structural)]
pub enum TestStatus {
    /// The test passed.
    Pass,

    /// The test failed.
    Fail,

    /// The test was not run.
    Skip,

    /// The test could not be executed at all.
    Fatal,

    /// The test was terminated for running too long.
    Timeout,
}

/// The status for how an attempt went.
pub open spec fn protocol_status(result: ExecutionResultDescription) -> TestStatus {
    if result.success() {
        TestStatus::Pass
    } else {
        match result {
            ExecutionResultDescription::Timeout { .. } => TestStatus::Timeout,
            ExecutionResultDescription::ExecFail => TestStatus::Fatal,
            _ => TestStatus::Fail,
        }
    }
}

/// Maps nextest's outcome onto the protocol's.
///
/// Buck2's vocabulary is coarser than nextest's: it has no way to say "leaked a
/// handle" or "passed on the second attempt". Anything nextest counts as a
/// success is reported as a pass, so Buck2's summary agrees with nextest's.
pub fn status_for(result: &ExecutionResultDescription) -> (status: TestStatus)
    ensures
        status == protocol_status(*result),
{
    if result.is_success() {
        return TestStatus::Pass;
    }
    match result {
        ExecutionResultDescription::Timeout { .. } => TestStatus::Timeout,
        // A test that could not be executed at all is an infrastructure
        // problem rather than a test that failed on its own terms.
        ExecutionResultDescription::ExecFail => TestStatus::Fatal,
        _ => TestStatus::Fail,
    }
}

/// Buck2 is told of a pass exactly when nextest counts a success.
pub proof fn law_statuses_agree_with_nextest(result: ExecutionResultDescription)
    ensures
        protocol_status(result) == TestStatus::Pass <==> result.success(),
        protocol_status(result) != TestStatus::Skip,
{
}

/// A span of time, in the protocol's vocabulary.
#[derive(Clone, Copy, Debug, Eq, PartialEq, Structural)]
pub struct ProtoDuration {
    /// Whole seconds.
    pub seconds: i64,

    /// What is left besides, in nanoseconds.
    pub nanos: i32,
}

/// A span of time as the protocol has it.
pub open spec fn proto_duration(total: nat) -> ProtoDuration {
    let secs = total / (NANOS_PER_SEC as nat);
    ProtoDuration {
        seconds: if secs <= i64::MAX {
            secs as i64
        } else {
            i64::MAX
        },
        nanos: (total % (NANOS_PER_SEC as nat)) as i32,
    }
}

/// Converts a span of time.
///
/// A wall-clock test duration cannot realistically overflow an i64 of seconds;
/// saturate rather than panic if one somehow does.
pub fn duration_to_proto(duration: Duration) -> (converted: ProtoDuration)
    ensures
        converted == proto_duration(duration.total()),
{
    let secs: u64 = duration.as_secs();
    let seconds: i64 = if secs <= 0x7fff_ffff_ffff_ffff {
        secs as i64
    } else {
        i64::MAX
    };
    ProtoDuration { seconds, nanos: duration.subsec_nanos() as i32 }
}

/// A span of time whose whole seconds fit survives the conversion.
pub proof fn law_durations_survive_conversion(total: nat)
    requires
        total / (NANOS_PER_SEC as nat) <= i64::MAX,
    ensures
        proto_duration(total).seconds * NANOS_PER_SEC + proto_duration(total).nanos == total,
        0 <= proto_duration(total).nanos < NANOS_PER_SEC,
{
}

/// One finished test, owned so it can outlive the event it came from.
#[derive(Debug, Eq, PartialEq)]
pub struct Finished {
    /// The target to report against.
    pub handle: ConfiguredTargetHandle,

    /// The test's name.
    pub name: String,

    /// How it went.
    pub status: TestStatus,

    /// How long the last attempt took.
    pub duration: Option<Duration>,

    /// The error in full, if there is one.
    pub details: String,

    /// A one-line summary, if there is anything to say.
    pub message: Option<String>,
}

/// The binary an event that Buck2 cares about is from.
pub open spec fn reported_binary(event: ReporterEvent) -> Option<Seq<char>> {
    match event {
        ReporterEvent::Test { kind } => match kind {
            TestEventKind::TestFinished { test_instance, .. } => Some(test_instance.binary_id@),
            TestEventKind::TestSkipped { test_instance, .. } => Some(test_instance.binary_id@),
            TestEventKind::Progress => None,
        },
        ReporterEvent::Tick => None,
    }
}

/// The summary of a test that took the given number of attempts.
pub open spec fn attempts_text(attempts: nat) -> Option<Seq<char>> {
    if attempts > 1 {
        Some(decimal(attempts) + " attempts were made"@)
    } else {
        None
    }
}

/// `finished` is what Buck2 is told of an event.
pub open spec fn tells(
    finished: Finished,
    event: ReporterEvent,
    handles: Map<Seq<char>, ConfiguredTargetHandle>,
) -> bool {
    match event {
        ReporterEvent::Test { kind } => match kind {
            TestEventKind::TestFinished { test_instance, run_statuses } => {
                let last = run_statuses.attempts().last();
                &&& finished.handle == handles[test_instance.binary_id@]
                &&& finished.name@ == test_instance.test_name@
                &&& finished.status == protocol_status(last.result)
                &&& finished.duration == Some(last.time_taken)
                &&& finished.details@ == match last.error_summary {
                    Some(summary) => summary.description@,
                    None => ""@,
                }
                &&& optional_text(finished.message) == attempts_text(
                    run_statuses.attempts().len(),
                )
            },
            TestEventKind::TestSkipped { test_instance, .. } => {
                &&& finished.handle == handles[test_instance.binary_id@]
                &&& finished.name@ == test_instance.test_name@
                &&& finished.status == TestStatus::Skip
                &&& finished.duration is None
                &&& finished.details@ == ""@
                &&& finished.message is None
            },
            TestEventKind::Progress => false,
        },
        ReporterEvent::Tick => false,
    }
}

/// Returns the handle of a binary.
///
/// Every binary in the list came from a spec, so a miss would mean the two got
/// out of step.
fn handle_for(handles: &StringMap<ConfiguredTargetHandle>, binary_id: &str) -> (handle:
    ConfiguredTargetHandle)
    requires
        handles@.contains_key(binary_id@),
    ensures
        handle == handles@[binary_id@],
{
    match handles.get(binary_id) {
        Some(handle) => *handle,
        None => ConfiguredTargetHandle { id: 0 },
    }
}

/// Says what Buck2 is told of an event, if it is one Buck2 cares about.
pub fn finished_for(
    event: &ReporterEvent,
    handles: &StringMap<ConfiguredTargetHandle>,
) -> (finished: Option<Finished>)
    requires
        reported_binary(*event) matches Some(binary_id) ==> handles@.contains_key(binary_id),
    ensures
        match finished {
            Some(finished) => tells(finished, *event, handles@),
            None => reported_binary(*event) is None,
        },
{
    match event {
        ReporterEvent::Tick => None,
        ReporterEvent::Test { kind } => match kind {
            TestEventKind::TestFinished { test_instance, run_statuses } => {
                let last = run_statuses.last_status();
                let attempts: usize = run_statuses.len();
                // Buck2 only sees the final status, so a test that needed more
                // than one attempt says so.
                let message: Option<String> = if attempts > 1 {
                    let mut message: String = "".to_owned();
                    proof {
                        reveal_strlit("");
                    }
                    push_decimal(&mut message, attempts as u64);
                    message.append(" attempts were made");
                    assert(message@ =~= decimal(attempts as nat) + " attempts were made"@);
                    Some(message)
                } else {
                    None
                };
                Some(
                    Finished {
                        handle: handle_for(handles, test_instance.binary_id.as_str()),
                        name: test_instance.test_name.clone(),
                        status: status_for(&last.result),
                        duration: Some(last.time_taken),
                        details: match &last.error_summary {
                            Some(summary) => summary.description.clone(),
                            None => "".to_owned(),
                        },
                        message,
                    },
                )
            },
            TestEventKind::TestSkipped { test_instance, .. } => Some(
                Finished {
                    handle: handle_for(handles, test_instance.binary_id.as_str()),
                    name: test_instance.test_name.clone(),
                    status: TestStatus::Skip,
                    duration: None,
                    details: "".to_owned(),
                    message: None,
                },
            ),
            TestEventKind::Progress => None,
        },
    }
}

/// Returns whether there is a handle for the binary an event is from, if it is
/// one Buck2 cares about.
pub fn has_handle(event: &ReporterEvent, handles: &StringMap<ConfiguredTargetHandle>) -> (known:
    bool)
    ensures
        known == (reported_binary(*event) matches Some(binary_id) ==> handles@.contains_key(
            binary_id,
        )),
{
    match event {
        ReporterEvent::Tick => true,
        ReporterEvent::Test { kind } => match kind {
            TestEventKind::TestFinished { test_instance, .. } => handles.get(
                test_instance.binary_id.as_str(),
            ).is_some(),
            TestEventKind::TestSkipped { test_instance, .. } => handles.get(
                test_instance.binary_id.as_str(),
            ).is_some(),
            TestEventKind::Progress => true,
        },
    }
}

/// A result, as it is sent.
#[derive(Debug, Eq, PartialEq)]
pub struct ReportTestResultRequest {
    /// The test's name.
    pub name: String,

    /// How it went.
    pub status: TestStatus,

    /// A one-line summary, if there is anything to say.
    pub msg: Option<String>,

    /// The target to report against.
    pub target: Option<ConfiguredTargetHandle>,

    /// How long the test took.
    pub duration: Option<ProtoDuration>,

    /// The error in full, if there is one.
    pub details: String,

    /// How much memory the test used, if known.
    pub max_memory_used_bytes: Option<u64>,
}

/// Turns a finished test into the request that reports it.
pub fn report_request(finished: Finished) -> (request: ReportTestResultRequest)
    ensures
        request == (ReportTestResultRequest {
            name: finished.name,
            status: finished.status,
            msg: finished.message,
            target: Some(finished.handle),
            duration: match finished.duration {
                Some(duration) => Some(proto_duration(duration.total())),
                None => None,
            },
            details: finished.details,
            max_memory_used_bytes: None,
        }),
{
    ReportTestResultRequest {
        name: finished.name,
        status: finished.status,
        msg: finished.message,
        target: Some(finished.handle),
        duration: match finished.duration {
            Some(duration) => Some(duration_to_proto(duration)),
            None => None,
        },
        details: finished.details,
        max_memory_used_bytes: None,
    }
}

/// How an attempt to push a result onto the channel went.
#[derive(Clone, Copy, Debug, Eq, PartialEq, Structural)]
pub enum SendOutcome {
    /// There was room.
    Sent,

    /// There was no room.
    Full,

    /// Nothing drains the channel any more.
    Disconnected,
}

/// What to do after such an attempt.
#[derive(Clone, Copy, Debug, Eq, PartialEq, Structural)]
pub enum SendStep {
    /// Go on; the result is on its way.
    Delivered,

    /// Wait a little and try again.
    Retry,

    /// Report that no further results can be delivered, which cancels the run
    /// gracefully.
    GiveUp,
}

/// Says what to do after an attempt to push a result onto the channel.
///
/// `expired` says whether the time to wait has passed; it has not at the first
/// attempt.
///
/// Waiting stops the run from making progress: no test starts or finishes, no
/// timeout fires, and `Ctrl-C` does not reach the cancellation path. Waiting a
/// little keeps a slow Buck2 from costing results. Waiting forever would leave
/// the run wedged with nothing able to end it, so a Buck2 that never catches up
/// is reported as gone instead.
pub fn send_step(outcome: SendOutcome, expired: bool) -> (step: SendStep)
    ensures
        step == SendStep::Delivered <==> outcome == SendOutcome::Sent,
        step == SendStep::Retry <==> outcome == SendOutcome::Full && !expired,
        step == SendStep::GiveUp <==> outcome == SendOutcome::Disconnected || outcome
            == SendOutcome::Full && expired,
{
    match outcome {
        SendOutcome::Sent => SendStep::Delivered,
        SendOutcome::Full => if expired {
            SendStep::GiveUp
        } else {
            SendStep::Retry
        },
        SendOutcome::Disconnected => SendStep::GiveUp,
    }
}

/// Each result is told to Buck2 as what it is: a pass in the three cases that
/// nextest lets pass, a timeout or a leak that it does not as a timeout or a
/// failure, a failed process as a failure, and one that could not be started as
/// fatal.
pub proof fn law_results_are_told_as_they_are(
    result: ExecutionResultDescription,
    failure: FailureDescription,
    leaked: bool,
)
    ensures
        protocol_status(result) == TestStatus::Pass <==> {
            ||| result == ExecutionResultDescription::Pass
            ||| result == (ExecutionResultDescription::Leak { result: LeakTimeoutResult::Pass })
            ||| result == (ExecutionResultDescription::Timeout { result: SlowTimeoutResult::Pass })
        },
        protocol_status(ExecutionResultDescription::Fail { failure, leaked }) == TestStatus::Fail,
        protocol_status(result) == TestStatus::Fatal <==> result
            == ExecutionResultDescription::ExecFail,
        protocol_status(result) == TestStatus::Timeout <==> result == (
        ExecutionResultDescription::Timeout { result: SlowTimeoutResult::Fail }),
        protocol_status(result) == TestStatus::Fail <==> result is Fail || result == (
        ExecutionResultDescription::Leak { result: LeakTimeoutResult::Fail }),
{
}

/// Buck2 hears of exactly the tests that finished or were skipped, each against
/// its own binary.
pub proof fn law_every_test_is_told_of(event: ReporterEvent)
    ensures
        forall|finished: Finished, handles: Map<Seq<char>, ConfiguredTargetHandle>| #[trigger]
            tells(finished, event, handles) ==> reported_binary(event) is Some,
        match event {
            ReporterEvent::Test {
                kind: TestEventKind::TestFinished { test_instance, .. },
            } => reported_binary(event) == Some(test_instance.binary_id@),
            ReporterEvent::Test {
                kind: TestEventKind::TestSkipped { test_instance, .. },
            } => reported_binary(event) == Some(test_instance.binary_id@),
            _ => reported_binary(event) is None,
        },
{
}

/// A test that finished is told of under its own name, against the target its
/// binary came from, with how its last attempt went and how long that took.
pub proof fn law_finished_tests_are_told_by_name(
    finished: Finished,
    test_instance: TestInstanceId,
    run_statuses: ExecutionStatuses,
    handles: Map<Seq<char>, ConfiguredTargetHandle>,
)
    requires
        tells(
            finished,
            ReporterEvent::Test {
                kind: TestEventKind::TestFinished { test_instance, run_statuses },
            },
            handles,
        ),
    ensures
        finished.name@ == test_instance.test_name@,
        finished.handle == handles[test_instance.binary_id@],
        finished.status == protocol_status(run_statuses.attempts().last().result),
        finished.status != TestStatus::Skip,
        finished.duration == Some(run_statuses.attempts().last().time_taken),
        match run_statuses.attempts().last().error_summary {
            Some(summary) => finished.details@ == summary.description@,
            None => finished.details@.len() == 0,
        },
{
    reveal_strlit("");
}

/// A test that was skipped is told of under its own name, against the target its
/// binary came from, as skipped and as nothing else.
pub proof fn law_skipped_tests_are_told_by_name(
    finished: Finished,
    test_instance: TestInstanceId,
    reason: MismatchReason,
    handles: Map<Seq<char>, ConfiguredTargetHandle>,
)
    requires
        tells(
            finished,
            ReporterEvent::Test { kind: TestEventKind::TestSkipped { test_instance, reason } },
            handles,
        ),
    ensures
        finished.name@ == test_instance.test_name@,
        finished.handle == handles[test_instance.binary_id@],
        finished.status == TestStatus::Skip,
        finished.duration is None,
        finished.details@.len() == 0,
        finished.message is None,
{
    reveal_strlit("");
}

/// Different tests of one binary are told of under different names, whether they
/// ran or were skipped, and against the same target.
pub proof fn law_tests_of_a_binary_are_told_apart(
    first: Finished,
    first_event: ReporterEvent,
    second: Finished,
    second_event: ReporterEvent,
    handles: Map<Seq<char>, ConfiguredTargetHandle>,
)
    requires
        tells(first, first_event, handles),
        tells(second, second_event, handles),
    ensures
        ({
            let about = |event: ReporterEvent| match event {
                ReporterEvent::Test {
                    kind: TestEventKind::TestFinished { test_instance, .. },
                } => Some(test_instance),
                ReporterEvent::Test {
                    kind: TestEventKind::TestSkipped { test_instance, .. },
                } => Some(test_instance),
                _ => None,
            };
            &&& about(first_event) is Some
            &&& about(second_event) is Some
            &&& first.name@ == second.name@ <==> about(first_event)->0.test_name@ == about(
                second_event,
            )->0.test_name@
            &&& about(first_event)->0.binary_id@ == about(second_event)->0.binary_id@
                ==> first.handle == second.handle
        }),
{
}

/// A test says how many attempts it took exactly when it took more than one.
pub proof fn law_retries_are_told(
    finished: Finished,
    test_instance: TestInstanceId,
    run_statuses: ExecutionStatuses,
    handles: Map<Seq<char>, ConfiguredTargetHandle>,
)
    requires
        tells(
            finished,
            ReporterEvent::Test {
                kind: TestEventKind::TestFinished { test_instance, run_statuses },
            },
            handles,
        ),
    ensures
        finished.message is Some <==> run_statuses.attempts().len() > 1,
        finished.message matches Some(message) ==> message@ == decimal(
            run_statuses.attempts().len(),
        ) + " attempts were made"@,
{
}

/// A span of time too long for the protocol is told with as many seconds as it can
/// hold, rather than with few, and with its own nanoseconds besides.
pub proof fn law_long_durations_saturate(total: nat)
    requires
        total > 9_223_372_036_854_775_807 * 1_000_000_000 + 999_999_999,
    ensures
        proto_duration(total).seconds == i64::MAX,
        0 <= proto_duration(total).nanos < 1_000_000_000,
        (total - proto_duration(total).nanos) % 1_000_000_000 == 0,
{
}

} // verus!
