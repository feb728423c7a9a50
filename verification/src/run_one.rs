//! Running exactly one test from one Buck2 test target.
//!
//! This is the `command` Buck2 runs once per discovered test, with the test's
//! `filter` from the listing appended as the final argument. Buck2 schedules
//! and caches; everything within the test is nextest's, because this drives the
//! real pipeline: the profile's retries, slow-test handling, leak detection,
//! and the environment a test sees all apply exactly as they would under
//! `cargo nextest run`.

use crate::errors::ExpectedError;
use crate::events::{
    total_time, ExecutionResultDescription, ExecutionStatuses, FlakyResult, LeakTimeoutResult,
    MismatchReason, ReporterEvent, SlowTimeoutResult, TestEventKind, TestInstanceId,
};
use crate::exit_code;
use crate::list::listing;
use crate::output::{
    details_text, display_text, failed_text, finished_details, finished_message, finished_status,
    mismatch_text, result_from_finished, result_from_skipped, BuckTestStatus, TestResult,
};
use crate::package_info::Version;
use crate::pipeline::{options_for, ConfigSource, Context, OutputError, Stages, TestInstance};
use crate::session::context::{simple_for, ReportUuid, SessionContext};
use crate::session::errors::{into_report_errors, ErrorChain, ExecuteError, SinkError};
use crate::session::input::{
    EarlyProfile, FilterBound, RunIgnored, TestFilterPatterns, TestFilterSpec,
};
use crate::session::test_session::{
    ArtifactRequest, InputHandlerKind, SignalHandlerKind, TestListRequest, TestSession,
};
use crate::stats::{CancelReason, NextestRunMode, RunStats};
use crate::text::{optional_text, same_text};
use nextest_filtering::Filterset;
use std::convert::Infallible;
use vstd::prelude::*;

verus! {

/// How to run a test, once it is selected.
#[derive(Debug, Eq, PartialEq)]
pub struct RunPlan {
    /// The full command line, recorded with the run.
    pub cli_args: Vec<String>,

    /// How signals are handled.
    pub signal_handler: SignalHandlerKind,

    /// How terminal input is handled.
    pub input_handler: InputHandlerKind,

    /// Whether tests write straight to the terminal.
    pub no_capture: bool,
}

/// What to run, and how.
#[derive(Debug)]
pub struct RunOneSpec {
    /// The filter tests are matched against.
    pub filter: TestFilterSpec,

    /// What filtersets are bounded by.
    pub filter_bound: FilterBound,

    /// How to run what it selects.
    pub plan: RunPlan,
}

/// What a run of one test produced.
#[derive(Debug)]
pub struct RunTranscript {
    /// The tests the binary was found to have.
    pub listed: Vec<TestInstance>,

    /// Every event, in the order they arrived.
    pub events: Vec<ReporterEvent>,

    /// What the run counted.
    pub run_stats: RunStats,
}

/// `filter` selects the one test with the given name, unless it is ignored.
pub open spec fn selects_exactly(filter: TestFilterSpec, test_name: Seq<char>) -> bool {
    &&& filter.mode == NextestRunMode::Test
    &&& filter.run_ignored == RunIgnored::Default
    &&& filter.patterns.substrings@ == Seq::<String>::empty()
    &&& filter.patterns.exact@.len() == 1
    &&& filter.patterns.exact@[0]@ == test_name
    &&& filter.exprs@ == Seq::<Filterset>::empty()
}

/// How one test is run: signals are handled, terminal input is left to Buck2, and
/// the test's output is captured.
pub open spec fn plan_for(cli_args: Vec<String>) -> RunPlan {
    RunPlan {
        cli_args,
        signal_handler: SignalHandlerKind::Standard,
        input_handler: InputHandlerKind::Noop,
        no_capture: false,
    }
}

/// `spec` runs the one test with the given name.
pub open spec fn runs_exactly(spec: RunOneSpec, test_name: Seq<char>, cli_args: Vec<String>) -> bool {
    &&& selects_exactly(spec.filter, test_name)
    &&& spec.filter_bound == FilterBound::All
    &&& spec.plan == plan_for(cli_args)
}

/// Says what to run for the one test with the given name.
///
/// The profile's default-filter shapes the listing, but is not applied again
/// here: Buck2 chose this test from what it was told, and is waiting for a
/// result about it.
pub fn run_one_spec(test_name: &str, cli_args: Vec<String>) -> (spec: RunOneSpec)
    ensures
        runs_exactly(spec, test_name@, cli_args),
{
    let mut patterns = TestFilterPatterns::new(Vec::new());
    patterns.add_exact_pattern(test_name.to_owned());
    RunOneSpec {
        filter: TestFilterSpec {
            mode: NextestRunMode::Test,
            run_ignored: RunIgnored::Default,
            patterns,
            exprs: Vec::new(),
        },
        filter_bound: FilterBound::All,
        plan: RunPlan {
            cli_args,
            signal_handler: SignalHandlerKind::Standard,
            input_handler: InputHandlerKind::Noop,
            no_capture: false,
        },
    }
}

/// `event` says how the test with the given name went.
pub open spec fn about(event: ReporterEvent, test_name: Seq<char>) -> bool {
    match event {
        ReporterEvent::Test { kind } => match kind {
            TestEventKind::TestFinished { test_instance, .. } => test_instance.test_name@
                == test_name,
            TestEventKind::TestSkipped { test_instance, .. } => test_instance.test_name@
                == test_name,
            TestEventKind::Progress => false,
        },
        ReporterEvent::Tick => false,
    }
}

/// `result` is the result that `event` amounts to.
pub open spec fn reports(label: Seq<char>, event: ReporterEvent, result: TestResult) -> bool {
    match event {
        ReporterEvent::Test { kind } => match kind {
            TestEventKind::TestFinished { test_instance, run_statuses } => {
                let attempts = run_statuses.attempts();
                let flaky = run_statuses.flaky();
                &&& result.name@ == display_text(label, test_instance.test_name@)
                &&& result.status == finished_status(attempts, flaky)
                &&& optional_text(result.message) == finished_message(attempts, flaky)
                &&& result.duration matches Some(duration)
                &&& duration.total() == total_time(attempts)
                &&& optional_text(result.details) == finished_details(attempts)
            },
            TestEventKind::TestSkipped { test_instance, reason } => {
                &&& result.name@ == display_text(label, test_instance.test_name@)
                &&& result.status == BuckTestStatus::Skip
                &&& optional_text(result.message) == Some(mismatch_text(reason))
                &&& result.duration is None
                &&& result.details is None
            },
            TestEventKind::Progress => false,
        },
        ReporterEvent::Tick => false,
    }
}

/// Records the result for the one test this invocation is about.
///
/// The name is matched rather than taking whatever arrives, because the other
/// tests in the binary are reported too: everything the exact pattern did not
/// select is skipped, and each skip is an event. Taking the last one to arrive
/// would answer Buck2's question about one test with another test's result.
pub fn capture(label: &str, test_name: &str, event: &ReporterEvent, result: &mut Option<TestResult>)
    ensures
        if about(*event, test_name@) {
            *final(result) matches Some(recorded) && reports(label@, *event, recorded)
        } else {
            *final(result) == *old(result)
        },
{
    if let ReporterEvent::Test { kind } = event {
        match kind {
            TestEventKind::TestFinished { test_instance, run_statuses } => {
                if same_text(test_instance.test_name.as_str(), test_name) {
                    *result = Some(result_from_finished(label, test_instance, run_statuses));
                }
            },
            TestEventKind::TestSkipped { test_instance, reason } => {
                if same_text(test_instance.test_name.as_str(), test_name) {
                    *result = Some(result_from_skipped(label, test_instance, *reason));
                }
            },
            TestEventKind::Progress => {},
        }
    }
}

/// The last event that says how the test with the given name went.
pub open spec fn last_about(events: Seq<ReporterEvent>, test_name: Seq<char>) -> Option<
    ReporterEvent,
>
    decreases events.len(),
{
    if events.len() == 0 {
        None
    } else if about(events.last(), test_name) {
        Some(events.last())
    } else {
        last_about(events.drop_last(), test_name)
    }
}

/// Returns the result for the one test this invocation is about, if some event
/// says how it went.
pub fn captured(label: &str, test_name: &str, events: &Vec<ReporterEvent>) -> (result: Option<
    TestResult,
>)
    ensures
        match last_about(events@, test_name@) {
            Some(event) => result matches Some(result) && reports(label@, event, result),
            None => result is None,
        },
{
    let mut result: Option<TestResult> = None;
    let mut index: usize = 0;
    while index < events.len()
        invariant
            index <= events.len(),
            match last_about(events@.subrange(0, index as int), test_name@) {
                Some(event) => result matches Some(result) && reports(label@, event, result),
                None => result is None,
            },
        decreases events.len() - index,
    {
        proof {
            let next = events@.subrange(0, index + 1);
            assert(next.drop_last() == events@.subrange(0, index as int));
            assert(next.last() == events@[index as int]);
        }
        capture(label, test_name, &events[index], &mut result);
        index += 1;
    }
    assert(events@.subrange(0, index as int) == events@);
    result
}

/// A test with the given name is among those listed.
pub open spec fn is_listed(listed: Seq<TestInstance>, test_name: Seq<char>) -> bool {
    exists|index: int| 0 <= index < listed.len() && #[trigger] listed[index].name@ == test_name
}

/// Returns whether a test with the given name is among those listed.
fn has_test(listed: &Vec<TestInstance>, test_name: &str) -> (found: bool)
    ensures
        found == is_listed(listed@, test_name@),
{
    let mut index: usize = 0;
    while index < listed.len()
        invariant
            index <= listed.len(),
            forall|earlier: int| 0 <= earlier < index ==> #[trigger] listed@[earlier].name@ != test_name@,
        decreases listed.len() - index,
    {
        if same_text(listed[index].name.as_str(), test_name) {
            return true;
        }
        index += 1;
    }
    false
}

/// The exit code for a test with the given status.
pub open spec fn status_code(status: BuckTestStatus) -> i32 {
    match status {
        BuckTestStatus::Pass | BuckTestStatus::Skip => 0,
        BuckTestStatus::Fail | BuckTestStatus::Timeout => 100,
    }
}

/// Returns the process exit code for a test with the given status.
///
/// Being skipped is not a failure, so the exit code must not say it is one --
/// Buck2 synthesizes a status from the exit code whenever it cannot read the
/// result.
pub fn status_exit_code(status: BuckTestStatus) -> (code: i32)
    ensures
        code == status_code(status),
{
    match status {
        BuckTestStatus::Pass | BuckTestStatus::Skip => 0,
        BuckTestStatus::Fail | BuckTestStatus::Timeout => exit_code::test_run_failed(),
    }
}

/// `error` is what a test without a result is reported as.
///
/// A run that was cancelled before a test it listed reported anything is told
/// apart from one that does not have the test.
pub open spec fn missing_outcome(
    label: Seq<char>,
    test_name: Seq<char>,
    listed: Seq<TestInstance>,
    cancel_reason: Option<CancelReason>,
    error: ExpectedError,
) -> bool {
    match cancel_reason {
        Some(cause) if is_listed(listed, test_name) => {
            &&& error matches ExpectedError::RunCancelled {
                label: target,
                test_name: wanted,
                reason,
            }
            &&& target@ == label
            &&& wanted@ == test_name
            &&& reason == cause
        },
        _ => {
            &&& error matches ExpectedError::TestNotFound { label: target, test_name: wanted }
            &&& target@ == label
            &&& wanted@ == test_name
        },
    }
}

/// Returns what a test without a result is reported as.
pub fn missing_result(label: &str, test_name: &str, transcript: &RunTranscript) -> (error:
    ExpectedError)
    ensures
        missing_outcome(
            label@,
            test_name@,
            transcript.listed@,
            transcript.run_stats.cancel_reason,
            error,
        ),
{
    if let Some(reason) = transcript.run_stats.cancel_reason {
        if has_test(&transcript.listed, test_name) {
            return ExpectedError::RunCancelled {
                label: label.to_owned(),
                test_name: test_name.to_owned(),
                reason,
            };
        }
    }
    ExpectedError::TestNotFound { label: label.to_owned(), test_name: test_name.to_owned() }
}

/// `error` is what a run that could not be executed is reported as.
pub open spec fn failure_outcome(failure: ExecuteError<Infallible>, error: ExpectedError) -> bool {
    match failure {
        ExecuteError::ConfigureHandleInheritance(cause) => error
            == ExpectedError::ConfigureHandleInheritance { error: cause },
        ExecuteError::Execute(errors) => {
            &&& error matches ExpectedError::TestRunExecuteError { error: mapped }
            &&& match errors.report_error {
                Some(SinkError::Report(cause)) => mapped.report_error == Some(cause),
                Some(SinkError::Sink(_)) => mapped.report_error is Some,
                None => mapped.report_error is None,
            }
            &&& mapped.join_errors == errors.join_errors
        },
    }
}

/// Returns what a run that could not be executed is reported as.
pub fn failed_run(failure: ExecuteError<Infallible>) -> (error: ExpectedError)
    ensures
        failure_outcome(failure, error),
{
    match failure {
        ExecuteError::ConfigureHandleInheritance(error) => {
            ExpectedError::ConfigureHandleInheritance { error }
        },
        ExecuteError::Execute(errors) => {
            ExpectedError::TestRunExecuteError { error: into_report_errors(errors) }
        },
    }
}

/// `result` is the result of a completed run for the test with the given name,
/// which is one only if some event says how the test went.
pub open spec fn is_result(
    label: Seq<char>,
    test_name: Seq<char>,
    transcript: RunTranscript,
    result: TestResult,
) -> bool {
    last_about(transcript.events@, test_name) matches Some(event) && reports(label, event, result)
}

/// `code` is what a completed run of one test comes to.
pub open spec fn run_one_outcome<W: FnOnce(&TestResult) -> Result<(), OutputError>>(
    label: Seq<char>,
    test_name: Seq<char>,
    transcript: RunTranscript,
    write: W,
    code: Result<i32, ExpectedError>,
) -> bool {
    match last_about(transcript.events@, test_name) {
        None => {
            &&& code matches Err(error)
            &&& missing_outcome(
                label,
                test_name,
                transcript.listed@,
                transcript.run_stats.cancel_reason,
                error,
            )
        },
        Some(event) => exists|result: &TestResult, written: Result<(), OutputError>|
            {
                &&& #[trigger] write.ensures((result,), written)
                &&& reports(label, event, *result)
                &&& match written {
                    Ok(()) => code == Ok::<i32, ExpectedError>(status_code(result.status)),
                    Err(error) => code == Err::<i32, ExpectedError>(error.reported()),
                }
            },
    }
}

/// Finds the result in a completed run of one test, hands it to `write`, and
/// returns the process exit code.
pub fn finish_run_one<W: FnOnce(&TestResult) -> Result<(), OutputError>>(
    label: &str,
    test_name: &str,
    transcript: &RunTranscript,
    write: W,
) -> (code: Result<i32, ExpectedError>)
    requires
        forall|result: &TestResult|
            is_result(label@, test_name@, *transcript, *result) ==> #[trigger] write.requires(
                (result,),
            ),
    ensures
        run_one_outcome(label@, test_name@, *transcript, write, code),
{
    match captured(label, test_name, &transcript.events) {
        None => Err(missing_result(label, test_name, transcript)),
        Some(result) => match write(&result) {
            Ok(()) => Ok(status_exit_code(result.status)),
            Err(error) => Err(error.into_expected()),
        },
    }
}

/// Runs one test, handing its result on in the shape Buck2's
/// `parse_test_result` reads, and returns the process exit code.
///
/// `run_id` and `version` are what tests see of this run and this program, and
/// `is_terminal` says whether standard error is a terminal. `execute` runs the
/// tests of a session as planned, and `write` writes the result as JSON. Nothing
/// is written for a test without a result, which leaves Buck2 to synthesize a
/// failure from the exit code.
pub fn run_one<
    C,
    T,
    A,
    L,
    S: FnOnce(ConfigSource<'_>) -> Result<C, ErrorChain>,
    P: FnOnce(&C, &str) -> Result<EarlyProfile, ErrorChain>,
    D: FnOnce(&str) -> Result<(), std::io::Error>,
    B: FnOnce(TestFilterSpec) -> Result<T, ErrorChain>,
    F: FnOnce(ArtifactRequest<'_>) -> Result<A, ErrorChain>,
    N: FnOnce(TestListRequest<'_, T>, A) -> Result<L, ErrorChain>,
    X: FnOnce(&TestSession<'_, L>, RunPlan) -> Result<
        Result<RunTranscript, ExecuteError<Infallible>>,
        ExpectedError,
    >,
    W: FnOnce(&TestResult) -> Result<(), OutputError>,
>(
    cx: &Context,
    test_name: &str,
    cli_args: Vec<String>,
    run_id: ReportUuid,
    version: Version,
    is_terminal: bool,
    stages: Stages<S, P, D, B, F, N>,
    execute: X,
    write: W,
) -> (code: Result<i32, ExpectedError>)
    requires
        forall|spec: RunOneSpec| #[trigger]
            runs_exactly(spec, test_name@, cli_args) ==> cx.grants(
                simple_for(run_id, version),
                spec.filter,
                options_for(spec.filter_bound, 1, is_terminal),
                stages,
                spec.plan,
                execute,
            ),
        forall|spec: RunOneSpec, transcript: RunTranscript, result: &TestResult|
            {
                &&& cx.piped(
                    simple_for(run_id, version),
                    spec.filter,
                    options_for(spec.filter_bound, 1, is_terminal),
                    stages,
                    spec.plan,
                    execute,
                    Ok::<_, ExpectedError>(Ok::<RunTranscript, ExecuteError<Infallible>>(transcript)),
                )
                &&& #[trigger] runs_exactly(spec, test_name@, cli_args)
                &&& #[trigger] is_result(cx.label@, test_name@, transcript, *result)
            } ==> write.requires((result,)),
    ensures
        exists|
            spec: RunOneSpec,
            executed: Result<Result<RunTranscript, ExecuteError<Infallible>>, ExpectedError>,
        |
            {
                &&& #[trigger] runs_exactly(spec, test_name@, cli_args)
                &&& #[trigger] cx.piped(
                    simple_for(run_id, version),
                    spec.filter,
                    options_for(spec.filter_bound, 1, is_terminal),
                    stages,
                    spec.plan,
                    execute,
                    executed,
                )
                &&& match executed {
                    Ok(Ok(transcript)) => run_one_outcome(
                        cx.label@,
                        test_name@,
                        transcript,
                        write,
                        code,
                    ),
                    Ok(Err(failure)) => code matches Err(error) && failure_outcome(failure, error),
                    Err(error) => code == Err::<i32, ExpectedError>(error),
                }
            },
{
    let ctx = SessionContext::simple(run_id, version);
    let spec = run_one_spec(test_name, cli_args);
    let ghost asked = spec;
    let RunOneSpec { filter, filter_bound, plan } = spec;
    assert(runs_exactly(asked, test_name@, cli_args));
    match cx.with_session(&ctx, filter, filter_bound, is_terminal, stages, plan, execute) {
        Ok(Ok(transcript)) => finish_run_one(cx.label.as_str(), test_name, &transcript, write),
        Ok(Err(failure)) => Err(failed_run(failure)),
        Err(error) => Err(error),
    }
}

/// What is reported for a test is reported under the name the listing gave for
/// the filter that selects it, so Buck2 can match the two up.
pub proof fn law_results_match_the_listing(
    label: Seq<char>,
    tests: Seq<TestInstance>,
    entry: (Seq<char>, Seq<char>),
    events: Seq<ReporterEvent>,
    result: TestResult,
)
    requires
        listing(label, tests).contains(entry),
        last_about(events, entry.1) matches Some(event) && reports(label, event, result),
    ensures
        result.name@ == entry.0,
{
    crate::list::law_listing_is_complete(label, tests);
    lemma_last_about(events, entry.1);
}

/// The last event about a test is one of the events, and about the test.
proof fn lemma_last_about(events: Seq<ReporterEvent>, test_name: Seq<char>)
    ensures
        match last_about(events, test_name) {
            Some(event) => about(event, test_name) && events.contains(event),
            None => forall|index: int|
                0 <= index < events.len() ==> !about(#[trigger] events[index], test_name),
        },
    decreases events.len(),
{
    if events.len() > 0 {
        let rest = events.drop_last();
        lemma_last_about(rest, test_name);
        if about(events.last(), test_name) {
            assert(events[events.len() - 1] == events.last());
        } else {
            match last_about(rest, test_name) {
                Some(event) => {
                    let at = choose|at: int| 0 <= at < rest.len() && rest[at] == event;
                    assert(events[at] == event);
                },
                None => {
                    assert forall|index: int| 0 <= index < events.len() implies !about(
                        #[trigger] events[index],
                        test_name,
                    ) by {
                        if index < rest.len() {
                            assert(rest[index] == events[index]);
                        }
                    }
                },
            }
        }
    }
}

/// Events about other tests make no difference to the result: one test's
/// question is never answered with another's result.
pub proof fn law_other_tests_are_left_out(
    before: Seq<ReporterEvent>,
    others: Seq<ReporterEvent>,
    test_name: Seq<char>,
)
    requires
        forall|index: int|
            0 <= index < others.len() ==> !about(#[trigger] others[index], test_name),
    ensures
        last_about(before + others, test_name) == last_about(before, test_name),
    decreases others.len(),
{
    let all = before + others;
    if others.len() == 0 {
        assert(all =~= before);
    } else {
        let rest = others.drop_last();
        assert forall|index: int| 0 <= index < rest.len() implies !about(
            #[trigger] rest[index],
            test_name,
        ) by {
            assert(rest[index] == others[index]);
        }
        law_other_tests_are_left_out(before, rest, test_name);
        assert(all.drop_last() =~= before + rest);
        assert(all.last() == others[others.len() - 1]);
    }
}

/// A test that reported a result exits zero exactly when it passed or was
/// skipped, so a process that exits zero never hides a failure.
pub proof fn law_exit_code_follows_the_status(status: BuckTestStatus)
    ensures
        status_code(status) == 0 <==> status == BuckTestStatus::Pass || status
            == BuckTestStatus::Skip,
{
}

/// One test is run by its exact name and by nothing else, as long as it is not
/// ignored; the profile's default filter has no say, signals are handled, and the
/// terminal is left alone.
pub proof fn law_one_test_is_asked_for(
    spec: RunOneSpec,
    test_name: Seq<char>,
    cli_args: Vec<String>,
)
    requires
        runs_exactly(spec, test_name, cli_args),
    ensures
        spec.filter.patterns.exact@.len() == 1,
        spec.filter.patterns.exact@[0]@ == test_name,
        spec.filter.patterns.substrings@.len() == 0,
        spec.filter.exprs@.len() == 0,
        spec.filter.mode == NextestRunMode::Test,
        spec.filter.run_ignored == RunIgnored::Default,
        spec.filter_bound == FilterBound::All,
        spec.plan.cli_args == cli_args,
        spec.plan.signal_handler == SignalHandlerKind::Standard,
        spec.plan.input_handler == InputHandlerKind::Noop,
        !spec.plan.no_capture,
{
}

/// An event is about a test exactly when it says that a test of that name finished
/// or was skipped.
pub proof fn law_events_are_about_the_test_they_name(
    test_instance: TestInstanceId,
    run_statuses: ExecutionStatuses,
    reason: MismatchReason,
    test_name: Seq<char>,
)
    ensures
        about(
            ReporterEvent::Test {
                kind: TestEventKind::TestFinished { test_instance, run_statuses },
            },
            test_name,
        ) <==> test_instance.test_name@ == test_name,
        about(
            ReporterEvent::Test { kind: TestEventKind::TestSkipped { test_instance, reason } },
            test_name,
        ) <==> test_instance.test_name@ == test_name,
        !about(ReporterEvent::Test { kind: TestEventKind::Progress }, test_name),
        !about(ReporterEvent::Tick, test_name),
{
}

/// The event that counts is the last one about the test, wherever it stands.
pub proof fn law_the_last_event_counts(
    events: Seq<ReporterEvent>,
    test_name: Seq<char>,
    last: int,
)
    requires
        0 <= last < events.len(),
        about(events[last], test_name),
        forall|later: int|
            last < later < events.len() ==> !about(#[trigger] events[later], test_name),
    ensures
        last_about(events, test_name) == Some(events[last]),
    decreases events.len(),
{
    let rest = events.drop_last();
    if last < rest.len() {
        assert(!about(events[events.len() - 1], test_name));
        assert(rest[last] == events[last]);
        assert forall|later: int| last < later < rest.len() implies !about(
            #[trigger] rest[later],
            test_name,
        ) by {
            assert(rest[later] == events[later]);
        }
        law_the_last_event_counts(rest, test_name, last);
    }
}

/// No event counts where none is about the test.
pub proof fn law_silence_is_no_result(events: Seq<ReporterEvent>, test_name: Seq<char>)
    ensures
        last_about(events, test_name) is None <==> forall|index: int|
            0 <= index < events.len() ==> !about(#[trigger] events[index], test_name),
{
    lemma_last_about(events, test_name);
    if let Some(event) = last_about(events, test_name) {
        let at = choose|at: int| 0 <= at < events.len() && events[at] == event;
        assert(about(events[at], test_name));
    }
}

/// The result of a test that finished has its own name under the target's label,
/// the time of all its attempts together, and a pass, a failure or a timeout for
/// how the last of them went.
pub proof fn law_finished_tests_have_results(
    label: Seq<char>,
    test_instance: TestInstanceId,
    run_statuses: ExecutionStatuses,
    result: TestResult,
)
    requires
        run_statuses.attempts().len() > 0,
        reports(
            label,
            ReporterEvent::Test {
                kind: TestEventKind::TestFinished { test_instance, run_statuses },
            },
            result,
        ),
    ensures
        result.name@ == label + " - "@ + test_instance.test_name@,
        result.duration matches Some(duration) && duration.total() == total_time(
            run_statuses.attempts(),
        ),
        ({
            let last = run_statuses.attempts().last();
            let passed = last.result is Pass || last.result == (ExecutionResultDescription::Leak {
                result: LeakTimeoutResult::Pass,
            }) || last.result == (ExecutionResultDescription::Timeout {
                result: SlowTimeoutResult::Pass,
            });
            let single = run_statuses.attempts().len() == 1;
            &&& result.status == BuckTestStatus::Pass <==> passed && (single
                || run_statuses.flaky() == FlakyResult::Pass)
            &&& result.status == BuckTestStatus::Timeout <==> last.result == (
            ExecutionResultDescription::Timeout { result: SlowTimeoutResult::Fail })
            &&& result.status != BuckTestStatus::Skip
            &&& !passed ==> {
                &&& optional_text(result.message) == failed_text(last)
                &&& optional_text(result.details) == details_text(last)
            }
            &&& passed && single ==> result.details is None
            &&& passed && !single ==> {
                &&& result.message is Some
                &&& optional_text(result.details) == details_text(
                    run_statuses.attempts()[run_statuses.attempts().len() - 2],
                )
            }
        }),
{
}

/// The result of a test that was skipped has its own name under the target's label
/// and says why, and has nothing else to it.
pub proof fn law_skipped_tests_have_results(
    label: Seq<char>,
    test_instance: TestInstanceId,
    reason: MismatchReason,
    result: TestResult,
)
    requires
        reports(
            label,
            ReporterEvent::Test { kind: TestEventKind::TestSkipped { test_instance, reason } },
            result,
        ),
    ensures
        result.name@ == label + " - "@ + test_instance.test_name@,
        result.status == BuckTestStatus::Skip,
        result.message matches Some(message) && message@ == mismatch_text(reason),
        result.duration is None,
        result.details is None,
{
}

/// A test that failed or timed out exits with the code for a failed run.
pub proof fn law_failures_exit_as_failed_runs(status: BuckTestStatus)
    ensures
        status_code(status) == 100 <==> status == BuckTestStatus::Fail || status
            == BuckTestStatus::Timeout,
        status_code(status) == 0 || status_code(status) == 100,
{
}

/// A test without a result was cancelled exactly when the run was and the binary has
/// it, and otherwise was not found; either way the error names it.
pub proof fn law_missing_tests_are_named(
    label: Seq<char>,
    test_name: Seq<char>,
    listed: Seq<TestInstance>,
    cancel_reason: Option<CancelReason>,
    error: ExpectedError,
)
    requires
        missing_outcome(label, test_name, listed, cancel_reason, error),
    ensures
        match error {
            ExpectedError::RunCancelled { label: target, test_name: wanted, reason } => {
                &&& target@ == label
                &&& wanted@ == test_name
                &&& cancel_reason == Some(reason)
                &&& exists|index: int|
                    0 <= index < listed.len() && (#[trigger] listed[index]).name@ == test_name
            },
            ExpectedError::TestNotFound { label: target, test_name: wanted } => {
                &&& target@ == label
                &&& wanted@ == test_name
                &&& cancel_reason is None || forall|index: int|
                    0 <= index < listed.len() ==> (#[trigger] listed[index]).name@ != test_name
            },
            _ => false,
        },
{
    if is_listed(listed, test_name) {
        let index = choose|index: int|
            0 <= index < listed.len() && #[trigger] listed[index].name@ == test_name;
        assert(listed[index].name@ == test_name);
    } else {
        assert forall|index: int| 0 <= index < listed.len() implies (
        #[trigger] listed[index]).name@ != test_name by {
            let name = listed[index].name@;
            assert(name != test_name);
        }
    }
}

/// A run that could not be executed is reported for what stopped it, with every task
/// that went wrong, and with what reporting failed with where it did.
pub proof fn law_stopped_runs_are_reported(
    failure: ExecuteError<Infallible>,
    error: ExpectedError,
)
    requires
        failure_outcome(failure, error),
    ensures
        match failure {
            ExecuteError::ConfigureHandleInheritance(cause) => error
                == ExpectedError::ConfigureHandleInheritance { error: cause },
            ExecuteError::Execute(errors) => {
                &&& error matches ExpectedError::TestRunExecuteError { error: mapped }
                &&& mapped.join_errors == errors.join_errors
                &&& mapped.report_error is Some <==> errors.report_error is Some
                &&& errors.report_error matches Some(SinkError::Report(cause))
                    ==> mapped.report_error == Some(cause)
            },
        },
{
}

/// A test that has no event about it is an error, and exits zero only if the result
/// that was written for it is a pass or a skip; a result that could not be written
/// is an error too.
pub proof fn law_only_written_results_count<W: FnOnce(&TestResult) -> Result<(), OutputError>>(
    label: Seq<char>,
    test_name: Seq<char>,
    transcript: RunTranscript,
    write: W,
    code: Result<i32, ExpectedError>,
)
    requires
        run_one_outcome(label, test_name, transcript, write, code),
    ensures
        (forall|index: int|
            0 <= index < transcript.events@.len() ==> !about(
                #[trigger] transcript.events@[index],
                test_name,
            )) ==> code is Err,
        code matches Ok(exit) ==> exists|result: &TestResult, written: Result<(), OutputError>|
            {
                &&& #[trigger] write.ensures((result,), written)
                &&& written is Ok
                &&& is_result(label, test_name, transcript, *result)
                &&& exit == 0 <==> result.status == BuckTestStatus::Pass || result.status
                    == BuckTestStatus::Skip
                &&& exit == 0 || exit == 100
            },
{
    law_silence_is_no_result(transcript.events@, test_name);
    if let Some(event) = last_about(transcript.events@, test_name) {
        let (result, written) = choose|result: &TestResult, written: Result<(), OutputError>|
            {
                &&& #[trigger] write.ensures((result,), written)
                &&& reports(label, event, *result)
                &&& match written {
                    Ok(()) => code == Ok::<i32, ExpectedError>(status_code(result.status)),
                    Err(error) => code == Err::<i32, ExpectedError>(error.reported()),
                }
            };
        assert(write.ensures((result,), written));
        assert(is_result(label, test_name, transcript, *result));
    }
}

/// The result that is written is the one that the last event about the test amounts
/// to, and no other.
pub proof fn law_results_come_from_the_last_event(
    label: Seq<char>,
    test_name: Seq<char>,
    transcript: RunTranscript,
    result: TestResult,
    last: int,
)
    requires
        is_result(label, test_name, transcript, result),
        0 <= last < transcript.events@.len(),
        about(transcript.events@[last], test_name),
        forall|later: int|
            last < later < transcript.events@.len() ==> !about(
                #[trigger] transcript.events@[later],
                test_name,
            ),
    ensures
        reports(label, transcript.events@[last], result),
        result.name@ == label + " - "@ + test_name,
{
    law_the_last_event_counts(transcript.events@, test_name, last);
}

} // verus!
