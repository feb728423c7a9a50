//! Listing tests, running one, and what Buck2 is told of it.

use buck2_nextest::binaries::{BuildPlatforms, Platform};
use buck2_nextest::cli::{parse_env_pair, App, Command, EnvPairError, TargetArgs};
use buck2_nextest::duration::Duration;
use buck2_nextest::errors::ExpectedError;
use buck2_nextest::events::{
    ChildExecutionOutputDescription, ChildOutputDescription, ErrorSummary, ExecuteStatus,
    ExecutionDescription, ExecutionResultDescription, ExecutionStatuses, FailureDescription,
    FlakyResult, LeakTimeoutResult, MismatchReason, OutputErrorSlice, ReporterEvent, RetryData,
    SlowTimeoutResult, TestEventKind, TestInstanceId,
};
use buck2_nextest::list::{list, listed_tests};
use buck2_nextest::output::{
    details_for, display_name, failure_message, failure_status, result_from_finished,
    result_from_skipped, tolerated_message, BuckTestStatus, ListedTest, TestResult,
};
use buck2_nextest::package_info::Version;
use buck2_nextest::pipeline::{
    ConfigSource, Context, FilterMatch, OutputError, Stages, TestInstance,
};
use buck2_nextest::project_root::PathError;
use buck2_nextest::run_one::{captured, run_one, status_exit_code, RunPlan, RunTranscript};
use buck2_nextest::session::context::ReportUuid;
use buck2_nextest::session::errors::{
    ErrorChain, ExecuteError, SinkError, TestRunnerExecuteErrors, WriteEventError,
};
use buck2_nextest::session::input::{EarlyProfile, FilterBound, RunIgnored};
use buck2_nextest::session::test_session::{InputHandlerKind, SignalHandlerKind};
use buck2_nextest::stats::{CancelReason, NextestRunMode, RunStats};
use std::convert::Infallible;

/// The label the fixture is always run under.
const LABEL: &str = "root//app:harness";

fn target_args() -> TargetArgs {
    TargetArgs {
        label: LABEL.to_owned(),
        package_path: "app".to_owned(),
        program: "harness".to_owned(),
        args: Vec::new(),
        env: Vec::new(),
        project_root: None,
        profile: None,
        config_file: None,
    }
}

fn unchanged(path: &str) -> Result<String, PathError> {
    Ok(path.to_owned())
}

fn platforms() -> Result<BuildPlatforms, ErrorChain> {
    Ok(BuildPlatforms {
        host: Platform {
            triple: "x86_64-unknown-linux-gnu".to_owned(),
            libdir: None,
        },
        target: None,
    })
}

fn into_context(target: TargetArgs) -> Result<Context, ExpectedError> {
    target.into_context(
        || Ok("/project/sub".to_owned()),
        &|path: &str| path == "/project/.buckroot",
        &unchanged,
        platforms,
    )
}

fn context() -> Context {
    into_context(target_args()).expect("the target is resolved")
}

/// What the harness has, as the filter sees it.
fn harness(selected: fn(&str) -> FilterMatch) -> Vec<TestInstance> {
    [
        "tests::fails",
        "tests::flaky",
        "tests::is_ignored",
        "tests::passes",
        "tests::reads_target_env",
    ]
    .iter()
    .map(|name| TestInstance {
        binary_id: LABEL.to_owned(),
        name: (*name).to_owned(),
        filter_match: selected(name),
    })
    .collect()
}

fn everything(_: &str) -> FilterMatch {
    FilterMatch::Matches
}

fn passes_only(name: &str) -> FilterMatch {
    if name == "tests::passes" {
        FilterMatch::Matches
    } else {
        FilterMatch::Mismatch {
            reason: MismatchReason::DefaultFilter,
        }
    }
}

fn status(attempt: u32, result: ExecutionResultDescription) -> ExecuteStatus {
    ExecuteStatus {
        retry_data: RetryData {
            attempt,
            total_attempts: 3,
        },
        output: ChildExecutionOutputDescription::Output {
            output: ChildOutputDescription::Split {
                stdout: Some(b"running 1 test\n".to_vec()),
                stderr: Some(b"the distinctive panic message".to_vec()),
            },
        },
        result,
        time_taken: Duration::new(1, 600_000_000),
        error_summary: None,
        output_error_slice: None,
    }
}

fn fail(leaked: bool) -> ExecutionResultDescription {
    ExecutionResultDescription::Fail {
        failure: FailureDescription::ExitCode { code: 101 },
        leaked,
    }
}

fn instance(test_name: &str) -> TestInstanceId {
    TestInstanceId {
        binary_id: LABEL.to_owned(),
        test_name: test_name.to_owned(),
    }
}

fn finished(test_name: &str, statuses: Vec<ExecuteStatus>, flaky: FlakyResult) -> ReporterEvent {
    ReporterEvent::Test {
        kind: TestEventKind::TestFinished {
            test_instance: instance(test_name),
            run_statuses: ExecutionStatuses::new(statuses, flaky).expect("there is an attempt"),
        },
    }
}

fn skipped(test_name: &str, reason: MismatchReason) -> ReporterEvent {
    ReporterEvent::Test {
        kind: TestEventKind::TestSkipped {
            test_instance: instance(test_name),
            reason,
        },
    }
}

/// A run in which `events` are about the test asked for, and every other test
/// was set aside.
fn transcript(test_name: &str, events: Vec<ReporterEvent>) -> RunTranscript {
    let listed = harness(everything);
    let mut all = vec![
        ReporterEvent::Tick,
        ReporterEvent::Test {
            kind: TestEventKind::Progress,
        },
    ];
    all.extend(events);
    for test in &listed {
        if test.name != test_name {
            all.push(skipped(&test.name, MismatchReason::String));
        }
    }
    RunTranscript {
        listed,
        events: all,
        run_stats: RunStats::default(),
    }
}

fn load_config(source: ConfigSource<'_>) -> Result<(), ErrorChain> {
    assert_eq!(source.workspace_root, "/project");
    assert_eq!(source.config_file, None);
    Ok(())
}

fn find_profile(_: &(), name: &str) -> Result<EarlyProfile, ErrorChain> {
    Ok(EarlyProfile {
        name: name.to_owned(),
        store_dir: "/project/target/nextest/default".to_owned(),
        has_junit: false,
        custom_groups: Vec::new(),
    })
}

fn create_nothing(dir: &str) -> Result<(), std::io::Error> {
    panic!("{dir} is not created without a report to put there")
}

/// Lists the target's tests, which are as given once the pipeline is set up.
fn list_tests(
    cx: &Context,
    tests: Result<Vec<TestInstance>, ExpectedError>,
    write: impl FnOnce(&Vec<ListedTest>) -> Result<(), OutputError>,
) -> Result<(), ExpectedError> {
    list(
        cx,
        ReportUuid { value: 7 },
        Version::new(0, 1, 0),
        false,
        Stages::new(
            load_config,
            find_profile,
            create_nothing,
            |filter| {
                assert_eq!(filter.mode, NextestRunMode::Test);
                assert_eq!(filter.run_ignored, RunIgnored::All);
                assert!(filter.patterns.substrings.is_empty());
                assert!(filter.patterns.exact.is_empty());
                assert!(filter.exprs.is_empty());
                Ok("filter")
            },
            |_| Ok("artifacts"),
            |request, artifacts| {
                assert_eq!(*request.test_filter, "filter");
                assert_eq!(request.filter_bound, FilterBound::DefaultSet);
                assert_eq!(request.context.run_id, ReportUuid { value: 7 });
                assert_eq!(artifacts, "artifacts");
                Ok("tests")
            },
        ),
        |session, ()| {
            assert_eq!(*session.test_list(), "tests");
            tests
        },
        write,
    )
}

/// Runs one test, which goes as given once the pipeline is set up.
fn execute_test(
    cx: &Context,
    test_name: &str,
    cli_args: Vec<String>,
    executed: Result<Result<RunTranscript, ExecuteError<Infallible>>, ExpectedError>,
    write: impl FnOnce(&TestResult) -> Result<(), OutputError>,
) -> Result<i32, ExpectedError> {
    let given = cli_args.clone();
    run_one(
        cx,
        test_name,
        cli_args,
        ReportUuid { value: 7 },
        Version::new(0, 1, 0),
        false,
        Stages::new(
            load_config,
            find_profile,
            create_nothing,
            |filter| {
                assert_eq!(filter.mode, NextestRunMode::Test);
                assert_eq!(filter.run_ignored, RunIgnored::Default);
                assert!(filter.patterns.substrings.is_empty());
                assert_eq!(filter.patterns.exact, [test_name]);
                assert!(filter.exprs.is_empty());
                Ok("filter")
            },
            |_| Ok("artifacts"),
            |request, artifacts| {
                assert_eq!(*request.test_filter, "filter");
                assert_eq!(request.filter_bound, FilterBound::All);
                assert_eq!(artifacts, "artifacts");
                Ok("tests")
            },
        ),
        |session, plan| {
            assert_eq!(*session.test_list(), "tests");
            assert_eq!(
                plan,
                RunPlan {
                    cli_args: given,
                    signal_handler: SignalHandlerKind::Standard,
                    input_handler: InputHandlerKind::Noop,
                    no_capture: false,
                }
            );
            executed
        },
        write,
    )
}

/// Runs one test with the given transcript, returning the result and the exit
/// code.
fn run_test(test_name: &str, events: Vec<ReporterEvent>) -> (TestResult, i32) {
    let cx = context();
    let mut written = None;
    let code = execute_test(
        &cx,
        test_name,
        Vec::new(),
        Ok(Ok(transcript(test_name, events))),
        |result| {
            written = Some(TestResult {
                name: result.name.to_owned(),
                status: result.status,
                message: result.message.to_owned(),
                duration: result.duration,
                details: result.details.to_owned(),
            });
            Ok(())
        },
    )
    .expect("the run completes");
    (written.expect("a result is written"), code)
}

/// Everything the harness has, ignored tests included, each with the bare test
/// path as the filter Buck2 will append.
#[test]
fn lists_every_test_including_ignored_ones() {
    let cx = context();
    let mut entries = Vec::new();
    list_tests(
        &cx,
        Ok(harness(everything)),
        |listed| {
            for test in listed {
                entries.push((test.name.to_owned(), test.filter.to_owned()));
            }
            Ok(())
        },
    )
    .expect("listing succeeds");

    let entries: Vec<(&str, &str)> = entries
        .iter()
        .map(|(name, filter)| (name.as_str(), filter.as_str()))
        .collect();
    assert_eq!(
        entries,
        vec![
            ("root//app:harness - tests::fails", "tests::fails"),
            ("root//app:harness - tests::flaky", "tests::flaky"),
            ("root//app:harness - tests::is_ignored", "tests::is_ignored"),
            ("root//app:harness - tests::passes", "tests::passes"),
            (
                "root//app:harness - tests::reads_target_env",
                "tests::reads_target_env",
            ),
        ]
    );
}

/// The profile's default-filter shapes what Buck2 is told exists, so it never
/// schedules an action for a test that would only be discarded.
#[test]
fn listing_honours_the_profiles_default_filter() {
    let listed = listed_tests(LABEL, &harness(passes_only));
    assert_eq!(
        listed,
        vec![ListedTest {
            name: "root//app:harness - tests::passes".to_owned(),
            filter: "tests::passes".to_owned(),
        }]
    );
}

#[test]
fn a_listing_that_cannot_be_made_or_written_is_an_error() {
    let cx = context();
    let error = list_tests(
        &cx,
        Err(ExpectedError::CreateTestListError {
            error: ErrorChain {
                messages: Vec::new(),
            },
        }),
        |_| panic!("there is nothing to write"),
    )
    .expect_err("the tests cannot be listed");
    assert_eq!(error.exit_code(), 104);

    let error = list_tests(
        &cx,
        Ok(Vec::new()),
        |listed| {
            assert!(listed.is_empty());
            Err(OutputError::Write(std::io::Error::other("closed")))
        },
    )
    .expect_err("the listing cannot be written");
    assert!(matches!(error, ExpectedError::WriteEventError { .. }));
    assert_eq!(error.exit_code(), 110);
}

#[test]
fn runs_a_passing_test() {
    let (result, code) = run_test(
        "tests::passes",
        vec![finished(
            "tests::passes",
            vec![status(1, ExecutionResultDescription::Pass)],
            FlakyResult::Pass,
        )],
    );

    assert_eq!(result.name, "root//app:harness - tests::passes");
    assert_eq!(result.status, BuckTestStatus::Pass);
    assert_eq!(code, 0);
    assert_eq!(result.duration, Some(Duration::new(1, 600_000_000)));
    assert_eq!(result.message, None);
    assert_eq!(
        result.details, None,
        "a passing test carries no diagnostic output"
    );
}

#[test]
fn reports_a_failing_test_with_its_panic_message() {
    let (result, code) = run_test(
        "tests::fails",
        vec![finished(
            "tests::fails",
            vec![status(1, fail(false))],
            FlakyResult::Pass,
        )],
    );

    assert_eq!(result.name, "root//app:harness - tests::fails");
    assert_eq!(result.status, BuckTestStatus::Fail);
    assert_eq!(code, 100);
    assert!(
        result
            .details
            .expect("there are details")
            .contains("the distinctive panic message"),
        "the details carry the test's own output"
    );
}

/// An ignored test is listed, so Buck2 asks about it and has to be told
/// something. Being skipped is not a failure, so the exit code must not say it
/// is one -- Buck2 synthesizes a status from the exit code whenever the JSON
/// does not parse.
#[test]
fn reports_an_ignored_test_as_skipped() {
    let (result, code) = run_test(
        "tests::is_ignored",
        vec![skipped("tests::is_ignored", MismatchReason::Ignored)],
    );

    assert_eq!(result.name, "root//app:harness - tests::is_ignored");
    assert_eq!(result.status, BuckTestStatus::Skip);
    assert_eq!(
        result.message.as_deref(),
        Some("does not match the run-ignored option")
    );
    assert_eq!(result.duration, None);
    assert_eq!(code, 0, "a skipped test did not fail");
}

/// Every test the exact filter did not select is reported as skipped, so a sink
/// that took the last event to arrive would answer with the wrong test. The
/// name asked for and the name reported must match.
#[test]
fn reports_the_test_that_was_asked_for() {
    for test_name in ["tests::passes", "tests::fails", "tests::is_ignored"] {
        let (result, _) = run_test(
            test_name,
            vec![finished(
                test_name,
                vec![status(1, ExecutionResultDescription::Pass)],
                FlakyResult::Pass,
            )],
        );
        assert_eq!(
            result.name,
            format!("root//app:harness - {test_name}"),
            "asked about {test_name}"
        );
    }
}

/// Buck2 only runs what it listed, so being asked for something else means the
/// listing it chose from is stale. Nothing is written, which leaves Buck2 to
/// synthesize a failure from the exit code.
#[test]
fn an_unknown_test_name_is_an_error() {
    let cx = context();
    let error = execute_test(
        &cx,
        "tests::does_not_exist",
        Vec::new(),
        Ok(Ok(transcript("tests::does_not_exist", Vec::new()))),
        |_| panic!("nothing is reported to Buck2"),
    )
    .expect_err("there is no such test");
    assert_ne!(error.exit_code(), 0);
    assert_eq!(error.exit_code(), 104);
    assert!(
        matches!(
            &error,
            ExpectedError::TestNotFound { label, test_name }
                if label == LABEL && test_name == "tests::does_not_exist"
        ),
        "the error names the test that was asked for"
    );
}

/// A test that was listed but reported nothing, because the run was cancelled,
/// is not mistaken for one that is not there.
#[test]
fn a_cancelled_run_is_told_apart_from_a_stale_listing() {
    let cx = context();
    let ask = |test_name: &str, cancel_reason: Option<CancelReason>| {
        let mut transcript = transcript(test_name, Vec::new());
        transcript.run_stats.cancel_reason = cancel_reason;
        execute_test(
            &cx,
            test_name,
            Vec::new(),
            Ok(Ok(transcript)),
            |_| panic!("nothing is reported to Buck2"),
        )
        .expect_err("there is no result")
    };

    let error = ask("tests::passes", Some(CancelReason::SetupScriptFailure));
    assert!(matches!(
        &error,
        ExpectedError::RunCancelled { label, test_name, reason: CancelReason::SetupScriptFailure }
            if label == LABEL && test_name == "tests::passes"
    ));
    assert_eq!(error.exit_code(), 105);

    let error = ask("tests::passes", Some(CancelReason::Interrupt));
    assert_eq!(error.exit_code(), 100);

    let error = ask("tests::passes", None);
    assert!(matches!(error, ExpectedError::TestNotFound { .. }));
    let error = ask("tests::gone", Some(CancelReason::Interrupt));
    assert!(matches!(error, ExpectedError::TestNotFound { .. }));
}

/// Retries are nextest's, and they happen inside the single action Buck2 ran,
/// so a flaky test is reported to Buck2 as the pass it eventually was.
#[test]
fn retries_make_a_flaky_test_pass() {
    let (result, code) = run_test(
        "tests::flaky",
        vec![finished(
            "tests::flaky",
            vec![
                status(1, fail(false)),
                status(2, ExecutionResultDescription::Pass),
            ],
            FlakyResult::Pass,
        )],
    );

    assert_eq!(result.status, BuckTestStatus::Pass);
    assert_eq!(code, 0);
    let message = result.message.expect("a pass that needed retries says so");
    assert!(message.contains("flaky"));
    assert_eq!(message, "flaky: passed on attempt 2 of 3, after 1 failed");
    assert_eq!(result.duration, Some(Duration::new(3, 200_000_000)));
    assert_eq!(
        result.details.as_deref(),
        Some("--- stdout ---\nrunning 1 test\n--- stderr ---\nthe distinctive panic message\n")
    );
}

/// A profile that fails flaky tests reports the FAIL Buck2 will act on, and a
/// message that says why it failed rather than one describing the pass.
#[test]
fn a_flaky_test_fails_when_the_profile_says_so() {
    let (result, code) = run_test(
        "tests::flaky",
        vec![finished(
            "tests::flaky",
            vec![
                status(1, fail(false)),
                status(2, ExecutionResultDescription::Pass),
            ],
            FlakyResult::Fail,
        )],
    );

    assert_eq!(result.status, BuckTestStatus::Fail);
    assert_ne!(code, 0);
    let message = result.message.expect("a failure says why");
    assert!(
        message.contains("configured to fail when flaky"),
        "the message explains the failure rather than claiming a pass: {message}"
    );
    assert!(
        !message.contains("flaky: passed"),
        "a FAIL is never reported with the message for a pass: {message}"
    );
}

/// Without retries the same test simply fails, which is what makes the previous
/// test evidence that retries ran rather than that the test is not flaky.
#[test]
fn a_flaky_test_fails_without_retries() {
    let (result, code) = run_test(
        "tests::flaky",
        vec![finished(
            "tests::flaky",
            vec![status(1, fail(false))],
            FlakyResult::Pass,
        )],
    );

    assert_eq!(result.status, BuckTestStatus::Fail);
    assert_eq!(code, 100);
}

/// A target's environment reaches the test process, which is what lets a Buck2
/// target describe what its test needs rather than setting it on the runner.
#[test]
fn the_targets_environment_reaches_the_test() {
    let mut target = target_args();
    target.env = vec![parse_env_pair("BUCK2_NEXTEST_TARGET_ENV=from=the=target")
        .expect("the pair is well-formed")];
    let cx = into_context(target).expect("the target is resolved");
    let invocation = &cx.binaries.binary_list.rust_binaries[0].invocation;
    assert_eq!(
        invocation
            .env
            .get("BUCK2_NEXTEST_TARGET_ENV")
            .map(String::as_str),
        Some("from=the=target")
    );
}

/// A malformed `--env` is rejected rather than being dropped in silence, which
/// would leave the test running without something it was told it would have.
#[test]
fn a_malformed_env_pair_is_rejected() {
    assert_eq!(
        parse_env_pair("no-equals-sign"),
        Err(EnvPairError::MissingEquals),
        "a bare name is rejected"
    );
    assert_eq!(
        parse_env_pair("=value"),
        Err(EnvPairError::EmptyName),
        "an empty variable name is rejected"
    );
    assert_eq!(
        parse_env_pair("NAME="),
        Ok(("NAME".to_owned(), String::new()))
    );
}

/// The default-filter shapes the listing, but must not be applied again when
/// running: Buck2 chose this test from what it was told, and is waiting for a
/// result about it.
#[test]
fn a_test_outside_the_default_filter_still_runs_when_asked_for() {
    let listed = listed_tests(LABEL, &harness(passes_only));
    let filters: Vec<&str> = listed.iter().map(|test| test.filter.as_str()).collect();
    assert_eq!(filters, vec!["tests::passes"], "the listing is narrowed");

    let cx = context();
    let mut written = None;
    let code = execute_test(
        &cx,
        "tests::fails",
        vec!["buck2-nextest".to_owned()],
        Ok(Ok(transcript(
            "tests::fails",
            vec![finished(
                "tests::fails",
                vec![status(1, fail(false))],
                FlakyResult::Pass,
            )],
        ))),
        |result| {
            written = Some(result.status);
            Ok(())
        },
    )
    .expect("the run completes");
    assert_eq!(written, Some(BuckTestStatus::Fail));
    assert_eq!(code, 100);
}

#[test]
fn a_run_that_cannot_be_executed_is_an_error() {
    let cx = context();
    let ask = |executed| {
        execute_test(
            &cx,
            "tests::passes",
            Vec::new(),
            executed,
            |_| panic!("nothing is reported to Buck2"),
        )
        .expect_err("the run fails")
    };
    let error = ask(Err(ExpectedError::TestRunnerBuildError {
        error: ErrorChain {
            messages: Vec::new(),
        },
    }));
    assert!(matches!(error, ExpectedError::TestRunnerBuildError { .. }));

    let error = ask(Ok(Err(ExecuteError::ConfigureHandleInheritance(
        ErrorChain {
            messages: vec!["denied".to_owned()],
        },
    ))));
    assert!(matches!(
        &error,
        ExpectedError::ConfigureHandleInheritance { error } if error.messages == ["denied"]
    ));
    assert_eq!(error.exit_code(), 96);

    let error = ask(Ok(Err(ExecuteError::Execute(TestRunnerExecuteErrors {
        report_error: Some(SinkError::Report(WriteEventError::Io(
            std::io::Error::other("disk full"),
        ))),
        join_errors: Vec::new(),
    }))));
    assert!(matches!(
        &error,
        ExpectedError::TestRunExecuteError { error }
            if matches!(&error.report_error, Some(WriteEventError::Io(error)) if error.to_string() == "disk full")
    ));
    assert_eq!(error.exit_code(), 110);

    let error = execute_test(
        &cx,
        "tests::passes",
        Vec::new(),
        Ok(Ok(transcript(
            "tests::passes",
            vec![skipped("tests::passes", MismatchReason::Partition)],
        ))),
        |_| Err(OutputError::Write(std::io::Error::other("closed"))),
    )
    .expect_err("the result cannot be written");
    assert_eq!(error.exit_code(), 110);
}

/// The last word on a test is the one that counts.
#[test]
fn the_last_event_about_a_test_is_its_result() {
    let events = vec![
        finished("a", vec![status(1, fail(false))], FlakyResult::Pass),
        skipped("b", MismatchReason::String),
        skipped("a", MismatchReason::RerunAlreadyPassed),
        finished("b", vec![status(1, fail(false))], FlakyResult::Pass),
    ];
    let result = captured("l", "a", &events).expect("some event is about it");
    assert_eq!(result.name, "l - a");
    assert_eq!(result.status, BuckTestStatus::Skip);
    assert_eq!(result.message.as_deref(), Some("already passed"));
    assert_eq!(captured("l", "c", &events), None);
}

#[test]
fn statuses_map_onto_exit_codes() {
    assert_eq!(status_exit_code(BuckTestStatus::Pass), 0);
    assert_eq!(status_exit_code(BuckTestStatus::Skip), 0);
    assert_eq!(status_exit_code(BuckTestStatus::Fail), 100);
    assert_eq!(status_exit_code(BuckTestStatus::Timeout), 100);
}

#[test]
fn failures_are_told_apart() {
    let timeout = status(
        1,
        ExecutionResultDescription::Timeout {
            result: SlowTimeoutResult::Fail,
        },
    );
    assert_eq!(failure_status(&timeout), BuckTestStatus::Timeout);
    assert_eq!(
        failure_message(&timeout).as_deref(),
        Some("test exceeded the slow timeout and was terminated")
    );
    let exec_fail = status(1, ExecutionResultDescription::ExecFail);
    assert_eq!(failure_status(&exec_fail), BuckTestStatus::Fail);
    assert_eq!(
        failure_message(&exec_fail).as_deref(),
        Some("the test process failed to start")
    );
    let leak = status(
        1,
        ExecutionResultDescription::Leak {
            result: LeakTimeoutResult::Fail,
        },
    );
    assert_eq!(
        failure_message(&leak).as_deref(),
        Some("test leaked handles past the leak timeout")
    );
    assert_eq!(
        failure_message(&status(1, fail(false))).as_deref(),
        Some("test failed")
    );
    assert_eq!(
        failure_message(&status(1, fail(true))).as_deref(),
        Some("test failed; the test also leaked handles")
    );
    assert_eq!(
        failure_message(&status(1, ExecutionResultDescription::Pass)),
        None
    );
}

/// What nextest worked out is preferred over anything reconstructed.
#[test]
fn nextests_own_summary_comes_first() {
    let mut failed = status(1, fail(true));
    failed.output_error_slice = Some(OutputErrorSlice {
        slice: "panicked at src/lib.rs".to_owned(),
    });
    assert_eq!(
        failure_message(&failed).as_deref(),
        Some("panicked at src/lib.rs; the test also leaked handles")
    );
    failed.error_summary = Some(ErrorSummary {
        short_message: "exited with code 101".to_owned(),
        description: "exited with code 101\n- with more to say".to_owned(),
    });
    assert_eq!(
        failure_message(&failed).as_deref(),
        Some("exited with code 101; the test also leaked handles")
    );
    assert_eq!(
        details_for(&failed).as_deref(),
        Some(
            "exited with code 101\n- with more to say\n--- stdout ---\nrunning 1 test\n\
             --- stderr ---\nthe distinctive panic message\n"
        )
    );
}

#[test]
fn tolerated_results_are_mentioned() {
    let leak = status(
        1,
        ExecutionResultDescription::Leak {
            result: LeakTimeoutResult::Pass,
        },
    );
    assert_eq!(
        tolerated_message(&leak).as_deref(),
        Some("test passed but leaked handles within the leak timeout")
    );
    let timeout = status(
        1,
        ExecutionResultDescription::Timeout {
            result: SlowTimeoutResult::Pass,
        },
    );
    assert_eq!(
        tolerated_message(&timeout).as_deref(),
        Some("test timed out, which this profile treats as a pass")
    );
    assert_eq!(
        tolerated_message(&status(1, ExecutionResultDescription::Pass)),
        None
    );

    let statuses = ExecutionStatuses::new(vec![timeout], FlakyResult::Fail)
        .expect("there is an attempt");
    let result = result_from_finished("l", &instance("t"), &statuses);
    assert_eq!(result.status, BuckTestStatus::Pass);
    assert!(result.message.is_some());
    assert_eq!(result.details, None);
}

#[test]
fn details_show_whatever_there_is() {
    let mut shown = status(1, fail(false));
    shown.output = ChildExecutionOutputDescription::Output {
        output: ChildOutputDescription::Combined {
            output: vec![b'a', 0xff, b'\n'],
        },
    };
    assert_eq!(
        details_for(&shown).as_deref(),
        Some("--- output ---\na\u{fffd}\n"),
        "what is not UTF-8 is replaced rather than dropped"
    );
    shown.output = ChildExecutionOutputDescription::Output {
        output: ChildOutputDescription::Split {
            stdout: None,
            stderr: Some(Vec::new()),
        },
    };
    assert_eq!(details_for(&shown), None, "there is nothing to show");
    shown.output = ChildExecutionOutputDescription::Output {
        output: ChildOutputDescription::NotLoaded,
    };
    assert_eq!(details_for(&shown), None);
    shown.output = ChildExecutionOutputDescription::StartError("no such file".to_owned());
    assert_eq!(details_for(&shown).as_deref(), Some("no such file\n"));
}

#[test]
fn every_reason_to_skip_is_worded() {
    let message = |reason| result_from_skipped("l", &instance("t"), reason).message;
    let texts = [
        (MismatchReason::NotBenchmark, "is not a benchmark"),
        (
            MismatchReason::Ignored,
            "does not match the run-ignored option",
        ),
        (
            MismatchReason::String,
            "does not match the provided string filters",
        ),
        (
            MismatchReason::Expression,
            "does not match the provided expression filters",
        ),
        (MismatchReason::Partition, "is in a different partition"),
        (MismatchReason::RerunAlreadyPassed, "already passed"),
        (
            MismatchReason::DefaultFilter,
            "is filtered out by the profile's default-filter",
        ),
    ];
    for (reason, text) in texts {
        assert_eq!(message(reason).as_deref(), Some(text));
    }
}

#[test]
fn names_are_shown_with_their_target() {
    assert_eq!(
        display_name("root//:demo", "tests::it"),
        "root//:demo - tests::it"
    );
    assert_ne!(display_name("l", "a"), display_name("l", "b"));
}

#[test]
fn attempts_are_described_by_the_last_one() {
    assert_eq!(ExecutionStatuses::new(Vec::new(), FlakyResult::Pass), None);
    let mut endless = status(1, fail(false));
    endless.time_taken = Duration::new(u64::MAX, 999_999_999);
    assert_eq!(
        ExecutionStatuses::new(vec![endless, status(2, fail(false))], FlakyResult::Pass),
        None,
        "no span is long enough"
    );

    let statuses = ExecutionStatuses::new(
        vec![
            status(1, ExecutionResultDescription::Pass),
            status(2, fail(false)),
        ],
        FlakyResult::Pass,
    )
    .expect("there is an attempt");
    assert_eq!(statuses.len(), 2);
    assert_eq!(statuses.last_status().retry_data.attempt, 2);
    assert!(matches!(
        statuses.describe(),
        ExecutionDescription::Failure { first_status, last_status, retries }
            if first_status.retry_data.attempt == 1
                && last_status.retry_data.attempt == 2
                && retries.len() == 1
    ));
}

#[test]
fn a_target_is_resolved_in_the_project_it_is_in() {
    let mut target = target_args();
    target.args = vec!["--first".to_owned(), "--second".to_owned()];
    target.env = vec![
        ("KEY".to_owned(), "one".to_owned()),
        ("KEY".to_owned(), "two".to_owned()),
    ];
    target.profile = Some("ci".to_owned());
    target.config_file = Some("config/nextest.toml".to_owned());
    let cx = into_context(target).expect("the target is resolved");
    assert_eq!(cx.label, LABEL);
    assert_eq!(cx.project_root, "/project");
    assert_eq!(cx.profile_name.as_deref(), Some("ci"));
    assert_eq!(cx.config_file.as_deref(), Some("config/nextest.toml"));
    let binary = &cx.binaries.binary_list.rust_binaries[0];
    assert_eq!(binary.path, "/project/harness");
    assert_eq!(binary.invocation.leading_args, ["--first", "--second"]);
    assert_eq!(
        binary.invocation.env.get("KEY").map(String::as_str),
        Some("two")
    );
    assert_eq!(binary.invocation.cwd.as_deref(), Some("/project/sub"));
}

/// The project root is what nextest reads configuration from, and it is found
/// by walking up from the directory the action ran in.
#[test]
fn an_explicit_project_root_overrides_the_walk() {
    let mut target = target_args();
    target.project_root = Some("/elsewhere".to_owned());
    let cx = into_context(target).expect("the target is resolved");
    assert_eq!(cx.project_root, "/elsewhere");
}

/// A relative `--program` resolves against the project root rather than the
/// current directory, since Buck2 names artifacts relative to the project.
#[test]
fn a_relative_program_resolves_against_the_project_root() {
    let cx = context();
    assert_eq!(
        cx.binaries.binary_list.rust_binaries[0].path,
        "/project/harness"
    );
}

#[test]
fn commands_do_what_they_are_named_after() {
    let code = App {
        command: Command::List {
            target: target_args(),
        },
    }
    .exec(
        into_context,
        |cx| {
            assert_eq!(cx.label, LABEL);
            Ok(())
        },
        |_, _| panic!("the run command was not asked for"),
    )
    .expect("the command succeeds");
    assert_eq!(code, 0);

    let run = || App {
        command: Command::Run {
            target: target_args(),
            test_name: "--not-a-flag".to_owned(),
        },
    };
    let code = run()
        .exec(
            into_context,
            |_| panic!("the list command was not asked for"),
            |cx, test_name| {
                assert_eq!(cx.label, LABEL);
                assert_eq!(test_name, "--not-a-flag");
                Ok(100)
            },
        )
        .expect("the command succeeds");
    assert_eq!(code, 100);

    let error = run()
        .exec(
            |_| {
                Err(ExpectedError::CurrentDirError {
                    error: std::io::Error::other("gone"),
                })
            },
            |_| Ok(()),
            |_, _| Ok(0),
        )
        .expect_err("the target is not resolved");
    assert!(matches!(error, ExpectedError::CurrentDirError { .. }));
}

/// A stage that fails ends the pipeline, and nothing is written.
#[test]
fn a_pipeline_that_is_not_set_up_writes_nothing() {
    let cx = context();
    let error = list(
        &cx,
        ReportUuid { value: 7 },
        Version::new(0, 1, 0),
        false,
        Stages::new(
            |_| -> Result<(), ErrorChain> {
                Err(ErrorChain {
                    messages: vec!["bad config".to_owned()],
                })
            },
            |_, _| panic!("there is no configuration to look in"),
            create_nothing,
            |_| -> Result<(), ErrorChain> { panic!("there is no profile") },
            |_| -> Result<(), ErrorChain> { panic!("there is no filter") },
            |_, _| -> Result<(), ErrorChain> { panic!("there are no artifacts") },
        ),
        |_, ()| panic!("there is no session"),
        |_| panic!("there is nothing to write"),
    )
    .expect_err("the configuration cannot be loaded");
    assert!(matches!(
        &error,
        ExpectedError::ConfigParseError { error } if error.messages == ["bad config"]
    ));
    assert_eq!(error.exit_code(), 96);
}
