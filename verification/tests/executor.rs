//! Running as Buck2's external test executor.

use buck2_nextest::binaries::{BuildPlatforms, Platform};
use buck2_nextest::duration::Duration;
use buck2_nextest::errors::ExpectedError;
use buck2_nextest::events::{
    ChildExecutionOutputDescription, ChildOutputDescription, ErrorSummary, ExecuteStatus,
    ExecutionResultDescription, ExecutionStatuses, FailureDescription, FlakyResult,
    LeakTimeoutResult, MismatchReason, ReporterEvent, RetryData, SlowTimeoutResult, TestEventKind,
    TestInstanceId,
};
use buck2_nextest::executor::check::check_prepared;
use buck2_nextest::executor::collect::{collect_step, serve_error, CollectState, CollectStep};
use buck2_nextest::executor::prepare::{
    names_end_in, prepare_all, prepare_one, project_root_from, spec_arg, ArgContent,
    PrepareForLocalExecutionRequest, PrepareForLocalExecutionResponse,
    PrepareForLocalExecutionResult, PreparedTarget, TestStage,
};
use buck2_nextest::executor::run::{
    run, session_code, ExecutorOptions, FilterOpts, SessionOutcome,
};
use buck2_nextest::executor::sink::{
    duration_to_proto, finished_for, has_handle, report_request, send_step, status_for,
    ProtoDuration, SendOutcome, SendStep, TestStatus,
};
use buck2_nextest::executor::spec::{
    Buck2TestTarget, ConfiguredTarget, ConfiguredTargetHandle, ExternalRunnerSpec,
    ExternalRunnerSpecValue, SpecTarget, SpecValue,
};
use buck2_nextest::project_root::PathError;
use buck2_nextest::session::context::ReportUuid;
use buck2_nextest::session::errors::ErrorChain;
use buck2_nextest::session::input::{FilterBound, RunIgnored};
use buck2_nextest::string_map::StringMap;
use std::sync::mpsc::{sync_channel, SyncSender, TrySendError};
use std::time::{Duration as WallTime, Instant};

fn prepared_target(
    target: &str,
    configuration: &str,
    handle: i64,
    project_root: Option<&str>,
) -> PreparedTarget {
    let configured = ConfiguredTarget {
        cell: "root".to_owned(),
        package: String::new(),
        target: target.to_owned(),
        configuration: Some(configuration.to_owned()),
    };
    PreparedTarget {
        target: Buck2TestTarget {
            label: configured.label(),
            target: configured,
            program: "/fake/binary".to_owned(),
            leading_args: Vec::new(),
            env: StringMap::new(),
            cwd: project_root.map(Into::into),
        },
        handle: ConfiguredTargetHandle { id: handle },
        project_root: project_root.map(Into::into),
    }
}

#[test]
fn prepared_targets_are_sorted_into_targets_and_handles() {
    let checked = check_prepared(vec![
        prepared_target("one", "cfg:linux", 1, Some("/project")),
        prepared_target("two", "cfg:linux", 2, Some("/project")),
    ])
    .expect("distinct labels are accepted");

    let labels: Vec<_> = checked
        .targets
        .iter()
        .map(|target| target.label.as_str())
        .collect();
    assert_eq!(labels, ["root//:one", "root//:two"]);
    assert_eq!(
        checked.handles.get("root//:one"),
        Some(&ConfiguredTargetHandle { id: 1 })
    );
    assert_eq!(
        checked.handles.get("root//:two"),
        Some(&ConfiguredTargetHandle { id: 2 })
    );
    assert_eq!(checked.project_root.as_deref(), Some("/project"));
}

/// The same target under two configurations has one label, so one of the two
/// would otherwise be dropped without a word.
#[test]
fn two_configurations_of_one_target_are_rejected() {
    let error = check_prepared(vec![
        prepared_target("demo", "cfg:linux", 1, Some("/project")),
        prepared_target("demo", "cfg:macos", 2, Some("/project")),
    ])
    .expect_err("one label cannot stand for two targets");
    assert!(
        matches!(&error, ExpectedError::DuplicateTargetLabel { label } if label == "root//:demo"),
        "unexpected error: {error:?}"
    );
}

/// A target that says nothing about where it runs neither sets the project
/// root nor disagrees with one.
#[test]
fn a_target_without_a_root_leaves_the_others_to_it() {
    let checked = check_prepared(vec![
        prepared_target("one", "cfg:linux", 1, None),
        prepared_target("two", "cfg:linux", 2, Some("/project")),
        prepared_target("three", "cfg:linux", 3, None),
    ])
    .expect("targets without a root are accepted");
    assert_eq!(checked.project_root.as_deref(), Some("/project"));

    let checked = check_prepared(vec![prepared_target("one", "cfg:linux", 1, None)])
        .expect("a target without a root is accepted");
    assert_eq!(checked.project_root, None);
}

#[test]
fn two_project_roots_are_rejected() {
    let error = check_prepared(vec![
        prepared_target("one", "cfg:linux", 1, Some("/project")),
        prepared_target("two", "cfg:linux", 2, Some("/elsewhere")),
    ])
    .expect_err("one session cannot span two projects");
    assert!(
        matches!(
            &error,
            ExpectedError::ConflictingProjectRoots { first, second, label }
                if first == "/project" && second == "/elsewhere" && label == "root//:two"
        ),
        "unexpected error: {error:?}"
    );
}

/// A root that is spelled differently is not another root, and the spelling
/// that came first is kept.
#[test]
fn roots_are_compared_as_paths() {
    let checked = check_prepared(vec![
        prepared_target("one", "cfg:linux", 1, Some("/project/")),
        prepared_target("two", "cfg:linux", 2, Some("/project")),
    ])
    .expect("the two roots are one");
    assert_eq!(checked.project_root.as_deref(), Some("/project/"));
}

/// The first thing wrong is what is reported, and a repeated label is looked
/// for before a root that differs.
#[test]
fn the_first_problem_is_reported() {
    let error = check_prepared(vec![
        prepared_target("one", "cfg:linux", 1, Some("/project")),
        prepared_target("one", "cfg:macos", 2, Some("/elsewhere")),
        prepared_target("two", "cfg:linux", 3, Some("/third")),
    ])
    .expect_err("the label is repeated");
    assert!(matches!(
        &error,
        ExpectedError::DuplicateTargetLabel { label } if label == "root//:one"
    ));
    assert_eq!(error.exit_code(), 96);
}

/// A target that runs from the project root, which is what the prelude's
/// `rust_test` does: the package path is not where it runs, so it is left on.
#[test]
fn a_root_working_directory_is_the_project_root() {
    for package_path in ["", "sub", "app/tests"] {
        assert_eq!(
            project_root_from("/project", package_path).as_deref(),
            Some("/project")
        );
    }
}

/// A target that runs from its own package directory, which is what
/// `run_from_project_root = False` gives.
#[test]
fn a_package_working_directory_has_its_package_removed() {
    for (cwd, package_path) in [
        ("/project/sub", "sub"),
        ("/project/app/tests", "app/tests"),
    ] {
        assert_eq!(
            project_root_from(cwd, package_path).as_deref(),
            Some("/project")
        );
    }
}

/// Only whole directory names count, or a package named `test` would eat
/// half of a directory named `tests`.
#[test]
fn only_whole_components_are_removed() {
    assert_eq!(
        project_root_from("/project/tests", "test").as_deref(),
        Some("/project/tests")
    );
}

/// Running short of a root means the package path was not a suffix after
/// all, so the working directory stands.
#[test]
fn a_package_deeper_than_the_directory_is_not_removed() {
    assert_eq!(
        project_root_from("/tests", "app/tests").as_deref(),
        Some("/tests")
    );
}

#[test]
fn a_relative_working_directory_implies_nothing() {
    assert_eq!(project_root_from("project", "sub"), None);
    assert_eq!(project_root_from(".", ""), None);
}

#[test]
fn names_are_matched_from_the_innermost_out() {
    let name = |text: &str| Some(text.to_owned());
    let names = vec![name("tests"), name("app"), name("project"), None];
    let path = |parts: &[&str]| -> Vec<String> { parts.iter().map(|part| (*part).to_owned()).collect() };
    assert!(names_end_in(&names, &path(&[])));
    assert!(names_end_in(&names, &path(&["app", "tests"])));
    assert!(!names_end_in(&names, &path(&["tests", "app"])));
    assert!(!names_end_in(&names, &path(&["/", "project", "app", "tests"])));
    assert!(!names_end_in(&names, &path(&["a", "b", "c", "d", "e"])));
}

fn value(text: &str) -> ExternalRunnerSpecValue {
    ExternalRunnerSpecValue {
        value: Some(SpecValue::Verbatim(text.to_owned())),
    }
}

fn spec(target: &str) -> ExternalRunnerSpec {
    ExternalRunnerSpec {
        target: Some(SpecTarget {
            handle: Some(ConfiguredTargetHandle { id: 7 }),
            cell: "root".to_owned(),
            package: "app".to_owned(),
            target: target.to_owned(),
            configuration: "cfg:linux".to_owned(),
            package_project_relative_path: "app".to_owned(),
        }),
        test_type: "rust".to_owned(),
        command: vec![
            value("/fake/binary"),
            ExternalRunnerSpecValue {
                value: Some(SpecValue::ArgHandle { id: 3 }),
            },
        ],
        env: vec![("KEY".to_owned(), value("spec"))],
    }
}

fn response(cmd: &[&str], cwd: &str, env: &[(&str, &str)]) -> PrepareForLocalExecutionResponse {
    PrepareForLocalExecutionResponse {
        result: Some(PrepareForLocalExecutionResult {
            cmd: cmd.iter().map(|arg| (*arg).to_owned()).collect(),
            cwd: cwd.to_owned(),
            env: env
                .iter()
                .map(|(key, value)| ((*key).to_owned(), (*value).to_owned()))
                .collect(),
        }),
    }
}

#[test]
fn a_spec_is_resolved_by_asking_buck2() {
    let ask = |request: PrepareForLocalExecutionRequest| {
        assert_eq!(
            request.stage,
            Some(TestStage::Listing {
                suite: "root//app:demo".to_owned(),
                cacheable: false,
            })
        );
        assert_eq!(request.target, Some(ConfiguredTargetHandle { id: 7 }));
        assert_eq!(request.cmd.len(), 2);
        assert_eq!(request.cmd[0], spec_arg(value("/fake/binary")));
        assert_eq!(
            request.cmd[1].content,
            Some(ArgContent::SpecValue(ExternalRunnerSpecValue {
                value: Some(SpecValue::ArgHandle { id: 3 }),
            }))
        );
        assert_eq!(request.cmd[1].format, None);
        assert_eq!(request.env.len(), 1);
        assert_eq!(request.env[0].key, "KEY");
        assert_eq!(request.env[0].value, Some(spec_arg(value("spec"))));
        assert!(request.pre_create_dirs.is_empty());
        assert!(request.required_local_resources.is_empty());
        Ok(response(
            &["/real/binary", "--first", "--second"],
            "/project/app",
            &[("KEY", "one"), ("OTHER", "x"), ("KEY", "two")],
        ))
    };
    let prepared = prepare_one(&ask, spec("demo")).expect("the spec is resolved");
    assert_eq!(prepared.target.label, "root//app:demo");
    assert_eq!(
        prepared.target.target.configuration.as_deref(),
        Some("cfg:linux")
    );
    assert_eq!(prepared.target.program, "/real/binary");
    assert_eq!(prepared.target.leading_args, ["--first", "--second"]);
    assert_eq!(
        prepared.target.env.get("KEY").map(String::as_str),
        Some("two")
    );
    assert_eq!(prepared.target.env.len(), 2);
    assert_eq!(prepared.target.cwd.as_deref(), Some("/project/app"));
    assert_eq!(prepared.handle, ConfiguredTargetHandle { id: 7 });
    assert_eq!(prepared.project_root.as_deref(), Some("/project"));
}

#[test]
fn an_empty_working_directory_means_buck2_did_not_say() {
    let ask = |_: PrepareForLocalExecutionRequest| Ok(response(&["/real/binary"], "", &[]));
    let prepared = prepare_one(&ask, spec("demo")).expect("the spec is resolved");
    assert_eq!(prepared.target.cwd, None);
    assert_eq!(prepared.project_root, None);
}

#[test]
fn specs_that_cannot_be_used_are_rejected() {
    let ask = |_: PrepareForLocalExecutionRequest| -> Result<
        PrepareForLocalExecutionResponse,
        tonic::Status,
    > { panic!("there is nothing to ask") };

    let mut without_target = spec("demo");
    without_target.target = None;
    let error = prepare_one(&ask, without_target).expect_err("there is no target");
    assert!(matches!(
        &error,
        ExpectedError::SpecMissingField { field, label } if field == "target" && label == "<unknown>"
    ));

    let mut other_type = spec("demo");
    other_type.test_type = "python".to_owned();
    let error = prepare_one(&ask, other_type).expect_err("the type is not supported");
    assert!(matches!(
        &error,
        ExpectedError::UnsupportedTestType { label, test_type }
            if label == "root//app:demo" && test_type == "python"
    ));

    let mut without_handle = spec("demo");
    if let Some(target) = &mut without_handle.target {
        target.handle = None;
    }
    let error = prepare_one(&ask, without_handle).expect_err("there is no handle");
    assert!(matches!(
        &error,
        ExpectedError::SpecMissingField { field, label }
            if field == "target.handle" && label == "root//app:demo"
    ));
    assert_eq!(error.exit_code(), 96);
}

#[test]
fn answers_that_cannot_be_used_are_rejected() {
    let refused = |_: PrepareForLocalExecutionRequest| -> Result<
        PrepareForLocalExecutionResponse,
        tonic::Status,
    > { Err(tonic::Status::not_found("no such target")) };
    let error = prepare_one(&refused, spec("demo")).expect_err("Buck2 refused");
    assert!(matches!(
        &error,
        ExpectedError::PrepareForLocalExecutionError { label, status }
            if label == "root//app:demo" && status.message() == "no such target"
    ));

    let empty = |_: PrepareForLocalExecutionRequest| -> Result<
        PrepareForLocalExecutionResponse,
        tonic::Status,
    > { Ok(PrepareForLocalExecutionResponse { result: None }) };
    let error = prepare_one(&empty, spec("demo")).expect_err("there is no result");
    assert!(matches!(
        &error,
        ExpectedError::SpecMissingField { field, .. }
            if field == "PrepareForLocalExecutionResponse.result"
    ));

    let no_command = |_: PrepareForLocalExecutionRequest| Ok(response(&[], "/project", &[]));
    let error = prepare_one(&no_command, spec("demo")).expect_err("there is no command");
    assert!(matches!(
        &error,
        ExpectedError::EmptyCommand { label } if label == "root//app:demo"
    ));
}

#[test]
fn specs_are_resolved_in_order_up_to_the_first_failure() {
    let ask = |_: PrepareForLocalExecutionRequest| Ok(response(&["/real/binary"], "/project", &[]));
    let prepared =
        prepare_all(&ask, vec![spec("one"), spec("two")]).expect("both specs are resolved");
    let labels: Vec<&str> = prepared
        .iter()
        .map(|item| item.target.label.as_str())
        .collect();
    assert_eq!(labels, ["root//app:one", "root//app:two"]);

    let mut bad = spec("bad");
    bad.test_type = "shell".to_owned();
    let mut worse = spec("worse");
    worse.target = None;
    let error = prepare_all(&ask, vec![spec("one"), bad, worse]).expect_err("one spec is bad");
    assert!(matches!(
        &error,
        ExpectedError::UnsupportedTestType { label, .. } if label == "root//app:bad"
    ));
}

#[test]
fn nextest_outcomes_map_onto_buck2_statuses() {
    assert_eq!(
        status_for(&ExecutionResultDescription::Pass),
        TestStatus::Pass
    );
    assert_eq!(
        status_for(&ExecutionResultDescription::Leak {
            result: LeakTimeoutResult::Pass
        }),
        TestStatus::Pass,
        "a leak that nextest forgives is still a pass to Buck2"
    );
    assert_eq!(
        status_for(&ExecutionResultDescription::Leak {
            result: LeakTimeoutResult::Fail
        }),
        TestStatus::Fail,
    );
    assert_eq!(
        status_for(&ExecutionResultDescription::Timeout {
            result: SlowTimeoutResult::Fail
        }),
        TestStatus::Timeout,
    );
    assert_eq!(
        status_for(&ExecutionResultDescription::Timeout {
            result: SlowTimeoutResult::Pass
        }),
        TestStatus::Pass,
        "a timeout configured to pass is a pass, not a timeout failure"
    );
    assert_eq!(
        status_for(&ExecutionResultDescription::ExecFail),
        TestStatus::Fatal,
    );
    assert_eq!(
        status_for(&ExecutionResultDescription::Fail {
            failure: FailureDescription::ExitCode { code: 101 },
            leaked: false,
        }),
        TestStatus::Fail,
    );
}

#[test]
fn durations_survive_conversion() {
    let converted = duration_to_proto(Duration::new(3, 500_000_000));
    assert_eq!(converted.seconds, 3);
    assert_eq!(converted.nanos, 500_000_000);
}

#[test]
fn an_overlong_duration_saturates() {
    assert_eq!(
        duration_to_proto(Duration::new(u64::MAX, 1)),
        ProtoDuration {
            seconds: i64::MAX,
            nanos: 1
        }
    );
    assert_eq!(
        duration_to_proto(Duration::new(i64::MAX as u64, 999_999_999)),
        ProtoDuration {
            seconds: i64::MAX,
            nanos: 999_999_999
        }
    );
}

fn status(result: ExecutionResultDescription, error: Option<&str>) -> ExecuteStatus {
    ExecuteStatus {
        retry_data: RetryData {
            attempt: 1,
            total_attempts: 3,
        },
        output: ChildExecutionOutputDescription::Output {
            output: ChildOutputDescription::NotLoaded,
        },
        result,
        time_taken: Duration::new(2, 5),
        error_summary: error.map(|text| ErrorSummary {
            short_message: "short".to_owned(),
            description: text.to_owned(),
        }),
        output_error_slice: None,
    }
}

fn finished_event(statuses: Vec<ExecuteStatus>) -> ReporterEvent {
    ReporterEvent::Test {
        kind: TestEventKind::TestFinished {
            test_instance: TestInstanceId {
                binary_id: "root//:demo".to_owned(),
                test_name: "tests::it".to_owned(),
            },
            run_statuses: ExecutionStatuses::new(statuses, FlakyResult::Pass)
                .expect("there is an attempt"),
        },
    }
}

#[test]
fn finished_tests_are_reported_against_their_target() {
    let mut handles = StringMap::new();
    handles.insert("root//:demo".to_owned(), ConfiguredTargetHandle { id: 9 });

    let event = finished_event(vec![
        status(ExecutionResultDescription::ExecFail, Some("first")),
        status(
            ExecutionResultDescription::Fail {
                failure: FailureDescription::Abort {
                    description: "SIGSEGV".to_owned(),
                },
                leaked: true,
            },
            Some("second"),
        ),
    ]);
    assert!(has_handle(&event, &handles));
    let finished = finished_for(&event, &handles).expect("Buck2 cares about this");
    assert_eq!(finished.handle, ConfiguredTargetHandle { id: 9 });
    assert_eq!(finished.name, "tests::it");
    assert_eq!(finished.status, TestStatus::Fail);
    assert_eq!(finished.duration, Some(Duration::new(2, 5)));
    assert_eq!(finished.details, "second");
    assert_eq!(finished.message.as_deref(), Some("2 attempts were made"));

    let request = report_request(finished);
    assert_eq!(request.name, "tests::it");
    assert_eq!(request.msg.as_deref(), Some("2 attempts were made"));
    assert_eq!(request.target, Some(ConfiguredTargetHandle { id: 9 }));
    assert_eq!(
        request.duration,
        Some(ProtoDuration {
            seconds: 2,
            nanos: 5
        })
    );
    assert_eq!(request.max_memory_used_bytes, None);

    let event = finished_event(vec![status(ExecutionResultDescription::Pass, None)]);
    let finished = finished_for(&event, &handles).expect("Buck2 cares about this");
    assert_eq!(finished.details, "");
    assert_eq!(finished.message, None);
}

#[test]
fn skipped_tests_are_reported_and_progress_is_not() {
    let mut handles = StringMap::new();
    handles.insert("root//:demo".to_owned(), ConfiguredTargetHandle { id: 9 });
    let event = ReporterEvent::Test {
        kind: TestEventKind::TestSkipped {
            test_instance: TestInstanceId {
                binary_id: "root//:demo".to_owned(),
                test_name: "tests::it".to_owned(),
            },
            reason: MismatchReason::Ignored,
        },
    };
    let finished = finished_for(&event, &handles).expect("Buck2 cares about this");
    assert_eq!(finished.status, TestStatus::Skip);
    assert_eq!(finished.duration, None);
    assert_eq!(report_request(finished).duration, None);

    assert!(!has_handle(&event, &StringMap::new()));
    assert_eq!(finished_for(&ReporterEvent::Tick, &StringMap::new()), None);
    let progress = ReporterEvent::Test {
        kind: TestEventKind::Progress,
    };
    assert!(has_handle(&progress, &StringMap::new()));
    assert_eq!(finished_for(&progress, &StringMap::new()), None);
}

#[test]
fn a_full_channel_is_waited_for_but_not_forever() {
    assert_eq!(send_step(SendOutcome::Sent, false), SendStep::Delivered);
    assert_eq!(send_step(SendOutcome::Sent, true), SendStep::Delivered);
    assert_eq!(send_step(SendOutcome::Full, false), SendStep::Retry);
    assert_eq!(send_step(SendOutcome::Full, true), SendStep::GiveUp);
    assert_eq!(send_step(SendOutcome::Disconnected, false), SendStep::GiveUp);
}

/// Pushes a value onto a channel for as long as [`send_step`] says to try.
fn push_value(sender: &SyncSender<u32>, value: u32, timeout: WallTime) -> SendStep {
    let deadline = Instant::now() + timeout;
    loop {
        let outcome = match sender.try_send(value) {
            Ok(()) => SendOutcome::Sent,
            Err(TrySendError::Full(_)) => SendOutcome::Full,
            Err(TrySendError::Disconnected(_)) => SendOutcome::Disconnected,
        };
        let step = send_step(outcome, Instant::now() >= deadline);
        if step != SendStep::Retry {
            return step;
        }
    }
}

/// A Buck2 that never reads again must not wedge the run: the wait ends,
/// and ending it is reported as a disconnect so the run is cancelled.
#[test]
fn a_channel_that_never_drains_gives_up() {
    let (sender, _receiver) = sync_channel::<u32>(1);
    sender.try_send(1).expect("the channel starts empty");

    let started = Instant::now();
    assert_eq!(
        push_value(&sender, 2, WallTime::from_millis(50)),
        SendStep::GiveUp,
        "the deadline passes with the channel still full"
    );
    assert!(
        started.elapsed() < WallTime::from_secs(5),
        "the wait is bounded, took {:?}",
        started.elapsed()
    );
}

#[test]
fn a_dropped_receiver_is_reported_at_once() {
    let (sender, receiver) = sync_channel::<u32>(1);
    sender.try_send(1).expect("the channel starts empty");
    drop(receiver);

    // A timeout long enough that returning promptly can only mean the
    // disconnect was noticed rather than waited out.
    let started = Instant::now();
    assert_eq!(
        push_value(&sender, 2, WallTime::from_secs(60)),
        SendStep::GiveUp,
        "a dropped receiver cannot take the value"
    );
    assert!(
        started.elapsed() < WallTime::from_secs(5),
        "the disconnect ended the wait, took {:?}",
        started.elapsed()
    );
}

#[test]
fn a_completed_handshake_survives_a_hangup() {
    let done = collect_step(CollectState {
        specs: Some(Some(vec![spec("demo")])),
        hung_up: true,
    });
    assert!(matches!(done, CollectStep::Done(specs) if specs.len() == 1));
    assert!(matches!(
        collect_step(CollectState {
            specs: None,
            hung_up: false
        }),
        CollectStep::Wait
    ));
    assert!(matches!(
        collect_step(CollectState {
            specs: None,
            hung_up: true
        }),
        CollectStep::Fail { shut_down: true }
    ));
    assert!(matches!(
        collect_step(CollectState {
            specs: Some(None),
            hung_up: false
        }),
        CollectStep::Fail { shut_down: false }
    ));
}

#[test]
fn serving_that_ends_well_means_buck2_hung_up() {
    assert!(matches!(
        serve_error(Some(Ok(()))),
        ExpectedError::Buck2Disconnected
    ));
    assert!(matches!(serve_error(None), ExpectedError::Buck2Disconnected));
    let error = serve_error(Some(Err(ExpectedError::WriteEventError {
        error: std::io::Error::other("broken pipe"),
    })));
    assert!(matches!(error, ExpectedError::WriteEventError { .. }));
}

#[test]
fn delivery_comes_first_and_no_tests_is_routine() {
    let code = |exit_code| {
        session_code(SessionOutcome {
            exit_code: Ok(exit_code),
            drained: Ok(()),
        })
        .expect("the session ends well")
    };
    assert_eq!(code(0), 0);
    assert_eq!(code(4), 0);
    assert_eq!(code(100), 100);

    let error = session_code(SessionOutcome {
        exit_code: Err(ExpectedError::WriteEventError {
            error: std::io::Error::other("cancelled"),
        }),
        drained: Err(ExpectedError::ReportResultsError {
            status: tonic::Status::unavailable("gone"),
        }),
    })
    .expect_err("results were not delivered");
    assert!(matches!(error, ExpectedError::ReportResultsError { .. }));
    assert_eq!(error.exit_code(), 110);
}

fn options(project_root: Option<&str>) -> ExecutorOptions {
    let mut extra_env = StringMap::new();
    extra_env.insert("KEY".to_owned(), "command line".to_owned());
    ExecutorOptions {
        project_root: project_root.map(Into::into),
        profile_name: Some("ci".to_owned()),
        config_file: None,
        filter: FilterOpts {
            filtersets: vec!["all()".to_owned()],
            patterns: vec!["it".to_owned()],
            run_ignored: RunIgnored::All,
            filter_bound: FilterBound::All,
            list_threads: 4,
        },
        extra_env,
        cli_args: vec!["buck2-nextest".to_owned()],
    }
}

fn platforms() -> Result<BuildPlatforms, ErrorChain> {
    Ok(BuildPlatforms {
        host: Platform {
            triple: "x86_64-unknown-linux-gnu".to_owned(),
            libdir: None,
        },
        target: None,
    })
}

fn unchanged(path: &str) -> Result<String, PathError> {
    Ok(path.to_owned())
}

#[test]
fn a_session_runs_in_the_context_buck2_described() {
    let mut item = prepared_target("one", "cfg:linux", 1, Some("/project"));
    item.target
        .env
        .insert("KEY".to_owned(), "target".to_owned());
    item.target
        .env
        .insert("OWN".to_owned(), "target".to_owned());
    let prepared = check_prepared(vec![item]).expect("the target is accepted");

    let mut told = None;
    let code = run(
        prepared,
        options(None),
        ReportUuid { value: 42 },
        &unchanged,
        platforms,
        |cx, handles, cli_args| {
            assert_eq!(cx.project_root, "/project");
            assert_eq!(cx.profile_name.as_deref(), Some("ci"));
            assert_eq!(cx.run_id, ReportUuid { value: 42 });
            assert_eq!(cx.filtersets, ["all()"]);
            assert_eq!(cx.filter_patterns, ["it"]);
            assert_eq!(cx.run_ignored, RunIgnored::All);
            assert_eq!(cx.filter_bound, FilterBound::All);
            assert_eq!(cx.list_threads, 4);
            assert_eq!(cx.no_tests, None);
            assert_eq!(cli_args, ["buck2-nextest"]);
            assert_eq!(
                handles.get("root//:one"),
                Some(&ConfiguredTargetHandle { id: 1 })
            );
            let binary = &cx.binaries.binary_list.rust_binaries[0];
            assert_eq!(binary.id, "root//:one");
            let env = &binary.invocation.env;
            assert_eq!(env.get("KEY").map(String::as_str), Some("command line"));
            assert_eq!(env.get("OWN").map(String::as_str), Some("target"));
            assert_eq!(binary.invocation.cwd.as_deref(), Some("/project"));
            SessionOutcome {
                exit_code: Ok(4),
                drained: Ok(()),
            }
        },
        |code| {
            told = Some(code);
            Ok(())
        },
    );
    assert_eq!(code.expect("the session ends well"), 0);
    assert_eq!(told, Some(0));
}

#[test]
fn the_command_line_names_the_root_first_and_this_directory_stands_in() {
    let root_of = |options: ExecutorOptions, implied: Option<&str>| {
        let prepared = check_prepared(vec![prepared_target("one", "cfg:linux", 1, implied)])
            .expect("the target is accepted");
        let mut root = String::new();
        run(
            prepared,
            options,
            ReportUuid { value: 1 },
            &unchanged,
            platforms,
            |cx, _, _| {
                root = cx.project_root.to_owned();
                SessionOutcome {
                    exit_code: Ok(0),
                    drained: Ok(()),
                }
            },
            |_| Ok(()),
        )
        .expect("the session ends well");
        root
    };
    assert_eq!(root_of(options(Some("/named")), Some("/implied")), "/named");
    assert_eq!(root_of(options(None), Some("/implied")), "/implied");
    assert_eq!(root_of(options(None), None), ".");
}

#[test]
fn a_session_that_cannot_end_is_an_error() {
    let session = |outcome: SessionOutcome| {
        run(
            check_prepared(Vec::new()).expect("no targets are accepted"),
            options(None),
            ReportUuid { value: 1 },
            &unchanged,
            platforms,
            |_, _, _| outcome,
            |_| Err(tonic::Status::unavailable("gone")),
        )
    };
    let error = session(SessionOutcome {
        exit_code: Ok(100),
        drained: Ok(()),
    })
    .expect_err("Buck2 is not told");
    assert!(matches!(error, ExpectedError::ReportResultsError { .. }));

    let error = run(
        check_prepared(Vec::new()).expect("no targets are accepted"),
        options(None),
        ReportUuid { value: 1 },
        &unchanged,
        || {
            Err(ErrorChain {
                messages: Vec::new(),
            })
        },
        |_, _, _| panic!("there is nothing to run with"),
        |_| Ok(()),
    )
    .expect_err("the host is not known");
    assert!(matches!(error, ExpectedError::HostPlatformDetectError { .. }));
}
