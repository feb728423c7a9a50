//! The exit codes of expected errors.

use buck2_nextest::errors::ExpectedError;
use buck2_nextest::session::errors::{
    ErrorChain, StoreDirCreateError, TestRunnerExecuteErrors, WriteEventError,
};
use buck2_nextest::stats::CancelReason;

fn chain() -> ErrorChain {
    ErrorChain {
        messages: vec!["it went wrong".to_owned()],
    }
}

fn io() -> std::io::Error {
    std::io::Error::other("it went wrong")
}

#[test]
fn setup_errors_share_a_code() {
    let errors = vec![
        ExpectedError::CurrentDirError { error: io() },
        ExpectedError::ProjectRootAbsoluteError {
            path: "root".to_owned(),
            error: io(),
        },
        ExpectedError::HostPlatformDetectError { error: chain() },
        ExpectedError::ConfigParseError { error: chain() },
        ExpectedError::ProfileNotFound { error: chain() },
        ExpectedError::TestFilterBuildError { error: chain() },
        ExpectedError::TestRunnerBuildError { error: chain() },
        ExpectedError::StoreDirCreateError {
            error: StoreDirCreateError {
                store_dir: "store".to_owned(),
                error: io(),
            },
        },
        ExpectedError::ConfigureHandleInheritance { error: chain() },
        ExpectedError::SpecMissingField {
            field: "target".to_owned(),
            label: "<unknown>".to_owned(),
        },
        ExpectedError::UnsupportedTestType {
            label: "root//:demo".to_owned(),
            test_type: "python".to_owned(),
        },
        ExpectedError::EmptyCommand {
            label: "root//:demo".to_owned(),
        },
        ExpectedError::PrepareForLocalExecutionError {
            label: "root//:demo".to_owned(),
            status: tonic::Status::unavailable("gone"),
        },
        ExpectedError::DuplicateTargetLabel {
            label: "root//:demo".to_owned(),
        },
        ExpectedError::ConflictingProjectRoots {
            first: "/one".to_owned(),
            second: "/two".to_owned(),
            label: "root//:demo".to_owned(),
        },
        ExpectedError::RuntimeCreateError { error: io() },
        ExpectedError::Buck2Disconnected,
    ];
    for error in &errors {
        assert_eq!(error.exit_code(), 96, "{error:?}");
    }
}

#[test]
fn listing_errors_share_a_code() {
    let errors = vec![
        ExpectedError::FromMessagesError { error: chain() },
        ExpectedError::CreateTestListError { error: chain() },
        ExpectedError::TestNotFound {
            label: "root//:demo".to_owned(),
            test_name: "demo".to_owned(),
        },
    ];
    for error in &errors {
        assert_eq!(error.exit_code(), 104, "{error:?}");
    }
}

#[test]
fn output_errors_share_a_code() {
    let json = serde_json::from_str::<bool>("not json").expect_err("it is not JSON");
    let errors = vec![
        ExpectedError::ResultSerializeError { error: json },
        ExpectedError::WriteEventError { error: io() },
        ExpectedError::TestRunExecuteError {
            error: TestRunnerExecuteErrors {
                report_error: Some(WriteEventError::Io(io())),
                join_errors: Vec::new(),
            },
        },
        ExpectedError::ReportResultsError {
            status: tonic::Status::unavailable("gone"),
        },
    ];
    for error in &errors {
        assert_eq!(error.exit_code(), 110, "{error:?}");
    }
}

#[test]
fn filterset_errors_have_a_code_of_their_own() {
    let error = ExpectedError::FiltersetParseError {
        all_errors: Vec::new(),
    };
    assert_eq!(error.exit_code(), 94);
}

#[test]
fn a_cancelled_run_exits_as_what_cancelled_it() {
    let code = |reason| {
        ExpectedError::RunCancelled {
            label: "root//:demo".to_owned(),
            test_name: "demo".to_owned(),
            reason,
        }
        .exit_code()
    };
    assert_eq!(code(CancelReason::SetupScriptFailure), 105);
    for reason in [
        CancelReason::TestFailure,
        CancelReason::ReportError,
        CancelReason::GlobalTimeout,
        CancelReason::TestFailureImmediate,
        CancelReason::Signal,
        CancelReason::Interrupt,
        CancelReason::SecondSignal,
    ] {
        assert_eq!(code(reason), 100);
    }
}
