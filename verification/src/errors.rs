//! Errors that are expected to occur in normal operation.

use crate::exit_code;
use crate::session::errors::{
    ErrorChain, StoreDirCreateError, TestRunnerExecuteErrors, WriteEventError,
};
use crate::stats::CancelReason;
use vstd::prelude::*;

verus! {

/// Declares `camino::FromPathBufError`, which is carried through unread.
#[verifier::external_type_specification]
#[verifier::external_body]
pub struct ExFromPathBufError(camino::FromPathBufError);

/// Declares `nextest_filtering::errors::FiltersetParseErrors`, which is carried
/// through unread.
#[verifier::external_type_specification]
#[verifier::external_body]
pub struct ExFiltersetParseErrors(nextest_filtering::errors::FiltersetParseErrors);

/// Declares `serde_json::Error`, which is carried through unread.
#[verifier::external_type_specification]
#[verifier::external_body]
pub struct ExJsonError(serde_json::Error);

/// Declares `tonic::Status`, which is carried through unread.
#[verifier::external_type_specification]
#[verifier::external_body]
pub struct ExStatus(tonic::Status);

/// An error that is expected to occur in normal operation, and that carries an
/// exit code.
///
/// These are user or environment errors, as opposed to internal errors.
#[allow(inconsistent_fields)]
#[derive(Debug)]
pub enum ExpectedError {
    /// The current directory could not be determined.
    CurrentDirError {
        /// The underlying error.
        error: std::io::Error,
    },

    /// The current directory was not valid UTF-8.
    CurrentDirNonUtf8 {
        /// The underlying error, which carries the path.
        error: camino::FromPathBufError,
    },

    /// The project root could not be made absolute.
    ProjectRootAbsoluteError {
        /// The project root as it was given.
        path: String,

        /// The underlying error.
        error: std::io::Error,
    },

    /// The project root, made absolute, was not valid UTF-8.
    ProjectRootNonUtf8 {
        /// The project root as it was given.
        path: String,

        /// The underlying error.
        error: camino::FromPathBufError,
    },

    /// The host platform could not be determined.
    HostPlatformDetectError {
        /// The underlying error.
        error: ErrorChain,
    },

    /// Nextest's configuration could not be parsed.
    ConfigParseError {
        /// The underlying error.
        error: ErrorChain,
    },

    /// The requested profile was not found.
    ProfileNotFound {
        /// The underlying error.
        error: ErrorChain,
    },

    /// Some filtersets could not be parsed.
    FiltersetParseError {
        /// What is wrong with each of them.
        all_errors: Vec<nextest_filtering::errors::FiltersetParseErrors>,
    },

    /// The test filter could not be constructed.
    TestFilterBuildError {
        /// The underlying error.
        error: ErrorChain,
    },

    /// The binary list could not be converted into test artifacts.
    FromMessagesError {
        /// The underlying error.
        error: ErrorChain,
    },

    /// The test list could not be created.
    CreateTestListError {
        /// The underlying error.
        error: ErrorChain,
    },

    /// The test runner could not be built.
    TestRunnerBuildError {
        /// The underlying error.
        error: ErrorChain,
    },

    /// Creating the store directory for the profile's reports failed.
    StoreDirCreateError {
        /// The underlying error.
        error: StoreDirCreateError,
    },

    /// The test Buck2 asked for was not in the binary.
    ///
    /// Buck2 only ever runs a test it saw in the listing, so this means the two
    /// disagree.
    TestNotFound {
        /// The target the test was expected in.
        label: String,

        /// The test name Buck2 asked for.
        test_name: String,
    },

    /// The JSON written for Buck2 could not be serialized.
    ResultSerializeError {
        /// The underlying error.
        error: serde_json::Error,
    },

    /// Writing output failed.
    WriteEventError {
        /// The underlying error.
        error: std::io::Error,
    },

    /// Configuring how file handles are inherited failed.
    ConfigureHandleInheritance {
        /// The underlying error.
        error: ErrorChain,
    },

    /// The runner failed to execute tests or to report their results.
    TestRunExecuteError {
        /// The underlying errors.
        error: TestRunnerExecuteErrors<WriteEventError>,
    },

    /// The run ended before the test Buck2 asked for reported a result.
    ///
    /// The test was in the listing, so unlike [`Self::TestNotFound`] the two
    /// agree; something stopped the run first, and that cause is what the user
    /// needs to see.
    RunCancelled {
        /// The target the test was expected in.
        label: String,

        /// The test name Buck2 asked for.
        test_name: String,

        /// Why the run was cancelled.
        reason: CancelReason,
    },

    /// A message from Buck2 left out something that is needed.
    SpecMissingField {
        /// The field that was left out.
        field: String,

        /// The target it was needed for.
        label: String,
    },

    /// A target's tests are of a type this runner does not run.
    UnsupportedTestType {
        /// The target.
        label: String,

        /// The type of its tests.
        test_type: String,
    },

    /// A target's command has no program in it.
    EmptyCommand {
        /// The target.
        label: String,
    },

    /// Buck2 did not say how to run a target.
    PrepareForLocalExecutionError {
        /// The target.
        label: String,

        /// What Buck2 answered instead.
        status: tonic::Status,
    },

    /// Two targets have the same label.
    DuplicateTargetLabel {
        /// The label.
        label: String,
    },

    /// Two targets imply different project roots.
    ConflictingProjectRoots {
        /// The root implied first.
        first: String,

        /// The root that differs from it.
        second: String,

        /// The target that implied the second.
        label: String,
    },

    /// The runtime that drives the connections could not be created.
    RuntimeCreateError {
        /// The underlying error.
        error: std::io::Error,
    },

    /// Results could not be delivered to Buck2.
    ReportResultsError {
        /// What Buck2 answered instead.
        status: tonic::Status,
    },

    /// Buck2 hung up before it had sent everything.
    Buck2Disconnected,
}

impl ExpectedError {
    /// The exit code for this error.
    pub open spec fn code(&self) -> i32 {
        match self {
            ExpectedError::FiltersetParseError { .. } => 94,
            ExpectedError::FromMessagesError { .. } | ExpectedError::CreateTestListError { .. }
            | ExpectedError::TestNotFound { .. } => 104,
            ExpectedError::RunCancelled { reason, .. } => if *reason
                == CancelReason::SetupScriptFailure {
                105
            } else {
                100
            },
            ExpectedError::ResultSerializeError { .. } | ExpectedError::WriteEventError { .. }
            | ExpectedError::TestRunExecuteError { .. }
            | ExpectedError::ReportResultsError { .. } => 110,
            _ => 96,
        }
    }

    /// Returns the process exit code for this error.
    ///
    /// These match `cargo-nextest`'s codes so that tooling can treat the two
    /// binaries alike.
    pub fn exit_code(&self) -> (code: i32)
        ensures
            code == self.code(),
    {
        match self {
            ExpectedError::CurrentDirError { .. } | ExpectedError::CurrentDirNonUtf8 { .. }
            | ExpectedError::ProjectRootAbsoluteError { .. }
            | ExpectedError::ProjectRootNonUtf8 { .. }
            | ExpectedError::HostPlatformDetectError { .. } | ExpectedError::ConfigParseError { .. }
            | ExpectedError::ProfileNotFound { .. } | ExpectedError::TestFilterBuildError { .. }
            | ExpectedError::TestRunnerBuildError { .. }
            | ExpectedError::StoreDirCreateError { .. } => exit_code::setup_error(),
            ExpectedError::FiltersetParseError { .. } => exit_code::invalid_filterset(),
            ExpectedError::FromMessagesError { .. } | ExpectedError::CreateTestListError { .. }
            | ExpectedError::TestNotFound { .. } => exit_code::test_list_creation_failed(),
            ExpectedError::ConfigureHandleInheritance { .. } => exit_code::setup_error(),
            ExpectedError::RunCancelled { reason, .. } => match reason {
                CancelReason::SetupScriptFailure => exit_code::setup_script_failed(),
                _ => exit_code::test_run_failed(),
            },
            ExpectedError::ResultSerializeError { .. } | ExpectedError::WriteEventError { .. }
            | ExpectedError::TestRunExecuteError { .. }
            | ExpectedError::ReportResultsError { .. } => exit_code::write_output_error(),
            ExpectedError::SpecMissingField { .. } | ExpectedError::UnsupportedTestType { .. }
            | ExpectedError::EmptyCommand { .. }
            | ExpectedError::PrepareForLocalExecutionError { .. }
            | ExpectedError::DuplicateTargetLabel { .. }
            | ExpectedError::ConflictingProjectRoots { .. }
            | ExpectedError::RuntimeCreateError { .. }
            | ExpectedError::Buck2Disconnected => exit_code::setup_error(),
        }
    }
}

/// An expected error never exits zero, nor with the code for a run that
/// selected no tests, so Buck2 cannot take one for a run that went well.
pub proof fn law_errors_are_not_successes(error: ExpectedError)
    ensures
        error.code() != 0,
        error.code() != 4,
        error.code() != 5,
{
}

/// Each error exits with the code for what went wrong: a filterset that did not
/// parse, a test list that could not be had, a run that ended early, results that
/// could not be passed on, and otherwise a setup that did not work out.
pub proof fn law_errors_exit_by_cause(error: ExpectedError)
    ensures
        error.code() == 94 <==> error is FiltersetParseError,
        error.code() == 104 <==> error is FromMessagesError || error is CreateTestListError
            || error is TestNotFound,
        error.code() == 105 <==> (error matches ExpectedError::RunCancelled { reason, .. } && reason
            == CancelReason::SetupScriptFailure),
        error.code() == 100 <==> (error matches ExpectedError::RunCancelled { reason, .. } && reason
            != CancelReason::SetupScriptFailure),
        error.code() == 110 <==> error is ResultSerializeError || error is WriteEventError
            || error is TestRunExecuteError || error is ReportResultsError,
        error.code() == 96 <==> error is CurrentDirError || error is CurrentDirNonUtf8
            || error is ProjectRootAbsoluteError || error is ProjectRootNonUtf8
            || error is HostPlatformDetectError || error is ConfigParseError
            || error is ProfileNotFound || error is TestFilterBuildError
            || error is TestRunnerBuildError || error is StoreDirCreateError
            || error is ConfigureHandleInheritance || error is SpecMissingField
            || error is UnsupportedTestType || error is EmptyCommand
            || error is PrepareForLocalExecutionError || error is DuplicateTargetLabel
            || error is ConflictingProjectRoots || error is RuntimeCreateError
            || error is Buck2Disconnected,
{
}

} // verus!
