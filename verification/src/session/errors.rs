//! Errors produced by the session pipeline.
//!
//! Each phase returns its natural error type rather than one merged enum, so
//! that a frontend can keep its own rendering and exit-code policy for each.

use std::convert::Infallible;
use vstd::prelude::*;

verus! {

/// The messages of an error: its own, then that of what caused it, and so on.
///
/// This is how an error that only its own crate can describe travels through
/// this one.
#[derive(Debug, Eq, PartialEq)]
pub struct ErrorChain {
    /// The messages, outermost first.
    pub messages: Vec<String>,
}

/// Declares `std::io::Error`, which is carried through unread.
#[verifier::external_type_specification]
#[verifier::external_body]
pub struct ExIoError(std::io::Error);

/// Declares `tokio::task::JoinError`, which is carried through unread.
#[verifier::external_type_specification]
#[verifier::external_body]
pub struct ExJoinError(tokio::task::JoinError);

/// An error building a test list from a session's inputs.
#[derive(Debug)]
pub enum SessionBuildError {
    /// Converting the binary list into test artifacts failed.
    FromMessages(ErrorChain),

    /// Building the test list failed.
    CreateTestList(ErrorChain),
}

/// An error creating the store directory a profile's reports go in.
#[derive(Debug)]
pub struct StoreDirCreateError {
    /// The directory that could not be created.
    pub store_dir: String,

    /// The underlying error.
    pub error: std::io::Error,
}

/// An error writing an event to the reporter.
#[derive(Debug)]
pub enum WriteEventError {
    /// Writing to the output failed.
    Io(std::io::Error),

    /// A report on disk could not be produced.
    Report(ErrorChain),
}

/// Why a run's event callback failed.
///
/// The two arms are kept apart so the message says whether the run stopped
/// because results could not be delivered or because they could not be
/// rendered.
#[derive(Debug)]
pub enum SinkError<E> {
    /// Forwarding an event to the caller's sink failed.
    Sink(E),

    /// Writing an event to the reporter failed.
    Report(WriteEventError),
}

impl SinkError<Infallible> {
    /// With an infallible sink, only the reporter can fail.
    pub fn into_report_error(self) -> (error: WriteEventError)
        ensures
            self matches SinkError::Report(reported) ==> error == reported,
    {
        match self {
            Self::Report(error) => error,
        }
    }
}

/// What went wrong while the runner executed tests.
#[derive(Debug)]
pub struct TestRunnerExecuteErrors<E> {
    /// The first error the event callback returned, if it returned one.
    pub report_error: Option<E>,

    /// The tasks that did not run to completion.
    pub join_errors: Vec<tokio::task::JoinError>,
}

/// An error executing a run to completion.
#[derive(Debug)]
pub enum ExecuteError<E> {
    /// Configuring how file handles are inherited failed.
    ConfigureHandleInheritance(ErrorChain),

    /// The runner failed to execute tests or to report their results.
    Execute(TestRunnerExecuteErrors<SinkError<E>>),
}

/// Maps [`TestRunnerExecuteErrors`] over an infallible sink back to the
/// reporter's own error type.
///
/// This lets a frontend with no sink keep handling the error type it would
/// see driving the runner directly.
pub fn into_report_errors(
    errors: TestRunnerExecuteErrors<SinkError<Infallible>>,
) -> (mapped: TestRunnerExecuteErrors<WriteEventError>)
    ensures
        match errors.report_error {
            Some(SinkError::Report(error)) => mapped.report_error == Some(error),
            Some(SinkError::Sink(_)) => mapped.report_error is Some,
            None => mapped.report_error is None,
        },
        mapped.join_errors == errors.join_errors,
{
    TestRunnerExecuteErrors {
        report_error: match errors.report_error {
            Some(error) => Some(error.into_report_error()),
            None => None,
        },
        join_errors: errors.join_errors,
    }
}

} // verus!
