//! Nextest's documented exit codes.

use nextest_metadata::NextestExitCode;
use vstd::prelude::*;

verus! {

/// Reads `NextestExitCode::NO_TESTS_RUN`: no tests were selected to run.
#[verifier::external_body]
pub(crate) fn no_tests_run() -> (code: i32)
    ensures
        code == 4,
{
    NextestExitCode::NO_TESTS_RUN
}

/// Reads `NextestExitCode::RERUN_TESTS_OUTSTANDING`: every test that ran
/// passed, but outstanding tests of the rerun were not seen.
#[verifier::external_body]
pub(crate) fn rerun_tests_outstanding() -> (code: i32)
    ensures
        code == 5,
{
    NextestExitCode::RERUN_TESTS_OUTSTANDING
}

/// Reads `NextestExitCode::INVALID_FILTERSET`: a filterset failed to parse.
#[verifier::external_body]
pub(crate) fn invalid_filterset() -> (code: i32)
    ensures
        code == 94,
{
    NextestExitCode::INVALID_FILTERSET
}

/// Reads `NextestExitCode::SETUP_ERROR`: the invocation could not be set up.
#[verifier::external_body]
pub(crate) fn setup_error() -> (code: i32)
    ensures
        code == 96,
{
    NextestExitCode::SETUP_ERROR
}

/// Reads `NextestExitCode::TEST_RUN_FAILED`: one or more tests failed.
#[verifier::external_body]
pub(crate) fn test_run_failed() -> (code: i32)
    ensures
        code == 100,
{
    NextestExitCode::TEST_RUN_FAILED
}

/// Reads `NextestExitCode::TEST_LIST_CREATION_FAILED`: the test list could not
/// be created.
#[verifier::external_body]
pub(crate) fn test_list_creation_failed() -> (code: i32)
    ensures
        code == 104,
{
    NextestExitCode::TEST_LIST_CREATION_FAILED
}

/// Reads `NextestExitCode::SETUP_SCRIPT_FAILED`: a setup script failed.
#[verifier::external_body]
pub(crate) fn setup_script_failed() -> (code: i32)
    ensures
        code == 105,
{
    NextestExitCode::SETUP_SCRIPT_FAILED
}

/// Reads `NextestExitCode::WRITE_OUTPUT_ERROR`: writing output failed.
#[verifier::external_body]
pub(crate) fn write_output_error() -> (code: i32)
    ensures
        code == 110,
{
    NextestExitCode::WRITE_OUTPUT_ERROR
}

} // verus!
