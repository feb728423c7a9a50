//! What Buck2's Starlark callbacks read.
//!
//! Buck2's callbacks are pure Starlark: they cannot run anything, so all the
//! judgement has to be here and the callback reduced to `json.decode`. That
//! puts the whole listing and result vocabulary in this module.
//!
//! Two shapes, matching what `InternalRunnerTestInfo` documents:
//!
//! * `parse_test_listing` reads a list of `{"name", "filter"}`, where `name` is
//!   displayed and `filter` is what selects the test to run.
//! * `parse_test_result` reads a list of `{"name", "status", "message",
//!   "duration", "details"}`.
//!
//! Buck2 appends a listing entry's `filter` as the final argument of the run
//! command, so the two are one contract: a `filter` here must be something
//! the run mode can select, and the `name` reported for a result must be
//! the `name` the listing gave, or Buck2 cannot match them up.

use crate::duration::Duration;
use crate::events::{
    total_time, ChildExecutionOutputDescription, ChildOutputDescription, ExecuteStatus,
    ExecutionDescription, ExecutionResultDescription, ExecutionStatuses, FailureDescription,
    FlakyResult, LeakTimeoutResult, MismatchReason, SlowTimeoutResult, TestInstanceId,
};
use crate::text::{decimal, lemma_decimal_digits, occurs_at, occurs_in, optional_text, push_decimal};
use vstd::prelude::*;
use vstd::string::*;

verus! {

/// One entry in the listing Buck2 reads.
#[derive(Debug, Eq, PartialEq)]
pub struct ListedTest {
    /// What Buck2 displays for this test.
    pub name: String,

    /// What selects this test for execution.
    pub filter: String,
}

/// A test's outcome, in Buck2's vocabulary.
///
/// `OMITTED` is deliberately absent: it means a test Buck2 chose not to run,
/// which is a decision made before this binary is invoked at all.
#[derive(Clone, Copy, Debug, Eq, PartialEq, Structural)]
pub enum BuckTestStatus {
    /// The test passed.
    Pass,

    /// The test failed.
    Fail,

    /// The test was not run.
    Skip,

    /// The test was terminated for running too long.
    Timeout,
}

/// One result in the report Buck2 reads.
#[derive(Debug, Eq, PartialEq)]
pub struct TestResult {
    /// The name this test was listed under.
    pub name: String,

    /// How it went.
    pub status: BuckTestStatus,

    /// A one-line summary, shown against the result.
    pub message: Option<String>,

    /// How long the test took.
    pub duration: Option<Duration>,

    /// The full diagnostic output.
    pub details: Option<String>,
}

/// The name of a test, given its target's label and its own name.
pub open spec fn display_text(label: Seq<char>, test_name: Seq<char>) -> Seq<char> {
    label + " - "@ + test_name
}

/// Returns the name a test is listed and reported under.
///
/// The target label is included because Buck2 shows results from every target
/// together, and the same test path can appear under more than one of them --
/// a per-module target and an all-in-one target compiling the same sources,
/// say. The bare test path stays the `filter`, since that is what the binary
/// itself understands.
pub fn display_name(label: &str, test_name: &str) -> (name: String)
    ensures
        name@ == display_text(label@, test_name@),
{
    let mut name: String = label.to_owned();
    name.append(" - ");
    name.append(test_name);
    name
}

/// Within one target, tests with different names are displayed differently.
pub proof fn law_display_names_are_distinct(
    label: Seq<char>,
    left: Seq<char>,
    right: Seq<char>,
)
    ensures
        display_text(label, left) == display_text(label, right) <==> left == right,
{
    if display_text(label, left) == display_text(label, right) {
        let skipped = (label + " - "@).len() as int;
        let shown = display_text(label, left);
        assert(left =~= shown.subrange(skipped, shown.len() as int));
        assert(right =~= shown.subrange(skipped, shown.len() as int));
    }
}

/// The status for an attempt that failed.
pub open spec fn failed_status(result: ExecutionResultDescription) -> BuckTestStatus {
    if result is Timeout {
        BuckTestStatus::Timeout
    } else {
        BuckTestStatus::Fail
    }
}

/// Returns the status for an attempt that failed.
///
/// A nextest timeout is reported as such rather than folded into a plain
/// failure, since Buck2 has a status for it and the distinction is what tells
/// a slow test from a broken one. Buck2's own action timeout never reaches
/// here: it kills the action, and Buck2 decides the status without asking.
pub fn failure_status(status: &ExecuteStatus) -> (shown: BuckTestStatus)
    ensures
        shown == failed_status(status.result),
{
    match &status.result {
        ExecutionResultDescription::Timeout { .. } => BuckTestStatus::Timeout,
        ExecutionResultDescription::Pass | ExecutionResultDescription::Leak { .. }
        | ExecutionResultDescription::Fail { .. }
        | ExecutionResultDescription::ExecFail => BuckTestStatus::Fail,
    }
}

/// The note for an attempt that passed despite something notable.
pub open spec fn tolerated_text(result: ExecutionResultDescription) -> Option<Seq<char>> {
    match result {
        ExecutionResultDescription::Leak { .. } => Some(
            "test passed but leaked handles within the leak timeout"@,
        ),
        ExecutionResultDescription::Timeout { .. } => Some(
            "test timed out, which this profile treats as a pass"@,
        ),
        _ => None,
    }
}

/// Returns a note for an attempt that passed despite something notable.
///
/// A leak or a timeout the profile treats as a pass still counts as a pass, but
/// saying nothing at all would hide it: the run is green and the reason is only
/// in the configuration.
pub fn tolerated_message(status: &ExecuteStatus) -> (message: Option<String>)
    ensures
        optional_text(message) == tolerated_text(status.result),
{
    match &status.result {
        ExecutionResultDescription::Leak { .. } => Some(
            "test passed but leaked handles within the leak timeout".to_owned(),
        ),
        ExecutionResultDescription::Timeout { .. } => Some(
            "test timed out, which this profile treats as a pass".to_owned(),
        ),
        ExecutionResultDescription::Pass | ExecutionResultDescription::Fail { .. }
        | ExecutionResultDescription::ExecFail => None,
    }
}

/// The one-line summary of an attempt that failed, before anything is said of
/// leaked handles.
pub open spec fn failed_summary(status: ExecuteStatus) -> Option<Seq<char>> {
    match (status.error_summary, status.output_error_slice) {
        (Some(summary), _) => Some(summary.short_message@),
        (None, Some(slice)) => Some(slice.slice@),
        (None, None) => match status.result {
            ExecutionResultDescription::Fail { .. } => Some("test failed"@),
            ExecutionResultDescription::ExecFail => Some("the test process failed to start"@),
            ExecutionResultDescription::Timeout { .. } => Some(
                "test exceeded the slow timeout and was terminated"@,
            ),
            ExecutionResultDescription::Leak { .. } => Some(
                "test leaked handles past the leak timeout"@,
            ),
            ExecutionResultDescription::Pass => None,
        },
    }
}

/// The one-line summary of an attempt that failed.
pub open spec fn failed_text(status: ExecuteStatus) -> Option<Seq<char>> {
    match failed_summary(status) {
        Some(summary) => if status.result matches ExecutionResultDescription::Fail {
            leaked: true,
            ..
        } {
            Some(summary + "; the test also leaked handles"@)
        } else {
            Some(summary)
        },
        None => None,
    }
}

/// Returns the one-line summary for an attempt that failed.
///
/// Nextest has usually already worked out the interesting line -- a panic
/// message, or the head of an error chain -- so prefer what it computed over
/// anything reconstructed here.
pub fn failure_message(status: &ExecuteStatus) -> (message: Option<String>)
    ensures
        optional_text(message) == failed_text(*status),
{
    let mut message: String = match (&status.error_summary, &status.output_error_slice) {
        (Some(summary), _) => summary.short_message.clone(),
        (None, Some(slice)) => slice.slice.clone(),
        (None, None) => match &status.result {
            ExecutionResultDescription::Fail { .. } => "test failed".to_owned(),
            ExecutionResultDescription::ExecFail => "the test process failed to start".to_owned(),
            ExecutionResultDescription::Timeout {
                ..
            } => "test exceeded the slow timeout and was terminated".to_owned(),
            ExecutionResultDescription::Leak {
                ..
            } => "test leaked handles past the leak timeout".to_owned(),
            ExecutionResultDescription::Pass => {
                return None;
            },
        },
    };

    if matches!(&status.result, ExecutionResultDescription::Fail { leaked: true, .. }) {
        message.append("; the test also leaked handles");
    }
    Some(message)
}

/// What `String::from_utf8_lossy` makes of some bytes.
pub uninterp spec fn lossy_text(bytes: Seq<u8>) -> Seq<char>;

/// Calls `String::from_utf8_lossy`: the bytes as text, with whatever is not
/// valid UTF-8 replaced. Bytes that are valid give the text they encode.
#[verifier::external_body]
fn decode_lossy(bytes: &[u8]) -> (text: String)
    ensures
        text@ == lossy_text(bytes@),
        vstd::utf8::valid_utf8(bytes@) ==> text@ == vstd::utf8::decode_utf8(bytes@),
{
    String::from_utf8_lossy(bytes).into_owned()
}

/// The text that some bytes are shown as: what they encode, where that is valid
/// UTF-8.
pub open spec fn shown_text(bytes: Seq<u8>) -> Seq<char> {
    if vstd::utf8::valid_utf8(bytes) {
        vstd::utf8::decode_utf8(bytes)
    } else {
        lossy_text(bytes)
    }
}

/// One captured stream, under a heading, if it has anything in it.
pub open spec fn section_text(name: Seq<char>, bytes: Option<Seq<u8>>) -> Seq<char> {
    match bytes {
        Some(bytes) if bytes.len() > 0 => {
            let shown = "--- "@ + name + " ---\n"@ + shown_text(bytes);
            if bytes.last() == 10u8 {
                shown
            } else {
                shown + "\n"@
            }
        },
        _ => seq![],
    }
}

/// The bytes of a captured stream.
pub open spec fn stream(bytes: Option<Vec<u8>>) -> Option<Seq<u8>> {
    match bytes {
        Some(bytes) => Some(bytes@),
        None => None,
    }
}

/// Appends one captured stream, if it has anything in it.
///
/// Test output is whatever the test wrote, so it is not necessarily UTF-8;
/// Buck2's callback takes a string, so it is transcoded lossily rather than
/// dropped.
fn append_section(buf: &mut String, name: &str, bytes: Option<&[u8]>)
    ensures
        final(buf)@ == old(buf)@ + section_text(
            name@,
            match bytes {
                Some(bytes) => Some(bytes@),
                None => None,
            },
        ),
{
    if let Some(bytes) = bytes {
        if bytes.len() > 0 {
            let ghost before = buf@;
            buf.append("--- ");
            buf.append(name);
            buf.append(" ---\n");
            buf.append(decode_lossy(bytes).as_str());
            if bytes[bytes.len() - 1] != 10 {
                buf.append("\n");
            }
            assert(buf@ =~= before + section_text(name@, Some(bytes@)));
        }
    }
    assert(buf@ =~= old(buf)@ + section_text(
        name@,
        match bytes {
            Some(bytes) => Some(bytes@),
            None => None,
        },
    ));
}

/// What there is to show for an attempt, headings included.
pub open spec fn output_text(output: ChildExecutionOutputDescription) -> Seq<char> {
    match output {
        ChildExecutionOutputDescription::Output { output } => match output {
            ChildOutputDescription::Split { stdout, stderr } => section_text(
                "stdout"@,
                stream(stdout),
            ) + section_text("stderr"@, stream(stderr)),
            ChildOutputDescription::Combined { output } => section_text("output"@, Some(output@)),
            ChildOutputDescription::NotLoaded => seq![],
        },
        ChildExecutionOutputDescription::StartError(error) => error@ + "\n"@,
    }
}

/// The error of an attempt in full, if nextest could work one out.
pub open spec fn summary_text(status: ExecuteStatus) -> Seq<char> {
    match status.error_summary {
        Some(summary) => summary.description@ + "\n"@,
        None => seq![],
    }
}

/// The diagnostic detail for an attempt: the error in full, then the output.
pub open spec fn details_text(status: ExecuteStatus) -> Option<Seq<char>> {
    let all = summary_text(status) + output_text(status.output);
    if all.len() == 0 {
        None
    } else {
        Some(all)
    }
}

/// Renders the diagnostic detail for an attempt.
///
/// Buck2 stores this against the result, so it is only produced for attempts
/// worth looking at -- a passing test's output would be stored for every test
/// in the repository and read for none of them.
pub fn details_for(status: &ExecuteStatus) -> (details: Option<String>)
    ensures
        optional_text(details) == details_text(*status),
{
    let mut buf: String = "".to_owned();
    proof {
        reveal_strlit("");
    }
    assert(buf@ =~= Seq::<char>::empty());

    if let Some(summary) = &status.error_summary {
        buf.append(summary.description.as_str());
        buf.append("\n");
    }
    assert(buf@ =~= summary_text(*status));

    match &status.output {
        ChildExecutionOutputDescription::Output { output } => match output {
            ChildOutputDescription::Split { stdout, stderr } => {
                append_section(
                    &mut buf,
                    "stdout",
                    match stdout {
                        Some(bytes) => Some(bytes.as_slice()),
                        None => None,
                    },
                );
                append_section(
                    &mut buf,
                    "stderr",
                    match stderr {
                        Some(bytes) => Some(bytes.as_slice()),
                        None => None,
                    },
                );
            },
            ChildOutputDescription::Combined { output } => {
                append_section(&mut buf, "output", Some(output.as_slice()));
            },
            ChildOutputDescription::NotLoaded => {},
        },
        ChildExecutionOutputDescription::StartError(error) => {
            buf.append(error.as_str());
            buf.append("\n");
        },
    }
    assert(buf@ =~= summary_text(*status) + output_text(status.output));

    if buf.as_str().is_empty() {
        None
    } else {
        Some(buf)
    }
}

/// The one-line summary of a test that passed only on a later attempt.
pub open spec fn flaky_text(
    attempt: nat,
    total_attempts: nat,
    failed: nat,
    result: FlakyResult,
) -> Seq<char> {
    match result {
        FlakyResult::Pass => "flaky: passed on attempt "@ + decimal(attempt) + " of "@ + decimal(
            total_attempts,
        ) + ", after "@ + decimal(failed) + " failed"@,
        FlakyResult::Fail => "configured to fail when flaky: attempt "@ + decimal(attempt)
            + " of "@ + decimal(total_attempts) + " passed, after "@ + decimal(failed)
            + " failed"@,
    }
}

/// Returns the one-line summary for a test that passed only on a later attempt.
///
/// A profile may count such a test as a failure. The summary then says that
/// this is why it failed, rather than describing the pass.
fn flaky_message(last_status: &ExecuteStatus, failed: usize, result: FlakyResult) -> (message:
    String)
    ensures
        message@ == flaky_text(
            last_status.retry_data.attempt as nat,
            last_status.retry_data.total_attempts as nat,
            failed as nat,
            result,
        ),
{
    let mut message: String = match result {
        FlakyResult::Pass => "flaky: passed on attempt ".to_owned(),
        FlakyResult::Fail => "configured to fail when flaky: attempt ".to_owned(),
    };
    push_decimal(&mut message, last_status.retry_data.attempt as u64);
    message.append(" of ");
    push_decimal(&mut message, last_status.retry_data.total_attempts as u64);
    match result {
        FlakyResult::Pass => message.append(", after "),
        FlakyResult::Fail => message.append(" passed, after "),
    }
    push_decimal(&mut message, failed as u64);
    message.append(" failed");
    message
}

/// The status for a test that ran to completion.
pub open spec fn finished_status(attempts: Seq<ExecuteStatus>, flaky: FlakyResult) -> BuckTestStatus {
    let last = attempts.last();
    if !last.result.success() {
        failed_status(last.result)
    } else if attempts.len() > 1 && flaky == FlakyResult::Fail {
        BuckTestStatus::Fail
    } else {
        BuckTestStatus::Pass
    }
}

/// The one-line summary for a test that ran to completion.
pub open spec fn finished_message(attempts: Seq<ExecuteStatus>, flaky: FlakyResult) -> Option<
    Seq<char>,
> {
    let last = attempts.last();
    if !last.result.success() {
        failed_text(last)
    } else if attempts.len() > 1 {
        Some(
            flaky_text(
                last.retry_data.attempt as nat,
                last.retry_data.total_attempts as nat,
                (attempts.len() - 1) as nat,
                flaky,
            ),
        )
    } else {
        tolerated_text(last.result)
    }
}

/// The diagnostic detail for a test that ran to completion: that of the last
/// attempt that failed.
pub open spec fn finished_details(attempts: Seq<ExecuteStatus>) -> Option<Seq<char>> {
    if !attempts.last().result.success() {
        details_text(attempts.last())
    } else if attempts.len() > 1 {
        details_text(attempts[attempts.len() - 2])
    } else {
        None
    }
}

/// Builds the result for a test that ran to completion.
pub fn result_from_finished(
    label: &str,
    id: &TestInstanceId,
    run_statuses: &ExecutionStatuses,
) -> (result: TestResult)
    ensures
        result.name@ == display_text(label@, id.test_name@),
        result.status == finished_status(run_statuses.attempts(), run_statuses.flaky()),
        optional_text(result.message) == finished_message(
            run_statuses.attempts(),
            run_statuses.flaky(),
        ),
        result.duration matches Some(duration) && duration.total() == total_time(
            run_statuses.attempts(),
        ),
        optional_text(result.details) == finished_details(run_statuses.attempts()),
{
    let name = display_name(label, id.test_name.as_str());
    let duration = run_statuses.time_taken();

    let (status, message, details) = match run_statuses.describe() {
        ExecutionDescription::Success { single_status } => (
            BuckTestStatus::Pass,
            tolerated_message(single_status),
            None,
        ),
        ExecutionDescription::Flaky { last_status, prior_statuses, result } => {
            let failed: usize = prior_statuses.len();
            let message = flaky_message(last_status, failed, result);
            let status = match result {
                FlakyResult::Pass => BuckTestStatus::Pass,
                FlakyResult::Fail => BuckTestStatus::Fail,
            };
            let details = details_for(&prior_statuses[failed - 1]);
            (status, Some(message), details)
        },
        ExecutionDescription::Failure { last_status, .. } => (
            failure_status(last_status),
            failure_message(last_status),
            details_for(last_status),
        ),
    };

    TestResult { name, status, message, duration: Some(duration), details }
}

/// Why a filter set a test aside, in words.
pub open spec fn mismatch_text(reason: MismatchReason) -> Seq<char> {
    match reason {
        MismatchReason::NotBenchmark => "is not a benchmark"@,
        MismatchReason::Ignored => "does not match the run-ignored option"@,
        MismatchReason::String => "does not match the provided string filters"@,
        MismatchReason::Expression => "does not match the provided expression filters"@,
        MismatchReason::Partition => "is in a different partition"@,
        MismatchReason::RerunAlreadyPassed => "already passed"@,
        MismatchReason::DefaultFilter => "is filtered out by the profile's default-filter"@,
    }
}

/// Calls `to_string` on `nextest_metadata::MismatchReason`, whose `Display`
/// words each reason as [`mismatch_text`] says.
#[verifier::external_body]
fn mismatch_message(reason: MismatchReason) -> (message: String)
    ensures
        message@ == mismatch_text(reason),
{
    match reason {
        MismatchReason::NotBenchmark => nextest_metadata::MismatchReason::NotBenchmark,
        MismatchReason::Ignored => nextest_metadata::MismatchReason::Ignored,
        MismatchReason::String => nextest_metadata::MismatchReason::String,
        MismatchReason::Expression => nextest_metadata::MismatchReason::Expression,
        MismatchReason::Partition => nextest_metadata::MismatchReason::Partition,
        MismatchReason::RerunAlreadyPassed => nextest_metadata::MismatchReason::RerunAlreadyPassed,
        MismatchReason::DefaultFilter => nextest_metadata::MismatchReason::DefaultFilter,
    }.to_string()
}

/// Builds the result for a test the filter did not select.
///
/// Buck2 listed this test and then asked for it, so it reached the run only to
/// be set aside -- almost always because it is `#[ignore]`d and the profile
/// does not ask for ignored tests.
pub fn result_from_skipped(label: &str, id: &TestInstanceId, reason: MismatchReason) -> (result:
    TestResult)
    ensures
        result.name@ == display_text(label@, id.test_name@),
        result.status == BuckTestStatus::Skip,
        optional_text(result.message) == Some(mismatch_text(reason)),
        result.duration is None,
        result.details is None,
{
    TestResult {
        name: display_name(label, id.test_name.as_str()),
        status: BuckTestStatus::Skip,
        message: Some(mismatch_message(reason)),
        duration: None,
        details: None,
    }
}

/// A test that is failed for being flaky says so, and is never reported with
/// the message for a pass.
pub proof fn law_flaky_failures_do_not_read_as_passes(
    attempt: nat,
    total_attempts: nat,
    failed: nat,
)
    ensures
        ({
            let message = flaky_text(attempt, total_attempts, failed, FlakyResult::Fail);
            &&& occurs_in(message, "configured to fail when flaky"@)
            &&& !occurs_in(message, "flaky: passed"@)
        }),
{
    let message = flaky_text(attempt, total_attempts, failed, FlakyResult::Fail);
    let phrase = "configured to fail when flaky"@;
    let pass = "flaky: passed"@;
    let head = "configured to fail when flaky: attempt "@;
    reveal_strlit("configured to fail when flaky");
    reveal_strlit("flaky: passed");
    reveal_strlit("configured to fail when flaky: attempt ");
    reveal_strlit(" of ");
    reveal_strlit(" passed, after ");
    reveal_strlit(" failed");
    lemma_decimal_digits(attempt);
    lemma_decimal_digits(total_attempts);
    lemma_decimal_digits(failed);

    assert(occurs_at(message, phrase, 0)) by {
        assert(message.subrange(0, phrase.len() as int) =~= phrase);
    }

    // There is one `k` in the whole message, and what follows it there differs
    // from what follows it in the message for a pass.
    let first = head + decimal(attempt);
    let second = first + " of "@;
    let third = second + decimal(total_attempts);
    let fourth = third + " passed, after "@;
    let fifth = fourth + decimal(failed);
    assert(forall|index: int| 0 <= index < first.len() && #[trigger] first[index] == 'k' ==> index == 27);
    assert(forall|index: int| 0 <= index < second.len() && #[trigger] second[index] == 'k' ==> index == 27);
    assert(forall|index: int| 0 <= index < third.len() && #[trigger] third[index] == 'k' ==> index == 27);
    assert(forall|index: int| 0 <= index < fourth.len() && #[trigger] fourth[index] == 'k' ==> index == 27);
    assert(forall|index: int| 0 <= index < fifth.len() && #[trigger] fifth[index] == 'k' ==> index == 27);
    assert(forall|index: int| 0 <= index < message.len() && #[trigger] message[index] == 'k' ==> index == 27);
    assert forall|at: int| !occurs_at(message, pass, at) by {
        if occurs_at(message, pass, at) {
            let found = message.subrange(at, at + pass.len());
            assert(found[3] == message[at + 3]);
            assert(found[7] == message[at + 7]);
            assert(message[31] == head[31]);
        }
    }
}

/// A test that ran and did not pass always says why, and a test that passed on
/// its first attempt carries no diagnostic output.
pub proof fn law_failures_explain_themselves(attempts: Seq<ExecuteStatus>, flaky: FlakyResult)
    requires
        attempts.len() > 0,
    ensures
        finished_status(attempts, flaky) != BuckTestStatus::Pass ==> finished_message(
            attempts,
            flaky,
        ) is Some,
        finished_status(attempts, flaky) == BuckTestStatus::Pass && attempts.len() == 1
            ==> finished_details(attempts) is None,
        finished_status(attempts, flaky) != BuckTestStatus::Skip,
{
}

/// A test passes exactly when its last attempt succeeded, unless it took more
/// than one and the profile fails flaky tests.
pub proof fn law_passes_agree_with_nextest(attempts: Seq<ExecuteStatus>, flaky: FlakyResult)
    requires
        attempts.len() > 0,
    ensures
        finished_status(attempts, flaky) == BuckTestStatus::Pass <==> {
            &&& attempts.last().result.success()
            &&& attempts.len() == 1 || flaky == FlakyResult::Pass
        },
        finished_status(attempts, flaky) == BuckTestStatus::Timeout <==> {
            &&& !attempts.last().result.success()
            &&& attempts.last().result is Timeout
        },
{
}

/// A test whose only attempt passed, or leaked or timed out where the profile lets
/// that pass, is reported as a pass; every other result of a single attempt is not,
/// and a timeout is told from the rest.
pub proof fn law_single_attempts_are_reported_by_result(
    status: ExecuteStatus,
    flaky: FlakyResult,
)
    ensures
        finished_status(seq![status], flaky) == BuckTestStatus::Pass <==> {
            ||| status.result == ExecutionResultDescription::Pass
            ||| status.result == (ExecutionResultDescription::Leak {
                result: LeakTimeoutResult::Pass,
            })
            ||| status.result == (ExecutionResultDescription::Timeout {
                result: SlowTimeoutResult::Pass,
            })
        },
        finished_status(seq![status], flaky) == BuckTestStatus::Timeout <==> status.result == (
        ExecutionResultDescription::Timeout { result: SlowTimeoutResult::Fail }),
        finished_status(seq![status], flaky) == BuckTestStatus::Fail <==> {
            ||| status.result is Fail
            ||| status.result is ExecFail
            ||| status.result == (ExecutionResultDescription::Leak {
                result: LeakTimeoutResult::Fail,
            })
        },
{
}

/// A test whose last attempt failed, or could not be started, is reported as a
/// failure, whatever came before it, however it failed, and whether or not it
/// leaked handles as well.
pub proof fn law_failed_processes_are_reported_as_failures(
    attempts: Seq<ExecuteStatus>,
    flaky: FlakyResult,
)
    requires
        attempts.len() > 0,
        attempts.last().result is Fail || attempts.last().result is ExecFail,
    ensures
        finished_status(attempts, flaky) == BuckTestStatus::Fail,
        finished_message(attempts, flaky) == failed_text(attempts.last()),
        finished_message(attempts, flaky) is Some,
        finished_details(attempts) == details_text(attempts.last()),
{
}

/// A test that timed out or leaked handles in its last attempt, where the profile
/// counts that as a failure, is reported with that attempt's own message and
/// output.
pub proof fn law_timeouts_and_leaks_can_fail(attempts: Seq<ExecuteStatus>, flaky: FlakyResult)
    requires
        attempts.len() > 0,
    ensures
        attempts.last().result == (ExecutionResultDescription::Timeout {
            result: SlowTimeoutResult::Fail,
        }) ==> finished_status(attempts, flaky) == BuckTestStatus::Timeout,
        attempts.last().result == (ExecutionResultDescription::Leak {
            result: LeakTimeoutResult::Fail,
        }) ==> finished_status(attempts, flaky) == BuckTestStatus::Fail,
        attempts.last().result == (ExecutionResultDescription::Timeout {
            result: SlowTimeoutResult::Fail,
        }) || attempts.last().result == (ExecutionResultDescription::Leak {
            result: LeakTimeoutResult::Fail,
        }) ==> {
            &&& finished_message(attempts, flaky) == failed_text(attempts.last())
            &&& finished_details(attempts) == details_text(attempts.last())
        },
{
}

/// A test that passed only after other attempts is reported as the profile has it,
/// says which attempt passed and how many did not, and shows the output of the
/// attempt just before.
pub proof fn law_flaky_tests_show_the_failure_before(
    attempts: Seq<ExecuteStatus>,
    flaky: FlakyResult,
)
    requires
        attempts.len() > 1,
        attempts.last().result == ExecutionResultDescription::Pass || attempts.last().result == (
        ExecutionResultDescription::Leak { result: LeakTimeoutResult::Pass })
            || attempts.last().result == (ExecutionResultDescription::Timeout {
            result: SlowTimeoutResult::Pass,
        }),
    ensures
        flaky == FlakyResult::Pass ==> finished_status(attempts, flaky) == BuckTestStatus::Pass,
        flaky == FlakyResult::Fail ==> finished_status(attempts, flaky) == BuckTestStatus::Fail,
        finished_message(attempts, flaky) == Some(
            flaky_text(
                attempts.last().retry_data.attempt as nat,
                attempts.last().retry_data.total_attempts as nat,
                (attempts.len() - 1) as nat,
                flaky,
            ),
        ),
        finished_details(attempts) == details_text(attempts[attempts.len() - 2]),
{
}

/// A test that passed at once has no output to show, and nothing to say unless the
/// profile let a leak or a timeout pass.
pub proof fn law_plain_passes_are_silent(status: ExecuteStatus, flaky: FlakyResult)
    ensures
        status.result == ExecutionResultDescription::Pass ==> finished_message(
            seq![status],
            flaky,
        ) is None && finished_details(seq![status]) is None,
        status.result == (ExecutionResultDescription::Leak { result: LeakTimeoutResult::Pass })
            ==> finished_message(seq![status], flaky) == Some(
            "test passed but leaked handles within the leak timeout"@,
        ) && finished_details(seq![status]) is None,
        status.result == (ExecutionResultDescription::Timeout { result: SlowTimeoutResult::Pass })
            ==> finished_message(seq![status], flaky) == Some(
            "test timed out, which this profile treats as a pass"@,
        ) && finished_details(seq![status]) is None,
{
}

/// A failure is summed up in nextest's own words wherever it has any: the short
/// message of its error, or else the telling part of the output. Only where it has
/// neither does the kind of failure speak for itself.
pub proof fn law_failures_are_in_nextests_words(status: ExecuteStatus)
    requires
        status.result !is Pass,
    ensures
        status.error_summary matches Some(summary) ==> failed_text(status) is Some
            && summary.short_message@.is_prefix_of(failed_text(status)->0),
        status.error_summary is None ==> (status.output_error_slice matches Some(slice)
            ==> failed_text(status) is Some && slice.slice@.is_prefix_of(failed_text(status)->0)),
        status.error_summary is None && status.output_error_slice is None ==> {
            &&& status.result is Fail ==> failed_text(status) is Some
                && "test failed"@.is_prefix_of(failed_text(status)->0)
            &&& status.result is ExecFail ==> failed_text(status) == Some(
                "the test process failed to start"@,
            )
            &&& status.result is Timeout ==> failed_text(status) == Some(
                "test exceeded the slow timeout and was terminated"@,
            )
            &&& status.result is Leak ==> failed_text(status) == Some(
                "test leaked handles past the leak timeout"@,
            )
        },
{
    if let Some(summary) = status.error_summary {
        let told = failed_text(status)->0;
        assert(summary.short_message@ =~= told.subrange(
            0,
            summary.short_message@.len() as int,
        ));
    } else if let Some(slice) = status.output_error_slice {
        let told = failed_text(status)->0;
        assert(slice.slice@ =~= told.subrange(0, slice.slice@.len() as int));
    } else if status.result is Fail {
        let told = failed_text(status)->0;
        assert("test failed"@ =~= told.subrange(0, "test failed"@.len() as int));
    }
}

/// A leak is added to what is said of a failure, and changes nothing else of it.
pub proof fn law_leaks_are_added_to_failures(
    with_leak: ExecuteStatus,
    without: ExecuteStatus,
    failure: FailureDescription,
)
    requires
        with_leak.result == (ExecutionResultDescription::Fail { failure, leaked: true }),
        without.result == (ExecutionResultDescription::Fail { failure, leaked: false }),
        with_leak.error_summary == without.error_summary,
        with_leak.output_error_slice == without.output_error_slice,
    ensures
        failed_text(without) is Some,
        failed_text(with_leak) == Some(
            failed_text(without)->0 + "; the test also leaked handles"@,
        ),
{
}

/// Nothing is added to what is said of a failure that leaked nothing.
pub proof fn law_failures_without_leaks_add_nothing(status: ExecuteStatus)
    requires
        status.result !is Fail || !status.result->leaked,
    ensures
        status.error_summary matches Some(summary) ==> failed_text(status) == Some(
            summary.short_message@,
        ),
        status.error_summary is None ==> (status.output_error_slice matches Some(slice)
            ==> failed_text(status) == Some(slice.slice@)),
        status.error_summary is None && status.output_error_slice is None ==> {
            &&& status.result is Fail ==> failed_text(status) == Some("test failed"@)
            &&& status.result is Pass ==> failed_text(status) is None
        },
{
}

/// A stream that has anything in it is shown whole under its own heading, with a
/// line break added only where it does not end in one; an empty one is left out.
pub proof fn law_streams_are_shown_whole(name: Seq<char>, bytes: Seq<u8>)
    ensures
        bytes.len() == 0 ==> section_text(name, Some(bytes)) == Seq::<char>::empty(),
        section_text(name, None) == Seq::<char>::empty(),
        bytes.len() > 0 && vstd::utf8::valid_utf8(bytes) ==> {
            &&& bytes[bytes.len() - 1] == 10 ==> section_text(name, Some(bytes)) == "--- "@ + name
                + " ---\n"@ + vstd::utf8::decode_utf8(bytes)
            &&& bytes[bytes.len() - 1] != 10 ==> section_text(name, Some(bytes)) == "--- "@ + name
                + " ---\n"@ + vstd::utf8::decode_utf8(bytes) + "\n"@
        },
        bytes.len() > 0 && !vstd::utf8::valid_utf8(bytes) ==> {
            &&& bytes[bytes.len() - 1] == 10 ==> section_text(name, Some(bytes)) == "--- "@ + name
                + " ---\n"@ + lossy_text(bytes)
            &&& bytes[bytes.len() - 1] != 10 ==> section_text(name, Some(bytes)) == "--- "@ + name
                + " ---\n"@ + lossy_text(bytes) + "\n"@
        },
{
}

/// The details of an attempt are its error in full, followed by all of its output:
/// standard output before standard error where they are apart. There are none only
/// where there is nothing to show.
pub proof fn law_details_hold_everything(status: ExecuteStatus)
    ensures
        ({
            let told = match details_text(status) {
                Some(details) => details,
                None => Seq::empty(),
            };
            let error = match status.error_summary {
                Some(summary) => summary.description@.push('\n'),
                None => Seq::empty(),
            };
            let shown = match status.output {
                ChildExecutionOutputDescription::Output { output } => match output {
                    ChildOutputDescription::Split { stdout, stderr } => {
                        let out = match stdout {
                            Some(bytes) => section_text("stdout"@, Some(bytes@)),
                            None => Seq::empty(),
                        };
                        let err = match stderr {
                            Some(bytes) => section_text("stderr"@, Some(bytes@)),
                            None => Seq::empty(),
                        };
                        out + err
                    },
                    ChildOutputDescription::Combined { output } => section_text(
                        "output"@,
                        Some(output@),
                    ),
                    ChildOutputDescription::NotLoaded => Seq::empty(),
                },
                ChildExecutionOutputDescription::StartError(error) => error@.push('\n'),
            };
            &&& told == error + shown
            &&& details_text(status) is None <==> error.len() == 0 && shown.len() == 0
        }),
{
    reveal_strlit("\n");
    if let Some(summary) = status.error_summary {
        assert(summary.description@ + "\n"@ =~= summary.description@.push('\n'));
    }
    if let ChildExecutionOutputDescription::StartError(error) = status.output {
        assert(error@ + "\n"@ =~= error@.push('\n'));
    }
    assert(summary_text(status) =~= match status.error_summary {
        Some(summary) => summary.description@.push('\n'),
        None => Seq::empty(),
    });
}

/// What is said of a flaky test names the attempt that passed out of all of them,
/// and then how many failed before it.
pub proof fn law_flaky_messages_count_attempts(
    attempt: nat,
    total_attempts: nat,
    failed: nat,
    result: FlakyResult,
)
    ensures
        ({
            let told = flaky_text(attempt, total_attempts, failed, result);
            let counted = "attempt "@ + decimal(attempt) + " of "@ + decimal(total_attempts);
            let ending = ", after "@ + decimal(failed) + " failed"@;
            &&& result == FlakyResult::Pass ==> told == "flaky: passed on "@ + counted + ending
            &&& result == FlakyResult::Fail ==> told == "configured to fail when flaky: "@ + counted
                + " passed"@ + ending
        }),
{
    let told = flaky_text(attempt, total_attempts, failed, result);
    let counted = "attempt "@ + decimal(attempt) + " of "@ + decimal(total_attempts);
    let ending = ", after "@ + decimal(failed) + " failed"@;
    reveal_strlit("attempt ");
    reveal_strlit("flaky: passed on ");
    reveal_strlit("flaky: passed on attempt ");
    reveal_strlit("configured to fail when flaky: ");
    reveal_strlit("configured to fail when flaky: attempt ");
    reveal_strlit(" passed");
    reveal_strlit(", after ");
    reveal_strlit(" passed, after ");
    assert("flaky: passed on attempt "@ =~= "flaky: passed on "@ + "attempt "@);
    assert("configured to fail when flaky: attempt "@ =~= "configured to fail when flaky: "@
        + "attempt "@);
    assert(" passed, after "@ =~= " passed"@ + ", after "@);
    if result == FlakyResult::Pass {
        assert(told =~= "flaky: passed on "@ + counted + ending);
    } else {
        assert(told =~= "configured to fail when flaky: "@ + counted + " passed"@ + ending);
    }
}

/// The name a test is listed under starts with its target's label and ends with its
/// own name, with a dash between them.
pub proof fn law_display_names_hold_label_and_test(label: Seq<char>, test_name: Seq<char>)
    ensures
        label.is_prefix_of(display_text(label, test_name)),
        test_name.is_suffix_of(display_text(label, test_name)),
        display_text(label, test_name).len() == label.len() + 3 + test_name.len(),
        display_text(label, test_name).subrange(label.len() as int, (label.len() + 3) as int) == seq![
            ' ',
            '-',
            ' ',
        ],
{
    reveal_strlit(" - ");
    let shown = display_text(label, test_name);
    assert(label =~= shown.subrange(0, label.len() as int));
    assert(test_name =~= shown.subrange(shown.len() - test_name.len(), shown.len() as int));
}

/// No two reasons for leaving a test out read the same.
pub proof fn law_reasons_read_differently(left: MismatchReason, right: MismatchReason)
    ensures
        mismatch_text(left) == mismatch_text(right) <==> left == right,
{
    reveal_strlit("is not a benchmark");
    reveal_strlit("does not match the run-ignored option");
    reveal_strlit("does not match the provided string filters");
    reveal_strlit("does not match the provided expression filters");
    reveal_strlit("is in a different partition");
    reveal_strlit("already passed");
    reveal_strlit("is filtered out by the profile's default-filter");
    assert(mismatch_text(left).len() == mismatch_text(right).len() ==> left == right);
}

} // verus!
