//! Running a Buck2 test session.
//!
//! By the time this starts, Buck2 has sent every spec and said how each is to
//! be run. What is left is to run them, streaming results back as they finish,
//! and to report the exit code.

use crate::binaries::BuildPlatforms;
use crate::convert::{
    law_packages_say_where_targets_are, law_targets_become_binaries, list_for, to_binary_lists,
    Buck2BinaryList, TargetInput,
};
use crate::errors::ExpectedError;
use crate::executor::check::{
    law_accepted_targets_keep_their_places, targets_of, PreparedTargets,
};
use crate::executor::prepare::{
    law_commands_are_run_whole, resolved_to, PendingTarget, PrepareForLocalExecutionResult,
    PreparedTarget,
};
use crate::executor::spec::{Buck2TestTarget, ConfiguredTargetHandle};
use crate::exit_code;
use crate::package_info::packages_in;
use crate::paths::{path_is_absolute, path_join};
use crate::project_root::{absolute_outcome, absolute_project_root, PathError};
use crate::run::RunContext;
use crate::session::context::ReportUuid;
use crate::session::errors::ErrorChain;
use crate::session::input::{FilterBound, RunIgnored};
use crate::string_map::StringMap;
use vstd::prelude::*;

verus! {

/// Filters from the command line.
#[derive(Debug, Eq, PartialEq)]
pub struct FilterOpts {
    /// Filtersets.
    pub filtersets: Vec<String>,

    /// Substring filters.
    pub patterns: Vec<String>,

    /// Whether to run ignored tests.
    pub run_ignored: RunIgnored,

    /// What the filtersets are bounded by.
    pub filter_bound: FilterBound,

    /// The number of threads to list tests with.
    pub list_threads: usize,
}

/// Everything the executor needs that did not come from Buck2.
#[derive(Debug, Eq, PartialEq)]
pub struct ExecutorOptions {
    /// The Buck2 project root, if the command line named one, made absolute.
    ///
    /// Buck2 does not name it, so this is normally `None` and the root is taken
    /// from what Buck2 says about the targets it sends.
    pub project_root: Option<String>,

    /// The nextest profile to use.
    pub profile_name: Option<String>,

    /// A path to a nextest configuration file, if one was given.
    pub config_file: Option<String>,

    /// Filters from the arguments after `--`.
    pub filter: FilterOpts,

    /// Environment variables to add to every test process.
    ///
    /// These come from `buck2 test ... -- --env NAME=VALUE`. They are applied
    /// on top of what Buck2 says each target needs, so a variable named in both
    /// places takes the value given here.
    pub extra_env: StringMap<String>,

    /// The full command line, recorded with the run.
    pub cli_args: Vec<String>,
}

/// How a run went, and how delivering its results did.
#[derive(Debug)]
pub struct SessionOutcome {
    /// The run's exit code, unless it failed to run.
    pub exit_code: Result<i32, ExpectedError>,

    /// Whether every result was delivered.
    pub drained: Result<(), ExpectedError>,
}

/// The exit code to report to Buck2.
pub open spec fn delivered_code(outcome: SessionOutcome) -> Result<i32, ExpectedError> {
    match (outcome.drained, outcome.exit_code) {
        (Err(error), _) => Err(error),
        (Ok(()), Err(error)) => Err(error),
        (Ok(()), Ok(code)) => if code == 4 {
            Ok(0)
        } else {
            Ok(code)
        },
    }
}

/// Returns the exit code to report to Buck2.
///
/// A failure to deliver results comes first. When reporting breaks, the run
/// is cancelled by the very error that broke it, so its exit code carries only
/// the write failure that followed -- which says nothing about the cause.
///
/// `cargo-nextest` treats a run with no tests in it as an error, on the
/// grounds that the person asked for tests and got none. Buck2 chooses the
/// target set itself, so `buck2 test //:some-library` finding no tests is
/// routine rather than a mistake -- and Buck2 says "0 tests" plainly either
/// way.
pub fn session_code(outcome: SessionOutcome) -> (code: Result<i32, ExpectedError>)
    ensures
        code == delivered_code(outcome),
{
    match outcome.drained {
        Err(error) => Err(error),
        Ok(()) => match outcome.exit_code {
            Err(error) => Err(error),
            Ok(code) => if code == exit_code::no_tests_run() {
                Ok(0)
            } else {
                Ok(code)
            },
        },
    }
}

/// Returns the exit code a session ends with, once it was reported to Buck2.
///
/// Buck2 is told that the run is over only once every result was delivered.
pub fn finish_session<N: FnOnce(i32) -> Result<(), tonic::Status>>(
    outcome: SessionOutcome,
    end_of_results: N,
) -> (code: Result<i32, ExpectedError>)
    requires
        delivered_code(outcome) matches Ok(reported) ==> end_of_results.requires((reported,)),
    ensures
        session_end(outcome, end_of_results, code),
{
    match session_code(outcome) {
        Err(error) => Err(error),
        Ok(code) => match end_of_results(code) {
            Ok(()) => Ok(code),
            Err(status) => Err(ExpectedError::ReportResultsError { status }),
        },
    }
}

/// `code` is what a session ends with, where `end_of_results` tells Buck2.
pub open spec fn session_end<N: FnOnce(i32) -> Result<(), tonic::Status>>(
    outcome: SessionOutcome,
    end_of_results: N,
    code: Result<i32, ExpectedError>,
) -> bool {
    match delivered_code(outcome) {
        Err(error) => code == Err::<i32, ExpectedError>(error),
        Ok(reported) => exists|told: Result<(), tonic::Status>|
            {
                &&& #[trigger] end_of_results.ensures((reported,), told)
                &&& match told {
                    Ok(()) => code == Ok::<i32, ExpectedError>(reported),
                    Err(status) => code == Err::<i32, ExpectedError>(
                        ExpectedError::ReportResultsError { status },
                    ),
                }
            },
    }
}

/// A target's environment with the extra variables on top.
pub open spec fn combined_env(
    env: Map<Seq<char>, String>,
    extra: Map<Seq<char>, String>,
) -> Map<Seq<char>, String> {
    env.union_prefer_right(extra)
}

/// Adds the extra variables to every target's environment.
fn extend_envs(targets: Vec<Buck2TestTarget>, extra_env: &StringMap<String>) -> (extended: Vec<
    Buck2TestTarget,
>)
    ensures
        extended@.len() == targets@.len(),
        forall|index: int|
            0 <= index < targets@.len() ==> {
                &&& (#[trigger] extended@[index]).label == targets@[index].label
                &&& extended@[index].target == targets@[index].target
                &&& extended@[index].program == targets@[index].program
                &&& extended@[index].leading_args == targets@[index].leading_args
                &&& extended@[index].cwd == targets@[index].cwd
                &&& extended@[index].env@ == combined_env(targets@[index].env@, extra_env@)
            },
{
    let mut extended: Vec<Buck2TestTarget> = Vec::new();
    for target in iter: targets
        invariant
            iter.seq() == targets@,
            extended@.len() == iter.index(),
            forall|index: int|
                0 <= index < extended@.len() ==> {
                    &&& (#[trigger] extended@[index]).label == targets@[index].label
                    &&& extended@[index].target == targets@[index].target
                    &&& extended@[index].program == targets@[index].program
                    &&& extended@[index].leading_args == targets@[index].leading_args
                    &&& extended@[index].cwd == targets@[index].cwd
                    &&& extended@[index].env@ == combined_env(targets@[index].env@, extra_env@)
                },
    {
        assert(target == targets@[iter.index()]);
        let Buck2TestTarget { label, target: configured, program, leading_args, env, cwd } = target;
        let mut env = env;
        env.extend(extra_env);
        extended.push(
            Buck2TestTarget { label, target: configured, program, leading_args, env, cwd },
        );
    }
    extended
}

/// `input` describes a target that Buck2 sent.
pub open spec fn describes_target(
    input: TargetInput<'_>,
    target: Buck2TestTarget,
    extra_env: Map<Seq<char>, String>,
) -> bool {
    &&& input.label@ == target.label@
    &&& input.package_path@ == target.target.package@
    &&& input.program@ == target.program@
    &&& input.leading_args@ == target.leading_args@
    &&& input.env@ == combined_env(target.env@, extra_env)
    &&& match (input.cwd, target.cwd) {
        (Some(dir), Some(cwd)) => dir@ == cwd@,
        (None, None) => true,
        _ => false,
    }
}

/// `inputs` describe the targets that Buck2 sent, in order.
pub open spec fn describe_targets(
    inputs: Seq<TargetInput<'_>>,
    targets: Seq<Buck2TestTarget>,
    extra_env: Map<Seq<char>, String>,
) -> bool {
    &&& inputs.len() == targets.len()
    &&& forall|index: int|
        0 <= index < targets.len() ==> describes_target(
            #[trigger] inputs[index],
            targets[index],
            extra_env,
        )
}

/// Converts the targets that Buck2 sent into a binary list.
fn session_binaries(
    targets: Vec<Buck2TestTarget>,
    extra_env: &StringMap<String>,
    project_root: &str,
    build_platforms: BuildPlatforms,
) -> (binaries: Buck2BinaryList)
    ensures
        exists|inputs: Seq<TargetInput<'_>>| #[trigger]
            describe_targets(inputs, targets@, extra_env@) && list_for(
                inputs,
                project_root@,
                build_platforms,
                binaries,
            ),
{
    let extended = extend_envs(targets, extra_env);
    let mut inputs: Vec<TargetInput<'_>> = Vec::new();
    let mut index: usize = 0;
    while index < extended.len()
        invariant
            index <= extended.len(),
            extended@.len() == targets@.len(),
            forall|at: int|
                0 <= at < targets@.len() ==> {
                    &&& (#[trigger] extended@[at]).label == targets@[at].label
                    &&& extended@[at].target == targets@[at].target
                    &&& extended@[at].program == targets@[at].program
                    &&& extended@[at].leading_args == targets@[at].leading_args
                    &&& extended@[at].cwd == targets@[at].cwd
                    &&& extended@[at].env@ == combined_env(targets@[at].env@, extra_env@)
                },
            inputs@.len() == index,
            forall|at: int|
                0 <= at < index ==> describes_target(
                    #[trigger] inputs@[at],
                    targets@[at],
                    extra_env@,
                ),
        decreases extended.len() - index,
    {
        let target: &Buck2TestTarget = &extended[index];
        inputs.push(
            TargetInput {
                label: target.label.as_str(),
                package_path: target.target.package.as_str(),
                program: target.program.as_str(),
                leading_args: &target.leading_args,
                env: &target.env,
                cwd: match &target.cwd {
                    Some(cwd) => Some(cwd.as_str()),
                    None => None,
                },
            },
        );
        index += 1;
    }
    assert(describe_targets(inputs@, targets@, extra_env@));
    to_binary_lists(&inputs, project_root, build_platforms)
}

/// The project root a session takes, if anything names one: what the command
/// line says, or else what Buck2 implied.
pub open spec fn named_root(options: ExecutorOptions, prepared: PreparedTargets) -> Option<String> {
    match options.project_root {
        Some(root) => Some(root),
        None => prepared.project_root,
    }
}

/// `root` is the project root a session takes, where `absolute` makes a path
/// absolute.
pub open spec fn root_outcome<A: Fn(&str) -> Result<String, PathError>>(
    options: ExecutorOptions,
    prepared: PreparedTargets,
    absolute: A,
    root: Result<String, ExpectedError>,
) -> bool {
    match named_root(options, prepared) {
        Some(named) => root == Ok::<String, ExpectedError>(named),
        None => exists|here: &str, made: Result<String, PathError>|
            {
                &&& here@ == "."@
                &&& #[trigger] absolute.ensures((here,), made)
                &&& absolute_outcome(here@, made, root)
            },
    }
}

/// `cx` is the context a session's tests run in.
pub open spec fn context_for(
    cx: RunContext,
    prepared: PreparedTargets,
    options: ExecutorOptions,
    run_id: ReportUuid,
    project_root: String,
    build_platforms: BuildPlatforms,
) -> bool {
    &&& exists|inputs: Seq<TargetInput<'_>>| #[trigger]
        describe_targets(inputs, prepared.targets@, options.extra_env@) && list_for(
            inputs,
            project_root@,
            build_platforms,
            cx.binaries,
        )
    &&& cx.project_root == project_root
    &&& cx.profile_name == options.profile_name
    &&& cx.config_file == options.config_file
    &&& cx.run_id == run_id
    &&& cx.filtersets == options.filter.filtersets
    &&& cx.filter_patterns == options.filter.patterns
    &&& cx.run_ignored == options.filter.run_ignored
    &&& cx.filter_bound == options.filter.filter_bound
    &&& cx.list_threads == options.filter.list_threads
    &&& cx.no_tests is None
}

/// Runs the tests of the targets Buck2 sent, returning the process exit code.
///
/// `absolute` makes a path absolute and `detect_platforms` says what platforms
/// there are. `run_tests` runs the tests in a context, reporting each result
/// against the target it came from, and drains what it still has to report.
/// `end_of_results` then tells Buck2 that the run is over, so Buck2 has every
/// result in hand by that time.
pub fn run<
    A: Fn(&str) -> Result<String, PathError>,
    D: FnOnce() -> Result<BuildPlatforms, ErrorChain>,
    X: FnOnce(
        &RunContext,
        StringMap<ConfiguredTargetHandle>,
        Vec<String>,
    ) -> SessionOutcome,
    N: FnOnce(i32) -> Result<(), tonic::Status>,
>(
    prepared: PreparedTargets,
    options: ExecutorOptions,
    run_id: ReportUuid,
    absolute: &A,
    detect_platforms: D,
    run_tests: X,
    end_of_results: N,
) -> (code: Result<i32, ExpectedError>)
    requires
        named_root(options, prepared) is None ==> forall|here: &str|
            here@ == "."@ ==> #[trigger] absolute.requires((here,)),
        forall|root: String|
            #[trigger] root_outcome(
                options,
                prepared,
                *absolute,
                Ok::<String, ExpectedError>(root),
            ) ==> detect_platforms.requires(()),
        forall|root: String, build_platforms: BuildPlatforms, cx: &RunContext|
            {
                &&& root_outcome(options, prepared, *absolute, Ok::<String, ExpectedError>(root))
                &&& detect_platforms.ensures((), Ok::<BuildPlatforms, ErrorChain>(build_platforms))
                &&& #[trigger] context_for(
                    *cx,
                    prepared,
                    options,
                    run_id,
                    root,
                    build_platforms,
                )
            } ==> run_tests.requires((cx, prepared.handles, options.cli_args)),
        forall|
            root: String,
            build_platforms: BuildPlatforms,
            cx: &RunContext,
            outcome: SessionOutcome,
        |
            {
                &&& root_outcome(options, prepared, *absolute, Ok::<String, ExpectedError>(root))
                &&& detect_platforms.ensures((), Ok::<BuildPlatforms, ErrorChain>(build_platforms))
                &&& #[trigger] context_for(
                    *cx,
                    prepared,
                    options,
                    run_id,
                    root,
                    build_platforms,
                )
                &&& #[trigger] run_tests.ensures(
                    (cx, prepared.handles, options.cli_args),
                    outcome,
                )
            } ==> (delivered_code(outcome) matches Ok(reported) ==> end_of_results.requires(
                (reported,),
            )),
    ensures
        exists|root: Result<String, ExpectedError>|
            {
                &&& #[trigger] root_outcome(options, prepared, *absolute, root)
                &&& match root {
                    Err(error) => code == Err::<i32, ExpectedError>(error),
                    Ok(root) => exists|detected: Result<BuildPlatforms, ErrorChain>|
                        {
                            &&& #[trigger] detect_platforms.ensures((), detected)
                            &&& match detected {
                                Err(error) => code == Err::<i32, ExpectedError>(
                                    ExpectedError::HostPlatformDetectError { error },
                                ),
                                Ok(build_platforms) => exists|
                                    cx: &RunContext,
                                    outcome: SessionOutcome,
                                |
                                    {
                                        &&& #[trigger] run_tests.ensures(
                                            (cx, prepared.handles, options.cli_args),
                                            outcome,
                                        )
                                        &&& context_for(
                                            *cx,
                                            prepared,
                                            options,
                                            run_id,
                                            root,
                                            build_platforms,
                                        )
                                        &&& session_end(outcome, end_of_results, code)
                                    },
                            }
                        },
                }
            },
{
    let PreparedTargets { targets, handles, project_root: implied } = prepared;
    let ExecutorOptions {
        project_root: explicit,
        profile_name,
        config_file,
        filter,
        extra_env,
        cli_args,
    } = options;

    // What Buck2 implied, unless the command line said otherwise. With no
    // targets at all there is nothing to imply it and nothing that depends on
    // it, so the process's own directory stands in.
    let named: Option<String> = match explicit {
        Some(root) => Some(root),
        None => implied,
    };
    let settled: Result<String, ExpectedError> = match named {
        Some(root) => Ok(root),
        None => absolute_project_root(".", absolute),
    };
    assert(root_outcome(options, prepared, *absolute, settled));
    let project_root: String = match settled {
        Ok(root) => root,
        Err(error) => {
            return Err(error);
        },
    };

    let build_platforms = match detect_platforms() {
        Ok(build_platforms) => build_platforms,
        Err(error) => {
            return Err(ExpectedError::HostPlatformDetectError { error });
        },
    };
    let binaries = session_binaries(targets, &extra_env, project_root.as_str(), build_platforms);

    let cx = RunContext {
        binaries,
        project_root,
        profile_name,
        config_file,
        run_id,
        filtersets: filter.filtersets,
        filter_patterns: filter.patterns,
        run_ignored: filter.run_ignored,
        filter_bound: filter.filter_bound,
        list_threads: filter.list_threads,
        no_tests: None,
    };
    assert(context_for(cx, prepared, options, run_id, project_root, build_platforms));
    let outcome = run_tests(&cx, handles, cli_args);
    finish_session(outcome, end_of_results)
}

/// A failure to deliver results is what a session reports, whatever became of
/// the run itself.
pub proof fn law_delivery_failures_come_first(outcome: SessionOutcome)
    ensures
        outcome.drained matches Err(error) ==> delivered_code(outcome) == Err::<i32, ExpectedError>(
            error,
        ),
        delivered_code(outcome) is Ok <==> outcome.drained is Ok && outcome.exit_code is Ok,
{
}

/// A session in which there were no tests to run ends well, and no other
/// outcome is changed.
pub proof fn law_no_tests_is_routine(outcome: SessionOutcome, code: i32)
    requires
        outcome.drained is Ok,
        outcome.exit_code == Ok::<i32, ExpectedError>(code),
    ensures
        delivered_code(outcome) == Ok::<i32, ExpectedError>(
            if code == 4 {
                0
            } else {
                code
            },
        ),
{
}

/// A variable that is named both by a target and on the command line takes the
/// value given on the command line; the rest of the target's environment is as
/// Buck2 said.
pub proof fn law_command_line_variables_win(
    env: Map<Seq<char>, String>,
    extra: Map<Seq<char>, String>,
    name: Seq<char>,
)
    ensures
        extra.contains_key(name) ==> combined_env(env, extra).contains_pair(name, extra[name]),
        !extra.contains_key(name) && env.contains_key(name) ==> combined_env(
            env,
            extra,
        ).contains_pair(name, env[name]),
        combined_env(env, extra).contains_key(name) <==> env.contains_key(name)
            || extra.contains_key(name),
{
}

/// Every target that Buck2 sent is run as Buck2 said: the binary at its place in
/// the session's list has its label, its program, found from the project root where
/// it is relative, all its arguments in order, and its directory.
pub proof fn law_targets_are_run_as_buck2_said(
    cx: RunContext,
    prepared: PreparedTargets,
    options: ExecutorOptions,
    run_id: ReportUuid,
    project_root: String,
    build_platforms: BuildPlatforms,
    index: int,
)
    requires
        context_for(cx, prepared, options, run_id, project_root, build_platforms),
        0 <= index < prepared.targets@.len(),
    ensures
        cx.binaries.binary_list.rust_binaries@.len() == prepared.targets@.len(),
        ({
            let target = prepared.targets@[index];
            let binary = cx.binaries.binary_list.rust_binaries@[index];
            &&& binary.id@ == target.label@
            &&& binary.package_id@ == target.label@
            &&& path_is_absolute(target.program@) ==> binary.path@ == target.program@
            &&& !path_is_absolute(target.program@) ==> binary.path@ == path_join(
                project_root@,
                target.program@,
            )
            &&& binary.invocation.leading_args@ == target.leading_args@
            &&& binary.invocation.cwd is Some <==> target.cwd is Some
            &&& target.cwd matches Some(cwd) ==> binary.invocation.cwd->0@ == cwd@
        }),
{
    let inputs = choose|inputs: Seq<TargetInput<'_>>| #[trigger]
        describe_targets(inputs, prepared.targets@, options.extra_env@) && list_for(
            inputs,
            project_root@,
            build_platforms,
            cx.binaries,
        );
    assert(describes_target(inputs[index], prepared.targets@[index], options.extra_env@));
    law_targets_become_binaries(inputs, project_root@, build_platforms, cx.binaries, index);
}

/// Every target's tests see the variables given on the command line, and besides
/// those what Buck2 said the target needs, and nothing else.
pub proof fn law_targets_see_their_environment(
    cx: RunContext,
    prepared: PreparedTargets,
    options: ExecutorOptions,
    run_id: ReportUuid,
    project_root: String,
    build_platforms: BuildPlatforms,
    index: int,
    name: Seq<char>,
)
    requires
        context_for(cx, prepared, options, run_id, project_root, build_platforms),
        0 <= index < prepared.targets@.len(),
    ensures
        ({
            let sent = prepared.targets@[index].env@;
            let extra = options.extra_env@;
            let seen = cx.binaries.binary_list.rust_binaries@[index].invocation.env@;
            &&& extra.contains_key(name) ==> seen.contains_pair(name, extra[name])
            &&& !extra.contains_key(name) && sent.contains_key(name) ==> seen.contains_pair(
                name,
                sent[name],
            )
            &&& !extra.contains_key(name) && !sent.contains_key(name) ==> !seen.contains_key(name)
        }),
{
    let inputs = choose|inputs: Seq<TargetInput<'_>>| #[trigger]
        describe_targets(inputs, prepared.targets@, options.extra_env@) && list_for(
            inputs,
            project_root@,
            build_platforms,
            cx.binaries,
        );
    assert(describes_target(inputs[index], prepared.targets@[index], options.extra_env@));
    law_targets_become_binaries(inputs, project_root@, build_platforms, cx.binaries, index);
}

/// Every target has a package in the session, declared in its own directory where
/// no later target has the same label.
pub proof fn law_targets_have_their_packages(
    cx: RunContext,
    prepared: PreparedTargets,
    options: ExecutorOptions,
    run_id: ReportUuid,
    project_root: String,
    build_platforms: BuildPlatforms,
    index: int,
)
    requires
        context_for(cx, prepared, options, run_id, project_root, build_platforms),
        0 <= index < prepared.targets@.len(),
        forall|later: int|
            index < later < prepared.targets@.len() ==> (
            #[trigger] prepared.targets@[later]).label@ != prepared.targets@[index].label@,
    ensures
        ({
            let target = prepared.targets@[index];
            let packages = packages_in(cx.binaries.packages);
            let path = target.target.package@;
            &&& packages.contains_key(target.label@)
            &&& path.len() == 0 ==> packages[target.label@].manifest_path == path_join(
                project_root@,
                "BUCK"@,
            )
            &&& path.len() > 0 ==> packages[target.label@].manifest_path == path_join(
                path_join(project_root@, path),
                "BUCK"@,
            )
        }),
{
    let inputs = choose|inputs: Seq<TargetInput<'_>>| #[trigger]
        describe_targets(inputs, prepared.targets@, options.extra_env@) && list_for(
            inputs,
            project_root@,
            build_platforms,
            cx.binaries,
        );
    assert(describes_target(inputs[index], prepared.targets@[index], options.extra_env@));
    assert forall|later: int| index < later < inputs.len() implies (
    #[trigger] inputs[later]).label@ != inputs[index].label@ by {
        assert(describes_target(inputs[later], prepared.targets@[later], options.extra_env@));
        assert(prepared.targets@[later].label@ != prepared.targets@[index].label@);
    }
    law_packages_say_where_targets_are(inputs, project_root@, build_platforms, cx.binaries, index);
}

/// A session runs with what the command line asked for, in the root it settled on
/// and on the platforms that were found.
pub proof fn law_sessions_follow_the_command_line(
    cx: RunContext,
    prepared: PreparedTargets,
    options: ExecutorOptions,
    run_id: ReportUuid,
    project_root: String,
    build_platforms: BuildPlatforms,
)
    requires
        context_for(cx, prepared, options, run_id, project_root, build_platforms),
    ensures
        cx.project_root == project_root,
        cx.profile_name == options.profile_name,
        cx.config_file == options.config_file,
        cx.run_id == run_id,
        cx.filtersets == options.filter.filtersets,
        cx.filter_patterns == options.filter.patterns,
        cx.run_ignored == options.filter.run_ignored,
        cx.filter_bound == options.filter.filter_bound,
        cx.list_threads == options.filter.list_threads,
        cx.no_tests is None,
        cx.binaries.binary_list.rust_build_meta.build_platforms == build_platforms,
        cx.binaries.binary_list.rust_build_meta.target_directory@ == project_root@,
{
}

/// The root that the command line names is taken over the one that Buck2 implied,
/// and that one over none.
pub proof fn law_the_command_line_names_the_root(
    options: ExecutorOptions,
    prepared: PreparedTargets,
)
    ensures
        options.project_root is Some ==> named_root(options, prepared) == options.project_root,
        options.project_root is None ==> named_root(options, prepared) == prepared.project_root,
{
}

/// A root that something names is taken as it is; only where nothing names one is
/// the current directory made absolute, and then the session takes what that gives
/// or fails with why it could not be.
pub proof fn law_named_roots_are_taken_as_they_are<A: Fn(&str) -> Result<String, PathError>>(
    options: ExecutorOptions,
    prepared: PreparedTargets,
    absolute: A,
    root: Result<String, ExpectedError>,
)
    requires
        root_outcome(options, prepared, absolute, root),
    ensures
        options.project_root matches Some(named) ==> root == Ok::<String, ExpectedError>(named),
        options.project_root is None ==> (prepared.project_root matches Some(implied) ==> root
            == Ok::<String, ExpectedError>(implied)),
        options.project_root is None && prepared.project_root is None ==> exists|
            here: &str,
            made: Result<String, PathError>,
        |
            {
                &&& here@ == seq!['.']
                &&& #[trigger] absolute.ensures((here,), made)
                &&& made matches Ok(dir) ==> root == Ok::<String, ExpectedError>(dir)
                &&& made is Err ==> root is Err
            },
{
    reveal_strlit(".");
    if options.project_root is None && prepared.project_root is None {
        let (here, made) = choose|here: &str, made: Result<String, PathError>|
            {
                &&& here@ == "."@
                &&& #[trigger] absolute.ensures((here,), made)
                &&& absolute_outcome(here@, made, root)
            };
        assert(absolute.ensures((here,), made));
        assert(here@ =~= seq!['.']);
    }
}

/// Where every result was delivered but the run itself broke, a session reports what
/// broke it.
pub proof fn law_broken_runs_are_reported(outcome: SessionOutcome)
    requires
        outcome.drained is Ok,
    ensures
        outcome.exit_code matches Err(error) ==> delivered_code(outcome) == Err::<
            i32,
            ExpectedError,
        >(error),
{
}

/// A session ends with the code that Buck2 was told, or with why it could not be
/// told; one whose results were not all delivered never gets to tell it, and ends
/// with why.
pub proof fn law_sessions_end_as_buck2_was_told<N: FnOnce(i32) -> Result<(), tonic::Status>>(
    outcome: SessionOutcome,
    end_of_results: N,
    code: Result<i32, ExpectedError>,
)
    requires
        session_end(outcome, end_of_results, code),
    ensures
        outcome.drained matches Err(error) ==> code == Err::<i32, ExpectedError>(error),
        code matches Ok(told) ==> {
            &&& outcome.drained is Ok
            &&& exists|answer: Result<(), tonic::Status>| #[trigger]
                end_of_results.ensures((told,), answer) && answer is Ok
            &&& outcome.exit_code matches Ok(ran) && (told == ran && ran != 4 || told == 0 && ran
                == 4)
        },
        outcome.drained is Ok && outcome.exit_code is Ok ==> (code matches Err(error) ==> error
            matches ExpectedError::ReportResultsError { .. }),
{
}

/// The command that Buck2 resolved for a target is the one its tests are run with: the
/// program is the first part of it, found from the project root where it is relative,
/// and the arguments before nextest's own are all the others, in order.
pub proof fn law_resolved_commands_reach_the_binaries(
    answered: Seq<PreparedTarget>,
    pending: PendingTarget,
    result: PrepareForLocalExecutionResult,
    cx: RunContext,
    prepared: PreparedTargets,
    options: ExecutorOptions,
    run_id: ReportUuid,
    project_root: String,
    build_platforms: BuildPlatforms,
    index: int,
)
    requires
        0 <= index < answered.len(),
        resolved_to(answered[index], pending, result),
        prepared.targets@ == targets_of(answered),
        context_for(cx, prepared, options, run_id, project_root, build_platforms),
    ensures
        ({
            let binary = cx.binaries.binary_list.rust_binaries@[index];
            &&& result.cmd@.len() == 1 + binary.invocation.leading_args@.len()
            &&& path_is_absolute(result.cmd@[0]@) ==> binary.path@ == result.cmd@[0]@
            &&& !path_is_absolute(result.cmd@[0]@) ==> binary.path@ == path_join(
                project_root@,
                result.cmd@[0]@,
            )
            &&& forall|at: int|
                1 <= at < result.cmd@.len() ==> binary.invocation.leading_args@[at - 1]
                    == #[trigger] result.cmd@[at]
            &&& binary.id@ == pending.label@
        }),
{
    law_accepted_targets_keep_their_places(answered, index);
    law_commands_are_run_whole(answered[index], pending, result);
    law_targets_are_run_as_buck2_said(
        cx,
        prepared,
        options,
        run_id,
        project_root,
        build_platforms,
        index,
    );
    let target = answered[index].target;
    assert forall|at: int| 1 <= at < result.cmd@.len() implies target.leading_args@[at - 1]
        == #[trigger] result.cmd@[at] by {
        assert((seq![target.program] + target.leading_args@)[at] == target.leading_args@[at - 1]);
    }
}

} // verus!
