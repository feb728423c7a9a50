//! The session itself: a test list, and running it to completion.

use crate::binaries::{BinaryList, BuildPlatform};
use crate::package_info::PackageInfo;
use crate::session::context::{
    DoubleSpawnInfo, ReportUuid, SessionContext, TargetRunner, TestExecuteContext, VersionEnvVars,
};
use crate::session::errors::{
    ErrorChain, ExecuteError, SessionBuildError, SinkError, TestRunnerExecuteErrors,
    WriteEventError,
};
use crate::session::input::{
    EnvironmentMap, FilterBound, ListProgressOptions, PartitionerBuilder, PathMapper,
    SessionInputs, TestListOptions,
};
use crate::session::profile::EvaluatableProfile;
use crate::session::relay::{relay_grants, Relay};
use crate::stats::RunStats;
use iddqd::IdOrdMap;
use vstd::prelude::*;

verus! {

/// What is asked for when the binary list is converted into test artifacts.
#[derive(Clone, Copy, Debug)]
pub struct ArtifactRequest<'r> {
    /// The test binaries.
    pub binary_list: &'r BinaryList,

    /// The package each binary belongs to.
    pub packages: &'r IdOrdMap<PackageInfo>,

    /// A remapping for the binaries' paths and their build metadata.
    pub path_mapper: &'r PathMapper,

    /// The build platform to restrict the binaries to.
    pub platform_filter: Option<BuildPlatform>,
}

/// What is asked for when the test list is built.
#[derive(Clone, Copy, Debug)]
pub struct TestListRequest<'r, T> {
    /// The context test processes get.
    pub context: TestExecuteContext<'r>,

    /// The filter tests are matched against.
    pub test_filter: &'r T,

    /// How tests are spread across several invocations, if they are.
    pub partitioner_builder: Option<PartitionerBuilder>,

    /// The workspace root tests see.
    pub workspace_root: &'r str,

    /// Extra environment variables for test processes.
    pub env: &'r EnvironmentMap,

    /// The profile.
    pub profile: &'r EvaluatableProfile<'r>,

    /// What filtersets are bounded by.
    pub filter_bound: FilterBound,

    /// The number of threads to list tests with.
    pub list_threads: usize,

    /// How to show progress.
    pub progress: ListProgressOptions,
}

/// How signals are handled.
#[derive(Clone, Copy, Debug, Eq, PartialEq, Structural)]
pub enum SignalHandlerKind {
    /// They cancel the run gracefully.
    Standard,

    /// They are left alone.
    Noop,
}

/// How terminal input is handled.
#[derive(Clone, Copy, Debug, Eq, PartialEq, Structural)]
pub enum InputHandlerKind {
    /// Interactively.
    Standard,

    /// It is left alone.
    Noop,
}

/// What is asked for when a runner is built.
#[derive(Debug)]
pub struct RunnerRequest<'r, L> {
    /// The ID that identifies this run.
    pub run_id: ReportUuid,

    /// Version-related environment variables.
    pub version_env_vars: &'r VersionEnvVars,

    /// The tests.
    pub test_list: &'r L,

    /// The profile.
    pub profile: &'r EvaluatableProfile<'r>,

    /// The full command line, recorded with the run.
    pub cli_args: Vec<String>,

    /// How signals are handled.
    pub signal_handler: SignalHandlerKind,

    /// How terminal input is handled.
    pub input_handler: InputHandlerKind,

    /// Double-spawn info.
    pub double_spawn: &'r DoubleSpawnInfo,

    /// A runner for the target platform, if one is configured.
    pub target_runner: &'r TargetRunner,
}

/// A test list built from a build system's inputs, ready to write out or run.
///
/// This owns the middle of the pipeline: building it enumerates the tests, and
/// [`build_runner`](Self::build_runner) turns the result into a runner.
/// Reporter construction stays with the frontend.
#[derive(Debug)]
pub struct TestSession<'a, L> {
    ctx: &'a SessionContext,
    profile: &'a EvaluatableProfile<'a>,
    test_list: L,
}

/// The workspace root tests see: that of a remapping, if there is one.
pub open spec fn effective_root(inputs: SessionInputs<'_>) -> Seq<char> {
    match inputs.path_mapper.workspace {
        Some(canonical) => canonical@,
        None => inputs.workspace_root@,
    }
}

/// `request` asks for the artifacts of a session.
pub open spec fn asks_for_artifacts(
    request: ArtifactRequest<'_>,
    inputs: SessionInputs<'_>,
    options: TestListOptions,
) -> bool {
    request == (ArtifactRequest {
        binary_list: inputs.binary_list,
        packages: inputs.packages,
        path_mapper: &inputs.path_mapper,
        platform_filter: options.platform_filter,
    })
}

/// `request` asks for the tests of a session.
pub open spec fn asks_for_tests<T>(
    request: TestListRequest<'_, T>,
    ctx: SessionContext,
    profile: EvaluatableProfile<'_>,
    inputs: SessionInputs<'_>,
    test_filter: T,
    options: TestListOptions,
) -> bool {
    &&& request.context.run_id == ctx.run_id
    &&& *request.context.version_env_vars == ctx.version_env_vars
    &&& request.context.profile_name@ == profile.profile.name@
    &&& *request.context.double_spawn == ctx.double_spawn
    &&& *request.context.target_runner == ctx.target_runner
    &&& *request.test_filter == test_filter
    &&& request.partitioner_builder == options.partitioner_builder
    &&& request.workspace_root@ == effective_root(inputs)
    &&& *request.env == inputs.env
    &&& *request.profile == profile
    &&& request.filter_bound == options.filter_bound
    &&& request.list_threads == options.list_threads
    &&& request.progress == options.progress
}

/// `request` asks for a runner for a session's tests.
pub open spec fn asks_for_runner<L>(
    request: RunnerRequest<'_, L>,
    ctx: SessionContext,
    profile: EvaluatableProfile<'_>,
    test_list: L,
) -> bool {
    &&& request.run_id == ctx.run_id
    &&& *request.version_env_vars == ctx.version_env_vars
    &&& *request.test_list == test_list
    &&& *request.profile == profile
    &&& *request.double_spawn == ctx.double_spawn
    &&& *request.target_runner == ctx.target_runner
}

/// `request` asks for a runner with the given command line and handlers.
pub open spec fn runs_as<L>(
    request: RunnerRequest<'_, L>,
    cli_args: Vec<String>,
    signal_handler: SignalHandlerKind,
    input_handler: InputHandlerKind,
) -> bool {
    &&& request.cli_args == cli_args
    &&& request.signal_handler == signal_handler
    &&& request.input_handler == input_handler
}

impl<'a, L> TestSession<'a, L> {
    /// The context the session runs under.
    pub closed spec fn context(&self) -> SessionContext {
        *self.ctx
    }

    /// The profile the session runs with.
    pub closed spec fn evaluated(&self) -> EvaluatableProfile<'a> {
        *self.profile
    }

    /// The session's tests.
    pub closed spec fn tests(&self) -> L {
        self.test_list
    }

    /// Builds the test list from the session's inputs.
    ///
    /// `from_binary_list` converts the binary list into test artifacts, and
    /// `new_test_list` enumerates the artifacts' tests. The latter is the phase
    /// that executes each test binary.
    pub fn build<
        T,
        A,
        F: FnOnce(ArtifactRequest<'_>) -> Result<A, ErrorChain>,
        N: FnOnce(TestListRequest<'_, T>, A) -> Result<L, ErrorChain>,
    >(
        ctx: &'a SessionContext,
        profile: &'a EvaluatableProfile<'a>,
        inputs: SessionInputs<'a>,
        test_filter: &T,
        options: TestListOptions,
        from_binary_list: F,
        new_test_list: N,
    ) -> (session: Result<Self, SessionBuildError>)
        requires
            forall|request: ArtifactRequest<'_>|
                asks_for_artifacts(request, inputs, options)
                    ==> #[trigger] from_binary_list.requires((request,)),
            forall|asked: ArtifactRequest<'_>, artifacts: A, request: TestListRequest<'_, T>|
                {
                    &&& #[trigger] from_binary_list.ensures(
                        (asked,),
                        Ok::<A, ErrorChain>(artifacts),
                    )
                    &&& asks_for_artifacts(asked, inputs, options)
                    &&& asks_for_tests(request, *ctx, *profile, inputs, *test_filter, options)
                } ==> #[trigger] new_test_list.requires((request, artifacts)),
        ensures
            exists|request: ArtifactRequest<'_>, converted: Result<A, ErrorChain>|
                {
                    &&& #[trigger] from_binary_list.ensures((request,), converted)
                    &&& asks_for_artifacts(request, inputs, options)
                    &&& match converted {
                        Err(error) => session == Err::<Self, SessionBuildError>(
                            SessionBuildError::FromMessages(error),
                        ),
                        Ok(artifacts) => exists|
                            request: TestListRequest<'_, T>,
                            listed: Result<L, ErrorChain>,
                        |
                            {
                                &&& #[trigger] new_test_list.ensures((request, artifacts), listed)
                                &&& asks_for_tests(
                                    request,
                                    *ctx,
                                    *profile,
                                    inputs,
                                    *test_filter,
                                    options,
                                )
                                &&& match listed {
                                    Err(error) => session == Err::<Self, SessionBuildError>(
                                        SessionBuildError::CreateTestList(error),
                                    ),
                                    Ok(test_list) => {
                                        &&& session matches Ok(session)
                                        &&& session.context() == *ctx
                                        &&& session.evaluated() == *profile
                                        &&& session.tests() == test_list
                                    },
                                }
                            },
                    }
                },
    {
        // Use the canonicalized workspace root from the path mapper if a remap
        // was specified, so `NEXTEST_WORKSPACE_ROOT` is an absolute, normalized
        // path consistent with `CARGO_MANIFEST_DIR`.
        let workspace_root: &str = match &inputs.path_mapper.workspace {
            Some(canonical) => canonical.as_str(),
            None => inputs.workspace_root.as_str(),
        };

        let request = ArtifactRequest {
            binary_list: inputs.binary_list,
            packages: inputs.packages,
            path_mapper: &inputs.path_mapper,
            platform_filter: options.platform_filter,
        };
        let artifacts = match from_binary_list(request) {
            Ok(artifacts) => artifacts,
            Err(error) => {
                return Err(SessionBuildError::FromMessages(error));
            },
        };

        let request = TestListRequest {
            context: ctx.test_execute_context(profile.profile.name.as_str()),
            test_filter,
            partitioner_builder: options.partitioner_builder,
            workspace_root,
            env: &inputs.env,
            profile,
            filter_bound: options.filter_bound,
            list_threads: options.list_threads,
            progress: options.progress,
        };
        match new_test_list(request, artifacts) {
            Ok(test_list) => Ok(TestSession { ctx, profile, test_list }),
            Err(error) => Err(SessionBuildError::CreateTestList(error)),
        }
    }

    /// Returns the test list.
    pub fn test_list(&self) -> (test_list: &L)
        ensures
            *test_list == self.tests(),
    {
        &self.test_list
    }

    /// Builds a runner for the session's tests, by way of `build`.
    pub fn build_runner<R, B: FnOnce(RunnerRequest<'_, L>) -> Result<R, ErrorChain>>(
        &self,
        cli_args: Vec<String>,
        signal_handler: SignalHandlerKind,
        input_handler: InputHandlerKind,
        build: B,
    ) -> (runner: Result<R, ErrorChain>)
        requires
            forall|request: RunnerRequest<'_, L>|
                {
                    &&& asks_for_runner(request, self.context(), self.evaluated(), self.tests())
                    &&& runs_as(request, cli_args, signal_handler, input_handler)
                } ==> #[trigger] build.requires((request,)),
        ensures
            exists|request: RunnerRequest<'_, L>|
                {
                    &&& #[trigger] build.ensures((request,), runner)
                    &&& asks_for_runner(request, self.context(), self.evaluated(), self.tests())
                    &&& runs_as(request, cli_args, signal_handler, input_handler)
                },
    {
        build(
            RunnerRequest {
                run_id: self.ctx.run_id,
                version_env_vars: &self.ctx.version_env_vars,
                test_list: &self.test_list,
                profile: self.profile,
                cli_args,
                signal_handler,
                input_handler,
                double_spawn: &self.ctx.double_spawn,
                target_runner: &self.ctx.target_runner,
            },
        )
    }
}

/// A test binary sees the same run ID, versions, double-spawning and runner
/// when it lists its tests and when one of them runs, so it can key state on
/// the run ID across both.
pub proof fn law_listing_and_running_agree<T, L>(
    listing: TestListRequest<'_, T>,
    running: RunnerRequest<'_, L>,
    ctx: SessionContext,
    profile: EvaluatableProfile<'_>,
    inputs: SessionInputs<'_>,
    test_filter: T,
    options: TestListOptions,
    test_list: L,
)
    requires
        asks_for_tests(listing, ctx, profile, inputs, test_filter, options),
        asks_for_runner(running, ctx, profile, test_list),
    ensures
        listing.context.run_id == running.run_id,
        *listing.context.version_env_vars == *running.version_env_vars,
        *listing.context.double_spawn == *running.double_spawn,
        *listing.context.target_runner == *running.target_runner,
        *listing.profile == *running.profile,
{
}

/// What a completed run produced.
#[derive(Debug)]
pub struct ExecutedRun<S> {
    /// Statistics for the run.
    pub run_stats: RunStats,

    /// What the reporter accumulated along the way.
    pub reporter_stats: S,
}

/// Runs the tests to completion, feeding every event through `sink` and then the
/// reporter.
///
/// `state` and `reporter` are the sink and the reporter, as values; `sink` has the
/// one take an event, and `report` has the other render it. `configure` sets up
/// how file handles are inherited. `try_execute` runs the tests, hands every event
/// to the [`Relay`] it is given, and gives the relay back. `finish` finishes the
/// reporter. Nothing is called after a failure, and a run that completed always
/// finishes its reporter, so a frontend cannot forget to.
///
/// An error from the sink starts a graceful cancellation -- nextest keeps
/// reporting until the tests it has already started finish. A frontend with no
/// sink uses one that cannot fail, and recovers the reporter's own error type
/// with [`into_report_errors`](crate::session::errors::into_report_errors).
pub fn run_to_completion<
    V,
    E,
    K,
    P,
    Z,
    S: Fn(K, &V) -> (K, Result<(), E>),
    R: Fn(P, V) -> (P, Result<(), WriteEventError>),
    C: FnOnce(bool) -> Result<(), ErrorChain>,
    X: FnOnce(Relay<V, E, K, P, S, R>) -> (
        Relay<V, E, K, P, S, R>,
        Result<RunStats, TestRunnerExecuteErrors<SinkError<E>>>,
    ),
    F: FnOnce(P) -> Z,
>(
    no_capture: bool,
    state: K,
    sink: S,
    reporter: P,
    report: R,
    configure: C,
    try_execute: X,
    finish: F,
) -> (executed: Result<ExecutedRun<Z>, ExecuteError<E>>)
    requires
        relay_grants(sink, report),
        configure.requires((no_capture,)),
        forall|configured: Result<(), ErrorChain>, relay: Relay<V, E, K, P, S, R>|
            {
                &&& #[trigger] configure.ensures((no_capture,), configured)
                &&& configured is Ok
                &&& relay.is_fresh(state, sink, reporter, report)
            } ==> #[trigger] try_execute.requires((relay,)),
        forall|
            relay: Relay<V, E, K, P, S, R>,
            ran: (
                Relay<V, E, K, P, S, R>,
                Result<RunStats, TestRunnerExecuteErrors<SinkError<E>>>,
            ),
        |
            {
                &&& #[trigger] try_execute.ensures((relay,), ran)
                &&& relay.is_fresh(state, sink, reporter, report)
                &&& ran.1 is Ok
            } ==> finish.requires((ran.0.now().1,)),
    ensures
        exists|configured: Result<(), ErrorChain>|
            {
                &&& #[trigger] configure.ensures((no_capture,), configured)
                &&& match configured {
                    Err(error) => executed == Err::<ExecutedRun<Z>, ExecuteError<E>>(
                        ExecuteError::ConfigureHandleInheritance(error),
                    ),
                    Ok(()) => exists|
                        relay: Relay<V, E, K, P, S, R>,
                        ran: (
                            Relay<V, E, K, P, S, R>,
                            Result<RunStats, TestRunnerExecuteErrors<SinkError<E>>>,
                        ),
                    |
                        {
                            &&& #[trigger] try_execute.ensures((relay,), ran)
                            &&& relay.is_fresh(state, sink, reporter, report)
                            &&& ran.0.is_faithful()
                            &&& match ran.1 {
                                Err(errors) => executed == Err::<ExecutedRun<Z>, ExecuteError<E>>(
                                    ExecuteError::Execute(errors),
                                ),
                                Ok(run_stats) => {
                                    &&& executed matches Ok(executed)
                                    &&& executed.run_stats == run_stats
                                    &&& finish.ensures(
                                        (ran.0.now().1,),
                                        executed.reporter_stats,
                                    )
                                },
                            }
                        },
                }
            },
{
    match configure(no_capture) {
        Err(error) => Err(ExecuteError::ConfigureHandleInheritance(error)),
        Ok(()) => {
            let relay = Relay::new(state, sink, reporter, report);
            let (relay, ran) = try_execute(relay);
            let (_, reporter) = relay.into_parts();
            match ran {
                Err(errors) => Err(ExecuteError::Execute(errors)),
                Ok(run_stats) => {
                    let reporter_stats = finish(reporter);
                    Ok(ExecutedRun { run_stats, reporter_stats })
                },
            }
        },
    }
}

/// The artifacts of a session are asked for with its own binaries and packages, as
/// the inputs remap them and on the platform that the options restrict them to.
pub proof fn law_artifacts_are_of_the_inputs(
    request: ArtifactRequest<'_>,
    inputs: SessionInputs<'_>,
    options: TestListOptions,
)
    requires
        asks_for_artifacts(request, inputs, options),
    ensures
        *request.binary_list == *inputs.binary_list,
        *request.packages == *inputs.packages,
        *request.path_mapper == inputs.path_mapper,
        request.platform_filter == options.platform_filter,
{
}

/// The tests of a session are asked for under the run's own context, with the
/// profile, the filter and the environment that were given, in the root that a
/// remapping leads to or else in the one that was given, and as the options say.
pub proof fn law_tests_are_asked_for_as_given<T>(
    request: TestListRequest<'_, T>,
    ctx: SessionContext,
    profile: EvaluatableProfile<'_>,
    inputs: SessionInputs<'_>,
    test_filter: T,
    options: TestListOptions,
)
    requires
        asks_for_tests(request, ctx, profile, inputs, test_filter, options),
    ensures
        request.context.run_id == ctx.run_id,
        *request.context.version_env_vars == ctx.version_env_vars,
        request.context.profile_name@ == profile.profile.name@,
        *request.context.double_spawn == ctx.double_spawn,
        *request.context.target_runner == ctx.target_runner,
        *request.test_filter == test_filter,
        *request.profile == profile,
        *request.env == inputs.env,
        inputs.path_mapper.workspace matches Some(mapped) ==> request.workspace_root@ == mapped@,
        inputs.path_mapper.workspace is None ==> request.workspace_root@
            == inputs.workspace_root@,
        request.partitioner_builder == options.partitioner_builder,
        request.filter_bound == options.filter_bound,
        request.list_threads == options.list_threads,
        request.progress == options.progress,
{
}

/// A runner is asked for under the run's own context, for the session's own tests and
/// profile, with the command line and the handlers that were given.
pub proof fn law_runners_are_asked_for_as_given<L>(
    request: RunnerRequest<'_, L>,
    ctx: SessionContext,
    profile: EvaluatableProfile<'_>,
    test_list: L,
    cli_args: Vec<String>,
    signal_handler: SignalHandlerKind,
    input_handler: InputHandlerKind,
)
    requires
        asks_for_runner(request, ctx, profile, test_list),
        runs_as(request, cli_args, signal_handler, input_handler),
    ensures
        request.run_id == ctx.run_id,
        *request.version_env_vars == ctx.version_env_vars,
        *request.test_list == test_list,
        *request.profile == profile,
        *request.double_spawn == ctx.double_spawn,
        *request.target_runner == ctx.target_runner,
        request.cli_args == cli_args,
        request.signal_handler == signal_handler,
        request.input_handler == input_handler,
{
}

} // verus!
