//! Driving the session pipeline for one Buck2 target.
//!
//! The pipeline itself -- configuration, profiles, listing, running, and the
//! exit-code policy -- is [`crate::session`]'s. This module supplies the inputs
//! and holds the pieces both modes need, so that listing a target and running
//! one of its tests read configuration the same way and agree about what the
//! tests are called.

use crate::convert::Buck2BinaryList;
use crate::errors::ExpectedError;
use crate::events::MismatchReason;
use crate::session::context::SessionContext;
use crate::session::errors::{ErrorChain, SessionBuildError, StoreDirCreateError};
use crate::session::input::{
    EarlyProfile, EnvironmentMap, FilterBound, ListProgressOptions, PathMapper, SessionInputs,
    TestFilterSpec, TestListOptions,
};
use crate::session::profile::{
    evaluate_profile, may_create, store_dir_outcome, EvaluatableProfile,
};
use crate::session::test_session::{
    asks_for_artifacts, asks_for_runner, asks_for_tests, runs_as, ArtifactRequest,
    InputHandlerKind, RunnerRequest, SignalHandlerKind, TestListRequest, TestSession,
};
use vstd::prelude::*;

verus! {

/// The profile that is used unless another is named.
pub const DEFAULT_PROFILE: &'static str = "default";

/// Whether a filter selects a test.
#[derive(Clone, Copy, Debug, Eq, PartialEq, Structural)]
pub enum FilterMatch {
    /// It does.
    Matches,

    /// It does not.
    Mismatch {
        /// Why.
        reason: MismatchReason,
    },
}

/// A test that a binary was found to have.
#[derive(Debug, Eq, PartialEq)]
pub struct TestInstance {
    /// The binary's ID.
    pub binary_id: String,

    /// The test's name within it.
    pub name: String,

    /// Whether the filter selects it.
    pub filter_match: FilterMatch,
}

/// Where nextest's configuration is read from.
#[derive(Clone, Copy, Debug)]
pub struct ConfigSource<'a> {
    /// The directory `.config/nextest.toml` is looked up under.
    pub workspace_root: &'a str,

    /// The file to read instead, if one was given.
    pub config_file: Option<&'a str>,
}

/// Why what was to be written for Buck2 was not.
#[derive(Debug)]
pub enum OutputError {
    /// It could not be serialized.
    Serialize(serde_json::Error),

    /// It could not be written.
    Write(std::io::Error),
}

impl OutputError {
    /// What the failure is reported as.
    pub open spec fn reported(self) -> ExpectedError {
        match self {
            OutputError::Serialize(error) => ExpectedError::ResultSerializeError { error },
            OutputError::Write(error) => ExpectedError::WriteEventError { error },
        }
    }

    /// Turns the failure into what it is reported as.
    pub fn into_expected(self) -> (error: ExpectedError)
        ensures
            error == self.reported(),
    {
        match self {
            OutputError::Serialize(error) => ExpectedError::ResultSerializeError { error },
            OutputError::Write(error) => ExpectedError::WriteEventError { error },
        }
    }
}

/// `source` is where a project's configuration is read from.
pub open spec fn reads_from(
    source: ConfigSource<'_>,
    project_root: Seq<char>,
    config_file: Option<String>,
) -> bool {
    &&& source.workspace_root@ == project_root
    &&& match (source.config_file, config_file) {
        (Some(source), Some(given)) => source@ == given@,
        (None, None) => true,
        _ => false,
    }
}

/// `config` is what loading nextest's configuration comes to.
pub open spec fn config_outcome<C, F: FnOnce(ConfigSource<'_>) -> Result<C, ErrorChain>>(
    project_root: Seq<char>,
    config_file: Option<String>,
    from_sources: F,
    config: Result<C, ExpectedError>,
) -> bool {
    exists|source: ConfigSource<'_>, loaded: Result<C, ErrorChain>|
        {
            &&& #[trigger] from_sources.ensures((source,), loaded)
            &&& reads_from(source, project_root, config_file)
            &&& match loaded {
                Ok(loaded) => config == Ok::<C, ExpectedError>(loaded),
                Err(error) => config == Err::<C, ExpectedError>(
                    ExpectedError::ConfigParseError { error },
                ),
            }
        }
}

/// Loads nextest's configuration from the project root, by way of
/// `from_sources`.
pub fn load_config<C, F: FnOnce(ConfigSource<'_>) -> Result<C, ErrorChain>>(
    project_root: &str,
    config_file: &Option<String>,
    from_sources: F,
) -> (config: Result<C, ExpectedError>)
    requires
        forall|source: ConfigSource<'_>|
            reads_from(source, project_root@, *config_file) ==> #[trigger] from_sources.requires(
                (source,),
            ),
    ensures
        config_outcome(project_root@, *config_file, from_sources, config),
{
    let source = ConfigSource {
        workspace_root: project_root,
        config_file: match config_file {
            Some(path) => Some(path.as_str()),
            None => None,
        },
    };
    match from_sources(source) {
        Ok(config) => Ok(config),
        Err(error) => Err(ExpectedError::ConfigParseError { error }),
    }
}

/// The name of the profile to use.
pub open spec fn profile_or_default(profile_name: Option<String>) -> Seq<char> {
    match profile_name {
        Some(name) => name@,
        None => DEFAULT_PROFILE@,
    }
}

/// `profile` is what looking up the profile to run under comes to.
pub open spec fn profile_outcome<C, F: FnOnce(&C, &str) -> Result<EarlyProfile, ErrorChain>>(
    config: C,
    profile_name: Option<String>,
    find: F,
    profile: Result<EarlyProfile, ExpectedError>,
) -> bool {
    exists|name: &str, found: Result<EarlyProfile, ErrorChain>|
        {
            &&& #[trigger] find.ensures((&config, name), found)
            &&& name@ == profile_or_default(profile_name)
            &&& match found {
                Ok(found) => profile == Ok::<EarlyProfile, ExpectedError>(found),
                Err(error) => profile == Err::<EarlyProfile, ExpectedError>(
                    ExpectedError::ProfileNotFound { error },
                ),
            }
        }
}

/// Looks up the profile to run under, by way of `find`.
pub fn load_profile<C, F: FnOnce(&C, &str) -> Result<EarlyProfile, ErrorChain>>(
    config: &C,
    profile_name: &Option<String>,
    find: F,
) -> (profile: Result<EarlyProfile, ExpectedError>)
    requires
        forall|name: &str|
            name@ == profile_or_default(*profile_name) ==> #[trigger] find.requires((config, name)),
    ensures
        profile_outcome(*config, *profile_name, find, profile),
{
    let name: &str = match profile_name {
        Some(name) => name.as_str(),
        None => DEFAULT_PROFILE,
    };
    match find(config, name) {
        Ok(profile) => Ok(profile),
        Err(error) => Err(ExpectedError::ProfileNotFound { error }),
    }
}

/// What looking up a profile asks for may be asked for: the configuration is
/// loaded from the project, and the profile is looked up in what came of that.
pub open spec fn profile_grants<
    C,
    S: FnOnce(ConfigSource<'_>) -> Result<C, ErrorChain>,
    P: FnOnce(&C, &str) -> Result<EarlyProfile, ErrorChain>,
>(
    project_root: Seq<char>,
    config_file: Option<String>,
    profile_name: Option<String>,
    from_sources: S,
    find: P,
) -> bool {
    &&& forall|source: ConfigSource<'_>|
        reads_from(source, project_root, config_file) ==> #[trigger] from_sources.requires(
            (source,),
        )
    &&& forall|config: &C, name: &str|
        {
            &&& config_outcome(
                project_root,
                config_file,
                from_sources,
                Ok::<C, ExpectedError>(*config),
            )
            &&& name@ == profile_or_default(profile_name)
        } ==> #[trigger] find.requires((config, name))
}

/// `profile` was found in the configuration of the project.
pub open spec fn found_profile<
    C,
    S: FnOnce(ConfigSource<'_>) -> Result<C, ErrorChain>,
    P: FnOnce(&C, &str) -> Result<EarlyProfile, ErrorChain>,
>(
    project_root: Seq<char>,
    config_file: Option<String>,
    profile_name: Option<String>,
    from_sources: S,
    find: P,
    profile: EarlyProfile,
) -> bool {
    exists|config: C|
        {
            &&& #[trigger] config_outcome(
                project_root,
                config_file,
                from_sources,
                Ok::<C, ExpectedError>(config),
            )
            &&& profile_outcome(config, profile_name, find, Ok::<EarlyProfile, ExpectedError>(profile))
        }
}

/// `profile` is what resolving a profile against the platforms the binaries
/// were built for comes to.
pub open spec fn evaluation_outcome<'a, C: FnOnce(&str) -> Result<(), std::io::Error>>(
    binaries: &'a Buck2BinaryList,
    early_profile: EarlyProfile,
    create: C,
    profile: Result<EvaluatableProfile<'a>, ExpectedError>,
) -> bool {
    exists|created: Result<(), StoreDirCreateError>|
        {
            &&& #[trigger] store_dir_outcome(early_profile, create, created)
            &&& match created {
                Ok(()) => profile == Ok::<EvaluatableProfile<'a>, ExpectedError>(
                    EvaluatableProfile {
                        profile: early_profile,
                        build_platforms: &binaries.binary_list.rust_build_meta.build_platforms,
                    },
                ),
                Err(error) => profile == Err::<EvaluatableProfile<'a>, ExpectedError>(
                    ExpectedError::StoreDirCreateError { error },
                ),
            }
        }
}

/// Resolves a profile against the platforms the binaries were built for.
pub fn resolve_profile<'a, C: FnOnce(&str) -> Result<(), std::io::Error>>(
    binaries: &'a Buck2BinaryList,
    early_profile: EarlyProfile,
    create: C,
) -> (profile: Result<EvaluatableProfile<'a>, ExpectedError>)
    requires
        forall|dir: &str| may_create(early_profile, dir) ==> #[trigger] create.requires((dir,)),
    ensures
        evaluation_outcome(binaries, early_profile, create, profile),
{
    match evaluate_profile(
        early_profile,
        &binaries.binary_list.rust_build_meta.build_platforms,
        create,
    ) {
        Ok(profile) => Ok(profile),
        Err(error) => Err(ExpectedError::StoreDirCreateError { error }),
    }
}

/// `filter` is what building the filter tests are matched against comes to.
pub open spec fn filter_outcome<T, B: FnOnce(TestFilterSpec) -> Result<T, ErrorChain>>(
    spec: TestFilterSpec,
    build: B,
    filter: Result<T, ExpectedError>,
) -> bool {
    exists|built: Result<T, ErrorChain>|
        {
            &&& #[trigger] build.ensures((spec,), built)
            &&& match built {
                Ok(built) => filter == Ok::<T, ExpectedError>(built),
                Err(error) => filter == Err::<T, ExpectedError>(
                    ExpectedError::TestFilterBuildError { error },
                ),
            }
        }
}

/// Builds the filter tests are matched against, by way of `build`.
pub fn new_test_filter<T, B: FnOnce(TestFilterSpec) -> Result<T, ErrorChain>>(
    spec: TestFilterSpec,
    build: B,
) -> (filter: Result<T, ExpectedError>)
    requires
        build.requires((spec,)),
    ensures
        filter_outcome(spec, build, filter),
{
    match build(spec) {
        Ok(filter) => Ok(filter),
        Err(error) => Err(ExpectedError::TestFilterBuildError { error }),
    }
}

/// The inputs Buck2 supplies to a session: its binaries, with nothing remapped
/// and no environment from elsewhere.
pub open spec fn inputs_for(
    inputs: SessionInputs<'_>,
    binaries: Buck2BinaryList,
    project_root: Seq<char>,
) -> bool {
    &&& *inputs.binary_list == binaries.binary_list
    &&& *inputs.packages == binaries.packages
    &&& inputs.workspace_root@ == project_root
    &&& inputs.env.vars@ == Map::<Seq<char>, String>::empty()
    &&& inputs.path_mapper == (PathMapper { workspace: None, target_dir: None })
}

/// The options Buck2's sessions list tests with.
pub open spec fn options_for(
    filter_bound: FilterBound,
    list_threads: usize,
    is_terminal: bool,
) -> TestListOptions {
    TestListOptions {
        partitioner_builder: None,
        platform_filter: None,
        filter_bound,
        list_threads,
        progress: ListProgressOptions { show_terminal_progress: false, is_terminal },
    }
}

/// What enumerating the binaries' tests asks for may be asked for: the binary
/// list is converted as the options say, and tests are enumerated from artifacts
/// that came of that, as the context, the profile and the filter say.
pub open spec fn session_grants<
    T,
    A,
    L,
    F: FnOnce(ArtifactRequest<'_>) -> Result<A, ErrorChain>,
    N: FnOnce(TestListRequest<'_, T>, A) -> Result<L, ErrorChain>,
>(
    binaries: Buck2BinaryList,
    project_root: Seq<char>,
    ctx: SessionContext,
    profile: EvaluatableProfile<'_>,
    filter: T,
    options: TestListOptions,
    from_binary_list: F,
    new_test_list: N,
) -> bool {
    &&& forall|inputs: SessionInputs<'_>, request: ArtifactRequest<'_>|
        #[trigger] inputs_for(inputs, binaries, project_root) && asks_for_artifacts(
            request,
            inputs,
            options,
        ) ==> #[trigger] from_binary_list.requires((request,))
    &&& forall|
        inputs: SessionInputs<'_>,
        asked: ArtifactRequest<'_>,
        artifacts: A,
        request: TestListRequest<'_, T>,
    |
        {
            &&& #[trigger] inputs_for(inputs, binaries, project_root)
            &&& #[trigger] from_binary_list.ensures((asked,), Ok::<A, ErrorChain>(artifacts))
            &&& asks_for_artifacts(asked, inputs, options)
            &&& asks_for_tests(request, ctx, profile, inputs, filter, options)
        } ==> #[trigger] new_test_list.requires((request, artifacts))
}

/// `session` is what enumerating the binaries' tests comes to.
///
/// The binary list is converted first, and its tests are enumerated only where
/// that worked; either failure is reported as what it is.
pub open spec fn session_outcome<
    'a,
    T,
    A,
    L,
    F: FnOnce(ArtifactRequest<'_>) -> Result<A, ErrorChain>,
    N: FnOnce(TestListRequest<'_, T>, A) -> Result<L, ErrorChain>,
>(
    inputs: SessionInputs<'_>,
    ctx: SessionContext,
    profile: EvaluatableProfile<'a>,
    filter: T,
    options: TestListOptions,
    from_binary_list: F,
    new_test_list: N,
    session: Result<TestSession<'a, L>, ExpectedError>,
) -> bool {
    exists|request: ArtifactRequest<'_>, converted: Result<A, ErrorChain>|
        {
            &&& #[trigger] from_binary_list.ensures((request,), converted)
            &&& asks_for_artifacts(request, inputs, options)
            &&& match converted {
                Err(error) => session == Err::<TestSession<'a, L>, ExpectedError>(
                    ExpectedError::FromMessagesError { error },
                ),
                Ok(artifacts) => exists|
                    request: TestListRequest<'_, T>,
                    listed: Result<L, ErrorChain>,
                |
                    {
                        &&& #[trigger] new_test_list.ensures((request, artifacts), listed)
                        &&& asks_for_tests(request, ctx, profile, inputs, filter, options)
                        &&& match listed {
                            Err(error) => session == Err::<TestSession<'a, L>, ExpectedError>(
                                ExpectedError::CreateTestListError { error },
                            ),
                            Ok(test_list) => {
                                &&& session matches Ok(session)
                                &&& session.context() == ctx
                                &&& session.evaluated() == profile
                                &&& session.tests() == test_list
                            },
                        }
                    },
            }
        }
}

/// Enumerates the binaries' tests, producing a session to list or run.
///
/// `is_terminal` says whether standard error is a terminal.
pub fn build_buck2_session<
    'a,
    T,
    A,
    L,
    F: FnOnce(ArtifactRequest<'_>) -> Result<A, ErrorChain>,
    N: FnOnce(TestListRequest<'_, T>, A) -> Result<L, ErrorChain>,
>(
    binaries: &'a Buck2BinaryList,
    project_root: &str,
    ctx: &'a SessionContext,
    profile: &'a EvaluatableProfile<'a>,
    filter: &T,
    filter_bound: FilterBound,
    list_threads: usize,
    is_terminal: bool,
    from_binary_list: F,
    new_test_list: N,
) -> (session: Result<TestSession<'a, L>, ExpectedError>)
    requires
        session_grants(
            *binaries,
            project_root@,
            *ctx,
            *profile,
            *filter,
            options_for(filter_bound, list_threads, is_terminal),
            from_binary_list,
            new_test_list,
        ),
    ensures
        exists|inputs: SessionInputs<'_>|
            {
                &&& #[trigger] inputs_for(inputs, *binaries, project_root@)
                &&& session_outcome(
                    inputs,
                    *ctx,
                    *profile,
                    *filter,
                    options_for(filter_bound, list_threads, is_terminal),
                    from_binary_list,
                    new_test_list,
                    session,
                )
            },
{
    let inputs = SessionInputs {
        binary_list: &binaries.binary_list,
        packages: &binaries.packages,
        workspace_root: project_root.to_owned(),
        env: EnvironmentMap::empty(),
        // No path remapping: the paths are already where the binaries are.
        path_mapper: PathMapper::noop(),
    };
    assert(inputs_for(inputs, *binaries, project_root@));
    let options = TestListOptions {
        partitioner_builder: None,
        platform_filter: None,
        filter_bound,
        list_threads,
        progress: ListProgressOptions { show_terminal_progress: false, is_terminal },
    };
    match TestSession::build(ctx, profile, inputs, filter, options, from_binary_list, new_test_list) {
        Ok(session) => Ok(session),
        Err(SessionBuildError::FromMessages(error)) => Err(
            ExpectedError::FromMessagesError { error },
        ),
        Err(SessionBuildError::CreateTestList(error)) => Err(
            ExpectedError::CreateTestListError { error },
        ),
    }
}

/// Everything both modes need to reach the pipeline.
#[derive(Debug)]
pub struct Context {
    /// The target's label, which is also its binary ID.
    pub label: String,

    /// The converted binary and its package.
    pub binaries: Buck2BinaryList,

    /// The Buck2 project root.
    pub project_root: String,

    /// The nextest profile to use.
    pub profile_name: Option<String>,

    /// A path to a nextest configuration file, if one was given.
    pub config_file: Option<String>,
}

impl Context {
    /// Enumerates the binary's tests, producing a session to list or run.
    ///
    /// There is one binary, so one thread lists its tests.
    pub fn build_session<
        'a,
        T,
        A,
        L,
        F: FnOnce(ArtifactRequest<'_>) -> Result<A, ErrorChain>,
        N: FnOnce(TestListRequest<'_, T>, A) -> Result<L, ErrorChain>,
    >(
        &'a self,
        ctx: &'a SessionContext,
        profile: &'a EvaluatableProfile<'a>,
        filter: &T,
        filter_bound: FilterBound,
        is_terminal: bool,
        from_binary_list: F,
        new_test_list: N,
    ) -> (session: Result<TestSession<'a, L>, ExpectedError>)
        requires
            session_grants(
                self.binaries,
                self.project_root@,
                *ctx,
                *profile,
                *filter,
                options_for(filter_bound, 1, is_terminal),
                from_binary_list,
                new_test_list,
            ),
        ensures
            exists|inputs: SessionInputs<'_>|
                {
                    &&& #[trigger] inputs_for(inputs, self.binaries, self.project_root@)
                    &&& session_outcome(
                        inputs,
                        *ctx,
                        *profile,
                        *filter,
                        options_for(filter_bound, 1, is_terminal),
                        from_binary_list,
                        new_test_list,
                        session,
                    )
                },
    {
        build_buck2_session(
            &self.binaries,
            self.project_root.as_str(),
            ctx,
            profile,
            filter,
            filter_bound,
            1,
            is_terminal,
            from_binary_list,
            new_test_list,
        )
    }
}

/// `runner` is what building a runner for a session's tests comes to.
pub open spec fn runner_outcome<
    L,
    R,
    B: FnOnce(RunnerRequest<'_, L>) -> Result<R, ErrorChain>,
>(
    session: TestSession<'_, L>,
    cli_args: Vec<String>,
    signal_handler: SignalHandlerKind,
    input_handler: InputHandlerKind,
    build: B,
    runner: Result<R, ExpectedError>,
) -> bool {
    exists|request: RunnerRequest<'_, L>, built: Result<R, ErrorChain>|
        {
            &&& #[trigger] build.ensures((request,), built)
            &&& asks_for_runner(request, session.context(), session.evaluated(), session.tests())
            &&& runs_as(request, cli_args, signal_handler, input_handler)
            &&& match built {
                Ok(built) => runner == Ok::<R, ExpectedError>(built),
                Err(error) => runner == Err::<R, ExpectedError>(
                    ExpectedError::TestRunnerBuildError { error },
                ),
            }
        }
}

/// Builds a runner for a session's tests, by way of `build`.
pub fn build_buck2_runner<L, R, B: FnOnce(RunnerRequest<'_, L>) -> Result<R, ErrorChain>>(
    session: &TestSession<'_, L>,
    cli_args: Vec<String>,
    signal_handler: SignalHandlerKind,
    input_handler: InputHandlerKind,
    build: B,
) -> (runner: Result<R, ExpectedError>)
    requires
        forall|request: RunnerRequest<'_, L>|
            {
                &&& asks_for_runner(
                    request,
                    session.context(),
                    session.evaluated(),
                    session.tests(),
                )
                &&& runs_as(request, cli_args, signal_handler, input_handler)
            } ==> #[trigger] build.requires((request,)),
    ensures
        runner_outcome(*session, cli_args, signal_handler, input_handler, build, runner),
{
    match session.build_runner(cli_args, signal_handler, input_handler, build) {
        Ok(runner) => Ok(runner),
        Err(error) => Err(ExpectedError::TestRunnerBuildError { error }),
    }
}

/// `with` may be handed a session that enumerating the binaries' tests gave,
/// along with the plan for it.
pub open spec fn use_grants<
    T,
    A,
    L,
    R,
    Q,
    F: FnOnce(ArtifactRequest<'_>) -> Result<A, ErrorChain>,
    N: FnOnce(TestListRequest<'_, T>, A) -> Result<L, ErrorChain>,
    W: FnOnce(&TestSession<'_, L>, Q) -> Result<R, ExpectedError>,
>(
    binaries: Buck2BinaryList,
    project_root: Seq<char>,
    ctx: SessionContext,
    profile: EvaluatableProfile<'_>,
    filter: T,
    options: TestListOptions,
    from_binary_list: F,
    new_test_list: N,
    plan: Q,
    with: W,
) -> bool {
    forall|inputs: SessionInputs<'_>, session: TestSession<'_, L>|
        {
            &&& #[trigger] inputs_for(inputs, binaries, project_root)
            &&& #[trigger] session_outcome(
                inputs,
                ctx,
                profile,
                filter,
                options,
                from_binary_list,
                new_test_list,
                Ok::<TestSession<'_, L>, ExpectedError>(session),
            )
        } ==> with.requires((&session, plan))
}

/// `result` is what `with` makes of a session and the plan for it, or why there
/// is no session.
pub open spec fn used_session<
    'a,
    T,
    A,
    L,
    R,
    Q,
    F: FnOnce(ArtifactRequest<'_>) -> Result<A, ErrorChain>,
    N: FnOnce(TestListRequest<'_, T>, A) -> Result<L, ErrorChain>,
    W: FnOnce(&TestSession<'_, L>, Q) -> Result<R, ExpectedError>,
>(
    binaries: Buck2BinaryList,
    project_root: Seq<char>,
    ctx: SessionContext,
    profile: EvaluatableProfile<'a>,
    filter: T,
    options: TestListOptions,
    from_binary_list: F,
    new_test_list: N,
    plan: Q,
    with: W,
    result: Result<R, ExpectedError>,
) -> bool {
    exists|inputs: SessionInputs<'_>, session: Result<TestSession<'a, L>, ExpectedError>|
        {
            &&& #[trigger] inputs_for(inputs, binaries, project_root)
            &&& #[trigger] session_outcome(
                inputs,
                ctx,
                profile,
                filter,
                options,
                from_binary_list,
                new_test_list,
                session,
            )
            &&& match session {
                Err(error) => result == Err::<R, ExpectedError>(error),
                Ok(session) => with.ensures((&session, plan), result),
            }
        }
}

/// What the pipeline leaves to others to do, stage by stage.
pub struct Stages<S, P, D, B, F, N> {
    /// Loads nextest's configuration.
    pub from_sources: S,

    /// Looks up a profile in it.
    pub find: P,

    /// Creates a directory and those above it.
    pub create: D,

    /// Builds the filter tests are matched against.
    pub build: B,

    /// Converts a binary list into test artifacts.
    pub from_binary_list: F,

    /// Enumerates the artifacts' tests.
    pub new_test_list: N,
}

impl<S, P, D, B, F, N> Stages<S, P, D, B, F, N> {
    /// Returns the given stages.
    pub fn new<C, T, A, L>(
        from_sources: S,
        find: P,
        create: D,
        build: B,
        from_binary_list: F,
        new_test_list: N,
    ) -> (stages: Self) where
        S: FnOnce(ConfigSource<'_>) -> Result<C, ErrorChain>,
        P: FnOnce(&C, &str) -> Result<EarlyProfile, ErrorChain>,
        D: FnOnce(&str) -> Result<(), std::io::Error>,
        B: FnOnce(TestFilterSpec) -> Result<T, ErrorChain>,
        F: FnOnce(ArtifactRequest<'_>) -> Result<A, ErrorChain>,
        N: FnOnce(TestListRequest<'_, T>, A) -> Result<L, ErrorChain>,

        ensures
            stages == (Stages { from_sources, find, create, build, from_binary_list, new_test_list }),
    {
        Stages { from_sources, find, create, build, from_binary_list, new_test_list }
    }
}

impl Context {
    /// What taking the pipeline as far as a session asks for may be asked for,
    /// each stage only once those before it have worked.
    pub open spec fn grants<
        C,
        T,
        A,
        L,
        R,
        Q,
        S: FnOnce(ConfigSource<'_>) -> Result<C, ErrorChain>,
        P: FnOnce(&C, &str) -> Result<EarlyProfile, ErrorChain>,
        D: FnOnce(&str) -> Result<(), std::io::Error>,
        B: FnOnce(TestFilterSpec) -> Result<T, ErrorChain>,
        F: FnOnce(ArtifactRequest<'_>) -> Result<A, ErrorChain>,
        N: FnOnce(TestListRequest<'_, T>, A) -> Result<L, ErrorChain>,
        W: FnOnce(&TestSession<'_, L>, Q) -> Result<R, ExpectedError>,
    >(
        &self,
        ctx: SessionContext,
        spec: TestFilterSpec,
        options: TestListOptions,
        stages: Stages<S, P, D, B, F, N>,
        plan: Q,
        with: W,
    ) -> bool {
        &&& profile_grants(
            self.project_root@,
            self.config_file,
            self.profile_name,
            stages.from_sources,
            stages.find,
        )
        &&& forall|early: EarlyProfile, dir: &str|
            #[trigger] found_profile(
                self.project_root@,
                self.config_file,
                self.profile_name,
                stages.from_sources,
                stages.find,
                early,
            ) && may_create(early, dir) ==> #[trigger] stages.create.requires((dir,))
        &&& forall|early: EarlyProfile, profile: EvaluatableProfile<'_>|
            #[trigger] found_profile(
                self.project_root@,
                self.config_file,
                self.profile_name,
                stages.from_sources,
                stages.find,
                early,
            ) && #[trigger] evaluation_outcome(
                &self.binaries,
                early,
                stages.create,
                Ok::<EvaluatableProfile<'_>, ExpectedError>(profile),
            ) ==> stages.build.requires((spec,))
        &&& forall|early: EarlyProfile, profile: EvaluatableProfile<'_>, filter: T|
            {
                &&& #[trigger] found_profile(
                    self.project_root@,
                    self.config_file,
                    self.profile_name,
                    stages.from_sources,
                    stages.find,
                    early,
                )
                &&& #[trigger] evaluation_outcome(
                    &self.binaries,
                    early,
                    stages.create,
                    Ok::<EvaluatableProfile<'_>, ExpectedError>(profile),
                )
                &&& #[trigger] filter_outcome(spec, stages.build, Ok::<T, ExpectedError>(filter))
            } ==> {
                &&& session_grants(
                    self.binaries,
                    self.project_root@,
                    ctx,
                    profile,
                    filter,
                    options,
                    stages.from_binary_list,
                    stages.new_test_list,
                )
                &&& use_grants(
                    self.binaries,
                    self.project_root@,
                    ctx,
                    profile,
                    filter,
                    options,
                    stages.from_binary_list,
                    stages.new_test_list,
                    plan,
                    with,
                )
            }
    }

    /// `result` is what the rest of the pipeline comes to, once the profile was
    /// found: it is resolved, the filter is built, and a session is used.
    pub open spec fn after_profile<
        C,
        T,
        A,
        L,
        R,
        Q,
        S: FnOnce(ConfigSource<'_>) -> Result<C, ErrorChain>,
        P: FnOnce(&C, &str) -> Result<EarlyProfile, ErrorChain>,
        D: FnOnce(&str) -> Result<(), std::io::Error>,
        B: FnOnce(TestFilterSpec) -> Result<T, ErrorChain>,
        F: FnOnce(ArtifactRequest<'_>) -> Result<A, ErrorChain>,
        N: FnOnce(TestListRequest<'_, T>, A) -> Result<L, ErrorChain>,
        W: FnOnce(&TestSession<'_, L>, Q) -> Result<R, ExpectedError>,
    >(
        &self,
        early_profile: EarlyProfile,
        ctx: SessionContext,
        spec: TestFilterSpec,
        options: TestListOptions,
        stages: Stages<S, P, D, B, F, N>,
        plan: Q,
        with: W,
        result: Result<R, ExpectedError>,
    ) -> bool {
        exists|profile: Result<EvaluatableProfile<'_>, ExpectedError>|
            {
                &&& #[trigger] evaluation_outcome(
                    &self.binaries,
                    early_profile,
                    stages.create,
                    profile,
                )
                &&& match profile {
                    Err(error) => result == Err::<R, ExpectedError>(error),
                    Ok(profile) => exists|filter: Result<T, ExpectedError>|
                        {
                            &&& #[trigger] filter_outcome(spec, stages.build, filter)
                            &&& match filter {
                                Err(error) => result == Err::<R, ExpectedError>(error),
                                Ok(filter) => used_session(
                                    self.binaries,
                                    self.project_root@,
                                    ctx,
                                    profile,
                                    filter,
                                    options,
                                    stages.from_binary_list,
                                    stages.new_test_list,
                                    plan,
                                    with,
                                    result,
                                ),
                            }
                        },
                }
            }
    }

    /// `result` is what taking the pipeline as far as a session and using that
    /// comes to. The first stage that fails says so, and ends it.
    pub open spec fn piped<
        C,
        T,
        A,
        L,
        R,
        Q,
        S: FnOnce(ConfigSource<'_>) -> Result<C, ErrorChain>,
        P: FnOnce(&C, &str) -> Result<EarlyProfile, ErrorChain>,
        D: FnOnce(&str) -> Result<(), std::io::Error>,
        B: FnOnce(TestFilterSpec) -> Result<T, ErrorChain>,
        F: FnOnce(ArtifactRequest<'_>) -> Result<A, ErrorChain>,
        N: FnOnce(TestListRequest<'_, T>, A) -> Result<L, ErrorChain>,
        W: FnOnce(&TestSession<'_, L>, Q) -> Result<R, ExpectedError>,
    >(
        &self,
        ctx: SessionContext,
        spec: TestFilterSpec,
        options: TestListOptions,
        stages: Stages<S, P, D, B, F, N>,
        plan: Q,
        with: W,
        result: Result<R, ExpectedError>,
    ) -> bool {
        exists|config: Result<C, ExpectedError>|
            {
                &&& #[trigger] config_outcome(
                    self.project_root@,
                    self.config_file,
                    stages.from_sources,
                    config,
                )
                &&& match config {
                    Err(error) => result == Err::<R, ExpectedError>(error),
                    Ok(config) => exists|early: Result<EarlyProfile, ExpectedError>|
                        {
                            &&& #[trigger] profile_outcome(
                                config,
                                self.profile_name,
                                stages.find,
                                early,
                            )
                            &&& match early {
                                Err(error) => result == Err::<R, ExpectedError>(error),
                                Ok(early) => self.after_profile(
                                    early,
                                    ctx,
                                    spec,
                                    options,
                                    stages,
                                    plan,
                                    with,
                                    result,
                                ),
                            }
                        },
                }
            }
    }

    /// Takes the pipeline as far as a session, and hands that to `with`, along
    /// with the plan for it.
    ///
    /// In order, the configuration is loaded, the profile is looked up in it,
    /// the profile's store directory is created, and the filter is built; the
    /// rest is as for [`build_session`](Self::build_session). The first failure
    /// ends it.
    pub fn with_session<
        C,
        T,
        A,
        L,
        R,
        Q,
        S: FnOnce(ConfigSource<'_>) -> Result<C, ErrorChain>,
        P: FnOnce(&C, &str) -> Result<EarlyProfile, ErrorChain>,
        D: FnOnce(&str) -> Result<(), std::io::Error>,
        B: FnOnce(TestFilterSpec) -> Result<T, ErrorChain>,
        F: FnOnce(ArtifactRequest<'_>) -> Result<A, ErrorChain>,
        N: FnOnce(TestListRequest<'_, T>, A) -> Result<L, ErrorChain>,
        W: FnOnce(&TestSession<'_, L>, Q) -> Result<R, ExpectedError>,
    >(
        &self,
        ctx: &SessionContext,
        spec: TestFilterSpec,
        filter_bound: FilterBound,
        is_terminal: bool,
        stages: Stages<S, P, D, B, F, N>,
        plan: Q,
        with: W,
    ) -> (result: Result<R, ExpectedError>)
        requires
            self.grants(
                *ctx,
                spec,
                options_for(filter_bound, 1, is_terminal),
                stages,
                plan,
                with,
            ),
        ensures
            self.piped(
                *ctx,
                spec,
                options_for(filter_bound, 1, is_terminal),
                stages,
                plan,
                with,
                result,
            ),
    {
        let Stages { from_sources, find, create, build, from_binary_list, new_test_list } = stages;
        let config = match load_config(
            self.project_root.as_str(),
            &self.config_file,
            from_sources,
        ) {
            Ok(config) => config,
            Err(error) => {
                return Err(error);
            },
        };
        let early_profile = match load_profile(&config, &self.profile_name, find) {
            Ok(early_profile) => early_profile,
            Err(error) => {
                return Err(error);
            },
        };
        assert(found_profile(
            self.project_root@,
            self.config_file,
            self.profile_name,
            from_sources,
            find,
            early_profile,
        ));
        let profile = match resolve_profile(&self.binaries, early_profile, create) {
            Ok(profile) => profile,
            Err(error) => {
                return Err(error);
            },
        };
        let filter = match new_test_filter(spec, build) {
            Ok(filter) => filter,
            Err(error) => {
                return Err(error);
            },
        };
        match self.build_session(
            ctx,
            &profile,
            &filter,
            filter_bound,
            is_terminal,
            from_binary_list,
            new_test_list,
        ) {
            Ok(session) => with(&session, plan),
            Err(error) => Err(error),
        }
    }
}

/// Tests of a Buck2 target see the project root as their workspace root, and
/// the profile that was asked for is the one they run under.
pub proof fn law_tests_see_the_project_root<T>(
    request: TestListRequest<'_, T>,
    ctx: SessionContext,
    profile: EvaluatableProfile<'_>,
    inputs: SessionInputs<'_>,
    filter: T,
    options: TestListOptions,
    binaries: Buck2BinaryList,
    project_root: Seq<char>,
)
    requires
        inputs_for(inputs, binaries, project_root),
        asks_for_tests(request, ctx, profile, inputs, filter, options),
    ensures
        request.workspace_root@ == project_root,
        request.context.profile_name@ == profile.profile.name@,
{
}

/// A failure to serialize and a failure to write are told apart, each with its cause.
pub proof fn law_output_failures_are_told_apart(failure: OutputError)
    ensures
        failure matches OutputError::Serialize(error) ==> failure.reported() == (
        ExpectedError::ResultSerializeError { error }),
        failure matches OutputError::Write(error) ==> failure.reported() == (
        ExpectedError::WriteEventError { error }),
{
}

/// The configuration is read from the project root, or from the file that was given,
/// and one that could not be read is an error that says why.
pub proof fn law_configuration_is_the_projects<
    C,
    F: FnOnce(ConfigSource<'_>) -> Result<C, ErrorChain>,
>(
    project_root: Seq<char>,
    config_file: Option<String>,
    from_sources: F,
    config: Result<C, ExpectedError>,
)
    requires
        config_outcome(project_root, config_file, from_sources, config),
    ensures
        exists|source: ConfigSource<'_>, loaded: Result<C, ErrorChain>|
            {
                &&& #[trigger] from_sources.ensures((source,), loaded)
                &&& source.workspace_root@ == project_root
                &&& source.config_file is Some <==> config_file is Some
                &&& config_file matches Some(given) ==> source.config_file->0@ == given@
                &&& loaded matches Ok(found) ==> config == Ok::<C, ExpectedError>(found)
                &&& loaded matches Err(error) ==> config == Err::<C, ExpectedError>(
                    ExpectedError::ConfigParseError { error },
                )
            },
{
    let (source, loaded) = choose|source: ConfigSource<'_>, loaded: Result<C, ErrorChain>|
        {
            &&& #[trigger] from_sources.ensures((source,), loaded)
            &&& reads_from(source, project_root, config_file)
            &&& match loaded {
                Ok(loaded) => config == Ok::<C, ExpectedError>(loaded),
                Err(error) => config == Err::<C, ExpectedError>(
                    ExpectedError::ConfigParseError { error },
                ),
            }
        };
    assert(from_sources.ensures((source,), loaded));
}

/// The profile is looked up by the name that was given, or else as `default`, in the
/// configuration that was read, and one that is not there is an error that says why.
pub proof fn law_profiles_are_looked_up_by_name<
    C,
    F: FnOnce(&C, &str) -> Result<EarlyProfile, ErrorChain>,
>(
    config: C,
    profile_name: Option<String>,
    find: F,
    profile: Result<EarlyProfile, ExpectedError>,
)
    requires
        profile_outcome(config, profile_name, find, profile),
    ensures
        exists|name: &str, found: Result<EarlyProfile, ErrorChain>|
            {
                &&& #[trigger] find.ensures((&config, name), found)
                &&& profile_name matches Some(given) ==> name@ == given@
                &&& profile_name is None ==> name@ == "default"@
                &&& found matches Ok(early) ==> profile == Ok::<EarlyProfile, ExpectedError>(early)
                &&& found matches Err(error) ==> profile == Err::<EarlyProfile, ExpectedError>(
                    ExpectedError::ProfileNotFound { error },
                )
            },
{
    let (name, found) = choose|name: &str, found: Result<EarlyProfile, ErrorChain>|
        {
            &&& #[trigger] find.ensures((&config, name), found)
            &&& name@ == profile_or_default(profile_name)
            &&& match found {
                Ok(found) => profile == Ok::<EarlyProfile, ExpectedError>(found),
                Err(error) => profile == Err::<EarlyProfile, ExpectedError>(
                    ExpectedError::ProfileNotFound { error },
                ),
            }
        };
    assert(find.ensures((&config, name), found));
}

/// A profile is evaluated as it was found, on the platforms that the binaries were
/// built for; a store directory that it needs and could not have is an error.
pub proof fn law_profiles_are_evaluated_as_found<
    'a,
    C: FnOnce(&str) -> Result<(), std::io::Error>,
>(
    binaries: &'a Buck2BinaryList,
    early_profile: EarlyProfile,
    create: C,
    profile: Result<EvaluatableProfile<'a>, ExpectedError>,
)
    requires
        evaluation_outcome(binaries, early_profile, create, profile),
    ensures
        profile matches Ok(evaluated) ==> {
            &&& evaluated.profile == early_profile
            &&& *evaluated.build_platforms == binaries.binary_list.rust_build_meta.build_platforms
        },
        !early_profile.has_junit ==> profile is Ok,
        profile matches Err(error) ==> (error matches ExpectedError::StoreDirCreateError {
            error: failure,
        } && failure.store_dir@ == early_profile.store_dir@),
{
}

/// A filter is built from exactly what was asked for, and one that could not be built
/// is an error that says why.
pub proof fn law_filters_are_built_as_asked<T, B: FnOnce(TestFilterSpec) -> Result<T, ErrorChain>>(
    spec: TestFilterSpec,
    build: B,
    filter: Result<T, ExpectedError>,
)
    requires
        filter_outcome(spec, build, filter),
    ensures
        exists|built: Result<T, ErrorChain>|
            {
                &&& #[trigger] build.ensures((spec,), built)
                &&& built matches Ok(made) ==> filter == Ok::<T, ExpectedError>(made)
                &&& built matches Err(error) ==> filter == Err::<T, ExpectedError>(
                    ExpectedError::TestFilterBuildError { error },
                )
            },
{
    let built = choose|built: Result<T, ErrorChain>|
        {
            &&& #[trigger] build.ensures((spec,), built)
            &&& match built {
                Ok(built) => filter == Ok::<T, ExpectedError>(built),
                Err(error) => filter == Err::<T, ExpectedError>(
                    ExpectedError::TestFilterBuildError { error },
                ),
            }
        };
    assert(build.ensures((spec,), built));
}

/// Buck2's sessions have Buck2's binaries and packages as they are, in the project
/// root, with nothing remapped and nothing added to the environment.
pub proof fn law_inputs_are_buck2s(
    inputs: SessionInputs<'_>,
    binaries: Buck2BinaryList,
    project_root: Seq<char>,
    name: Seq<char>,
)
    requires
        inputs_for(inputs, binaries, project_root),
    ensures
        *inputs.binary_list == binaries.binary_list,
        *inputs.packages == binaries.packages,
        inputs.workspace_root@ == project_root,
        !inputs.env.vars@.contains_key(name),
        inputs.path_mapper.workspace is None,
        inputs.path_mapper.target_dir is None,
{
}

/// Tests are listed in one invocation, on every platform, within the bound and with
/// the threads that were asked for.
pub proof fn law_listing_options_are_as_asked(
    filter_bound: FilterBound,
    list_threads: usize,
    is_terminal: bool,
)
    ensures
        options_for(filter_bound, list_threads, is_terminal).partitioner_builder is None,
        options_for(filter_bound, list_threads, is_terminal).platform_filter is None,
        options_for(filter_bound, list_threads, is_terminal).filter_bound == filter_bound,
        options_for(filter_bound, list_threads, is_terminal).list_threads == list_threads,
        options_for(filter_bound, list_threads, is_terminal).progress.is_terminal == is_terminal,
        !options_for(filter_bound, list_threads, is_terminal).progress.show_terminal_progress,
{
}

/// There is a session only where the binary list was converted and its tests were
/// enumerated, from the artifacts that came of that; it has the context and the
/// profile it was asked for with, and the tests that were found. A session that there
/// is not says which of the two failed.
pub proof fn law_sessions_hold_what_was_enumerated<
    'a,
    T,
    A,
    L,
    F: FnOnce(ArtifactRequest<'_>) -> Result<A, ErrorChain>,
    N: FnOnce(TestListRequest<'_, T>, A) -> Result<L, ErrorChain>,
>(
    inputs: SessionInputs<'_>,
    ctx: SessionContext,
    profile: EvaluatableProfile<'a>,
    filter: T,
    options: TestListOptions,
    from_binary_list: F,
    new_test_list: N,
    session: Result<TestSession<'a, L>, ExpectedError>,
)
    requires
        session_outcome(
            inputs,
            ctx,
            profile,
            filter,
            options,
            from_binary_list,
            new_test_list,
            session,
        ),
    ensures
        session matches Ok(built) ==> {
            &&& built.context() == ctx
            &&& built.evaluated() == profile
            &&& exists|
                request: TestListRequest<'_, T>,
                artifacts: A,
                listed: Result<L, ErrorChain>,
            |
                {
                    &&& #[trigger] new_test_list.ensures((request, artifacts), listed)
                    &&& listed == Ok::<L, ErrorChain>(built.tests())
                    &&& asks_for_tests(request, ctx, profile, inputs, filter, options)
                    &&& exists|asked: ArtifactRequest<'_>, converted: Result<A, ErrorChain>|
                        {
                            &&& #[trigger] from_binary_list.ensures((asked,), converted)
                            &&& converted == Ok::<A, ErrorChain>(artifacts)
                            &&& asks_for_artifacts(asked, inputs, options)
                        }
                }
        },
        session matches Err(error) ==> {
            ||| error matches ExpectedError::FromMessagesError { error: cause } && exists|
                asked: ArtifactRequest<'_>,
                converted: Result<A, ErrorChain>,
            |
                #[trigger] from_binary_list.ensures((asked,), converted) && converted == Err::<
                    A,
                    ErrorChain,
                >(cause)
            ||| error matches ExpectedError::CreateTestListError { error: cause } && exists|
                request: TestListRequest<'_, T>,
                artifacts: A,
                listed: Result<L, ErrorChain>,
            |
                #[trigger] new_test_list.ensures((request, artifacts), listed) && listed == Err::<
                    L,
                    ErrorChain,
                >(cause)
        },
{
    let (asked, converted) = choose|asked: ArtifactRequest<'_>, converted: Result<A, ErrorChain>|
        {
            &&& #[trigger] from_binary_list.ensures((asked,), converted)
            &&& asks_for_artifacts(asked, inputs, options)
            &&& match converted {
                Err(error) => session == Err::<TestSession<'a, L>, ExpectedError>(
                    ExpectedError::FromMessagesError { error },
                ),
                Ok(artifacts) => exists|
                    request: TestListRequest<'_, T>,
                    listed: Result<L, ErrorChain>,
                |
                    {
                        &&& #[trigger] new_test_list.ensures((request, artifacts), listed)
                        &&& asks_for_tests(request, ctx, profile, inputs, filter, options)
                        &&& match listed {
                            Err(error) => session == Err::<TestSession<'a, L>, ExpectedError>(
                                ExpectedError::CreateTestListError { error },
                            ),
                            Ok(test_list) => {
                                &&& session matches Ok(session)
                                &&& session.context() == ctx
                                &&& session.evaluated() == profile
                                &&& session.tests() == test_list
                            },
                        }
                    },
            }
        };
    assert(from_binary_list.ensures((asked,), converted));
    if let Ok(artifacts) = converted {
        let (request, listed) = choose|
            request: TestListRequest<'_, T>,
            listed: Result<L, ErrorChain>,
        |
            {
                &&& #[trigger] new_test_list.ensures((request, artifacts), listed)
                &&& asks_for_tests(request, ctx, profile, inputs, filter, options)
                &&& match listed {
                    Err(error) => session == Err::<TestSession<'a, L>, ExpectedError>(
                        ExpectedError::CreateTestListError { error },
                    ),
                    Ok(test_list) => {
                        &&& session matches Ok(session)
                        &&& session.context() == ctx
                        &&& session.evaluated() == profile
                        &&& session.tests() == test_list
                    },
                }
            };
        assert(new_test_list.ensures((request, artifacts), listed));
    }
}

/// A runner is built for the session's own tests, as it was asked for, and one that
/// could not be built is an error that says why.
pub proof fn law_runners_are_built_for_their_session<
    L,
    R,
    B: FnOnce(RunnerRequest<'_, L>) -> Result<R, ErrorChain>,
>(
    session: TestSession<'_, L>,
    cli_args: Vec<String>,
    signal_handler: SignalHandlerKind,
    input_handler: InputHandlerKind,
    build: B,
    runner: Result<R, ExpectedError>,
)
    requires
        runner_outcome(session, cli_args, signal_handler, input_handler, build, runner),
    ensures
        exists|request: RunnerRequest<'_, L>, built: Result<R, ErrorChain>|
            {
                &&& #[trigger] build.ensures((request,), built)
                &&& *request.test_list == session.tests()
                &&& *request.profile == session.evaluated()
                &&& request.run_id == session.context().run_id
                &&& request.cli_args == cli_args
                &&& request.signal_handler == signal_handler
                &&& request.input_handler == input_handler
                &&& built matches Ok(made) ==> runner == Ok::<R, ExpectedError>(made)
                &&& built matches Err(error) ==> runner == Err::<R, ExpectedError>(
                    ExpectedError::TestRunnerBuildError { error },
                )
            },
{
    let (request, built) = choose|request: RunnerRequest<'_, L>, built: Result<R, ErrorChain>|
        {
            &&& #[trigger] build.ensures((request,), built)
            &&& asks_for_runner(request, session.context(), session.evaluated(), session.tests())
            &&& runs_as(request, cli_args, signal_handler, input_handler)
            &&& match built {
                Ok(built) => runner == Ok::<R, ExpectedError>(built),
                Err(error) => runner == Err::<R, ExpectedError>(
                    ExpectedError::TestRunnerBuildError { error },
                ),
            }
        };
    assert(build.ensures((request,), built));
}

/// What comes of the pipeline came of a session and the plan for it, in the context
/// that was asked for: there is no other way to it, and the stages before it all
/// worked.
pub proof fn law_results_come_of_sessions<
    'a,
    T,
    A,
    L,
    R,
    Q,
    F: FnOnce(ArtifactRequest<'_>) -> Result<A, ErrorChain>,
    N: FnOnce(TestListRequest<'_, T>, A) -> Result<L, ErrorChain>,
    W: FnOnce(&TestSession<'_, L>, Q) -> Result<R, ExpectedError>,
>(
    binaries: Buck2BinaryList,
    project_root: Seq<char>,
    ctx: SessionContext,
    profile: EvaluatableProfile<'a>,
    filter: T,
    options: TestListOptions,
    from_binary_list: F,
    new_test_list: N,
    plan: Q,
    with: W,
    result: R,
)
    requires
        used_session(
            binaries,
            project_root,
            ctx,
            profile,
            filter,
            options,
            from_binary_list,
            new_test_list,
            plan,
            with,
            Ok::<R, ExpectedError>(result),
        ),
    ensures
        exists|session: &TestSession<'_, L>|
            {
                &&& #[trigger] with.ensures((session, plan), Ok::<R, ExpectedError>(result))
                &&& session.context() == ctx
                &&& session.evaluated() == profile
            },
        exists|
            request: TestListRequest<'_, T>,
            artifacts: A,
            listed: Result<L, ErrorChain>,
        |
            {
                &&& #[trigger] new_test_list.ensures((request, artifacts), listed)
                &&& listed is Ok
                &&& request.workspace_root@ == project_root
                &&& *request.test_filter == filter
                &&& *request.profile == profile
                &&& request.context.run_id == ctx.run_id
                &&& request.filter_bound == options.filter_bound
                &&& request.list_threads == options.list_threads
            },
        exists|asked: ArtifactRequest<'_>, converted: Result<A, ErrorChain>|
            {
                &&& #[trigger] from_binary_list.ensures((asked,), converted)
                &&& converted is Ok
                &&& *asked.binary_list == binaries.binary_list
                &&& *asked.packages == binaries.packages
            },
{
    let (inputs, session) = choose|
        inputs: SessionInputs<'_>,
        session: Result<TestSession<'a, L>, ExpectedError>,
    |
        {
            &&& #[trigger] inputs_for(inputs, binaries, project_root)
            &&& #[trigger] session_outcome(
                inputs,
                ctx,
                profile,
                filter,
                options,
                from_binary_list,
                new_test_list,
                session,
            )
            &&& match session {
                Err(error) => Ok::<R, ExpectedError>(result) == Err::<R, ExpectedError>(error),
                Ok(session) => with.ensures(
                    (&session, plan),
                    Ok::<R, ExpectedError>(result),
                ),
            }
        };
    law_sessions_hold_what_was_enumerated(
        inputs,
        ctx,
        profile,
        filter,
        options,
        from_binary_list,
        new_test_list,
        session,
    );
    assert(with.ensures((&session->Ok_0, plan), Ok::<R, ExpectedError>(result)));
    let (request, artifacts, listed) = choose|
        request: TestListRequest<'_, T>,
        artifacts: A,
        listed: Result<L, ErrorChain>,
    |
        {
            &&& #[trigger] new_test_list.ensures((request, artifacts), listed)
            &&& listed == Ok::<L, ErrorChain>(session->Ok_0.tests())
            &&& asks_for_tests(request, ctx, profile, inputs, filter, options)
            &&& exists|asked: ArtifactRequest<'_>, converted: Result<A, ErrorChain>|
                {
                    &&& #[trigger] from_binary_list.ensures((asked,), converted)
                    &&& converted == Ok::<A, ErrorChain>(artifacts)
                    &&& asks_for_artifacts(asked, inputs, options)
                }
        };
    law_tests_see_the_project_root(
        request,
        ctx,
        profile,
        inputs,
        filter,
        options,
        binaries,
        project_root,
    );
    let (asked, converted) = choose|asked: ArtifactRequest<'_>, converted: Result<A, ErrorChain>|
        {
            &&& #[trigger] from_binary_list.ensures((asked,), converted)
            &&& converted == Ok::<A, ErrorChain>(artifacts)
            &&& asks_for_artifacts(asked, inputs, options)
        };
    assert(from_binary_list.ensures((asked,), converted));
}

/// Nothing comes of the pipeline unless the configuration was read, the profile was
/// found in it and evaluated, the filter was built, and a session was made of the
/// context's own binaries in its own root.
pub proof fn law_no_stage_is_skipped<
    C,
    T,
    A,
    L,
    R,
    Q,
    S: FnOnce(ConfigSource<'_>) -> Result<C, ErrorChain>,
    P: FnOnce(&C, &str) -> Result<EarlyProfile, ErrorChain>,
    D: FnOnce(&str) -> Result<(), std::io::Error>,
    B: FnOnce(TestFilterSpec) -> Result<T, ErrorChain>,
    F: FnOnce(ArtifactRequest<'_>) -> Result<A, ErrorChain>,
    N: FnOnce(TestListRequest<'_, T>, A) -> Result<L, ErrorChain>,
    W: FnOnce(&TestSession<'_, L>, Q) -> Result<R, ExpectedError>,
>(
    cx: &Context,
    ctx: SessionContext,
    spec: TestFilterSpec,
    options: TestListOptions,
    stages: Stages<S, P, D, B, F, N>,
    plan: Q,
    with: W,
    result: R,
)
    requires
        cx.piped(ctx, spec, options, stages, plan, with, Ok::<R, ExpectedError>(result)),
    ensures
        exists|config: C, early: EarlyProfile, profile: EvaluatableProfile<'_>, filter: T|
            {
                &&& config_outcome(
                    cx.project_root@,
                    cx.config_file,
                    stages.from_sources,
                    Ok::<C, ExpectedError>(config),
                )
                &&& #[trigger] profile_outcome(
                    config,
                    cx.profile_name,
                    stages.find,
                    Ok::<EarlyProfile, ExpectedError>(early),
                )
                &&& #[trigger] evaluation_outcome(
                    &cx.binaries,
                    early,
                    stages.create,
                    Ok::<EvaluatableProfile<'_>, ExpectedError>(profile),
                )
                &&& #[trigger] filter_outcome(spec, stages.build, Ok::<T, ExpectedError>(filter))
                &&& used_session(
                    cx.binaries,
                    cx.project_root@,
                    ctx,
                    profile,
                    filter,
                    options,
                    stages.from_binary_list,
                    stages.new_test_list,
                    plan,
                    with,
                    Ok::<R, ExpectedError>(result),
                )
            },
{
    let whole = Ok::<R, ExpectedError>(result);
    let config = choose|config: Result<C, ExpectedError>|
        {
            &&& #[trigger] config_outcome(
                cx.project_root@,
                cx.config_file,
                stages.from_sources,
                config,
            )
            &&& match config {
                Err(error) => whole == Err::<R, ExpectedError>(error),
                Ok(config) => exists|early: Result<EarlyProfile, ExpectedError>|
                    {
                        &&& #[trigger] profile_outcome(config, cx.profile_name, stages.find, early)
                        &&& match early {
                            Err(error) => whole == Err::<R, ExpectedError>(error),
                            Ok(early) => cx.after_profile(
                                early,
                                ctx,
                                spec,
                                options,
                                stages,
                                plan,
                                with,
                                whole,
                            ),
                        }
                    },
            }
        };
    let early = choose|early: Result<EarlyProfile, ExpectedError>|
        {
            &&& #[trigger] profile_outcome(config->Ok_0, cx.profile_name, stages.find, early)
            &&& match early {
                Err(error) => whole == Err::<R, ExpectedError>(error),
                Ok(early) => cx.after_profile(early, ctx, spec, options, stages, plan, with, whole),
            }
        };
    let profile = choose|profile: Result<EvaluatableProfile<'_>, ExpectedError>|
        {
            &&& #[trigger] evaluation_outcome(&cx.binaries, early->Ok_0, stages.create, profile)
            &&& match profile {
                Err(error) => whole == Err::<R, ExpectedError>(error),
                Ok(profile) => exists|filter: Result<T, ExpectedError>|
                    {
                        &&& #[trigger] filter_outcome(spec, stages.build, filter)
                        &&& match filter {
                            Err(error) => whole == Err::<R, ExpectedError>(error),
                            Ok(filter) => used_session(
                                cx.binaries,
                                cx.project_root@,
                                ctx,
                                profile,
                                filter,
                                options,
                                stages.from_binary_list,
                                stages.new_test_list,
                                plan,
                                with,
                                whole,
                            ),
                        }
                    },
            }
        };
    let filter = choose|filter: Result<T, ExpectedError>|
        {
            &&& #[trigger] filter_outcome(spec, stages.build, filter)
            &&& match filter {
                Err(error) => whole == Err::<R, ExpectedError>(error),
                Ok(filter) => used_session(
                    cx.binaries,
                    cx.project_root@,
                    ctx,
                    profile->Ok_0,
                    filter,
                    options,
                    stages.from_binary_list,
                    stages.new_test_list,
                    plan,
                    with,
                    whole,
                ),
            }
        };
    assert(profile_outcome(
        config->Ok_0,
        cx.profile_name,
        stages.find,
        Ok::<EarlyProfile, ExpectedError>(early->Ok_0),
    ));
    assert(evaluation_outcome(
        &cx.binaries,
        early->Ok_0,
        stages.create,
        Ok::<EvaluatableProfile<'_>, ExpectedError>(profile->Ok_0),
    ));
    assert(filter_outcome(spec, stages.build, Ok::<T, ExpectedError>(filter->Ok_0)));
}

/// The pipeline fails with what the first stage that failed did: reading the
/// configuration, finding the profile in it, evaluating that, building the filter, or
/// else making and using a session.
pub proof fn law_the_first_failure_is_reported<
    C,
    T,
    A,
    L,
    R,
    Q,
    S: FnOnce(ConfigSource<'_>) -> Result<C, ErrorChain>,
    P: FnOnce(&C, &str) -> Result<EarlyProfile, ErrorChain>,
    D: FnOnce(&str) -> Result<(), std::io::Error>,
    B: FnOnce(TestFilterSpec) -> Result<T, ErrorChain>,
    F: FnOnce(ArtifactRequest<'_>) -> Result<A, ErrorChain>,
    N: FnOnce(TestListRequest<'_, T>, A) -> Result<L, ErrorChain>,
    W: FnOnce(&TestSession<'_, L>, Q) -> Result<R, ExpectedError>,
>(
    cx: &Context,
    ctx: SessionContext,
    spec: TestFilterSpec,
    options: TestListOptions,
    stages: Stages<S, P, D, B, F, N>,
    plan: Q,
    with: W,
    error: ExpectedError,
)
    requires
        cx.piped(ctx, spec, options, stages, plan, with, Err::<R, ExpectedError>(error)),
    ensures
        ({
            ||| config_outcome(
                cx.project_root@,
                cx.config_file,
                stages.from_sources,
                Err::<C, ExpectedError>(error),
            )
            ||| exists|config: C| #[trigger]
                profile_outcome(
                    config,
                    cx.profile_name,
                    stages.find,
                    Err::<EarlyProfile, ExpectedError>(error),
                ) && config_outcome(
                    cx.project_root@,
                    cx.config_file,
                    stages.from_sources,
                    Ok::<C, ExpectedError>(config),
                )
            ||| exists|early: EarlyProfile| #[trigger]
                evaluation_outcome(
                    &cx.binaries,
                    early,
                    stages.create,
                    Err::<EvaluatableProfile<'_>, ExpectedError>(error),
                )
            ||| filter_outcome(spec, stages.build, Err::<T, ExpectedError>(error))
            ||| exists|profile: EvaluatableProfile<'_>, filter: T| #[trigger]
                used_session(
                    cx.binaries,
                    cx.project_root@,
                    ctx,
                    profile,
                    filter,
                    options,
                    stages.from_binary_list,
                    stages.new_test_list,
                    plan,
                    with,
                    Err::<R, ExpectedError>(error),
                )
        }),
{
}

/// A session that there is not fails with why; one that there is fails only with what
/// using it did.
pub proof fn law_failures_come_of_sessions<
    'a,
    T,
    A,
    L,
    R,
    Q,
    F: FnOnce(ArtifactRequest<'_>) -> Result<A, ErrorChain>,
    N: FnOnce(TestListRequest<'_, T>, A) -> Result<L, ErrorChain>,
    W: FnOnce(&TestSession<'_, L>, Q) -> Result<R, ExpectedError>,
>(
    binaries: Buck2BinaryList,
    project_root: Seq<char>,
    ctx: SessionContext,
    profile: EvaluatableProfile<'a>,
    filter: T,
    options: TestListOptions,
    from_binary_list: F,
    new_test_list: N,
    plan: Q,
    with: W,
    error: ExpectedError,
)
    requires
        used_session(
            binaries,
            project_root,
            ctx,
            profile,
            filter,
            options,
            from_binary_list,
            new_test_list,
            plan,
            with,
            Err::<R, ExpectedError>(error),
        ),
    ensures
        ({
            ||| error is FromMessagesError
            ||| error is CreateTestListError
            ||| exists|session: &TestSession<'_, L>|
                {
                    &&& #[trigger] with.ensures((session, plan), Err::<R, ExpectedError>(error))
                    &&& session.context() == ctx
                    &&& session.evaluated() == profile
                }
        }),
{
    let (inputs, session) = choose|
        inputs: SessionInputs<'_>,
        session: Result<TestSession<'a, L>, ExpectedError>,
    |
        {
            &&& #[trigger] inputs_for(inputs, binaries, project_root)
            &&& #[trigger] session_outcome(
                inputs,
                ctx,
                profile,
                filter,
                options,
                from_binary_list,
                new_test_list,
                session,
            )
            &&& match session {
                Err(cause) => Err::<R, ExpectedError>(error) == Err::<R, ExpectedError>(cause),
                Ok(session) => with.ensures(
                    (&session, plan),
                    Err::<R, ExpectedError>(error),
                ),
            }
        };
    law_sessions_hold_what_was_enumerated(
        inputs,
        ctx,
        profile,
        filter,
        options,
        from_binary_list,
        new_test_list,
        session,
    );
    if session is Ok {
        assert(with.ensures((&session->Ok_0, plan), Err::<R, ExpectedError>(error)));
    }
}

/// Stages that can be asked anything can be asked all that the pipeline asks.
pub proof fn law_willing_stages_are_enough<
    C,
    T,
    A,
    L,
    R,
    Q,
    S: FnOnce(ConfigSource<'_>) -> Result<C, ErrorChain>,
    P: FnOnce(&C, &str) -> Result<EarlyProfile, ErrorChain>,
    D: FnOnce(&str) -> Result<(), std::io::Error>,
    B: FnOnce(TestFilterSpec) -> Result<T, ErrorChain>,
    F: FnOnce(ArtifactRequest<'_>) -> Result<A, ErrorChain>,
    N: FnOnce(TestListRequest<'_, T>, A) -> Result<L, ErrorChain>,
    W: FnOnce(&TestSession<'_, L>, Q) -> Result<R, ExpectedError>,
>(
    cx: &Context,
    ctx: SessionContext,
    spec: TestFilterSpec,
    options: TestListOptions,
    stages: Stages<S, P, D, B, F, N>,
    plan: Q,
    with: W,
)
    requires
        forall|source: ConfigSource<'_>| #[trigger] stages.from_sources.requires((source,)),
        forall|config: &C, name: &str| #[trigger] stages.find.requires((config, name)),
        forall|dir: &str| #[trigger] stages.create.requires((dir,)),
        forall|asked: TestFilterSpec| #[trigger] stages.build.requires((asked,)),
        forall|request: ArtifactRequest<'_>| #[trigger] stages.from_binary_list.requires((request,)),
        forall|request: TestListRequest<'_, T>, artifacts: A| #[trigger]
            stages.new_test_list.requires((request, artifacts)),
        forall|session: &TestSession<'_, L>| #[trigger] with.requires((session, plan)),
    ensures
        cx.grants(ctx, spec, options, stages, plan, with),
{
}

/// Where the configuration cannot be read, nothing is asked of the stages after it.
pub proof fn law_unreached_stages_are_asked_nothing<
    C,
    T,
    A,
    L,
    R,
    Q,
    S: FnOnce(ConfigSource<'_>) -> Result<C, ErrorChain>,
    P: FnOnce(&C, &str) -> Result<EarlyProfile, ErrorChain>,
    D: FnOnce(&str) -> Result<(), std::io::Error>,
    B: FnOnce(TestFilterSpec) -> Result<T, ErrorChain>,
    F: FnOnce(ArtifactRequest<'_>) -> Result<A, ErrorChain>,
    N: FnOnce(TestListRequest<'_, T>, A) -> Result<L, ErrorChain>,
    W: FnOnce(&TestSession<'_, L>, Q) -> Result<R, ExpectedError>,
>(
    cx: &Context,
    ctx: SessionContext,
    spec: TestFilterSpec,
    options: TestListOptions,
    stages: Stages<S, P, D, B, F, N>,
    plan: Q,
    with: W,
)
    requires
        forall|source: ConfigSource<'_>|
            source.workspace_root@ == cx.project_root@
                ==> #[trigger] stages.from_sources.requires((source,)),
        forall|source: ConfigSource<'_>, loaded: Result<C, ErrorChain>| #[trigger]
            stages.from_sources.ensures((source,), loaded) ==> loaded is Err,
    ensures
        cx.grants(ctx, spec, options, stages, plan, with),
{
}

} // verus!
