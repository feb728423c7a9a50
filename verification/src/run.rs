//! Listing and running the tests of several Buck2 targets.
//!
//! The pipeline itself -- profiles, filtersets, listing, running, reporting,
//! and the exit-code policy -- is [`crate::session`]'s. This module supplies
//! Buck2's inputs and policy: the converted binary list, where output goes,
//! and how a run with no tests in it is judged.

use crate::convert::Buck2BinaryList;
use crate::errors::ExpectedError;
use crate::package_info::Version;
use crate::pipeline::{
    build_buck2_session, config_outcome, evaluation_outcome, filter_outcome, found_profile,
    law_filters_are_built_as_asked, load_config, load_profile, new_test_filter, options_for,
    profile_grants, profile_outcome, resolve_profile, session_grants, use_grants, used_session,
    ConfigSource, Stages,
};
use crate::session::context::{simple_for, ReportUuid, SessionContext};
use crate::session::errors::ErrorChain;
use crate::session::filter::{
    accepted, collected, law_all_or_nothing_is_collected, law_every_bad_filterset_is_reported,
    parse_filtersets, parsed_filterset, parsed_filtersets, rejected, FiltersetKind, KnownGroups,
};
use crate::session::input::{
    EarlyProfile, FilterBound, RunIgnored, TestFilterPatterns, TestFilterSpec,
};
use crate::session::outcome::{
    final_outcome, outcome_code, outcome_exit_code, run_outcome, NoTestsBehavior,
};
use crate::session::profile::{may_create, EvaluatableProfile};
use crate::session::test_session::{
    ArtifactRequest, InputHandlerKind, SignalHandlerKind, TestListRequest, TestSession,
};
use crate::stats::{NextestRunMode, RunStats};
use crate::text::copy_texts;
use nextest_filtering::errors::FiltersetParseErrors;
use nextest_filtering::{Filterset, ParseContext};
use vstd::prelude::*;

verus! {

/// Where the displayer's output goes, and so who owns the terminal.
#[derive(Clone, Copy, Debug, Eq, PartialEq, Structural)]
pub enum OutputTo {
    /// The terminal, as `cargo-nextest` does.
    Terminal,

    /// Standard error, plainly, for when something else owns the terminal.
    ///
    /// Buck2 captures the executor's standard error and shows it only on
    /// request (`buck2 test --test-executor-stderr=-`), so this is a detail
    /// view rather than the primary one -- which is why it is written without
    /// a progress bar or any other cursor control.
    PlainStderr,
}

impl OutputTo {
    /// How to handle terminal input.
    pub open spec fn input(self) -> InputHandlerKind {
        match self {
            OutputTo::Terminal => InputHandlerKind::Standard,
            OutputTo::PlainStderr => InputHandlerKind::Noop,
        }
    }

    /// Returns how to handle signals and terminal input.
    ///
    /// Input handling is interactive: it reads standard input to offer nextest's
    /// info and pause features. That only makes sense when nextest is what the
    /// person is looking at, and under Buck2 standard input belongs to Buck2.
    ///
    /// Signals are the other way round. Whoever spawned the test processes has
    /// to shut them down, and that is nextest either way -- so `Ctrl-C` must
    /// still reach the graceful cancellation path rather than killing this
    /// process and orphaning the tests it started.
    pub fn handlers(self) -> (handlers: (SignalHandlerKind, InputHandlerKind))
        ensures
            handlers.0 == SignalHandlerKind::Standard,
            handlers.1 == self.input(),
    {
        match self {
            OutputTo::Terminal => (SignalHandlerKind::Standard, InputHandlerKind::Standard),
            OutputTo::PlainStderr => (SignalHandlerKind::Standard, InputHandlerKind::Noop),
        }
    }
}

/// How to run tests.
#[derive(Debug)]
pub struct RunSpec {
    /// The full command line, recorded with the run.
    pub cli_args: Vec<String>,

    /// Where the displayer's output goes.
    pub output: OutputTo,

    /// How signals are handled.
    pub signal_handler: SignalHandlerKind,

    /// How terminal input is handled.
    pub input_handler: InputHandlerKind,

    /// Whether tests write straight to the terminal.
    pub no_capture: bool,
}

/// Everything needed to list or run the tests of some targets.
#[derive(Debug)]
pub struct RunContext {
    /// The converted binary list and its packages.
    pub binaries: Buck2BinaryList,

    /// The Buck2 project root.
    pub project_root: String,

    /// The nextest profile to use.
    pub profile_name: Option<String>,

    /// A path to a nextest configuration file, if one was given.
    pub config_file: Option<String>,

    /// The ID that identifies this run.
    ///
    /// One ID covers both listing and execution, so that a test binary sees the
    /// same `NEXTEST_RUN_ID` in both phases and can key state on it across them.
    pub run_id: ReportUuid,

    /// Filtersets from the command line.
    pub filtersets: Vec<String>,

    /// Substring filters from the command line.
    pub filter_patterns: Vec<String>,

    /// Whether to run ignored tests.
    pub run_ignored: RunIgnored,

    /// What the filtersets are bounded by.
    pub filter_bound: FilterBound,

    /// The number of threads to list tests with.
    pub list_threads: usize,

    /// How to treat a run in which no tests were selected.
    ///
    /// `None` is nextest's default: such a run is an error.
    pub no_tests: Option<NoTestsBehavior>,
}

/// `code` is what a run comes to, given how executing it went.
///
/// Executing tests or writing about them may fail even where the pipeline was
/// set up.
pub open spec fn run_code(
    no_tests: Option<NoTestsBehavior>,
    executed: Result<Result<RunStats, std::io::Error>, ExpectedError>,
    code: Result<i32, ExpectedError>,
) -> bool {
    match executed {
        Ok(Ok(run_stats)) => code == Ok::<i32, ExpectedError>(
            outcome_code(
                run_outcome(NextestRunMode::Test, run_stats.summary(), no_tests, None, false),
            ),
        ),
        Ok(Err(error)) => code == Err::<i32, ExpectedError>(
            ExpectedError::WriteEventError { error },
        ),
        Err(error) => code == Err::<i32, ExpectedError>(error),
    }
}

/// `spec` says to run tests with the given command line and output.
pub open spec fn runs_with(spec: RunSpec, cli_args: Vec<String>, output: OutputTo) -> bool {
    spec == (RunSpec {
        cli_args,
        output,
        signal_handler: SignalHandlerKind::Standard,
        input_handler: output.input(),
        no_capture: false,
    })
}

/// `filter` selects what a context asks for.
pub open spec fn selects_requested(filter: TestFilterSpec, cx: RunContext) -> bool {
    &&& filter.mode == NextestRunMode::Test
    &&& filter.run_ignored == cx.run_ignored
    &&& filter.patterns.substrings@ == cx.filter_patterns@
    &&& filter.patterns.exact@ == Seq::<String>::empty()
}

/// `spec` is the filter a context asks for, where every filterset parses.
pub open spec fn asks_for_filter(
    spec: TestFilterSpec,
    cx: RunContext,
    pcx: ParseContext<'_>,
    known_groups: KnownGroups,
) -> bool {
    let parsed = parsed_filtersets(cx.filtersets@, pcx, FiltersetKind::Test, known_groups);
    &&& rejected(parsed).len() == 0
    &&& selects_requested(spec, cx)
    &&& spec.exprs@ == accepted(parsed)
}

/// `known_groups` are the test groups a profile lets filtersets name.
pub open spec fn groups_of(profile: EarlyProfile, known_groups: KnownGroups) -> bool {
    known_groups matches KnownGroups::Known { custom_groups } && custom_groups@
        == profile.custom_groups@
}

/// `filter` is what building the filter a context asks for comes to.
///
/// Every filterset that does not parse is reported, and the filter is built
/// only where all of them do.
pub open spec fn requested_filter<T, B: FnOnce(TestFilterSpec) -> Result<T, ErrorChain>>(
    cx: RunContext,
    pcx: ParseContext<'_>,
    known_groups: KnownGroups,
    build: B,
    filter: Result<T, ExpectedError>,
) -> bool {
    let parsed = parsed_filtersets(cx.filtersets@, pcx, FiltersetKind::Test, known_groups);
    if rejected(parsed).len() > 0 {
        &&& filter matches Err(ExpectedError::FiltersetParseError { all_errors })
        &&& all_errors@ == rejected(parsed)
    } else {
        exists|spec: TestFilterSpec|
            {
                &&& #[trigger] asks_for_filter(spec, cx, pcx, known_groups)
                &&& filter_outcome(spec, build, filter)
            }
    }
}

impl RunContext {
    /// Lists the tests, writing them in the requested format.
    ///
    /// `version` is what tests see of this program, `pcx` is what filtersets are
    /// parsed against, and `is_terminal` says whether standard error is a
    /// terminal. `write_list` writes a session's tests.
    pub fn list<
        C,
        T,
        A,
        L,
        S: FnOnce(ConfigSource<'_>) -> Result<C, ErrorChain>,
        P: FnOnce(&C, &str) -> Result<EarlyProfile, ErrorChain>,
        D: FnOnce(&str) -> Result<(), std::io::Error>,
        B: FnOnce(TestFilterSpec) -> Result<T, ErrorChain>,
        F: FnOnce(ArtifactRequest<'_>) -> Result<A, ErrorChain>,
        N: FnOnce(TestListRequest<'_, T>, A) -> Result<L, ErrorChain>,
        O,
        W: FnOnce(&TestSession<'_, L>, O) -> Result<Result<(), std::io::Error>, ExpectedError>,
    >(
        &self,
        format: O,
        version: Version,
        pcx: &ParseContext<'_>,
        is_terminal: bool,
        stages: Stages<S, P, D, B, F, N>,
        write_list: W,
    ) -> (result: Result<(), ExpectedError>)
        requires
            self.grants(
                simple_for(self.run_id, version),
                *pcx,
                is_terminal,
                stages,
                format,
                write_list,
            ),
        ensures
            exists|written: Result<Result<(), std::io::Error>, ExpectedError>|
                {
                    &&& #[trigger] self.piped(
                        simple_for(self.run_id, version),
                        *pcx,
                        is_terminal,
                        stages,
                        format,
                        write_list,
                        written,
                    )
                    &&& match written {
                        Ok(Ok(())) => result is Ok,
                        Ok(Err(error)) => result == Err::<(), ExpectedError>(
                            ExpectedError::WriteEventError { error },
                        ),
                        Err(error) => result == Err::<(), ExpectedError>(error),
                    }
                },
    {
        let ctx = SessionContext::simple(self.run_id, version);
        match self.with_session(&ctx, pcx, is_terminal, stages, format, write_list) {
            Ok(Ok(())) => Ok(()),
            Ok(Err(error)) => Err(ExpectedError::WriteEventError { error }),
            Err(error) => Err(error),
        }
    }

    /// Runs the tests, returning the process exit code.
    ///
    /// `execute` runs the tests of a session as it is told; the rest is as for
    /// [`list`](Self::list).
    pub fn run<
        C,
        T,
        A,
        L,
        S: FnOnce(ConfigSource<'_>) -> Result<C, ErrorChain>,
        P: FnOnce(&C, &str) -> Result<EarlyProfile, ErrorChain>,
        D: FnOnce(&str) -> Result<(), std::io::Error>,
        B: FnOnce(TestFilterSpec) -> Result<T, ErrorChain>,
        F: FnOnce(ArtifactRequest<'_>) -> Result<A, ErrorChain>,
        N: FnOnce(TestListRequest<'_, T>, A) -> Result<L, ErrorChain>,
        X: FnOnce(&TestSession<'_, L>, RunSpec) -> Result<
            Result<RunStats, std::io::Error>,
            ExpectedError,
        >,
    >(
        &self,
        cli_args: Vec<String>,
        version: Version,
        pcx: &ParseContext<'_>,
        is_terminal: bool,
        stages: Stages<S, P, D, B, F, N>,
        execute: X,
    ) -> (code: Result<i32, ExpectedError>)
        requires
            forall|spec: RunSpec| #[trigger]
                runs_with(spec, cli_args, OutputTo::Terminal) ==> self.grants(
                    simple_for(self.run_id, version),
                    *pcx,
                    is_terminal,
                    stages,
                    spec,
                    execute,
                ),
        ensures
            exists|spec: RunSpec, executed: Result<Result<RunStats, std::io::Error>, ExpectedError>|
                {
                    &&& #[trigger] self.piped(
                        simple_for(self.run_id, version),
                        *pcx,
                        is_terminal,
                        stages,
                        spec,
                        execute,
                        executed,
                    )
                    &&& runs_with(spec, cli_args, OutputTo::Terminal)
                    &&& run_code(self.no_tests, executed, code)
                },
    {
        self.run_inner(cli_args, OutputTo::Terminal, version, pcx, is_terminal, stages, execute)
    }

    /// Runs the tests, for a caller to which every event is forwarded as well.
    ///
    /// Used when something other than the terminal consumes results -- Buck2,
    /// which renders them itself. The displayer still runs, writing plainly to
    /// standard error, so its output is there for anyone who asks Buck2 for it.
    pub fn run_with_sink<
        C,
        T,
        A,
        L,
        S: FnOnce(ConfigSource<'_>) -> Result<C, ErrorChain>,
        P: FnOnce(&C, &str) -> Result<EarlyProfile, ErrorChain>,
        D: FnOnce(&str) -> Result<(), std::io::Error>,
        B: FnOnce(TestFilterSpec) -> Result<T, ErrorChain>,
        F: FnOnce(ArtifactRequest<'_>) -> Result<A, ErrorChain>,
        N: FnOnce(TestListRequest<'_, T>, A) -> Result<L, ErrorChain>,
        X: FnOnce(&TestSession<'_, L>, RunSpec) -> Result<
            Result<RunStats, std::io::Error>,
            ExpectedError,
        >,
    >(
        &self,
        cli_args: Vec<String>,
        version: Version,
        pcx: &ParseContext<'_>,
        is_terminal: bool,
        stages: Stages<S, P, D, B, F, N>,
        execute: X,
    ) -> (code: Result<i32, ExpectedError>)
        requires
            forall|spec: RunSpec| #[trigger]
                runs_with(spec, cli_args, OutputTo::PlainStderr) ==> self.grants(
                    simple_for(self.run_id, version),
                    *pcx,
                    is_terminal,
                    stages,
                    spec,
                    execute,
                ),
        ensures
            exists|spec: RunSpec, executed: Result<Result<RunStats, std::io::Error>, ExpectedError>|
                {
                    &&& #[trigger] self.piped(
                        simple_for(self.run_id, version),
                        *pcx,
                        is_terminal,
                        stages,
                        spec,
                        execute,
                        executed,
                    )
                    &&& runs_with(spec, cli_args, OutputTo::PlainStderr)
                    &&& run_code(self.no_tests, executed, code)
                },
    {
        self.run_inner(cli_args, OutputTo::PlainStderr, version, pcx, is_terminal, stages, execute)
    }

    fn run_inner<
        C,
        T,
        A,
        L,
        S: FnOnce(ConfigSource<'_>) -> Result<C, ErrorChain>,
        P: FnOnce(&C, &str) -> Result<EarlyProfile, ErrorChain>,
        D: FnOnce(&str) -> Result<(), std::io::Error>,
        B: FnOnce(TestFilterSpec) -> Result<T, ErrorChain>,
        F: FnOnce(ArtifactRequest<'_>) -> Result<A, ErrorChain>,
        N: FnOnce(TestListRequest<'_, T>, A) -> Result<L, ErrorChain>,
        X: FnOnce(&TestSession<'_, L>, RunSpec) -> Result<
            Result<RunStats, std::io::Error>,
            ExpectedError,
        >,
    >(
        &self,
        cli_args: Vec<String>,
        output: OutputTo,
        version: Version,
        pcx: &ParseContext<'_>,
        is_terminal: bool,
        stages: Stages<S, P, D, B, F, N>,
        execute: X,
    ) -> (code: Result<i32, ExpectedError>)
        requires
            forall|spec: RunSpec| #[trigger]
                runs_with(spec, cli_args, output) ==> self.grants(
                    simple_for(self.run_id, version),
                    *pcx,
                    is_terminal,
                    stages,
                    spec,
                    execute,
                ),
        ensures
            exists|spec: RunSpec, executed: Result<Result<RunStats, std::io::Error>, ExpectedError>|
                {
                    &&& #[trigger] self.piped(
                        simple_for(self.run_id, version),
                        *pcx,
                        is_terminal,
                        stages,
                        spec,
                        execute,
                        executed,
                    )
                    &&& runs_with(spec, cli_args, output)
                    &&& run_code(self.no_tests, executed, code)
                },
    {
        let ctx = SessionContext::simple(self.run_id, version);
        let (signal_handler, input_handler) = output.handlers();
        let spec = RunSpec { cli_args, output, signal_handler, input_handler, no_capture: false };
        assert(runs_with(spec, cli_args, output));
        match self.with_session(&ctx, pcx, is_terminal, stages, spec, execute) {
            Ok(Ok(run_stats)) => Ok(
                outcome_exit_code(
                    &final_outcome(NextestRunMode::Test, run_stats, self.no_tests, None, false),
                ),
            ),
            Ok(Err(error)) => Err(ExpectedError::WriteEventError { error }),
            Err(error) => Err(error),
        }
    }

    /// Builds the test filter, by way of `build`.
    ///
    /// `known_groups` comes from the profile: `group()` is legal in a test
    /// filterset, so the set of valid group names must be known before the
    /// filterset is compiled.
    pub fn build_filter<T, B: FnOnce(TestFilterSpec) -> Result<T, ErrorChain>>(
        &self,
        pcx: &ParseContext<'_>,
        known_groups: &KnownGroups,
        build: B,
    ) -> (filter: Result<T, ExpectedError>)
        requires
            known_groups is Known,
            forall|spec: TestFilterSpec|
                asks_for_filter(spec, *self, *pcx, *known_groups) ==> #[trigger] build.requires(
                    (spec,),
                ),
        ensures
            requested_filter(*self, *pcx, *known_groups, build, filter),
    {
        match parse_filtersets(pcx, &self.filtersets, FiltersetKind::Test, known_groups) {
            Ok(exprs) => {
                let spec = TestFilterSpec {
                    mode: NextestRunMode::Test,
                    run_ignored: self.run_ignored,
                    patterns: TestFilterPatterns::new(copy_texts(&self.filter_patterns)),
                    exprs,
                };
                assert(asks_for_filter(spec, *self, *pcx, *known_groups));
                new_test_filter(spec, build)
            },
            Err(all_errors) => Err(ExpectedError::FiltersetParseError { all_errors }),
        }
    }
}

impl RunContext {
    /// What taking the pipeline as far as a session asks for may be asked for,
    /// each stage only once those before it have worked.
    pub open spec fn grants<
        C,
        T,
        A,
        L,
        R,
        Q,
        S: FnOnce(ConfigSource<'_>) -> Result<C, ErrorChain>,
        P: FnOnce(&C, &str) -> Result<EarlyProfile, ErrorChain>,
        D: FnOnce(&str) -> Result<(), std::io::Error>,
        B: FnOnce(TestFilterSpec) -> Result<T, ErrorChain>,
        F: FnOnce(ArtifactRequest<'_>) -> Result<A, ErrorChain>,
        N: FnOnce(TestListRequest<'_, T>, A) -> Result<L, ErrorChain>,
        W: FnOnce(&TestSession<'_, L>, Q) -> Result<R, ExpectedError>,
    >(
        &self,
        ctx: SessionContext,
        pcx: ParseContext<'_>,
        is_terminal: bool,
        stages: Stages<S, P, D, B, F, N>,
        plan: Q,
        with: W,
    ) -> bool {
        &&& profile_grants(
            self.project_root@,
            self.config_file,
            self.profile_name,
            stages.from_sources,
            stages.find,
        )
        &&& forall|early: EarlyProfile, known_groups: KnownGroups, spec: TestFilterSpec|
            {
                &&& #[trigger] found_profile(
                    self.project_root@,
                    self.config_file,
                    self.profile_name,
                    stages.from_sources,
                    stages.find,
                    early,
                )
                &&& groups_of(early, known_groups)
                &&& #[trigger] asks_for_filter(spec, *self, pcx, known_groups)
            } ==> stages.build.requires((spec,))
        &&& forall|early: EarlyProfile, known_groups: KnownGroups, filter: T, dir: &str|
            {
                &&& #[trigger] found_profile(
                    self.project_root@,
                    self.config_file,
                    self.profile_name,
                    stages.from_sources,
                    stages.find,
                    early,
                )
                &&& groups_of(early, known_groups)
                &&& #[trigger] requested_filter(
                    *self,
                    pcx,
                    known_groups,
                    stages.build,
                    Ok::<T, ExpectedError>(filter),
                )
                &&& may_create(early, dir)
            } ==> #[trigger] stages.create.requires((dir,))
        &&& forall|
            early: EarlyProfile,
            known_groups: KnownGroups,
            filter: T,
            profile: EvaluatableProfile<'_>,
        |
            {
                &&& #[trigger] found_profile(
                    self.project_root@,
                    self.config_file,
                    self.profile_name,
                    stages.from_sources,
                    stages.find,
                    early,
                )
                &&& groups_of(early, known_groups)
                &&& #[trigger] requested_filter(
                    *self,
                    pcx,
                    known_groups,
                    stages.build,
                    Ok::<T, ExpectedError>(filter),
                )
                &&& #[trigger] evaluation_outcome(
                    &self.binaries,
                    early,
                    stages.create,
                    Ok::<EvaluatableProfile<'_>, ExpectedError>(profile),
                )
            } ==> {
                &&& session_grants(
                    self.binaries,
                    self.project_root@,
                    ctx,
                    profile,
                    filter,
                    options_for(self.filter_bound, self.list_threads, is_terminal),
                    stages.from_binary_list,
                    stages.new_test_list,
                )
                &&& use_grants(
                    self.binaries,
                    self.project_root@,
                    ctx,
                    profile,
                    filter,
                    options_for(self.filter_bound, self.list_threads, is_terminal),
                    stages.from_binary_list,
                    stages.new_test_list,
                    plan,
                    with,
                )
            }
    }

    /// `result` is what the rest of the pipeline comes to, once the profile was
    /// found: the filter is built, the profile is resolved, and a session is
    /// used.
    pub open spec fn after_profile<
        C,
        T,
        A,
        L,
        R,
        Q,
        S: FnOnce(ConfigSource<'_>) -> Result<C, ErrorChain>,
        P: FnOnce(&C, &str) -> Result<EarlyProfile, ErrorChain>,
        D: FnOnce(&str) -> Result<(), std::io::Error>,
        B: FnOnce(TestFilterSpec) -> Result<T, ErrorChain>,
        F: FnOnce(ArtifactRequest<'_>) -> Result<A, ErrorChain>,
        N: FnOnce(TestListRequest<'_, T>, A) -> Result<L, ErrorChain>,
        W: FnOnce(&TestSession<'_, L>, Q) -> Result<R, ExpectedError>,
    >(
        &self,
        early_profile: EarlyProfile,
        ctx: SessionContext,
        pcx: ParseContext<'_>,
        is_terminal: bool,
        stages: Stages<S, P, D, B, F, N>,
        plan: Q,
        with: W,
        result: Result<R, ExpectedError>,
    ) -> bool {
        exists|known_groups: KnownGroups, filter: Result<T, ExpectedError>|
            {
                &&& groups_of(early_profile, known_groups)
                &&& #[trigger] requested_filter(*self, pcx, known_groups, stages.build, filter)
                &&& match filter {
                    Err(error) => result == Err::<R, ExpectedError>(error),
                    Ok(filter) => exists|profile: Result<EvaluatableProfile<'_>, ExpectedError>|
                        {
                            &&& #[trigger] evaluation_outcome(
                                &self.binaries,
                                early_profile,
                                stages.create,
                                profile,
                            )
                            &&& match profile {
                                Err(error) => result == Err::<R, ExpectedError>(error),
                                Ok(profile) => used_session(
                                    self.binaries,
                                    self.project_root@,
                                    ctx,
                                    profile,
                                    filter,
                                    options_for(self.filter_bound, self.list_threads, is_terminal),
                                    stages.from_binary_list,
                                    stages.new_test_list,
                                    plan,
                                    with,
                                    result,
                                ),
                            }
                        },
                }
            }
    }

    /// `result` is what taking the pipeline as far as a session and using that
    /// comes to. The first stage that fails says so, and ends it.
    pub open spec fn piped<
        C,
        T,
        A,
        L,
        R,
        Q,
        S: FnOnce(ConfigSource<'_>) -> Result<C, ErrorChain>,
        P: FnOnce(&C, &str) -> Result<EarlyProfile, ErrorChain>,
        D: FnOnce(&str) -> Result<(), std::io::Error>,
        B: FnOnce(TestFilterSpec) -> Result<T, ErrorChain>,
        F: FnOnce(ArtifactRequest<'_>) -> Result<A, ErrorChain>,
        N: FnOnce(TestListRequest<'_, T>, A) -> Result<L, ErrorChain>,
        W: FnOnce(&TestSession<'_, L>, Q) -> Result<R, ExpectedError>,
    >(
        &self,
        ctx: SessionContext,
        pcx: ParseContext<'_>,
        is_terminal: bool,
        stages: Stages<S, P, D, B, F, N>,
        plan: Q,
        with: W,
        result: Result<R, ExpectedError>,
    ) -> bool {
        exists|config: Result<C, ExpectedError>|
            {
                &&& #[trigger] config_outcome(
                    self.project_root@,
                    self.config_file,
                    stages.from_sources,
                    config,
                )
                &&& match config {
                    Err(error) => result == Err::<R, ExpectedError>(error),
                    Ok(config) => exists|early: Result<EarlyProfile, ExpectedError>|
                        {
                            &&& #[trigger] profile_outcome(
                                config,
                                self.profile_name,
                                stages.find,
                                early,
                            )
                            &&& match early {
                                Err(error) => result == Err::<R, ExpectedError>(error),
                                Ok(early) => self.after_profile(
                                    early,
                                    ctx,
                                    pcx,
                                    is_terminal,
                                    stages,
                                    plan,
                                    with,
                                    result,
                                ),
                            }
                        },
                }
            }
    }

    /// Takes the pipeline as far as a session, and hands that to `with`, along
    /// with the plan for it.
    ///
    /// In order, the configuration is loaded, the profile is looked up in it,
    /// the filter is built, and the profile's store directory is created. Then
    /// the binary list is converted into test artifacts, and their tests are
    /// enumerated. The first failure ends it.
    pub fn with_session<
        C,
        T,
        A,
        L,
        R,
        Q,
        S: FnOnce(ConfigSource<'_>) -> Result<C, ErrorChain>,
        P: FnOnce(&C, &str) -> Result<EarlyProfile, ErrorChain>,
        D: FnOnce(&str) -> Result<(), std::io::Error>,
        B: FnOnce(TestFilterSpec) -> Result<T, ErrorChain>,
        F: FnOnce(ArtifactRequest<'_>) -> Result<A, ErrorChain>,
        N: FnOnce(TestListRequest<'_, T>, A) -> Result<L, ErrorChain>,
        W: FnOnce(&TestSession<'_, L>, Q) -> Result<R, ExpectedError>,
    >(
        &self,
        ctx: &SessionContext,
        pcx: &ParseContext<'_>,
        is_terminal: bool,
        stages: Stages<S, P, D, B, F, N>,
        plan: Q,
        with: W,
    ) -> (result: Result<R, ExpectedError>)
        requires
            self.grants(*ctx, *pcx, is_terminal, stages, plan, with),
        ensures
            self.piped(*ctx, *pcx, is_terminal, stages, plan, with, result),
    {
        let Stages { from_sources, find, create, build, from_binary_list, new_test_list } = stages;
        let config = match load_config(
            self.project_root.as_str(),
            &self.config_file,
            from_sources,
        ) {
            Ok(config) => config,
            Err(error) => {
                return Err(error);
            },
        };
        let early_profile = match load_profile(&config, &self.profile_name, find) {
            Ok(early_profile) => early_profile,
            Err(error) => {
                return Err(error);
            },
        };
        assert(found_profile(
            self.project_root@,
            self.config_file,
            self.profile_name,
            from_sources,
            find,
            early_profile,
        ));
        let known_groups = early_profile.known_groups();
        let filter = match self.build_filter(pcx, &known_groups, build) {
            Ok(filter) => filter,
            Err(error) => {
                return Err(error);
            },
        };
        let profile = match resolve_profile(&self.binaries, early_profile, create) {
            Ok(profile) => profile,
            Err(error) => {
                return Err(error);
            },
        };
        match build_buck2_session(
            &self.binaries,
            self.project_root.as_str(),
            ctx,
            &profile,
            &filter,
            self.filter_bound,
            self.list_threads,
            is_terminal,
            from_binary_list,
            new_test_list,
        ) {
            Ok(session) => with(&session, plan),
            Err(error) => Err(error),
        }
    }
}

/// Interrupting a run always reaches the graceful cancellation path, and
/// standard input is read only where nextest owns the terminal.
pub proof fn law_interrupts_are_handled(spec: RunSpec, cli_args: Vec<String>, output: OutputTo)
    requires
        runs_with(spec, cli_args, output),
    ensures
        spec.signal_handler == SignalHandlerKind::Standard,
        spec.input_handler == InputHandlerKind::Standard <==> output == OutputTo::Terminal,
{
}

/// Tests are run with the command line and the output that were asked for, with
/// signals handled and output captured, and read standard input only on a terminal.
pub proof fn law_runs_are_as_asked(spec: RunSpec, cli_args: Vec<String>, output: OutputTo)
    ensures
        runs_with(spec, cli_args, output) <==> {
            &&& spec.cli_args == cli_args
            &&& spec.output == output
            &&& spec.signal_handler == SignalHandlerKind::Standard
            &&& output == OutputTo::Terminal ==> spec.input_handler == InputHandlerKind::Standard
            &&& output == OutputTo::PlainStderr ==> spec.input_handler == InputHandlerKind::Noop
            &&& !spec.no_capture
        },
        OutputTo::Terminal.input() == InputHandlerKind::Standard,
        OutputTo::PlainStderr.input() == InputHandlerKind::Noop,
{
}

/// A filter selects what a context asks for: its substrings and nothing by exact
/// name, and the tests that it says to run as far as being ignored goes.
pub proof fn law_filters_select_what_is_requested(filter: TestFilterSpec, cx: RunContext)
    ensures
        selects_requested(filter, cx) <==> {
            &&& filter.mode == NextestRunMode::Test
            &&& filter.run_ignored == cx.run_ignored
            &&& filter.patterns.substrings@ == cx.filter_patterns@
            &&& filter.patterns.exact@.len() == 0
        },
{
    if filter.patterns.exact@.len() == 0 {
        assert(filter.patterns.exact@ =~= Seq::<String>::empty());
    }
}

/// A filter has one expression for each of the context's filtersets, in order, each
/// parsed as a filterset for tests.
pub proof fn law_every_filterset_is_applied(
    spec: TestFilterSpec,
    cx: RunContext,
    pcx: ParseContext<'_>,
    known_groups: KnownGroups,
    index: int,
)
    requires
        asks_for_filter(spec, cx, pcx, known_groups),
        0 <= index < cx.filtersets@.len(),
    ensures
        spec.exprs@.len() == cx.filtersets@.len(),
        parsed_filterset(cx.filtersets@[index]@, pcx, FiltersetKind::Test, known_groups) == Ok::<
            Filterset,
            FiltersetParseErrors,
        >(spec.exprs@[index]),
        spec.run_ignored == cx.run_ignored,
        spec.patterns.substrings@ == cx.filter_patterns@,
{
    let parsed = parsed_filtersets(cx.filtersets@, pcx, FiltersetKind::Test, known_groups);
    let result = Ok::<Vec<Filterset>, Vec<FiltersetParseErrors>>(spec.exprs);
    assert(collected(parsed, result));
    law_all_or_nothing_is_collected(parsed, result);
    assert(parsed[index] == Ok::<Filterset, FiltersetParseErrors>(spec.exprs@[index]));
}

/// One filterset that does not parse is enough for no filter to be built, and each
/// that does not is reported, in order.
pub proof fn law_bad_filtersets_stop_the_run<T, B: FnOnce(TestFilterSpec) -> Result<T, ErrorChain>>(
    cx: RunContext,
    pcx: ParseContext<'_>,
    known_groups: KnownGroups,
    build: B,
    filter: Result<T, ExpectedError>,
    index: int,
)
    requires
        requested_filter(cx, pcx, known_groups, build, filter),
        0 <= index < cx.filtersets@.len(),
        parsed_filterset(
            cx.filtersets@[index]@,
            pcx,
            FiltersetKind::Test,
            known_groups,
        ) is Err,
    ensures
        filter matches Err(ExpectedError::FiltersetParseError { all_errors })
            && all_errors@.contains(
            parsed_filterset(
                cx.filtersets@[index]@,
                pcx,
                FiltersetKind::Test,
                known_groups,
            )->Err_0,
        ),
{
    let parsed = parsed_filtersets(cx.filtersets@, pcx, FiltersetKind::Test, known_groups);
    law_every_bad_filterset_is_reported(parsed);
    assert(parsed[index] is Err);
}

/// Where every filterset parses, the filter is built from what the context asks for,
/// and is what building it gave.
pub proof fn law_good_filtersets_build_a_filter<
    T,
    B: FnOnce(TestFilterSpec) -> Result<T, ErrorChain>,
>(
    cx: RunContext,
    pcx: ParseContext<'_>,
    known_groups: KnownGroups,
    build: B,
    filter: Result<T, ExpectedError>,
)
    requires
        requested_filter(cx, pcx, known_groups, build, filter),
        forall|index: int|
            0 <= index < cx.filtersets@.len() ==> parsed_filterset(
                (#[trigger] cx.filtersets@[index])@,
                pcx,
                FiltersetKind::Test,
                known_groups,
            ) is Ok,
    ensures
        exists|spec: TestFilterSpec, built: Result<T, ErrorChain>|
            {
                &&& #[trigger] build.ensures((spec,), built)
                &&& asks_for_filter(spec, cx, pcx, known_groups)
                &&& built matches Ok(made) ==> filter == Ok::<T, ExpectedError>(made)
                &&& built matches Err(error) ==> filter == Err::<T, ExpectedError>(
                    ExpectedError::TestFilterBuildError { error },
                )
            },
{
    let parsed = parsed_filtersets(cx.filtersets@, pcx, FiltersetKind::Test, known_groups);
    law_every_bad_filterset_is_reported(parsed);
    assert forall|index: int| 0 <= index < parsed.len() implies #[trigger] parsed[index] is Ok by {
        assert(parsed[index] == parsed_filterset(
            cx.filtersets@[index]@,
            pcx,
            FiltersetKind::Test,
            known_groups,
        ));
    }
    let spec = choose|spec: TestFilterSpec|
        {
            &&& #[trigger] asks_for_filter(spec, cx, pcx, known_groups)
            &&& filter_outcome(spec, build, filter)
        };
    law_filters_are_built_as_asked(spec, build, filter);
}

/// The groups that filtersets may name are those of the profile, and are known.
pub proof fn law_groups_are_the_profiles(profile: EarlyProfile, known_groups: KnownGroups)
    requires
        groups_of(profile, known_groups),
    ensures
        known_groups is Known,
        known_groups->custom_groups@ == profile.custom_groups@,
{
}

/// A run that was executed exits as its tests did: with zero if all of them passed,
/// with the code for a failed run if one failed, timed out or could not be started,
/// and with that for a setup script if one failed, whatever the tests did.
pub proof fn law_runs_exit_as_their_tests_did(
    no_tests: Option<NoTestsBehavior>,
    run_stats: RunStats,
    code: Result<i32, ExpectedError>,
)
    requires
        run_code(
            no_tests,
            Ok::<Result<RunStats, std::io::Error>, ExpectedError>(
                Ok::<RunStats, std::io::Error>(run_stats),
            ),
            code,
        ),
    ensures
        ({
            let setup_failed = run_stats.setup_scripts_failed > 0
                || run_stats.setup_scripts_exec_failed > 0 || run_stats.setup_scripts_timed_out > 0
                || run_stats.setup_scripts_initial_count > run_stats.setup_scripts_finished_count;
            let tests_failed = run_stats.failed > 0 || run_stats.exec_failed > 0
                || run_stats.failed_timed_out > 0 || run_stats.initial_run_count
                > run_stats.finished_count;
            &&& setup_failed ==> code == Ok::<i32, ExpectedError>(105)
            &&& !setup_failed && tests_failed ==> code == Ok::<i32, ExpectedError>(100)
            &&& !setup_failed && !tests_failed && run_stats.finished_count > 0 ==> code == Ok::<
                i32,
                ExpectedError,
            >(0)
            &&& !setup_failed && !tests_failed && run_stats.finished_count == 0 ==> {
                &&& no_tests == Some(NoTestsBehavior::Pass) || no_tests == Some(
                    NoTestsBehavior::Warn,
                ) ==> code == Ok::<i32, ExpectedError>(0)
                &&& no_tests is None || no_tests == Some(NoTestsBehavior::Fail) || no_tests == Some(
                    NoTestsBehavior::Auto,
                ) ==> code == Ok::<i32, ExpectedError>(4)
            }
        }),
{
}

/// A run that was not executed, or whose results could not be written, fails with
/// why.
pub proof fn law_broken_runs_have_no_code(
    no_tests: Option<NoTestsBehavior>,
    executed: Result<Result<RunStats, std::io::Error>, ExpectedError>,
    code: Result<i32, ExpectedError>,
)
    requires
        run_code(no_tests, executed, code),
    ensures
        executed matches Err(error) ==> code == Err::<i32, ExpectedError>(error),
        executed matches Ok(Err(error)) ==> code == Err::<i32, ExpectedError>(
            ExpectedError::WriteEventError { error },
        ),
        executed matches Ok(Ok(_)) ==> code is Ok,
{
}

/// Nothing comes of the pipeline unless the configuration was read, the profile was
/// found in it, the filter that the context asks for was built with the profile's
/// groups, the profile was evaluated, and a session was made of the context's own
/// binaries in its own root, within its own bound.
pub proof fn law_runs_skip_no_stage<
    C,
    T,
    A,
    L,
    R,
    Q,
    S: FnOnce(ConfigSource<'_>) -> Result<C, ErrorChain>,
    P: FnOnce(&C, &str) -> Result<EarlyProfile, ErrorChain>,
    D: FnOnce(&str) -> Result<(), std::io::Error>,
    B: FnOnce(TestFilterSpec) -> Result<T, ErrorChain>,
    F: FnOnce(ArtifactRequest<'_>) -> Result<A, ErrorChain>,
    N: FnOnce(TestListRequest<'_, T>, A) -> Result<L, ErrorChain>,
    W: FnOnce(&TestSession<'_, L>, Q) -> Result<R, ExpectedError>,
>(
    cx: &RunContext,
    ctx: SessionContext,
    pcx: ParseContext<'_>,
    is_terminal: bool,
    stages: Stages<S, P, D, B, F, N>,
    plan: Q,
    with: W,
    result: R,
)
    requires
        cx.piped(ctx, pcx, is_terminal, stages, plan, with, Ok::<R, ExpectedError>(result)),
    ensures
        exists|
            config: C,
            early: EarlyProfile,
            known_groups: KnownGroups,
            filter: T,
            profile: EvaluatableProfile<'_>,
        |
            {
                &&& config_outcome(
                    cx.project_root@,
                    cx.config_file,
                    stages.from_sources,
                    Ok::<C, ExpectedError>(config),
                )
                &&& #[trigger] profile_outcome(
                    config,
                    cx.profile_name,
                    stages.find,
                    Ok::<EarlyProfile, ExpectedError>(early),
                )
                &&& groups_of(early, known_groups)
                &&& #[trigger] requested_filter(
                    *cx,
                    pcx,
                    known_groups,
                    stages.build,
                    Ok::<T, ExpectedError>(filter),
                )
                &&& #[trigger] evaluation_outcome(
                    &cx.binaries,
                    early,
                    stages.create,
                    Ok::<EvaluatableProfile<'_>, ExpectedError>(profile),
                )
                &&& used_session(
                    cx.binaries,
                    cx.project_root@,
                    ctx,
                    profile,
                    filter,
                    options_for(cx.filter_bound, cx.list_threads, is_terminal),
                    stages.from_binary_list,
                    stages.new_test_list,
                    plan,
                    with,
                    Ok::<R, ExpectedError>(result),
                )
            },
{
    let whole = Ok::<R, ExpectedError>(result);
    let config = choose|config: Result<C, ExpectedError>|
        {
            &&& #[trigger] config_outcome(
                cx.project_root@,
                cx.config_file,
                stages.from_sources,
                config,
            )
            &&& match config {
                Err(error) => whole == Err::<R, ExpectedError>(error),
                Ok(config) => exists|early: Result<EarlyProfile, ExpectedError>|
                    {
                        &&& #[trigger] profile_outcome(config, cx.profile_name, stages.find, early)
                        &&& match early {
                            Err(error) => whole == Err::<R, ExpectedError>(error),
                            Ok(early) => cx.after_profile(
                                early,
                                ctx,
                                pcx,
                                is_terminal,
                                stages,
                                plan,
                                with,
                                whole,
                            ),
                        }
                    },
            }
        };
    let early = choose|early: Result<EarlyProfile, ExpectedError>|
        {
            &&& #[trigger] profile_outcome(config->Ok_0, cx.profile_name, stages.find, early)
            &&& match early {
                Err(error) => whole == Err::<R, ExpectedError>(error),
                Ok(early) => cx.after_profile(
                    early,
                    ctx,
                    pcx,
                    is_terminal,
                    stages,
                    plan,
                    with,
                    whole,
                ),
            }
        };
    let (known_groups, filter) = choose|
        known_groups: KnownGroups,
        filter: Result<T, ExpectedError>,
    |
        {
            &&& groups_of(early->Ok_0, known_groups)
            &&& #[trigger] requested_filter(*cx, pcx, known_groups, stages.build, filter)
            &&& match filter {
                Err(error) => whole == Err::<R, ExpectedError>(error),
                Ok(filter) => exists|profile: Result<EvaluatableProfile<'_>, ExpectedError>|
                    {
                        &&& #[trigger] evaluation_outcome(
                            &cx.binaries,
                            early->Ok_0,
                            stages.create,
                            profile,
                        )
                        &&& match profile {
                            Err(error) => whole == Err::<R, ExpectedError>(error),
                            Ok(profile) => used_session(
                                cx.binaries,
                                cx.project_root@,
                                ctx,
                                profile,
                                filter,
                                options_for(cx.filter_bound, cx.list_threads, is_terminal),
                                stages.from_binary_list,
                                stages.new_test_list,
                                plan,
                                with,
                                whole,
                            ),
                        }
                    },
            }
        };
    let profile = choose|profile: Result<EvaluatableProfile<'_>, ExpectedError>|
        {
            &&& #[trigger] evaluation_outcome(&cx.binaries, early->Ok_0, stages.create, profile)
            &&& match profile {
                Err(error) => whole == Err::<R, ExpectedError>(error),
                Ok(profile) => used_session(
                    cx.binaries,
                    cx.project_root@,
                    ctx,
                    profile,
                    filter->Ok_0,
                    options_for(cx.filter_bound, cx.list_threads, is_terminal),
                    stages.from_binary_list,
                    stages.new_test_list,
                    plan,
                    with,
                    whole,
                ),
            }
        };
    assert(profile_outcome(
        config->Ok_0,
        cx.profile_name,
        stages.find,
        Ok::<EarlyProfile, ExpectedError>(early->Ok_0),
    ));
    assert(requested_filter(
        *cx,
        pcx,
        known_groups,
        stages.build,
        Ok::<T, ExpectedError>(filter->Ok_0),
    ));
    assert(evaluation_outcome(
        &cx.binaries,
        early->Ok_0,
        stages.create,
        Ok::<EvaluatableProfile<'_>, ExpectedError>(profile->Ok_0),
    ));
}

/// A run fails with what the first stage that failed did.
pub proof fn law_runs_report_the_first_failure<
    C,
    T,
    A,
    L,
    R,
    Q,
    S: FnOnce(ConfigSource<'_>) -> Result<C, ErrorChain>,
    P: FnOnce(&C, &str) -> Result<EarlyProfile, ErrorChain>,
    D: FnOnce(&str) -> Result<(), std::io::Error>,
    B: FnOnce(TestFilterSpec) -> Result<T, ErrorChain>,
    F: FnOnce(ArtifactRequest<'_>) -> Result<A, ErrorChain>,
    N: FnOnce(TestListRequest<'_, T>, A) -> Result<L, ErrorChain>,
    W: FnOnce(&TestSession<'_, L>, Q) -> Result<R, ExpectedError>,
>(
    cx: &RunContext,
    ctx: SessionContext,
    pcx: ParseContext<'_>,
    is_terminal: bool,
    stages: Stages<S, P, D, B, F, N>,
    plan: Q,
    with: W,
    error: ExpectedError,
)
    requires
        cx.piped(ctx, pcx, is_terminal, stages, plan, with, Err::<R, ExpectedError>(error)),
    ensures
        ({
            ||| config_outcome(
                cx.project_root@,
                cx.config_file,
                stages.from_sources,
                Err::<C, ExpectedError>(error),
            )
            ||| exists|config: C| #[trigger]
                profile_outcome(
                    config,
                    cx.profile_name,
                    stages.find,
                    Err::<EarlyProfile, ExpectedError>(error),
                )
            ||| exists|early: EarlyProfile| #[trigger]
                evaluation_outcome(
                    &cx.binaries,
                    early,
                    stages.create,
                    Err::<EvaluatableProfile<'_>, ExpectedError>(error),
                )
            ||| exists|known_groups: KnownGroups| #[trigger]
                requested_filter(
                    *cx,
                    pcx,
                    known_groups,
                    stages.build,
                    Err::<T, ExpectedError>(error),
                )
            ||| exists|profile: EvaluatableProfile<'_>, filter: T| #[trigger]
                used_session(
                    cx.binaries,
                    cx.project_root@,
                    ctx,
                    profile,
                    filter,
                    options_for(cx.filter_bound, cx.list_threads, is_terminal),
                    stages.from_binary_list,
                    stages.new_test_list,
                    plan,
                    with,
                    Err::<R, ExpectedError>(error),
                )
        }),
{
}

/// Stages that can be asked anything can be asked all that a run asks.
pub proof fn law_willing_stages_can_be_run<
    C,
    T,
    A,
    L,
    R,
    Q,
    S: FnOnce(ConfigSource<'_>) -> Result<C, ErrorChain>,
    P: FnOnce(&C, &str) -> Result<EarlyProfile, ErrorChain>,
    D: FnOnce(&str) -> Result<(), std::io::Error>,
    B: FnOnce(TestFilterSpec) -> Result<T, ErrorChain>,
    F: FnOnce(ArtifactRequest<'_>) -> Result<A, ErrorChain>,
    N: FnOnce(TestListRequest<'_, T>, A) -> Result<L, ErrorChain>,
    W: FnOnce(&TestSession<'_, L>, Q) -> Result<R, ExpectedError>,
>(
    cx: &RunContext,
    ctx: SessionContext,
    pcx: ParseContext<'_>,
    is_terminal: bool,
    stages: Stages<S, P, D, B, F, N>,
    plan: Q,
    with: W,
)
    requires
        forall|source: ConfigSource<'_>| #[trigger] stages.from_sources.requires((source,)),
        forall|config: &C, name: &str| #[trigger] stages.find.requires((config, name)),
        forall|dir: &str| #[trigger] stages.create.requires((dir,)),
        forall|asked: TestFilterSpec| #[trigger] stages.build.requires((asked,)),
        forall|request: ArtifactRequest<'_>| #[trigger] stages.from_binary_list.requires((request,)),
        forall|request: TestListRequest<'_, T>, artifacts: A| #[trigger]
            stages.new_test_list.requires((request, artifacts)),
        forall|session: &TestSession<'_, L>| #[trigger] with.requires((session, plan)),
    ensures
        cx.grants(ctx, pcx, is_terminal, stages, plan, with),
{
}

/// Where the configuration of a run cannot be read, nothing is asked of the stages after
/// that.
pub proof fn law_unreached_stages_stay_unasked<
    C,
    T,
    A,
    L,
    R,
    Q,
    S: FnOnce(ConfigSource<'_>) -> Result<C, ErrorChain>,
    P: FnOnce(&C, &str) -> Result<EarlyProfile, ErrorChain>,
    D: FnOnce(&str) -> Result<(), std::io::Error>,
    B: FnOnce(TestFilterSpec) -> Result<T, ErrorChain>,
    F: FnOnce(ArtifactRequest<'_>) -> Result<A, ErrorChain>,
    N: FnOnce(TestListRequest<'_, T>, A) -> Result<L, ErrorChain>,
    W: FnOnce(&TestSession<'_, L>, Q) -> Result<R, ExpectedError>,
>(
    cx: &RunContext,
    ctx: SessionContext,
    pcx: ParseContext<'_>,
    is_terminal: bool,
    stages: Stages<S, P, D, B, F, N>,
    plan: Q,
    with: W,
)
    requires
        forall|source: ConfigSource<'_>|
            source.workspace_root@ == cx.project_root@
                ==> #[trigger] stages.from_sources.requires((source,)),
        forall|source: ConfigSource<'_>, loaded: Result<C, ErrorChain>| #[trigger]
            stages.from_sources.ensures((source,), loaded) ==> loaded is Err,
    ensures
        cx.grants(ctx, pcx, is_terminal, stages, plan, with),
{
}

} // verus!
