//! The identity and environment a session runs under.

use crate::package_info::{optional_version, Version, VersionView};
use vstd::prelude::*;

verus! {

/// The ID of a run, a UUID.
#[derive(Clone, Copy, Debug, Eq, PartialEq, Structural)]
pub struct ReportUuid {
    /// The UUID as a number.
    pub value: u128,
}

/// Version-related environment variables exposed to test processes.
#[derive(Debug, Eq, PartialEq)]
pub struct VersionEnvVars {
    /// The version that is running.
    pub current_version: Version,

    /// The version the configuration requires, if it does.
    pub required_version: Option<Version>,

    /// The version the configuration recommends, if it does.
    pub recommended_version: Option<Version>,
}

/// Whether test processes are started through an intermediate one.
#[derive(Debug, Eq, PartialEq)]
pub enum DoubleSpawnInfo {
    /// They are started directly.
    Disabled,

    /// They are started through this program.
    Enabled {
        /// The path to the program.
        current_exe: String,
    },
}

/// A program that runs test binaries for a platform.
#[derive(Debug, Eq, PartialEq)]
pub struct PlatformRunner {
    /// The path to the program.
    pub runner_binary: String,

    /// The arguments that belong before the test binary.
    pub args: Vec<String>,
}

/// The programs that run test binaries, by platform.
#[derive(Debug, Eq, PartialEq)]
pub struct TargetRunner {
    /// The one for binaries built for the host, if there is one.
    pub host: Option<PlatformRunner>,

    /// The one for binaries built for the target, if there is one.
    pub target: Option<PlatformRunner>,
}

/// The identity and environment shared by every phase of a session.
///
/// One value covers both listing and execution, so that a test binary sees the
/// same `NEXTEST_RUN_ID` in both phases and can key state on it across them.
#[derive(Debug, Eq, PartialEq)]
pub struct SessionContext {
    /// The ID that identifies this run.
    pub run_id: ReportUuid,

    /// Version-related environment variables exposed to test processes.
    pub version_env_vars: VersionEnvVars,

    /// Double-spawn info, for the `SIGTSTP` race avoidance Cargo builds use.
    pub double_spawn: DoubleSpawnInfo,

    /// A runner for the target platform, if one is configured.
    pub target_runner: TargetRunner,
}

/// The context a phase hands to test processes.
#[derive(Clone, Copy, Debug, Eq, PartialEq)]
pub struct TestExecuteContext<'a> {
    /// The ID that identifies this run.
    pub run_id: ReportUuid,

    /// Version-related environment variables.
    pub version_env_vars: &'a VersionEnvVars,

    /// The name of the profile.
    pub profile_name: &'a str,

    /// Double-spawn info.
    pub double_spawn: &'a DoubleSpawnInfo,

    /// A runner for the target platform, if one is configured.
    pub target_runner: &'a TargetRunner,
}

/// The simple context for a run of the given version.
pub open spec fn simple_for(run_id: ReportUuid, version: Version) -> SessionContext {
    SessionContext {
        run_id,
        version_env_vars: VersionEnvVars {
            current_version: version,
            required_version: None,
            recommended_version: None,
        },
        double_spawn: DoubleSpawnInfo::Disabled,
        target_runner: TargetRunner { host: None, target: None },
    }
}

/// `ctx` is the simple context for a run of the given version.
pub open spec fn simple_context(
    ctx: SessionContext,
    run_id: ReportUuid,
    version: VersionView,
) -> bool {
    &&& ctx.run_id == run_id
    &&& ctx.version_env_vars.current_version@ == version
    &&& ctx.version_env_vars.required_version is None
    &&& ctx.version_env_vars.recommended_version is None
    &&& ctx.double_spawn == DoubleSpawnInfo::Disabled
    &&& ctx.target_runner == (TargetRunner { host: None, target: None })
}

impl SessionContext {
    /// Returns a context with no version constraints, no double-spawning, and
    /// no target runner.
    ///
    /// This is the right shape for an integration that has no configuration
    /// sources for those features.
    pub fn simple(run_id: ReportUuid, current_version: Version) -> (ctx: Self)
        ensures
            ctx == simple_for(run_id, current_version),
    {
        SessionContext {
            run_id,
            version_env_vars: VersionEnvVars {
                current_version,
                required_version: None,
                recommended_version: None,
            },
            double_spawn: DoubleSpawnInfo::Disabled,
            target_runner: TargetRunner { host: None, target: None },
        }
    }

    /// Returns the context both the list and run phases hand to test processes.
    pub fn test_execute_context<'a>(&'a self, profile_name: &'a str) -> (context:
        TestExecuteContext<'a>)
        ensures
            context == (TestExecuteContext {
                run_id: self.run_id,
                version_env_vars: &self.version_env_vars,
                profile_name,
                double_spawn: &self.double_spawn,
                target_runner: &self.target_runner,
            }),
    {
        TestExecuteContext {
            run_id: self.run_id,
            version_env_vars: &self.version_env_vars,
            profile_name,
            double_spawn: &self.double_spawn,
            target_runner: &self.target_runner,
        }
    }
}

/// What `semver::Version::parse` makes of a text, or `None` if the text is not
/// a version.
pub uninterp spec fn version_in(text: Seq<char>) -> Option<VersionView>;

/// Calls `semver::Version::parse`: the version a text stands for, if it is one.
#[verifier::external_body]
fn parse_version(text: &str) -> (version: Option<Version>)
    ensures
        optional_version(version) == version_in(text@),
{
    semver::Version::parse(text).ok().map(|version| Version {
        major: version.major,
        minor: version.minor,
        patch: version.patch,
        pre: version.pre.as_str().to_owned(),
        build: version.build.as_str().to_owned(),
    })
}

/// Builds the context a session runs under, given this program's own version.
///
/// Buck2 runs every test in its own action rather than as part of one nextest
/// run, so each invocation would otherwise mint an ID of its own; setting
/// `NEXTEST_RUN_ID` on the rule's `env` is what makes a whole `buck2 test`
/// share one.
pub fn session_context(run_id: ReportUuid, program_version: &str) -> (ctx: SessionContext)
    requires
        version_in(program_version@) is Some,
    ensures
        version_in(program_version@) matches Some(version) && simple_context(ctx, run_id, version),
{
    match parse_version(program_version) {
        Some(version) => SessionContext::simple(run_id, version),
        None => SessionContext::simple(run_id, Version::new(0, 0, 0)),
    }
}

/// Builds the context a session runs under, unless what is given as this
/// program's own version is not a version.
pub fn checked_session_context(run_id: ReportUuid, program_version: &str) -> (ctx: Option<
    SessionContext,
>)
    ensures
        match version_in(program_version@) {
            Some(version) => ctx matches Some(ctx) && simple_context(ctx, run_id, version),
            None => ctx is None,
        },
{
    match parse_version(program_version) {
        Some(_) => Some(session_context(run_id, program_version)),
        None => None,
    }
}

/// A simple context carries the run's ID and this program's version, and asks for
/// nothing else: no other versions, no double-spawning, and no runner.
pub proof fn law_simple_contexts_ask_for_nothing(run_id: ReportUuid, version: Version)
    ensures
        simple_for(run_id, version).run_id == run_id,
        simple_for(run_id, version).version_env_vars.current_version == version,
        simple_for(run_id, version).version_env_vars.required_version is None,
        simple_for(run_id, version).version_env_vars.recommended_version is None,
        simple_for(run_id, version).double_spawn == DoubleSpawnInfo::Disabled,
        simple_for(run_id, version).target_runner.host is None,
        simple_for(run_id, version).target_runner.target is None,
        simple_context(simple_for(run_id, version), run_id, version@),
{
}

/// A context that is simple for one run and version is simple for no other.
pub proof fn law_simple_contexts_are_of_one_run(
    ctx: SessionContext,
    run_id: ReportUuid,
    version: VersionView,
)
    requires
        simple_context(ctx, run_id, version),
    ensures
        ctx.run_id == run_id,
        ctx.version_env_vars.current_version@ == version,
        ctx.version_env_vars.required_version is None,
        ctx.version_env_vars.recommended_version is None,
        ctx.double_spawn == DoubleSpawnInfo::Disabled,
        ctx.target_runner.host is None,
        ctx.target_runner.target is None,
{
}

} // verus!
