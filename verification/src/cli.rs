//! The command line Buck2's rule builds.
//!
//! Both commands are assembled by the `nextest_test` rule and run by Buck2 as
//! ordinary actions, so this interface is between the rule and this binary
//! rather than something a person types. The one part that has to be exactly
//! right is the shape of the run command: Buck2 appends the test's `filter` as
//! the final argument, so the command the rule emits ends with a bare
//! `--test-name` and the appended value binds to it.

use crate::binaries::BuildPlatforms;
use crate::convert::{
    law_packages_say_where_targets_are, law_targets_become_binaries, list_for, to_binary_list,
    TargetInput,
};
use crate::errors::ExpectedError;
use crate::package_info::packages_in;
use crate::paths::{path_ancestors, path_is_absolute, path_join};
use crate::pipeline::Context;
use crate::project_root::{
    self, absolute_outcome, chosen, current_dir_outcome, walk_grants, PathError,
};
use crate::session::errors::ErrorChain;
use crate::string_map::{entries_map, law_the_last_entry_wins, StringMap};
use crate::text::{law_splits_join_back, split_first, split_text_first};
use vstd::prelude::*;

verus! {

/// Why an environment variable could not be read off the command line.
#[derive(Clone, Copy, Debug, Eq, PartialEq, Structural)]
pub enum EnvPairError {
    /// There is no `=` between a name and a value.
    MissingEquals,

    /// There is nothing before the `=`.
    EmptyName,
}

/// What `NAME=VALUE` stands for.
pub open spec fn env_pair(text: Seq<char>) -> Result<(Seq<char>, Seq<char>), EnvPairError> {
    match split_first(text, '=') {
        None => Err(EnvPairError::MissingEquals),
        Some((name, value)) => if name.len() == 0 {
            Err(EnvPairError::EmptyName)
        } else {
            Ok((name, value))
        },
    }
}

/// Reads an environment variable given as `NAME=VALUE`.
///
/// The value is whatever follows the first `=`, so it may have others in it. A
/// malformed pair is rejected rather than being dropped in silence, which would
/// leave the test running without something it was told it would have.
pub fn parse_env_pair(text: &str) -> (pair: Result<(String, String), EnvPairError>)
    ensures
        match pair {
            Ok((name, value)) => env_pair(text@) == Ok::<(Seq<char>, Seq<char>), EnvPairError>(
                (name@, value@),
            ),
            Err(error) => env_pair(text@) == Err::<(Seq<char>, Seq<char>), EnvPairError>(error),
        },
{
    match split_text_first(text, '=') {
        None => Err(EnvPairError::MissingEquals),
        Some((name, value)) => if name.is_empty() {
            Err(EnvPairError::EmptyName)
        } else {
            Ok((name.to_owned(), value.to_owned()))
        },
    }
}

/// A name without `=` in it is read back from a pair together with the value,
/// whatever the value holds.
pub proof fn law_env_pairs_read_back(name: Seq<char>, value: Seq<char>)
    requires
        name.len() > 0,
        !name.contains('='),
    ensures
        env_pair(name + seq!['='] + value) == Ok::<(Seq<char>, Seq<char>), EnvPairError>(
            (name, value),
        ),
{
    let text = name + seq!['='] + value;
    text.index_of_first_ensures('=');
    assert(text[name.len() as int] == '=');
    assert(text.contains('='));
    let first = text.index_of_first('=').unwrap();
    assert(first == name.len()) by {
        if first < name.len() {
            assert(name[first] == '=');
        }
    }
    assert(text.subrange(0, first) =~= name);
    assert(text.subrange(first + 1, text.len() as int) =~= value);
}

/// The target both commands operate on, as the rule described it.
#[derive(Debug, Eq, PartialEq)]
pub struct TargetArgs {
    /// The target's label, which becomes its nextest binary ID.
    pub label: String,

    /// The target's package path within the project, empty for the root
    /// package.
    pub package_path: String,

    /// The test binary to list or run.
    pub program: String,

    /// Arguments to pass to the test binary before nextest's own.
    pub args: Vec<String>,

    /// The environment the target's tests need.
    ///
    /// A variable that is given twice takes the value given last.
    pub env: Vec<(String, String)>,

    /// The Buck2 project root.
    ///
    /// Defaults to the directory the action runs in, which is the project root
    /// unless the rule turned `run_from_project_root` off.
    pub project_root: Option<String>,

    /// The nextest profile to use.
    pub profile: Option<String>,

    /// A nextest configuration file to read instead of the default.
    pub config_file: Option<String>,
}

/// What is to be done.
#[derive(Debug, Eq, PartialEq)]
pub enum Command {
    /// List the tests in a test binary, for Buck2's listing callback.
    List {
        /// The target.
        target: TargetArgs,
    },

    /// Run one test from a test binary, for Buck2's result callback.
    Run {
        /// The target.
        target: TargetArgs,

        /// The test to run, named exactly.
        ///
        /// Buck2 appends this as the final argument of the command, so the rule
        /// emits the flag with no value and Buck2 supplies it. The value is a
        /// test name this binary itself listed.
        test_name: String,
    },
}

impl Command {
    /// The target the command is about.
    pub open spec fn goal(self) -> TargetArgs {
        match self {
            Command::List { target } => target,
            Command::Run { target, .. } => target,
        }
    }

    /// The command runs the test with the given name.
    pub open spec fn names(self, name: Seq<char>) -> bool {
        self matches Command::Run { test_name, .. } && test_name@ == name
    }
}

/// A nextest client for Buck2's internal test runner.
#[derive(Debug, Eq, PartialEq)]
pub struct App {
    /// What is to be done.
    pub command: Command,
}

/// `input` describes the target of a command that runs in `cwd`.
pub open spec fn describes(input: TargetInput<'_>, target: TargetArgs, cwd: Seq<char>) -> bool {
    &&& input.label@ == target.label@
    &&& input.package_path@ == target.package_path@
    &&& input.program@ == target.program@
    &&& input.leading_args@ == target.args@
    &&& input.env@ == entries_map(target.env@)
    &&& input.cwd matches Some(dir) && dir@ == cwd
}

/// `context` is what a target and the project root it is in come to, given what
/// detecting the platforms gave.
pub open spec fn context_outcome(
    target: TargetArgs,
    cwd: Seq<char>,
    project_root: String,
    build_platforms: Result<BuildPlatforms, ErrorChain>,
    context: Result<Context, ExpectedError>,
) -> bool {
    match build_platforms {
        Err(error) => context == Err::<Context, ExpectedError>(
            ExpectedError::HostPlatformDetectError { error },
        ),
        Ok(build_platforms) => {
            &&& context matches Ok(context)
            &&& context.label == target.label
            &&& context.project_root == project_root
            &&& context.profile_name == target.profile
            &&& context.config_file == target.config_file
            &&& exists|input: TargetInput<'_>| #[trigger]
                describes(input, target, cwd) && list_for(
                    seq![input],
                    project_root@,
                    build_platforms,
                    context.binaries,
                )
        },
    }
}

impl TargetArgs {
    /// Resolves the project root and converts the target into pipeline inputs.
    ///
    /// `read_cwd` reads the current directory, `has_file` says whether there is
    /// a file at a path, `absolute` makes a path absolute, and
    /// `detect_platforms` says what platforms there are.
    pub fn into_context<
        R: FnOnce() -> Result<String, PathError>,
        F: Fn(&str) -> bool,
        A: Fn(&str) -> Result<String, PathError>,
        D: FnOnce() -> Result<BuildPlatforms, ErrorChain>,
    >(self, read_cwd: R, has_file: &F, absolute: &A, detect_platforms: D) -> (context: Result<
        Context,
        ExpectedError,
    >)
        requires
            read_cwd.requires(()),
            forall|cwd: String, path: &str|
                #[trigger] read_cwd.ensures((), Ok::<String, PathError>(cwd)) && path@ == cwd@
                    ==> #[trigger] absolute.requires((path,)),
            forall|answer: Result<String, PathError>, cwd: String|
                #[trigger] read_cwd.ensures((), answer) && #[trigger] current_dir_outcome(
                    answer,
                    *absolute,
                    Ok::<String, ExpectedError>(cwd),
                ) ==> root_grants(self, cwd@, *has_file, *absolute, detect_platforms),
        ensures
            exists|answer: Result<String, PathError>, cwd: Result<String, ExpectedError>|
                {
                    &&& #[trigger] read_cwd.ensures((), answer)
                    &&& #[trigger] current_dir_outcome(answer, *absolute, cwd)
                    &&& match cwd {
                        Err(error) => context == Err::<Context, ExpectedError>(error),
                        Ok(cwd) => root_context(
                            self,
                            cwd@,
                            *has_file,
                            *absolute,
                            detect_platforms,
                            context,
                        ),
                    }
                },
    {
        let cwd: String = match project_root::current_dir(read_cwd, absolute) {
            Ok(cwd) => cwd,
            Err(error) => {
                return Err(error);
            },
        };
        let explicit: Option<&str> = match &self.project_root {
            Some(path) => Some(path.as_str()),
            None => None,
        };
        let project_root: String = match project_root::resolve(
            explicit,
            cwd.as_str(),
            has_file,
            absolute,
        ) {
            Ok(project_root) => project_root,
            Err(error) => {
                return Err(error);
            },
        };
        let TargetArgs { label, package_path, program, args, env, profile, config_file, .. } = self;
        let env = StringMap::from_entries(env);
        let input = TargetInput {
            label: label.as_str(),
            package_path: package_path.as_str(),
            program: program.as_str(),
            leading_args: &args,
            env: &env,
            cwd: Some(cwd.as_str()),
        };
        assert(describes(input, self, cwd@));
        match to_binary_list(&input, project_root.as_str(), detect_platforms()) {
            Ok(binaries) => Ok(
                Context { label, binaries, project_root, profile_name: profile, config_file },
            ),
            Err(error) => Err(error),
        }
    }
}

/// What settling on a project root asks for may be asked for: files are looked
/// for only where no root was named, the root that was settled on is made
/// absolute, and platforms are detected once that has worked.
pub open spec fn root_grants<
    F: Fn(&str) -> bool,
    A: Fn(&str) -> Result<String, PathError>,
    D: FnOnce() -> Result<BuildPlatforms, ErrorChain>,
>(target: TargetArgs, cwd: Seq<char>, has_file: F, absolute: A, detect_platforms: D) -> bool {
    let explicit = crate::text::optional_text(target.project_root);
    &&& target.project_root is None ==> walk_grants(has_file, path_ancestors(cwd))
    &&& forall|start: &str|
        chosen(explicit, cwd, has_file, start@) ==> #[trigger] absolute.requires((start,))
    &&& forall|start: &str, made: Result<String, PathError>, root: String|
        {
            &&& #[trigger] absolute.ensures((start,), made)
            &&& #[trigger] absolute_outcome(start@, made, Ok::<String, ExpectedError>(root))
            &&& chosen(explicit, cwd, has_file, start@)
        } ==> detect_platforms.requires(())
}

/// `context` is what a target comes to, once the directory it is run in is
/// known.
pub open spec fn root_context<
    F: Fn(&str) -> bool,
    A: Fn(&str) -> Result<String, PathError>,
    D: FnOnce() -> Result<BuildPlatforms, ErrorChain>,
>(
    target: TargetArgs,
    cwd: Seq<char>,
    has_file: F,
    absolute: A,
    detect_platforms: D,
    context: Result<Context, ExpectedError>,
) -> bool {
    exists|start: &str, made: Result<String, PathError>, root: Result<String, ExpectedError>|
        {
            &&& #[trigger] absolute.ensures((start,), made)
            &&& #[trigger] absolute_outcome(start@, made, root)
            &&& chosen(crate::text::optional_text(target.project_root), cwd, has_file, start@)
            &&& match root {
                Err(error) => context == Err::<Context, ExpectedError>(error),
                Ok(root) => exists|detected: Result<BuildPlatforms, ErrorChain>| #[trigger]
                    detect_platforms.ensures((), detected) && context_outcome(
                        target,
                        cwd,
                        root,
                        detected,
                        context,
                    ),
            }
        }
}

impl App {
    /// Runs the requested command, returning the process exit code.
    ///
    /// `into_context` resolves a target, and `list` and `run_one` do what the
    /// commands are named after.
    pub fn exec<
        I: FnOnce(TargetArgs) -> Result<Context, ExpectedError>,
        L: FnOnce(&Context) -> Result<(), ExpectedError>,
        R: FnOnce(&Context, &str) -> Result<i32, ExpectedError>,
    >(self, into_context: I, list: L, run_one: R) -> (code: Result<i32, ExpectedError>)
        requires
            into_context.requires((self.command.goal(),)),
            forall|cx: Context|
                #[trigger] into_context.ensures(
                    (self.command.goal(),),
                    Ok::<Context, ExpectedError>(cx),
                ) && self.command is List ==> list.requires((&cx,)),
            forall|cx: Context, name: &str|
                #[trigger] into_context.ensures(
                    (self.command.goal(),),
                    Ok::<Context, ExpectedError>(cx),
                ) && self.command.names(name@) ==> #[trigger] run_one.requires((&cx, name)),
        ensures
            exists|resolved: Result<Context, ExpectedError>|
                {
                    &&& #[trigger] into_context.ensures((self.command.goal(),), resolved)
                    &&& match resolved {
                        Err(error) => code == Err::<i32, ExpectedError>(error),
                        Ok(cx) => match self.command {
                            Command::List { .. } => exists|listed: Result<(), ExpectedError>|
                                {
                                    &&& #[trigger] list.ensures((&cx,), listed)
                                    &&& match listed {
                                        Ok(()) => code == Ok::<i32, ExpectedError>(0),
                                        Err(error) => code == Err::<i32, ExpectedError>(error),
                                    }
                                },
                            Command::Run { test_name, .. } => exists|name: &str|
                                name@ == test_name@ && #[trigger] run_one.ensures((&cx, name), code),
                        },
                    }
                },
    {
        match self.command {
            Command::List { target } => match into_context(target) {
                Ok(cx) => match list(&cx) {
                    Ok(()) => Ok(0),
                    Err(error) => Err(error),
                },
                Err(error) => Err(error),
            },
            Command::Run { target, test_name } => match into_context(target) {
                Ok(cx) => run_one(&cx, test_name.as_str()),
                Err(error) => Err(error),
            },
        }
    }
}

/// A pair is read exactly where something stands before the first `=`, and then it
/// is that and all that stands after; a text without `=` and one that starts with it
/// are told apart.
pub proof fn law_pairs_are_read_at_the_first_equals(text: Seq<char>)
    ensures
        match env_pair(text) {
            Ok((name, value)) => {
                &&& text == name.push('=') + value
                &&& name.len() > 0
                &&& !name.contains('=')
            },
            Err(EnvPairError::MissingEquals) => !text.contains('='),
            Err(EnvPairError::EmptyName) => text.len() > 0 && text[0] == '=',
        },
{
    law_splits_join_back(text, '=');
}

/// A command is about the target it names, and only one that runs a test names a
/// test.
pub proof fn law_commands_are_about_their_target(
    target: TargetArgs,
    test_name: String,
    name: Seq<char>,
)
    ensures
        (Command::List { target }).goal() == target,
        (Command::Run { target, test_name }).goal() == target,
        !(Command::List { target }).names(name),
        (Command::Run { target, test_name }).names(name) <==> name == test_name@,
{
}

/// A target on the command line becomes one binary: of its label and program, with
/// all its arguments in order, in the directory the command runs in.
pub proof fn law_the_command_line_becomes_a_binary(
    target: TargetArgs,
    cwd: Seq<char>,
    project_root: String,
    build_platforms: BuildPlatforms,
    context: Context,
)
    requires
        context_outcome(
            target,
            cwd,
            project_root,
            Ok::<BuildPlatforms, ErrorChain>(build_platforms),
            Ok::<Context, ExpectedError>(context),
        ),
    ensures
        context.label@ == target.label@,
        context.project_root@ == project_root@,
        context.profile_name == target.profile,
        context.config_file == target.config_file,
        context.binaries.binary_list.rust_build_meta.build_platforms == build_platforms,
        context.binaries.binary_list.rust_binaries@.len() == 1,
        ({
            let binary = context.binaries.binary_list.rust_binaries@[0];
            &&& binary.id@ == target.label@
            &&& path_is_absolute(target.program@) ==> binary.path@ == target.program@
            &&& !path_is_absolute(target.program@) ==> binary.path@ == path_join(
                project_root@,
                target.program@,
            )
            &&& binary.invocation.leading_args@ == target.args@
            &&& binary.invocation.cwd matches Some(dir) && dir@ == cwd
        }),
{
    let input = choose|input: TargetInput<'_>| #[trigger]
        describes(input, target, cwd) && list_for(
            seq![input],
            project_root@,
            build_platforms,
            context.binaries,
        );
    law_targets_become_binaries(
        seq![input],
        project_root@,
        build_platforms,
        context.binaries,
        0,
    );
}

/// A variable on the command line is set for the tests, to the value it was given
/// last, and no variable is set that was not given.
pub proof fn law_the_command_line_sets_variables(
    target: TargetArgs,
    cwd: Seq<char>,
    project_root: String,
    build_platforms: BuildPlatforms,
    context: Context,
    name: Seq<char>,
)
    requires
        context_outcome(
            target,
            cwd,
            project_root,
            Ok::<BuildPlatforms, ErrorChain>(build_platforms),
            Ok::<Context, ExpectedError>(context),
        ),
    ensures
        ({
            let env = context.binaries.binary_list.rust_binaries@[0].invocation.env@;
            &&& env.contains_key(name) <==> exists|index: int|
                0 <= index < target.env@.len() && (#[trigger] target.env@[index]).0@ == name
            &&& forall|index: int|
                0 <= index < target.env@.len() && (#[trigger] target.env@[index]).0@ == name && (
                forall|later: int|
                    index < later < target.env@.len() ==> (#[trigger] target.env@[later]).0@
                        != name) ==> env[name] == target.env@[index].1
        }),
{
    let input = choose|input: TargetInput<'_>| #[trigger]
        describes(input, target, cwd) && list_for(
            seq![input],
            project_root@,
            build_platforms,
            context.binaries,
        );
    law_targets_become_binaries(
        seq![input],
        project_root@,
        build_platforms,
        context.binaries,
        0,
    );
    law_the_last_entry_wins(target.env@, name);
}

/// The package of a target on the command line is declared where the command line
/// says.
pub proof fn law_the_command_line_names_the_package(
    target: TargetArgs,
    cwd: Seq<char>,
    project_root: String,
    build_platforms: BuildPlatforms,
    context: Context,
)
    requires
        context_outcome(
            target,
            cwd,
            project_root,
            Ok::<BuildPlatforms, ErrorChain>(build_platforms),
            Ok::<Context, ExpectedError>(context),
        ),
    ensures
        ({
            let packages = packages_in(context.binaries.packages);
            let path = target.package_path@;
            &&& packages.contains_key(target.label@)
            &&& path.len() == 0 ==> packages[target.label@].manifest_path == path_join(
                project_root@,
                "BUCK"@,
            )
            &&& path.len() > 0 ==> packages[target.label@].manifest_path == path_join(
                path_join(project_root@, path),
                "BUCK"@,
            )
        }),
{
    let input = choose|input: TargetInput<'_>| #[trigger]
        describes(input, target, cwd) && list_for(
            seq![input],
            project_root@,
            build_platforms,
            context.binaries,
        );
    law_packages_say_where_targets_are(
        seq![input],
        project_root@,
        build_platforms,
        context.binaries,
        0,
    );
}

/// Where the platforms cannot be found, that is what a command fails with.
pub proof fn law_unknown_platforms_are_reported(
    target: TargetArgs,
    cwd: Seq<char>,
    project_root: String,
    error: ErrorChain,
    context: Result<Context, ExpectedError>,
)
    requires
        context_outcome(
            target,
            cwd,
            project_root,
            Err::<BuildPlatforms, ErrorChain>(error),
            context,
        ),
    ensures
        context == Err::<Context, ExpectedError>(
            ExpectedError::HostPlatformDetectError { error },
        ),
{
}

/// A root named on the command line is the one that is made absolute, and what that
/// gives is the root of the context.
pub proof fn law_a_named_root_is_taken<
    F: Fn(&str) -> bool,
    A: Fn(&str) -> Result<String, PathError>,
    D: FnOnce() -> Result<BuildPlatforms, ErrorChain>,
>(
    target: TargetArgs,
    cwd: Seq<char>,
    has_file: F,
    absolute: A,
    detect_platforms: D,
    context: Result<Context, ExpectedError>,
)
    requires
        root_context(target, cwd, has_file, absolute, detect_platforms, context),
        target.project_root is Some,
    ensures
        exists|start: &str, made: Result<String, PathError>|
            {
                &&& #[trigger] absolute.ensures((start,), made)
                &&& start@ == target.project_root->0@
                &&& made is Err ==> context is Err
                &&& context matches Ok(context) ==> made == Ok::<String, PathError>(
                    context.project_root,
                )
            },
{
    let (start, made, root) = choose|
        start: &str,
        made: Result<String, PathError>,
        root: Result<String, ExpectedError>,
    |
        {
            &&& #[trigger] absolute.ensures((start,), made)
            &&& #[trigger] absolute_outcome(start@, made, root)
            &&& chosen(crate::text::optional_text(target.project_root), cwd, has_file, start@)
            &&& match root {
                Err(error) => context == Err::<Context, ExpectedError>(error),
                Ok(root) => exists|detected: Result<BuildPlatforms, ErrorChain>| #[trigger]
                    detect_platforms.ensures((), detected) && context_outcome(
                        target,
                        cwd,
                        root,
                        detected,
                        context,
                    ),
            }
        };
    assert(absolute.ensures((start,), made));
}

/// With a root named on the command line no files need be there to be looked at:
/// making that root absolute and detecting platforms is all that is asked for.
pub proof fn law_named_roots_look_at_no_files<
    F: Fn(&str) -> bool,
    A: Fn(&str) -> Result<String, PathError>,
    D: FnOnce() -> Result<BuildPlatforms, ErrorChain>,
>(target: TargetArgs, cwd: Seq<char>, has_file: F, absolute: A, detect_platforms: D)
    requires
        target.project_root is Some,
        forall|start: &str|
            start@ == target.project_root->0@ ==> #[trigger] absolute.requires((start,)),
        detect_platforms.requires(()),
    ensures
        root_grants(target, cwd, has_file, absolute, detect_platforms),
{
}

} // verus!
