//! Turning Buck2's specs into targets nextest can run.
//!
//! A spec's command and environment are not directly runnable: Buck2 may send
//! opaque handles in place of values that are expensive or awkward to
//! serialise, and it does not say in the spec where the test should run. The
//! `PrepareForLocalExecution` call resolves all three -- it takes the spec's
//! values back, handles and all, and returns a full argument vector, a working
//! directory, and a verbatim environment.

use crate::errors::ExpectedError;
use crate::executor::spec::{
    label_text, law_labels_name_their_targets, Buck2TestTarget, ConfiguredTarget,
    ConfiguredTargetHandle, ExternalRunnerSpec, ExternalRunnerSpecValue, SUPPORTED_TEST_TYPE,
};
use crate::paths::{
    self, path_ancestors, path_components, path_file_name, path_is_absolute,
};
use crate::string_map::{entries_map, law_the_last_entry_wins, StringMap};
use crate::text::{optional_text, same_text, texts};
use vstd::prelude::*;

verus! {

/// What an argument is made of.
#[derive(Debug, Eq, PartialEq)]
pub enum ArgContent {
    /// A value out of a spec, handles and all.
    SpecValue(ExternalRunnerSpecValue),
}

/// An argument, as it is sent.
#[derive(Debug, Eq, PartialEq)]
pub struct ArgValue {
    /// What the argument is made of.
    pub content: Option<ArgContent>,

    /// How to format it, if not plainly.
    pub format: Option<String>,
}

/// An environment variable, as it is sent.
#[derive(Debug, Eq, PartialEq)]
pub struct EnvironmentVariable {
    /// The variable.
    pub key: String,

    /// Its value.
    pub value: Option<ArgValue>,
}

/// What a command is going to be run for.
#[derive(Debug, Eq, PartialEq)]
pub enum TestStage {
    /// To list tests.
    Listing {
        /// The suite the tests are in.
        suite: String,

        /// Whether Buck2 may keep the listing.
        cacheable: bool,
    },
}

/// What Buck2 is asked to resolve.
#[derive(Debug, Eq, PartialEq)]
pub struct PrepareForLocalExecutionRequest {
    /// What the command is going to be run for.
    pub stage: Option<TestStage>,

    /// The target it belongs to.
    pub target: Option<ConfiguredTargetHandle>,

    /// The command.
    pub cmd: Vec<ArgValue>,

    /// Directories to create first.
    pub pre_create_dirs: Vec<String>,

    /// The environment.
    pub env: Vec<EnvironmentVariable>,

    /// Resources that have to be at hand.
    pub required_local_resources: Vec<String>,
}

/// What Buck2 resolved it to.
#[derive(Debug, Eq, PartialEq)]
pub struct PrepareForLocalExecutionResult {
    /// The command, in full.
    pub cmd: Vec<String>,

    /// The directory to run in, empty if Buck2 does not say.
    pub cwd: String,

    /// The environment, verbatim.
    pub env: Vec<(String, String)>,
}

/// Buck2's answer.
#[derive(Debug, Eq, PartialEq)]
pub struct PrepareForLocalExecutionResponse {
    /// What Buck2 resolved the request to.
    pub result: Option<PrepareForLocalExecutionResult>,
}

/// A target ready to run, plus what Buck2 said about it that nextest models
/// elsewhere.
///
/// Neither of the extra fields belongs on [`Buck2TestTarget`]: the handle means
/// nothing outside this protocol, and the project root is a property of the
/// session rather than of one target. Both are carried alongside instead.
#[derive(Debug, Eq, PartialEq)]
pub struct PreparedTarget {
    /// The target.
    pub target: Buck2TestTarget,

    /// The handle to report results against.
    pub handle: ConfiguredTargetHandle,

    /// The project root this target implies, if Buck2 said where it runs.
    pub project_root: Option<String>,
}

/// Wraps a spec value as an argument, leaving handles for Buck2 to resolve.
pub fn spec_arg(value: ExternalRunnerSpecValue) -> (arg: ArgValue)
    ensures
        arg == (ArgValue { content: Some(ArgContent::SpecValue(value)), format: None }),
{
    ArgValue { content: Some(ArgContent::SpecValue(value)), format: None }
}

/// The names of directories, innermost first, end in `components`.
pub open spec fn ends_in(
    names: Seq<Option<Seq<char>>>,
    components: Seq<Seq<char>>,
) -> bool {
    &&& components.len() <= names.len()
    &&& forall|index: int|
        0 <= index < components.len() ==> #[trigger] names[index] == Some(
            components[components.len() - 1 - index],
        )
}

/// The texts of some optional names.
pub open spec fn name_texts(names: Seq<Option<String>>) -> Seq<Option<Seq<char>>> {
    names.map_values(|name: Option<String>| optional_text(name))
}

/// Returns whether the names of directories, innermost first, end in
/// `components`.
///
/// Only whole names count: a textual suffix would match half a directory name.
pub fn names_end_in(names: &Vec<Option<String>>, components: &Vec<String>) -> (suffix: bool)
    ensures
        suffix == ends_in(name_texts(names@), texts(components@)),
{
    let count: usize = components.len();
    if count > names.len() {
        return false;
    }
    let mut index: usize = 0;
    while index < count
        invariant
            index <= count,
            count == components.len(),
            count <= names.len(),
            forall|earlier: int|
                0 <= earlier < index ==> #[trigger] name_texts(names@)[earlier] == Some(
                    texts(components@)[count - 1 - earlier],
                ),
        decreases count - index,
    {
        let matched = match &names[index] {
            Some(name) => same_text(name.as_str(), components[count - 1 - index].as_str()),
            None => false,
        };
        assert(name_texts(names@)[index as int] == optional_text(names@[index as int]));
        assert(texts(components@)[count - 1 - index] == components@[count - 1 - index]@);
        if !matched {
            return false;
        }
        index += 1;
    }
    true
}

/// The file name of each of some directories.
pub open spec fn file_names(dirs: Seq<Seq<char>>) -> Seq<Option<Seq<char>>> {
    dirs.map_values(|dir: Seq<char>| path_file_name(dir))
}

/// The project root that a directory and the package path of a target that runs
/// there imply.
pub open spec fn implied_root(cwd: Seq<char>, package_path: Seq<char>) -> Option<Seq<char>> {
    let dirs = path_ancestors(cwd);
    let components = path_components(package_path);
    if !path_is_absolute(cwd) {
        None
    } else if components.len() < dirs.len() && ends_in(file_names(dirs), components) {
        Some(dirs[components.len() as int])
    } else {
        Some(cwd)
    }
}

/// Works out the project root from where Buck2 says a target runs.
///
/// Buck2 does not name the project root on the executor's command line, and
/// nothing else in the protocol states it outright. What every target does carry
/// is a working directory -- which is either the project root or the target's own
/// package directory inside it, depending on the target's
/// `run_from_project_root` -- along with that package's path relative to the
/// root. Removing the second from the first covers both cases: the prelude's
/// `rust_test` runs from the project root, where the package path is not a
/// suffix and nothing is removed.
///
/// This is why the root is taken from Buck2 rather than from the process's own
/// working directory, which is Buck2's output directory rather than the project.
///
/// A project root that happens to end with the same names as one of its own
/// package paths has them removed when it should not be. Every target is asked
/// and a disagreement is reported rather than acted on, which catches that
/// whenever another target implies the true root.
///
/// Returns `None` for a working directory that is not absolute, since a root
/// derived from one would be no better than the relative path it came from.
pub fn project_root_from(cwd: &str, package_path: &str) -> (root: Option<String>)
    ensures
        optional_text(root) == implied_root(cwd@, package_path@),
        root matches Some(root) ==> path_ancestors(cwd@).contains(root@),
{
    if !paths::is_absolute(cwd) {
        return None;
    }

    let dirs: Vec<String> = paths::ancestors(cwd);
    let components: Vec<String> = paths::components(package_path);
    let mut names: Vec<Option<String>> = Vec::new();
    let mut index: usize = 0;
    while index < dirs.len()
        invariant
            index <= dirs.len(),
            name_texts(names@) == file_names(texts(dirs@.subrange(0, index as int))),
        decreases dirs.len() - index,
    {
        let ghost before = names@;
        names.push(paths::file_name(dirs[index].as_str()));
        proof {
            let next = dirs@.subrange(0, index + 1);
            assert(next =~= dirs@.subrange(0, index as int).push(dirs@[index as int]));
            assert(name_texts(names@) =~= name_texts(before).push(
                path_file_name(dirs@[index as int]@),
            ));
            assert(file_names(texts(next)) =~= file_names(
                texts(dirs@.subrange(0, index as int)),
            ).push(path_file_name(dirs@[index as int]@)));
        }
        index += 1;
    }
    assert(dirs@.subrange(0, index as int) =~= dirs@);

    assert(texts(dirs@) == path_ancestors(cwd@));
    assert(texts(dirs@)[0] == cwd@);
    if components.len() < dirs.len() && names_end_in(&names, &components) {
        assert(texts(dirs@)[components@.len() as int] == dirs@[components@.len() as int]@);
        Some(dirs[components.len()].clone())
    } else {
        // The package path is not where this target runs, so the working
        // directory is the project root itself.
        Some(cwd.to_owned())
    }
}

/// A target whose command Buck2 has yet to resolve.
#[derive(Debug, Eq, PartialEq)]
pub struct PendingTarget {
    /// The target's label.
    pub label: String,

    /// The target.
    pub target: ConfiguredTarget,

    /// The handle to report results against.
    pub handle: ConfiguredTargetHandle,

    /// The package's path relative to the project root.
    pub package_path: String,
}

/// The label of the target a spec is about.
pub open spec fn spec_label(spec: ExternalRunnerSpec) -> Seq<char> {
    match spec.target {
        Some(target) => label_text(target.cell@, target.package@, target.target@),
        None => "<unknown>"@,
    }
}

/// `error` says that the given field of a message is missing.
pub open spec fn missing_field(error: ExpectedError, field: Seq<char>, label: Seq<char>) -> bool {
    &&& error matches ExpectedError::SpecMissingField { field: missing, label: target }
    &&& missing@ == field
    &&& target@ == label
}

/// The arguments that some spec values are sent back as.
pub open spec fn spec_args(values: Seq<ExternalRunnerSpecValue>) -> Seq<ArgValue> {
    values.map_values(
        |value: ExternalRunnerSpecValue|
            ArgValue { content: Some(ArgContent::SpecValue(value)), format: None },
    )
}

/// The environment variables that some spec values are sent back as.
pub open spec fn spec_env(values: Seq<(String, ExternalRunnerSpecValue)>) -> Seq<
    EnvironmentVariable,
> {
    values.map_values(
        |entry: (String, ExternalRunnerSpecValue)|
            EnvironmentVariable {
                key: entry.0,
                value: Some(
                    ArgValue { content: Some(ArgContent::SpecValue(entry.1)), format: None },
                ),
            },
    )
}

/// `request` asks Buck2 to resolve a spec's command and environment.
pub open spec fn asks_to_resolve(
    request: PrepareForLocalExecutionRequest,
    spec: ExternalRunnerSpec,
    handle: ConfiguredTargetHandle,
) -> bool {
    &&& request.stage matches Some(TestStage::Listing { suite, cacheable })
    &&& suite@ == spec_label(spec)
    &&& !cacheable
    &&& request.target == Some(handle)
    &&& request.cmd@ == spec_args(spec.command@)
    &&& request.pre_create_dirs@ == Seq::<String>::empty()
    &&& request.env@ == spec_env(spec.env@)
    &&& request.required_local_resources@ == Seq::<String>::empty()
}

/// `pending` holds what is known of a spec's target.
pub open spec fn pending_for(
    pending: PendingTarget,
    spec: ExternalRunnerSpec,
    handle: ConfiguredTargetHandle,
) -> bool {
    &&& spec.target matches Some(target)
    &&& pending.label@ == spec_label(spec)
    &&& pending.target.cell == target.cell
    &&& pending.target.package == target.package
    &&& pending.target.target == target.target
    &&& pending.target.configuration == if target.configuration@.len() == 0 {
        None
    } else {
        Some(target.configuration)
    }
    &&& pending.handle == handle
    &&& pending.package_path == target.package_project_relative_path
}

/// What a spec is, as far as asking Buck2 about it goes.
pub enum SpecVerdict {
    /// It does not say what target it is about.
    NoTarget,

    /// Its tests are of another type.
    OtherType,

    /// It does not say what Buck2 calls the target.
    NoHandle,

    /// Buck2 can be asked, about the target with this handle.
    Usable {
        /// The handle.
        handle: ConfiguredTargetHandle,
    },
}

/// What is made of a spec, looking first for the target, then at the type of
/// its tests, and last for the handle.
pub open spec fn verdict(spec: ExternalRunnerSpec) -> SpecVerdict {
    match spec.target {
        None => SpecVerdict::NoTarget,
        Some(target) => if spec.test_type@ != SUPPORTED_TEST_TYPE@ {
            SpecVerdict::OtherType
        } else {
            match target.handle {
                None => SpecVerdict::NoHandle,
                Some(handle) => SpecVerdict::Usable { handle },
            }
        },
    }
}

/// `error` says why a spec cannot be used.
pub open spec fn unusable(error: ExpectedError, spec: ExternalRunnerSpec) -> bool {
    match verdict(spec) {
        SpecVerdict::NoTarget => missing_field(error, "target"@, "<unknown>"@),
        SpecVerdict::OtherType => {
            &&& error matches ExpectedError::UnsupportedTestType { label, test_type }
            &&& label@ == spec_label(spec)
            &&& test_type == spec.test_type
        },
        SpecVerdict::NoHandle => missing_field(error, "target.handle"@, spec_label(spec)),
        SpecVerdict::Usable { .. } => false,
    }
}

/// Turns spec values into arguments.
fn wrap_command(command: Vec<ExternalRunnerSpecValue>) -> (cmd: Vec<ArgValue>)
    ensures
        cmd@ == spec_args(command@),
{
    let mut cmd: Vec<ArgValue> = Vec::new();
    for value in iter: command
        invariant
            iter.seq() == command@,
            cmd@ == spec_args(command@.subrange(0, iter.index())),
    {
        proof {
            assert(command@.subrange(0, iter.index() + 1) =~= command@.subrange(
                0,
                iter.index(),
            ).push(value));
        }
        cmd.push(spec_arg(value));
    }
    assert(command@.subrange(0, command@.len() as int) =~= command@);
    cmd
}

/// Turns a spec's environment into variables.
fn wrap_env(env: Vec<(String, ExternalRunnerSpecValue)>) -> (vars: Vec<EnvironmentVariable>)
    ensures
        vars@ == spec_env(env@),
{
    let mut vars: Vec<EnvironmentVariable> = Vec::new();
    for entry in iter: env
        invariant
            iter.seq() == env@,
            vars@ == spec_env(env@.subrange(0, iter.index())),
    {
        proof {
            assert(env@.subrange(0, iter.index() + 1) =~= env@.subrange(0, iter.index()).push(
                entry,
            ));
        }
        let (key, value) = entry;
        vars.push(EnvironmentVariable { key, value: Some(spec_arg(value)) });
    }
    assert(env@.subrange(0, env@.len() as int) =~= env@);
    vars
}

/// Says what to ask Buck2 about a spec, and what to keep for its answer.
///
/// Buck2 uses the stage for bookkeeping; nextest runs the same binary to list
/// and to execute, so it asks once, as a listing.
pub fn prepare_request(spec: ExternalRunnerSpec) -> (asked: Result<
    (PendingTarget, PrepareForLocalExecutionRequest),
    ExpectedError,
>)
    ensures
        match verdict(spec) {
            SpecVerdict::Usable { handle } => {
                &&& asked matches Ok((pending, request))
                &&& pending_for(pending, spec, handle)
                &&& asks_to_resolve(request, spec, handle)
            },
            _ => asked matches Err(error) && unusable(error, spec),
        },
{
    let ExternalRunnerSpec { target, test_type, command, env } = spec;
    let target = match target {
        Some(target) => target,
        None => {
            return Err(
                ExpectedError::SpecMissingField {
                    field: "target".to_owned(),
                    label: "<unknown>".to_owned(),
                },
            );
        },
    };
    let configured = ConfiguredTarget {
        cell: target.cell,
        package: target.package,
        target: target.target,
        configuration: if target.configuration.as_str().is_empty() {
            None
        } else {
            Some(target.configuration)
        },
    };
    let label: String = configured.label();

    if !same_text(test_type.as_str(), SUPPORTED_TEST_TYPE) {
        return Err(ExpectedError::UnsupportedTestType { label, test_type });
    }
    let handle = match target.handle {
        Some(handle) => handle,
        None => {
            return Err(
                ExpectedError::SpecMissingField { field: "target.handle".to_owned(), label },
            );
        },
    };

    let request = PrepareForLocalExecutionRequest {
        stage: Some(TestStage::Listing { suite: label.clone(), cacheable: false }),
        target: Some(handle),
        cmd: wrap_command(command),
        pre_create_dirs: Vec::new(),
        env: wrap_env(env),
        required_local_resources: Vec::new(),
    };
    let pending = PendingTarget {
        label,
        target: configured,
        handle,
        package_path: target.package_project_relative_path,
    };
    Ok((pending, request))
}

/// `prepared` is what a target comes to, given what Buck2 resolved its command
/// to.
pub open spec fn resolved_to(
    prepared: PreparedTarget,
    pending: PendingTarget,
    result: PrepareForLocalExecutionResult,
) -> bool {
    &&& result.cmd@.len() > 0
    &&& prepared.target.label == pending.label
    &&& prepared.target.target == pending.target
    &&& prepared.target.program == result.cmd@[0]
    &&& prepared.target.leading_args@ == result.cmd@.drop_first()
    &&& prepared.target.env@ == entries_map(result.env@)
    &&& prepared.target.cwd == if result.cwd@.len() == 0 {
        None
    } else {
        Some(result.cwd)
    }
    &&& prepared.handle == pending.handle
    &&& optional_text(prepared.project_root) == if result.cwd@.len() == 0 {
        None
    } else {
        implied_root(result.cwd@, pending.package_path@)
    }
}

/// `prepared` is what a target comes to, given Buck2's answer.
pub open spec fn prepared_outcome(
    pending: PendingTarget,
    answer: Result<PrepareForLocalExecutionResponse, tonic::Status>,
    prepared: Result<PreparedTarget, ExpectedError>,
) -> bool {
    match answer {
        Err(refusal) => {
            &&& prepared matches Err(ExpectedError::PrepareForLocalExecutionError {
                label,
                status,
            })
            &&& label == pending.label
            &&& status == refusal
        },
        Ok(response) => match response.result {
            None => prepared matches Err(error) && missing_field(
                error,
                "PrepareForLocalExecutionResponse.result"@,
                pending.label@,
            ),
            Some(result) => if result.cmd@.len() == 0 {
                &&& prepared matches Err(ExpectedError::EmptyCommand { label })
                &&& label == pending.label
            } else {
                prepared matches Ok(target) && resolved_to(target, pending, result)
            },
        },
    }
}

/// Makes of Buck2's answer a target that is ready to run.
pub fn finish_prepare(
    pending: PendingTarget,
    answer: Result<PrepareForLocalExecutionResponse, tonic::Status>,
) -> (prepared: Result<PreparedTarget, ExpectedError>)
    ensures
        prepared_outcome(pending, answer, prepared),
{
    let PendingTarget { label, target, handle, package_path } = pending;
    let result = match answer {
        Err(status) => {
            return Err(ExpectedError::PrepareForLocalExecutionError { label, status });
        },
        Ok(response) => match response.result {
            Some(result) => result,
            None => {
                return Err(
                    ExpectedError::SpecMissingField {
                        field: "PrepareForLocalExecutionResponse.result".to_owned(),
                        label,
                    },
                );
            },
        },
    };

    let mut cmd: Vec<String> = result.cmd;
    if cmd.len() == 0 {
        return Err(ExpectedError::EmptyCommand { label });
    }
    let program: String = cmd.remove(0);
    assert(cmd@ =~= result.cmd@.drop_first());

    // Buck2 is authoritative about where a test runs, so an empty string means
    // "it did not say" rather than "the filesystem root".
    let (cwd, project_root) = if result.cwd.as_str().is_empty() {
        (None, None)
    } else {
        let project_root = project_root_from(result.cwd.as_str(), package_path.as_str());
        (Some(result.cwd), project_root)
    };

    Ok(
        PreparedTarget {
            target: Buck2TestTarget {
                label,
                target,
                program,
                leading_args: cmd,
                env: StringMap::from_entries(result.env),
                cwd,
            },
            handle,
            project_root,
        },
    )
}

/// `request` is what to ask Buck2 about a spec, which has to be usable.
pub open spec fn may_ask(request: PrepareForLocalExecutionRequest, spec: ExternalRunnerSpec) -> bool {
    verdict(spec) matches SpecVerdict::Usable { handle } && asks_to_resolve(request, spec, handle)
}

/// `prepared` is what a spec comes to, where `ask` asks Buck2.
pub open spec fn prepares<
    Q: FnOnce(PrepareForLocalExecutionRequest) -> Result<
        PrepareForLocalExecutionResponse,
        tonic::Status,
    >,
>(ask: Q, spec: ExternalRunnerSpec, prepared: Result<PreparedTarget, ExpectedError>) -> bool {
    match verdict(spec) {
        SpecVerdict::Usable { handle } => exists|
            pending: PendingTarget,
            request: PrepareForLocalExecutionRequest,
            answer: Result<PrepareForLocalExecutionResponse, tonic::Status>,
        |
            {
                &&& #[trigger] ask.ensures((request,), answer)
                &&& asks_to_resolve(request, spec, handle)
                &&& pending_for(pending, spec, handle)
                &&& #[trigger] prepared_outcome(pending, answer, prepared)
            },
        _ => prepared matches Err(error) && unusable(error, spec),
    }
}

/// Resolves a spec into a runnable target, by asking Buck2 once.
///
/// Buck2 is not asked about a spec that cannot be used.
pub fn prepare_one<
    Q: FnOnce(PrepareForLocalExecutionRequest) -> Result<
        PrepareForLocalExecutionResponse,
        tonic::Status,
    >,
>(ask: Q, spec: ExternalRunnerSpec) -> (prepared: Result<PreparedTarget, ExpectedError>)
    requires
        forall|request: PrepareForLocalExecutionRequest|
            may_ask(request, spec) ==> #[trigger] ask.requires((request,)),
    ensures
        prepares(ask, spec, prepared),
{
    match prepare_request(spec) {
        Ok((pending, request)) => {
            let answer = ask(request);
            finish_prepare(pending, answer)
        },
        Err(error) => Err(error),
    }
}

/// The first of some specs are resolved into `before`.
pub open spec fn resolves<
    Q: Fn(PrepareForLocalExecutionRequest) -> Result<
        PrepareForLocalExecutionResponse,
        tonic::Status,
    >,
>(ask: Q, specs: Seq<ExternalRunnerSpec>, before: Seq<PreparedTarget>) -> bool {
    &&& before.len() <= specs.len()
    &&& forall|index: int|
        0 <= index < before.len() ==> prepares(
            ask,
            specs[index],
            Ok::<PreparedTarget, ExpectedError>(#[trigger] before[index]),
        )
}

/// The specs are resolved into `before`, up to one that is not, because of
/// `error`.
pub open spec fn stops_after<
    Q: Fn(PrepareForLocalExecutionRequest) -> Result<
        PrepareForLocalExecutionResponse,
        tonic::Status,
    >,
>(
    ask: Q,
    specs: Seq<ExternalRunnerSpec>,
    before: Seq<PreparedTarget>,
    error: ExpectedError,
) -> bool {
    &&& before.len() < specs.len()
    &&& resolves(ask, specs, before)
    &&& prepares(ask, specs[before.len() as int], Err::<PreparedTarget, ExpectedError>(error))
}

/// Resolves every spec into a runnable target.
///
/// One round trip per target, in order. Buck2 has the answers in hand by this
/// point -- it built the targets before sending them -- so these are quick, and
/// issuing them in sequence keeps the failure that stops the run attributable
/// to the target that caused it. Buck2 is asked about a spec only once all those
/// before it were resolved.
pub fn prepare_all<
    Q: Fn(PrepareForLocalExecutionRequest) -> Result<
        PrepareForLocalExecutionResponse,
        tonic::Status,
    >,
>(ask: &Q, specs: Vec<ExternalRunnerSpec>) -> (prepared: Result<
    Vec<PreparedTarget>,
    ExpectedError,
>)
    requires
        forall|before: Seq<PreparedTarget>, request: PrepareForLocalExecutionRequest|
            {
                &&& #[trigger] resolves(*ask, specs@, before)
                &&& before.len() < specs@.len()
                &&& may_ask(request, specs@[before.len() as int])
            } ==> #[trigger] ask.requires((request,)),
    ensures
        match prepared {
            Ok(targets) => {
                &&& targets@.len() == specs@.len()
                &&& resolves(*ask, specs@, targets@)
            },
            Err(error) => exists|before: Seq<PreparedTarget>| #[trigger]
                stops_after(*ask, specs@, before, error),
        },
{
    let mut prepared: Vec<PreparedTarget> = Vec::new();
    for spec in iter: specs
        invariant
            iter.seq() == specs@,
            forall|before: Seq<PreparedTarget>, request: PrepareForLocalExecutionRequest|
                {
                    &&& #[trigger] resolves(*ask, specs@, before)
                    &&& before.len() < specs@.len()
                    &&& may_ask(request, specs@[before.len() as int])
                } ==> #[trigger] ask.requires((request,)),
            prepared@.len() == iter.index(),
            resolves(*ask, specs@, prepared@),
    {
        assert(spec == specs@[iter.index()]);
        let ask_once = |request: PrepareForLocalExecutionRequest| -> (answer: Result<
            PrepareForLocalExecutionResponse,
            tonic::Status,
        >)
            requires
                ask.requires((request,)),
            ensures
                ask.ensures((request,), answer),
            { ask(request) };
        match prepare_one(ask_once, spec) {
            Ok(target) => prepared.push(target),
            Err(error) => {
                assert(stops_after(*ask, specs@, prepared@, error));
                return Err(error);
            },
        }
    }
    Ok(prepared)
}

/// A target that runs in its own package's directory implies the directory that
/// package path is relative to; any other implies the directory it runs in.
pub proof fn law_package_path_is_removed(cwd: Seq<char>, package_path: Seq<char>)
    requires
        path_is_absolute(cwd),
    ensures
        ({
            let dirs = path_ancestors(cwd);
            let components = path_components(package_path);
            &&& components.len() < dirs.len() && ends_in(file_names(dirs), components)
                ==> implied_root(cwd, package_path) == Some(dirs[components.len() as int])
            &&& implied_root(cwd, package_path) == Some(cwd) || components.len() < dirs.len() && (
            forall|index: int|
                0 <= index < components.len() ==> path_file_name(#[trigger] dirs[index]) == Some(
                    components[components.len() - 1 - index],
                ))
        }),
{
    let dirs = path_ancestors(cwd);
    let components = path_components(package_path);
    if components.len() < dirs.len() && ends_in(file_names(dirs), components) {
        assert forall|index: int| 0 <= index < components.len() implies path_file_name(
            #[trigger] dirs[index],
        ) == Some(components[components.len() - 1 - index]) by {
            assert(file_names(dirs)[index] == path_file_name(dirs[index]));
        }
    }
}

/// Only whole directory names are removed: where the innermost directory is not
/// called what the package is, the directory stands.
pub proof fn law_only_whole_names_are_removed(cwd: Seq<char>, package_path: Seq<char>)
    requires
        path_is_absolute(cwd),
        path_ancestors(cwd).len() > 0,
        path_components(package_path).len() > 0,
        path_file_name(path_ancestors(cwd)[0]) != Some(path_components(package_path).last()),
    ensures
        implied_root(cwd, package_path) == Some(cwd),
{
    assert(file_names(path_ancestors(cwd))[0] == path_file_name(path_ancestors(cwd)[0]));
}

/// A target that runs in a directory whose innermost names are those of its package
/// path, however many they are, implies the directory above all of them.
pub proof fn law_package_names_lead_to_the_root(cwd: Seq<char>, package_path: Seq<char>)
    requires
        path_is_absolute(cwd),
        path_components(package_path).len() < path_ancestors(cwd).len(),
        forall|index: int|
            0 <= index < path_components(package_path).len() ==> path_file_name(
                #[trigger] path_ancestors(cwd)[index],
            ) == Some(
                path_components(package_path)[path_components(package_path).len() - 1 - index],
            ),
    ensures
        implied_root(cwd, package_path) == Some(
            path_ancestors(cwd)[path_components(package_path).len() as int],
        ),
{
    let dirs = path_ancestors(cwd);
    let components = path_components(package_path);
    assert forall|index: int| 0 <= index < components.len() implies #[trigger] file_names(
        dirs,
    )[index] == Some(components[components.len() - 1 - index]) by {
        assert(file_names(dirs)[index] == path_file_name(dirs[index]));
    }
}

/// A target that runs in a directory one of whose innermost names differs from its
/// package path, or that has too few of them, implies that very directory.
pub proof fn law_other_directories_are_the_root(
    cwd: Seq<char>,
    package_path: Seq<char>,
    index: int,
)
    requires
        path_is_absolute(cwd),
        path_components(package_path).len() >= path_ancestors(cwd).len() || 0 <= index
            < path_components(package_path).len() && path_file_name(path_ancestors(cwd)[index])
            != Some(
            path_components(package_path)[path_components(package_path).len() - 1 - index],
        ),
    ensures
        implied_root(cwd, package_path) == Some(cwd),
{
    let dirs = path_ancestors(cwd);
    if path_components(package_path).len() < dirs.len() {
        assert(file_names(dirs)[index] == path_file_name(dirs[index]));
    }
}

/// A directory that is not absolute implies no root, whatever the package.
pub proof fn law_relative_directories_imply_nothing(cwd: Seq<char>, package_path: Seq<char>)
    ensures
        implied_root(cwd, package_path) is None <==> !path_is_absolute(cwd),
{
}

/// The names of directories end in some components exactly when there are enough of
/// them and each is the component at its place, counted from the innermost.
pub proof fn law_names_are_matched_from_the_inside(
    names: Seq<Option<String>>,
    components: Seq<String>,
)
    ensures
        ends_in(name_texts(names), texts(components)) <==> {
            &&& components.len() <= names.len()
            &&& forall|index: int|
                0 <= index < components.len() ==> ((#[trigger] names[index]) matches Some(name)
                    && name@ == components[components.len() - 1 - index]@)
        },
{
    let wanted = texts(components);
    if components.len() <= names.len() {
        assert forall|index: int| 0 <= index < components.len() implies (name_texts(
            names,
        )[index] == Some(wanted[components.len() - 1 - index]) <==> ((
        #[trigger] names[index]) matches Some(name) && name@ == components[components.len() - 1
            - index]@)) by {
            assert(name_texts(names)[index] == optional_text(names[index]));
            assert(wanted[components.len() - 1 - index] == components[components.len() - 1
                - index]@);
        }
        if ends_in(name_texts(names), wanted) {
            assert forall|index: int| 0 <= index < components.len() implies ((
            #[trigger] names[index]) matches Some(name) && name@ == components[components.len() - 1
                - index]@) by {
                assert(name_texts(names)[index] == Some(wanted[components.len() - 1 - index]));
            }
        }
        if forall|index: int|
            0 <= index < components.len() ==> ((#[trigger] names[index]) matches Some(name)
                && name@ == components[components.len() - 1 - index]@) {
            assert forall|index: int| 0 <= index < wanted.len() implies #[trigger] name_texts(
                names,
            )[index] == Some(wanted[wanted.len() - 1 - index]) by {
                assert(names[index] is Some);
            }
        }
    }
}

/// A spec that does not say what target it is about is refused for that; one that
/// does, but whose tests are of another type, for the type; and one that has no
/// handle for that. Every other spec can be asked about, under its own handle.
pub proof fn law_specs_are_refused_in_order(spec: ExternalRunnerSpec, error: ExpectedError)
    ensures
        match verdict(spec) {
            SpecVerdict::Usable { handle } => {
                &&& spec.target matches Some(target)
                &&& target.handle == Some(handle)
                &&& spec.test_type@ == "rust"@
            },
            _ => spec.target is None || spec.test_type@ != "rust"@ || spec.target->0.handle is None,
        },
        unusable(error, spec) ==> {
            &&& spec.target is None ==> (error matches ExpectedError::SpecMissingField {
                field,
                label,
            } && field@ == "target"@ && label@ == "<unknown>"@)
            &&& spec.target matches Some(target) ==> {
                let named = target.cell@.push('/').push('/') + target.package@.push(':')
                    + target.target@;
                &&& spec.test_type@ != "rust"@ ==> (error
                    matches ExpectedError::UnsupportedTestType { label, test_type } && label@
                    == named && test_type == spec.test_type)
                &&& spec.test_type@ == "rust"@ ==> (error
                    matches ExpectedError::SpecMissingField { field, label } && field@
                    == "target.handle"@ && label@ == named && target.handle is None)
            }
        },
{
    if let Some(target) = spec.target {
        law_labels_name_their_targets(target.cell@, target.package@, target.target@);
    }
}

/// What Buck2 is asked to resolve is every part of the command and every variable
/// of the environment, in order and as it was sent, for the target by its handle.
pub proof fn law_specs_are_sent_back_whole(
    request: PrepareForLocalExecutionRequest,
    spec: ExternalRunnerSpec,
    handle: ConfiguredTargetHandle,
)
    requires
        asks_to_resolve(request, spec, handle),
    ensures
        request.target == Some(handle),
        request.cmd@.len() == spec.command@.len(),
        forall|index: int|
            0 <= index < spec.command@.len() ==> (#[trigger] request.cmd@[index]).content == Some(
                ArgContent::SpecValue(spec.command@[index]),
            ) && request.cmd@[index].format is None,
        request.env@.len() == spec.env@.len(),
        forall|index: int|
            0 <= index < spec.env@.len() ==> {
                &&& (#[trigger] request.env@[index]).key == spec.env@[index].0
                &&& request.env@[index].value matches Some(value)
                &&& value.content == Some(ArgContent::SpecValue(spec.env@[index].1))
                &&& value.format is None
            },
        request.pre_create_dirs@.len() == 0,
        request.required_local_resources@.len() == 0,
        request.stage matches Some(TestStage::Listing { cacheable, .. }) && !cacheable,
        spec.target matches Some(target) ==> (request.stage matches Some(
            TestStage::Listing { suite, .. },
        ) && suite@ == target.cell@.push('/').push('/') + target.package@.push(':')
            + target.target@),
{
    if let Some(target) = spec.target {
        law_labels_name_their_targets(target.cell@, target.package@, target.target@);
    }
}

/// What is kept of a spec while Buck2 is asked is its target, with the label that
/// leaves the configuration out, the handle, and the package's path.
pub proof fn law_targets_are_kept_meanwhile(
    pending: PendingTarget,
    spec: ExternalRunnerSpec,
    handle: ConfiguredTargetHandle,
)
    requires
        pending_for(pending, spec, handle),
    ensures
        spec.target matches Some(target) && {
            &&& pending.label@ == target.cell@.push('/').push('/') + target.package@.push(':')
                + target.target@
            &&& pending.target.cell@ == target.cell@
            &&& pending.target.package@ == target.package@
            &&& pending.target.target@ == target.target@
            &&& target.configuration@.len() == 0 <==> pending.target.configuration is None
            &&& target.configuration@.len() > 0 ==> pending.target.configuration->0@
                == target.configuration@
            &&& pending.handle == handle
            &&& pending.package_path@ == target.package_project_relative_path@
        },
{
    if let Some(target) = spec.target {
        law_labels_name_their_targets(target.cell@, target.package@, target.target@);
    }
}

/// The command that Buck2 resolved is run whole: the program is its first part, and
/// the arguments are all the others, in order.
pub proof fn law_commands_are_run_whole(
    prepared: PreparedTarget,
    pending: PendingTarget,
    result: PrepareForLocalExecutionResult,
)
    requires
        resolved_to(prepared, pending, result),
    ensures
        result.cmd@ == seq![prepared.target.program] + prepared.target.leading_args@,
        prepared.target.label@ == pending.label@,
        prepared.target.target == pending.target,
        prepared.handle == pending.handle,
{
}

/// A target runs with the environment that Buck2 gave for it, a variable given more
/// than once having the value it was last given, and with no others.
pub proof fn law_resolved_variables_are_set(
    prepared: PreparedTarget,
    pending: PendingTarget,
    result: PrepareForLocalExecutionResult,
    index: int,
)
    requires
        resolved_to(prepared, pending, result),
        0 <= index < result.env@.len(),
    ensures
        prepared.target.env@.contains_key(result.env@[index].0@),
        (forall|later: int|
            index < later < result.env@.len() ==> (#[trigger] result.env@[later]).0@
                != result.env@[index].0@) ==> prepared.target.env@[result.env@[index].0@]
            == result.env@[index].1,
        forall|name: Seq<char>| #[trigger]
            prepared.target.env@.contains_key(name) ==> exists|at: int|
                0 <= at < result.env@.len() && (#[trigger] result.env@[at]).0@ == name,
{
    law_the_last_entry_wins(result.env@, result.env@[index].0@);
    assert forall|name: Seq<char>| #[trigger]
        prepared.target.env@.contains_key(name) implies exists|at: int|
        0 <= at < result.env@.len() && (#[trigger] result.env@[at]).0@ == name by {
        law_the_last_entry_wins(result.env@, name);
    }
}

/// A target runs where Buck2 says, and implies a root from there; where Buck2 does
/// not say, it is given no directory and implies nothing.
pub proof fn law_directories_are_buck2s_to_name(
    prepared: PreparedTarget,
    pending: PendingTarget,
    result: PrepareForLocalExecutionResult,
)
    requires
        resolved_to(prepared, pending, result),
    ensures
        result.cwd@.len() == 0 ==> prepared.target.cwd is None && prepared.project_root is None,
        result.cwd@.len() > 0 ==> {
            &&& prepared.target.cwd matches Some(cwd) && cwd@ == result.cwd@
            &&& prepared.project_root is Some <==> path_is_absolute(result.cwd@)
            &&& prepared.project_root matches Some(root) ==> implied_root(
                result.cwd@,
                pending.package_path@,
            ) == Some(root@)
        },
{
}

/// A target is ready to run exactly when Buck2 answered with a command that has a
/// program in it; every other answer is an error that names the target.
pub proof fn law_answers_make_targets_or_errors(
    pending: PendingTarget,
    answer: Result<PrepareForLocalExecutionResponse, tonic::Status>,
    prepared: Result<PreparedTarget, ExpectedError>,
)
    requires
        prepared_outcome(pending, answer, prepared),
    ensures
        prepared is Ok <==> (answer matches Ok(response) && response.result is Some
            && response.result->0.cmd@.len() > 0),
        prepared matches Ok(target) ==> seq![target.target.program] + target.target.leading_args@
            == answer->Ok_0.result->0.cmd@,
        answer matches Err(refusal) ==> (prepared matches Err(
            ExpectedError::PrepareForLocalExecutionError { label, status },
        ) && label@ == pending.label@ && status == refusal),
        answer matches Ok(response) ==> (response.result is None ==> (prepared matches Err(
            ExpectedError::SpecMissingField { field, label },
        ) && label@ == pending.label@ && field@ == "PrepareForLocalExecutionResponse.result"@)),
        answer matches Ok(response) ==> (response.result is Some
            && response.result->0.cmd@.len() == 0 ==> (prepared matches Err(
            ExpectedError::EmptyCommand { label },
        ) && label@ == pending.label@)),
{
}

/// A spec that comes to a target was asked about, under its own handle; the target
/// is the spec's, runs the whole command that came back, and is reported against
/// that handle.
pub proof fn law_prepared_targets_are_as_answered<
    Q: FnOnce(PrepareForLocalExecutionRequest) -> Result<
        PrepareForLocalExecutionResponse,
        tonic::Status,
    >,
>(ask: Q, spec: ExternalRunnerSpec, prepared: PreparedTarget)
    requires
        prepares(ask, spec, Ok::<PreparedTarget, ExpectedError>(prepared)),
    ensures
        spec.target is Some,
        spec.test_type@ == "rust"@,
        spec.target->0.handle == Some(prepared.handle),
        prepared.target.label@ == spec.target->0.cell@.push('/').push('/')
            + spec.target->0.package@.push(':') + spec.target->0.target@,
        prepared.target.target.package@ == spec.target->0.package@,
        exists|
            request: PrepareForLocalExecutionRequest,
            answer: Result<PrepareForLocalExecutionResponse, tonic::Status>,
        |
            {
                &&& #[trigger] ask.ensures((request,), answer)
                &&& request.target == Some(prepared.handle)
                &&& request.cmd@.len() == spec.command@.len()
                &&& answer is Ok
                &&& answer->Ok_0.result is Some
                &&& answer->Ok_0.result->0.cmd@ == seq![prepared.target.program]
                    + prepared.target.leading_args@
            },
{
    if let SpecVerdict::Usable { handle } = verdict(spec) {
        let (pending, request, answer) = choose|
            pending: PendingTarget,
            request: PrepareForLocalExecutionRequest,
            answer: Result<PrepareForLocalExecutionResponse, tonic::Status>,
        |
            {
                &&& #[trigger] ask.ensures((request,), answer)
                &&& asks_to_resolve(request, spec, handle)
                &&& pending_for(pending, spec, handle)
                &&& #[trigger] prepared_outcome(
                    pending,
                    answer,
                    Ok::<PreparedTarget, ExpectedError>(prepared),
                )
            };
        assert(ask.ensures((request,), answer));
        law_specs_are_sent_back_whole(request, spec, handle);
        law_targets_are_kept_meanwhile(pending, spec, handle);
        law_answers_make_targets_or_errors(
            pending,
            answer,
            Ok::<PreparedTarget, ExpectedError>(prepared),
        );
    }
}

/// A spec that cannot be used comes to no target, whatever Buck2 would have
/// answered.
pub proof fn law_unusable_specs_come_to_nothing<
    Q: FnOnce(PrepareForLocalExecutionRequest) -> Result<
        PrepareForLocalExecutionResponse,
        tonic::Status,
    >,
>(ask: Q, spec: ExternalRunnerSpec, prepared: Result<PreparedTarget, ExpectedError>)
    requires
        prepares(ask, spec, prepared),
        spec.target is None || spec.test_type@ != "rust"@ || spec.target->0.handle is None,
    ensures
        prepared matches Err(error) && unusable(error, spec),
{
}

/// Buck2 may be asked exactly about specs of this runner's type that name a target
/// and its handle, and then under that handle.
pub proof fn law_only_usable_specs_are_asked_about(
    request: PrepareForLocalExecutionRequest,
    spec: ExternalRunnerSpec,
)
    ensures
        may_ask(request, spec) <==> {
            &&& spec.target is Some
            &&& spec.test_type@ == "rust"@
            &&& spec.target->0.handle is Some
            &&& asks_to_resolve(request, spec, spec.target->0.handle->0)
        },
{
}

/// What specs are resolved into keeps their order: each target is that of the spec at
/// its place, and is reported against its handle.
pub proof fn law_specs_are_resolved_in_order<
    Q: Fn(PrepareForLocalExecutionRequest) -> Result<
        PrepareForLocalExecutionResponse,
        tonic::Status,
    >,
>(ask: Q, specs: Seq<ExternalRunnerSpec>, before: Seq<PreparedTarget>, index: int)
    requires
        resolves(ask, specs, before),
        0 <= index < before.len(),
    ensures
        before.len() <= specs.len(),
        specs[index].target is Some,
        specs[index].target->0.handle == Some(before[index].handle),
        before[index].target.label@ == specs[index].target->0.cell@.push('/').push('/')
            + specs[index].target->0.package@.push(':') + specs[index].target->0.target@,
{
    assert(prepares(ask, specs[index], Ok::<PreparedTarget, ExpectedError>(before[index])));
    law_prepared_targets_are_as_answered(ask, specs[index], before[index]);
}

/// Resolving stops at the first spec that comes to an error: every one before it came
/// to a target, and the error is its own.
pub proof fn law_resolving_stops_at_the_first_error<
    Q: Fn(PrepareForLocalExecutionRequest) -> Result<
        PrepareForLocalExecutionResponse,
        tonic::Status,
    >,
>(ask: Q, specs: Seq<ExternalRunnerSpec>, before: Seq<PreparedTarget>, error: ExpectedError)
    requires
        stops_after(ask, specs, before, error),
    ensures
        before.len() < specs.len(),
        forall|index: int|
            0 <= index < before.len() ==> prepares(
                ask,
                specs[index],
                Ok::<PreparedTarget, ExpectedError>(#[trigger] before[index]),
            ),
        ({
            let spec = specs[before.len() as int];
            &&& spec.target is None || spec.test_type@ != "rust"@ || spec.target->0.handle is None
                ==> unusable(error, spec)
            &&& !(spec.target is None || spec.test_type@ != "rust"@
                || spec.target->0.handle is None) ==> error is PrepareForLocalExecutionError
                || error is SpecMissingField || error is EmptyCommand
        }),
{
}

} // verus!
