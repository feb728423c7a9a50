//! Converting a Buck2 test target into nextest's types.
//!
//! Nextest models a test suite as a binary belonging to a package, which is a
//! Cargo shape. Buck2's equivalent is a configured target label, so the target
//! becomes both a [`RustTestBinary`] and the [`PackageInfo`] it refers to.
//!
//! Buck2's internal runner works one target at a time -- each action it runs
//! covers a single test binary -- so unlike a whole-run integration, there is
//! exactly one of each to build for it.

use crate::binaries::{
    self, BinaryList, BuildPlatform, BuildPlatforms, RustBuildMeta, RustTestBinary,
    TestBinaryInvocation,
};
use crate::errors::ExpectedError;
use crate::package_info::{
    insert_package, new_packages, packages_in, release, PackageInfo, PackageInfoView, Version,
};
use crate::paths::{self, path_is_absolute, path_join};
use crate::session::errors::ErrorChain;
use crate::string_map::StringMap;
use crate::text::{
    after_last, copy_texts, law_nothing_is_lost_before_the_last_mark, optional_text,
    text_after_last, texts,
};
use iddqd::IdOrdMap;
use vstd::prelude::*;

verus! {

/// The name Buck2 uses for its build files.
///
/// `PackageInfo::manifest_path` points at the file the target was declared in,
/// the way a Cargo package's manifest path points at its `Cargo.toml`.
pub const BUCK_FILE_NAME: &'static str = "BUCK";

/// The one test target this invocation is about, as the rule described it.
#[derive(Clone, Copy, Debug)]
pub struct TargetInput<'a> {
    /// The target's label, e.g. `root//app/tests:zebra`.
    pub label: &'a str,

    /// The target's package path within the project, e.g. `app/tests`.
    ///
    /// Empty for a target in the root package.
    pub package_path: &'a str,

    /// The test binary to run.
    pub program: &'a str,

    /// Arguments that belong before nextest's own, from the harness command.
    pub leading_args: &'a Vec<String>,

    /// The environment the target's tests need.
    ///
    /// This is data rather than part of this process's own environment, so that
    /// a target describes what its test needs instead of reconfiguring the
    /// runner.
    pub env: &'a StringMap<String>,

    /// The directory the test runs in, if Buck2 said.
    ///
    /// Under the internal runner this is the directory Buck2 ran the action in.
    pub cwd: Option<&'a str>,
}

/// A [`BinaryList`] plus the packages its binaries refer to.
///
/// The two travel together because building test artifacts looks packages up by
/// ID.
#[derive(Debug)]
pub struct Buck2BinaryList {
    /// The binaries to list or run.
    pub binary_list: BinaryList,

    /// The package each binary belongs to, keyed by the target label.
    pub packages: IdOrdMap<PackageInfo>,
}

/// Returns the bare target name from a label.
///
/// A Buck2 label is `cell//package:name`, so the name is whatever follows the
/// last colon. A label without one is not something Buck2 produces; treating
/// the whole string as the name keeps this total rather than fallible, since
/// nothing downstream is harmed by a name that is merely unusual.
pub fn target_name(label: &str) -> (name: &str)
    ensures
        name@ == after_last(label@, ':'),
{
    text_after_last(label, ':')
}

/// The directory of a package, given its path within the project.
pub open spec fn package_dir_of(project_root: Seq<char>, package: Seq<char>) -> Seq<char> {
    if package.len() == 0 {
        project_root
    } else {
        path_join(project_root, package)
    }
}

/// Returns the directory a Buck2 package lives in.
///
/// The root package's path is the empty string. Joining that on would leave a
/// trailing separator, which is harmless to run in but shows up verbatim in
/// nextest's output, so it is special-cased.
pub fn package_dir(project_root: &str, package: &str) -> (dir: String)
    ensures
        dir@ == package_dir_of(project_root@, package@),
{
    if package.is_empty() {
        project_root.to_owned()
    } else {
        paths::join(project_root, package)
    }
}

/// A program's path, where a relative one is taken from the project root.
pub open spec fn resolved(project_root: Seq<char>, path: Seq<char>) -> Seq<char> {
    if path_is_absolute(path) {
        path
    } else {
        path_join(project_root, path)
    }
}

/// Resolves a possibly-relative program path against the project root.
pub fn resolve_path(project_root: &str, path: &str) -> (program: String)
    ensures
        program@ == resolved(project_root@, path@),
{
    if paths::is_absolute(path) {
        path.to_owned()
    } else {
        paths::join(project_root, path)
    }
}

/// `binary` is what a target becomes.
pub open spec fn binary_for(
    input: TargetInput<'_>,
    project_root: Seq<char>,
    binary: RustTestBinary,
) -> bool {
    &&& binary.id@ == input.label@
    &&& binary.path@ == resolved(project_root, input.program@)
    &&& binary.package_id@ == input.label@
    &&& binary.kind@ == "test"@
    &&& binary.name@ == after_last(input.label@, ':')
    &&& binary.build_platform == BuildPlatform::Target
    &&& binary.invocation.leading_args@ == input.leading_args@
    &&& binary.invocation.env@ == input.env@
    &&& optional_text(binary.invocation.cwd) == match input.cwd {
        Some(cwd) => Some(cwd@),
        None => None,
    }
}

/// Converts a target into the binary nextest runs for it.
fn target_binary(input: &TargetInput<'_>, project_root: &str) -> (binary: RustTestBinary)
    ensures
        binary_for(*input, project_root@, binary),
{
    RustTestBinary {
        // Buck2 targets are identified by their label. Using it as the binary
        // ID keeps nextest's output and `binary_id()` filtersets speaking
        // Buck2's vocabulary rather than a synthesized Cargo-style name.
        id: input.label.to_owned(),
        path: resolve_path(project_root, input.program),
        package_id: input.label.to_owned(),
        // Buck2 has no lib/bin/test distinction of Cargo's sort. Reporting
        // these as `test` keeps `kind(test)` filtersets meaningful.
        kind: binaries::test_kind(),
        name: target_name(input.label).to_owned(),
        build_platform: BuildPlatform::Target,
        invocation: TestBinaryInvocation {
            leading_args: copy_texts(input.leading_args),
            env: input.env.duplicate(),
            // Buck2 runs each action from the project root (see
            // `run_from_project_root`), and the paths it hands a test through
            // the environment -- `$(location ...)` and friends -- are relative
            // to that root. So the test has to run where Buck2 put us, or none
            // of them resolve. Nextest reports this same directory as
            // `CARGO_MANIFEST_DIR`.
            cwd: match input.cwd {
                Some(cwd) => Some(cwd.to_owned()),
                None => None,
            },
        },
    }
}

/// `package` is the package that stands for a target.
pub open spec fn package_for(
    input: TargetInput<'_>,
    project_root: Seq<char>,
    package: PackageInfoView,
) -> bool {
    &&& package.id == input.label@
    &&& package.name == after_last(input.label@, ':')
    &&& package.version == release(0, 0, 0)
    &&& package.authors == Seq::<Seq<char>>::empty()
    &&& package.description is None
    &&& package.homepage is None
    &&& package.license is None
    &&& package.license_file is None
    &&& package.repository is None
    &&& package.minimum_rust_version is None
    &&& package.manifest_path == path_join(
        package_dir_of(project_root, input.package_path@),
        BUCK_FILE_NAME@,
    )
}

/// Converts a target into the package its binary belongs to.
fn target_package(input: &TargetInput<'_>, project_root: &str) -> (package: PackageInfo)
    ensures
        package_for(*input, project_root@, package@),
{
    let package_dir = package_dir(project_root, input.package_path);
    let authors: Vec<String> = Vec::new();
    assert(texts(authors@) =~= Seq::<Seq<char>>::empty());
    PackageInfo {
        id: input.label.to_owned(),
        name: target_name(input.label).to_owned(),
        version: Version::new(0, 0, 0),
        authors,
        description: None,
        homepage: None,
        license: None,
        license_file: None,
        repository: None,
        minimum_rust_version: None,
        manifest_path: paths::join(package_dir.as_str(), BUCK_FILE_NAME),
    }
}

/// Describes a build that Buck2 did.
///
/// Buck2 does not uplift artifacts or run Cargo build scripts, so there is
/// nothing to say apart from the platforms.
fn build_meta(project_root: &str, build_platforms: BuildPlatforms) -> (meta: RustBuildMeta)
    ensures
        meta.target_directory@ == project_root@,
        meta.build_directory@ == project_root@,
        meta.build_platforms == build_platforms,
{
    RustBuildMeta {
        target_directory: project_root.to_owned(),
        build_directory: project_root.to_owned(),
        build_platforms,
    }
}

/// `binaries` is what several targets become, one binary each, in order.
pub open spec fn list_for(
    inputs: Seq<TargetInput<'_>>,
    project_root: Seq<char>,
    build_platforms: BuildPlatforms,
    binaries: Buck2BinaryList,
) -> bool {
    let meta = binaries.binary_list.rust_build_meta;
    let list = binaries.binary_list.rust_binaries@;
    &&& meta.target_directory@ == project_root
    &&& meta.build_directory@ == project_root
    &&& meta.build_platforms == build_platforms
    &&& list.len() == inputs.len()
    &&& forall|index: int|
        0 <= index < inputs.len() ==> binary_for(inputs[index], project_root, #[trigger] list[index])
    &&& packages_for(inputs, project_root, packages_in(binaries.packages))
}

/// No target after the one at `index` has the same label.
pub open spec fn last_of_label(inputs: Seq<TargetInput<'_>>, index: int) -> bool {
    &&& 0 <= index < inputs.len()
    &&& forall|later: int|
        index < later < inputs.len() ==> (#[trigger] inputs[later]).label@ != inputs[index].label@
}

/// `packages` holds the package that stands for each target, that of the last
/// one where several have the same label, and no other.
pub open spec fn packages_for(
    inputs: Seq<TargetInput<'_>>,
    project_root: Seq<char>,
    packages: Map<Seq<char>, PackageInfoView>,
) -> bool {
    &&& forall|id: Seq<char>| #[trigger]
        packages.contains_key(id) ==> exists|index: int|
            #[trigger] last_of_label(inputs, index) && inputs[index].label@ == id
    &&& forall|index: int| #[trigger]
        last_of_label(inputs, index) ==> {
            &&& packages.contains_key(inputs[index].label@)
            &&& package_for(inputs[index], project_root, packages[inputs[index].label@])
        }
}

/// Converts several Buck2 targets into a binary list, one binary each.
///
/// `project_root` is the directory a relative program path resolves against.
pub fn to_binary_lists(
    inputs: &Vec<TargetInput<'_>>,
    project_root: &str,
    build_platforms: BuildPlatforms,
) -> (binaries: Buck2BinaryList)
    ensures
        list_for(inputs@, project_root@, build_platforms, binaries),
{
    let mut rust_binaries: Vec<RustTestBinary> = Vec::new();
    let mut packages = new_packages();
    let mut index: usize = 0;
    while index < inputs.len()
        invariant
            index <= inputs.len(),
            rust_binaries@.len() == index,
            forall|at: int|
                0 <= at < index ==> binary_for(
                    inputs@[at],
                    project_root@,
                    #[trigger] rust_binaries@[at],
                ),
            packages_for(
                inputs@.subrange(0, index as int),
                project_root@,
                packages_in(packages),
            ),
        decreases inputs.len() - index,
    {
        let ghost before = packages_in(packages);
        let input: &TargetInput<'_> = &inputs[index];
        rust_binaries.push(target_binary(input, project_root));
        let package = target_package(input, project_root);
        let ghost added = package@;
        insert_package(&mut packages, package);
        proof {
            lemma_one_more_package(
                inputs@.subrange(0, index as int),
                *input,
                project_root@,
                before,
                added,
            );
            assert(inputs@.subrange(0, index + 1) =~= inputs@.subrange(0, index as int).push(
                *input,
            ));
        }
        index += 1;
    }
    assert(inputs@.subrange(0, index as int) == inputs@);
    Buck2BinaryList {
        binary_list: BinaryList {
            rust_build_meta: build_meta(project_root, build_platforms),
            rust_binaries,
        },
        packages,
    }
}

/// Converts a Buck2 target into a single-binary list.
///
/// `project_root` is the directory a relative program path resolves against.
/// There is no Cargo configuration to consult, so the host is the only platform
/// there is anything to say about; `build_platforms` is what detecting it gave.
pub fn to_binary_list(
    input: &TargetInput<'_>,
    project_root: &str,
    build_platforms: Result<BuildPlatforms, ErrorChain>,
) -> (binaries: Result<Buck2BinaryList, ExpectedError>)
    ensures
        match build_platforms {
            Ok(build_platforms) => {
                &&& binaries matches Ok(binaries)
                &&& list_for(seq![*input], project_root@, build_platforms, binaries)
            },
            Err(error) => binaries == Err::<Buck2BinaryList, ExpectedError>(
                ExpectedError::HostPlatformDetectError { error },
            ),
        },
{
    match build_platforms {
        Ok(build_platforms) => {
            let mut inputs: Vec<TargetInput<'_>> = Vec::new();
            inputs.push(*input);
            assert(inputs@ =~= seq![*input]);
            Ok(to_binary_lists(&inputs, project_root, build_platforms))
        },
        Err(error) => Err(ExpectedError::HostPlatformDetectError { error }),
    }
}

/// Building the test list looks packages up by the binaries' package IDs: every
/// binary has a package there, of that ID and of the binary's name.
pub proof fn law_every_binary_has_a_package(
    inputs: Seq<TargetInput<'_>>,
    project_root: Seq<char>,
    build_platforms: BuildPlatforms,
    binaries: Buck2BinaryList,
    index: int,
)
    requires
        list_for(inputs, project_root, build_platforms, binaries),
        0 <= index < inputs.len(),
    ensures
        ({
            let binary = binaries.binary_list.rust_binaries@[index];
            let packages = packages_in(binaries.packages);
            &&& packages.contains_key(binary.package_id@)
            &&& packages[binary.package_id@].id == binary.package_id@
            &&& packages[binary.package_id@].name == binary.name@
        }),
{
    let binary = binaries.binary_list.rust_binaries@[index];
    assert(binary_for(inputs[index], project_root, binary));
    lemma_packages_cover(inputs, project_root, packages_in(binaries.packages), index);
}

/// Every target has a package in the map, under its label.
proof fn lemma_packages_cover(
    inputs: Seq<TargetInput<'_>>,
    project_root: Seq<char>,
    packages: Map<Seq<char>, PackageInfoView>,
    index: int,
)
    requires
        packages_for(inputs, project_root, packages),
        0 <= index < inputs.len(),
    ensures
        packages.contains_key(inputs[index].label@),
        packages[inputs[index].label@].id == inputs[index].label@,
        packages[inputs[index].label@].name == after_last(inputs[index].label@, ':'),
    decreases inputs.len() - index,
{
    if !last_of_label(inputs, index) {
        let later = choose|later: int|
            index < later < inputs.len() && (#[trigger] inputs[later]).label@
                == inputs[index].label@;
        lemma_packages_cover(inputs, project_root, packages, later);
    }
}

/// One more target adds its own package.
proof fn lemma_one_more_package(
    inputs: Seq<TargetInput<'_>>,
    input: TargetInput<'_>,
    project_root: Seq<char>,
    packages: Map<Seq<char>, PackageInfoView>,
    package: PackageInfoView,
)
    requires
        packages_for(inputs, project_root, packages),
        package_for(input, project_root, package),
    ensures
        packages_for(inputs.push(input), project_root, packages.insert(input.label@, package)),
{
    let next = inputs.push(input);
    let added = packages.insert(input.label@, package);
    assert(last_of_label(next, inputs.len() as int));
    assert forall|id: Seq<char>| #[trigger] added.contains_key(id) implies exists|index: int|
        #[trigger] last_of_label(next, index) && next[index].label@ == id by {
        if id != input.label@ {
            assert(packages.contains_key(id));
            let index = choose|index: int|
                #[trigger] last_of_label(inputs, index) && inputs[index].label@ == id;
            assert forall|later: int| index < later < next.len() implies (
            #[trigger] next[later]).label@ != next[index].label@ by {
                if later < inputs.len() {
                    assert(next[later] == inputs[later]);
                }
            }
            assert(last_of_label(next, index));
        } else {
            assert(next[inputs.len() as int].label@ == id);
        }
    }
    assert forall|index: int| #[trigger] last_of_label(next, index) implies {
        &&& added.contains_key(next[index].label@)
        &&& package_for(next[index], project_root, added[next[index].label@])
    } by {
        if index < inputs.len() {
            assert(next[inputs.len() as int].label@ != next[index].label@);
            assert forall|later: int| index < later < inputs.len() implies (
            #[trigger] inputs[later]).label@ != inputs[index].label@ by {
                assert(next[later].label@ != next[index].label@);
            }
            assert(last_of_label(inputs, index));
        }
    }
}

/// Each target becomes the binary at its own place in the list: it is known by the
/// target's label, runs the target's program with the target's arguments, and is
/// given the target's environment and directory.
pub proof fn law_targets_become_binaries(
    inputs: Seq<TargetInput<'_>>,
    project_root: Seq<char>,
    build_platforms: BuildPlatforms,
    binaries: Buck2BinaryList,
    index: int,
)
    requires
        list_for(inputs, project_root, build_platforms, binaries),
        0 <= index < inputs.len(),
    ensures
        binaries.binary_list.rust_binaries@.len() == inputs.len(),
        ({
            let input = inputs[index];
            let binary = binaries.binary_list.rust_binaries@[index];
            &&& binary.id@ == input.label@
            &&& binary.package_id@ == input.label@
            &&& path_is_absolute(input.program@) ==> binary.path@ == input.program@
            &&& !path_is_absolute(input.program@) ==> binary.path@ == path_join(
                project_root,
                input.program@,
            )
            &&& binary.invocation.leading_args@ == input.leading_args@
            &&& binary.invocation.env@ == input.env@
            &&& binary.invocation.cwd is Some <==> input.cwd is Some
            &&& input.cwd matches Some(cwd) ==> binary.invocation.cwd->0@ == cwd@
            &&& binary.kind@ == "test"@
            &&& binary.build_platform == BuildPlatform::Target
        }),
{
    assert(binary_for(inputs[index], project_root, binaries.binary_list.rust_binaries@[index]));
}

/// A binary and its package are named by what follows the last colon of the
/// target's label.
pub proof fn law_names_follow_the_last_colon(
    inputs: Seq<TargetInput<'_>>,
    project_root: Seq<char>,
    build_platforms: BuildPlatforms,
    binaries: Buck2BinaryList,
    index: int,
    name: Seq<char>,
)
    requires
        list_for(inputs, project_root, build_platforms, binaries),
        0 <= index < inputs.len(),
        !name.contains(':'),
        inputs[index].label@ == name || seq![':'] + name == inputs[index].label@.subrange(
            inputs[index].label@.len() - name.len() - 1,
            inputs[index].label@.len() as int,
        ) && inputs[index].label@.len() > name.len(),
    ensures
        binaries.binary_list.rust_binaries@[index].name@ == name,
        packages_in(binaries.packages)[inputs[index].label@].name == name,
{
    let label = inputs[index].label@;
    let binary = binaries.binary_list.rust_binaries@[index];
    assert(binary_for(inputs[index], project_root, binary));
    lemma_packages_cover(inputs, project_root, packages_in(binaries.packages), index);
    let rest = after_last(label, ':');
    law_nothing_is_lost_before_the_last_mark(label, ':');
    if label != name {
        let tail = seq![':'] + name;
        let start = label.len() - name.len() - 1;
        assert(tail[0] == ':');
        assert(label[start] == ':');
        assert(label.contains(':'));
        let cut = label.len() - rest.len();
        if cut - 1 < start {
            assert(rest[start - cut] == label[start]);
            assert(rest.contains(':'));
        }
        if cut - 1 > start {
            assert(tail[cut - 1 - start] == label[cut - 1]);
            assert(name[cut - 2 - start] == ':');
            assert(name.contains(':'));
        }
        assert forall|at: int| 0 <= at < name.len() implies rest[at] == name[at] by {
            assert(tail[at + 1] == label[start + 1 + at]);
        }
        assert(rest =~= name);
    }
}

/// The package of a target that no later one shares its label with says where the
/// target was declared, and nothing that only Cargo knows of.
pub proof fn law_packages_say_where_targets_are(
    inputs: Seq<TargetInput<'_>>,
    project_root: Seq<char>,
    build_platforms: BuildPlatforms,
    binaries: Buck2BinaryList,
    index: int,
)
    requires
        list_for(inputs, project_root, build_platforms, binaries),
        0 <= index < inputs.len(),
        forall|later: int|
            index < later < inputs.len() ==> (#[trigger] inputs[later]).label@
                != inputs[index].label@,
    ensures
        packages_in(binaries.packages).contains_key(inputs[index].label@),
        ({
            let package = packages_in(binaries.packages)[inputs[index].label@];
            let path = inputs[index].package_path@;
            &&& package.id == inputs[index].label@
            &&& path.len() == 0 ==> package.manifest_path == path_join(project_root, "BUCK"@)
            &&& path.len() > 0 ==> package.manifest_path == path_join(
                path_join(project_root, path),
                "BUCK"@,
            )
            &&& package.version == release(0, 0, 0)
            &&& package.authors.len() == 0
            &&& package.description is None
            &&& package.homepage is None
            &&& package.license is None
            &&& package.license_file is None
            &&& package.repository is None
            &&& package.minimum_rust_version is None
        }),
{
    assert(last_of_label(inputs, index));
}

/// There is a package for each target and for nothing else, and the build is
/// described by the project root and the platforms it was made for.
pub proof fn law_lists_hold_nothing_else(
    inputs: Seq<TargetInput<'_>>,
    project_root: Seq<char>,
    build_platforms: BuildPlatforms,
    binaries: Buck2BinaryList,
    id: Seq<char>,
)
    requires
        list_for(inputs, project_root, build_platforms, binaries),
    ensures
        packages_in(binaries.packages).contains_key(id) <==> exists|index: int|
            0 <= index < inputs.len() && (#[trigger] inputs[index]).label@ == id,
        binaries.binary_list.rust_build_meta.target_directory@ == project_root,
        binaries.binary_list.rust_build_meta.build_directory@ == project_root,
        binaries.binary_list.rust_build_meta.build_platforms == build_platforms,
{
    let packages = packages_in(binaries.packages);
    if packages.contains_key(id) {
        let index = choose|index: int|
            #[trigger] last_of_label(inputs, index) && inputs[index].label@ == id;
        assert(inputs[index].label@ == id);
    }
    if exists|index: int| 0 <= index < inputs.len() && (#[trigger] inputs[index]).label@ == id {
        let index = choose|index: int|
            0 <= index < inputs.len() && (#[trigger] inputs[index]).label@ == id;
        lemma_packages_cover(inputs, project_root, packages, index);
    }
}

/// The directory of the root package is the project root itself, with nothing
/// adjoined to it; that of any other package is its path adjoined to the root.
pub proof fn law_the_root_package_is_the_root(project_root: Seq<char>, package: Seq<char>)
    ensures
        package_dir_of(project_root, Seq::empty()) == project_root,
        package.len() > 0 ==> package_dir_of(project_root, package) == path_join(
            project_root,
            package,
        ),
{
}

/// A program whose path is absolute is found there wherever the project is; any
/// other is found within the project.
pub proof fn law_absolute_programs_stay_put(
    project_root: Seq<char>,
    other_root: Seq<char>,
    path: Seq<char>,
)
    ensures
        path_is_absolute(path) ==> resolved(project_root, path) == path && resolved(
            other_root,
            path,
        ) == path,
        !path_is_absolute(path) ==> resolved(project_root, path) == path_join(project_root, path),
{
}

} // verus!
