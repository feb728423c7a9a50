//! Package metadata required to list and run a test binary.
//!
//! Nextest's list and run phases need a small amount of information about the
//! package a test binary belongs to: an identity to key overrides and build
//! script outputs off, and the values behind the `CARGO_PKG_*` environment
//! variables that `cargo test` sets for every test process.
//!
//! Cargo-based callers derive this from a [`guppy::graph::PackageMetadata`]
//! obtained from a [`guppy::graph::PackageGraph`]. Orchestrators for other
//! build systems have no package graph, so this type is the seam: it carries
//! exactly the fields the list and run phases consume, and nothing more.

use crate::binaries::{BinaryList, RustTestBinary};
use crate::paths::{self, path_parent};
use crate::text::{optional_text, texts};
use iddqd::IdOrdMap;
use vstd::prelude::*;

verus! {

/// A semantic version.
#[derive(Debug, Eq, PartialEq)]
pub struct Version {
    /// The major version.
    pub major: u64,

    /// The minor version.
    pub minor: u64,

    /// The patch version.
    pub patch: u64,

    /// The pre-release identifiers, empty for a release.
    pub pre: String,

    /// The build metadata, often empty.
    pub build: String,
}

/// What a [`Version`] stands for.
#[verifier::ext_equal]
pub struct VersionView {
    /// The major version.
    pub major: u64,

    /// The minor version.
    pub minor: u64,

    /// The patch version.
    pub patch: u64,

    /// The pre-release identifiers.
    pub pre: Seq<char>,

    /// The build metadata.
    pub build: Seq<char>,
}

impl View for Version {
    type V = VersionView;

    open spec fn view(&self) -> VersionView {
        VersionView {
            major: self.major,
            minor: self.minor,
            patch: self.patch,
            pre: self.pre@,
            build: self.build@,
        }
    }
}

/// What a version that may be missing stands for.
pub open spec fn optional_version(version: Option<Version>) -> Option<VersionView> {
    match version {
        Some(version) => Some(version@),
        None => None,
    }
}

/// A version with neither pre-release nor build.
pub open spec fn release(major: u64, minor: u64, patch: u64) -> VersionView {
    VersionView { major, minor, patch, pre: ""@, build: ""@ }
}

impl Version {
    /// Returns a version with neither pre-release nor build.
    pub fn new(major: u64, minor: u64, patch: u64) -> (version: Self)
        ensures
            version@ == release(major, minor, patch),
    {
        Version { major, minor, patch, pre: "".to_owned(), build: "".to_owned() }
    }
}

/// Information about the package a test binary belongs to.
///
/// See the [module-level documentation](self) for why this exists.
#[derive(Debug, Eq, PartialEq)]
pub struct PackageInfo {
    /// This is the package ID from `cargo metadata`. It is used to
    /// key build script output directories and to evaluate `package()`
    /// filtersets, and is otherwise opaque to nextest.
    pub id: String,

    /// The name of the package (`CARGO_PKG_NAME`).
    pub name: String,

    /// The version of the package (`CARGO_PKG_VERSION` and friends).
    pub version: Version,

    /// The authors of the package (`CARGO_PKG_AUTHORS`).
    pub authors: Vec<String>,

    /// The description of the package (`CARGO_PKG_DESCRIPTION`).
    pub description: Option<String>,

    /// The homepage of the package (`CARGO_PKG_HOMEPAGE`).
    pub homepage: Option<String>,

    /// The license of the package (`CARGO_PKG_LICENSE`).
    pub license: Option<String>,

    /// The path to the package's license file (`CARGO_PKG_LICENSE_FILE`).
    pub license_file: Option<String>,

    /// The repository of the package (`CARGO_PKG_REPOSITORY`).
    pub repository: Option<String>,

    /// The minimum supported Rust version (`CARGO_PKG_RUST_VERSION`).
    pub minimum_rust_version: Option<Version>,

    /// The path to the package's manifest.
    pub manifest_path: String,
}

/// What a [`PackageInfo`] stands for.
#[verifier::ext_equal]
pub struct PackageInfoView {
    /// The package's ID.
    pub id: Seq<char>,

    /// The package's name.
    pub name: Seq<char>,

    /// The package's version.
    pub version: VersionView,

    /// The package's authors.
    pub authors: Seq<Seq<char>>,

    /// The package's description.
    pub description: Option<Seq<char>>,

    /// The package's homepage.
    pub homepage: Option<Seq<char>>,

    /// The package's license.
    pub license: Option<Seq<char>>,

    /// The path to the package's license file.
    pub license_file: Option<Seq<char>>,

    /// The package's repository.
    pub repository: Option<Seq<char>>,

    /// The package's minimum supported Rust version.
    pub minimum_rust_version: Option<VersionView>,

    /// The path to the package's manifest.
    pub manifest_path: Seq<char>,
}

impl View for PackageInfo {
    type V = PackageInfoView;

    open spec fn view(&self) -> PackageInfoView {
        PackageInfoView {
            id: self.id@,
            name: self.name@,
            version: self.version@,
            authors: texts(self.authors@),
            description: optional_text(self.description),
            homepage: optional_text(self.homepage),
            license: optional_text(self.license),
            license_file: optional_text(self.license_file),
            repository: optional_text(self.repository),
            minimum_rust_version: optional_version(self.minimum_rust_version),
            manifest_path: self.manifest_path@,
        }
    }
}

impl iddqd::IdOrdItem for PackageInfo {
    type Key<'a> = &'a str;

    fn key(&self) -> (key: Self::Key<'_>)
        ensures
            key@ == self.id@,
    {
        self.id.as_str()
    }

    fn upcast_key<'short, 'long: 'short>(long: &'long str) -> (short: &'short str)
        ensures
            short == long,
    {
        long
    }
}

/// Declares `iddqd::IdOrdMap`, a map whose items carry their own keys.
#[verifier::external_type_specification]
#[verifier::external_body]
#[verifier::reject_recursive_types(T)]
pub struct ExIdOrdMap<T>(iddqd::IdOrdMap<T>);

/// The packages in a map, by ID.
pub uninterp spec fn packages_in(map: IdOrdMap<PackageInfo>) -> Map<Seq<char>, PackageInfoView>;

/// Calls `IdOrdMap::new`: an empty map.
#[verifier::external_body]
pub(crate) fn new_packages() -> (packages: IdOrdMap<PackageInfo>)
    ensures
        packages_in(packages).dom() == Set::<Seq<char>>::empty(),
{
    IdOrdMap::new()
}

/// Calls `IdOrdMap::insert_overwrite`: the package is in the map afterwards, in
/// place of one with the same ID, and the rest of the map is as it was.
#[verifier::external_body]
pub(crate) fn insert_package(map: &mut IdOrdMap<PackageInfo>, package: PackageInfo)
    ensures
        packages_in(*final(map)) == packages_in(*old(map)).insert(package.id@, package@),
{
    map.insert_overwrite(package);
}

/// Declares `guppy::graph::PackageGraph`, the packages Cargo knows of.
#[verifier::external_type_specification]
#[verifier::external_body]
pub struct ExPackageGraph(guppy::graph::PackageGraph);

/// Declares `guppy::graph::PackageMetadata`, one package in a graph.
#[verifier::external_type_specification]
#[verifier::external_body]
pub struct ExPackageMetadata<'g>(guppy::graph::PackageMetadata<'g>);

/// What `PackageMetadata::id` gives for a package.
pub uninterp spec fn metadata_id(package: guppy::graph::PackageMetadata<'_>) -> Seq<char>;

/// What `PackageMetadata::name` gives for a package.
pub uninterp spec fn metadata_name(package: guppy::graph::PackageMetadata<'_>) -> Seq<char>;

/// What `PackageMetadata::version` gives for a package.
pub uninterp spec fn metadata_version(package: guppy::graph::PackageMetadata<'_>) -> VersionView;

/// What `PackageMetadata::authors` gives for a package.
pub uninterp spec fn metadata_authors(package: guppy::graph::PackageMetadata<'_>) -> Seq<Seq<char>>;

/// What `PackageMetadata::description` gives for a package.
pub uninterp spec fn metadata_description(
    package: guppy::graph::PackageMetadata<'_>,
) -> Option<Seq<char>>;

/// What `PackageMetadata::homepage` gives for a package.
pub uninterp spec fn metadata_homepage(
    package: guppy::graph::PackageMetadata<'_>,
) -> Option<Seq<char>>;

/// What `PackageMetadata::license` gives for a package.
pub uninterp spec fn metadata_license(
    package: guppy::graph::PackageMetadata<'_>,
) -> Option<Seq<char>>;

/// What `PackageMetadata::license_file` gives for a package.
pub uninterp spec fn metadata_license_file(
    package: guppy::graph::PackageMetadata<'_>,
) -> Option<Seq<char>>;

/// What `PackageMetadata::repository` gives for a package.
pub uninterp spec fn metadata_repository(
    package: guppy::graph::PackageMetadata<'_>,
) -> Option<Seq<char>>;

/// What `PackageMetadata::rust_version` gives for a package.
pub uninterp spec fn metadata_rust_version(
    package: guppy::graph::PackageMetadata<'_>,
) -> Option<VersionView>;

/// What `PackageMetadata::manifest_path` gives for a package.
pub uninterp spec fn metadata_manifest_path(
    package: guppy::graph::PackageMetadata<'_>,
) -> Seq<char>;

/// What `guppy::graph::PackageMetadata` says of a package, taken together.
pub open spec fn metadata_of(package: guppy::graph::PackageMetadata<'_>) -> PackageInfoView {
    PackageInfoView {
        id: metadata_id(package),
        name: metadata_name(package),
        version: metadata_version(package),
        authors: metadata_authors(package),
        description: metadata_description(package),
        homepage: metadata_homepage(package),
        license: metadata_license(package),
        license_file: metadata_license_file(package),
        repository: metadata_repository(package),
        minimum_rust_version: metadata_rust_version(package),
        manifest_path: metadata_manifest_path(package),
    }
}

/// Calls `PackageMetadata::id`: the package's ID.
#[verifier::external_body]
fn read_id(package: &guppy::graph::PackageMetadata<'_>) -> (value: String)
    ensures
        value@ == metadata_id(*package),
{
    package.id().repr().to_owned()
}

/// Calls `PackageMetadata::name`: the package's name.
#[verifier::external_body]
fn read_name(package: &guppy::graph::PackageMetadata<'_>) -> (value: String)
    ensures
        value@ == metadata_name(*package),
{
    package.name().to_owned()
}

/// Calls `PackageMetadata::version`: the package's version.
#[verifier::external_body]
fn read_version(package: &guppy::graph::PackageMetadata<'_>) -> (value: Version)
    ensures
        value@ == metadata_version(*package),
{
    let version = package.version();
    Version {
        major: version.major,
        minor: version.minor,
        patch: version.patch,
        pre: version.pre.as_str().to_owned(),
        build: version.build.as_str().to_owned(),
    }
}

/// Calls `PackageMetadata::authors`: the package's authors.
#[verifier::external_body]
fn read_authors(package: &guppy::graph::PackageMetadata<'_>) -> (value: Vec<String>)
    ensures
        texts(value@) == metadata_authors(*package),
{
    package.authors().to_vec()
}

/// Calls `PackageMetadata::description`: the package's description.
#[verifier::external_body]
fn read_description(package: &guppy::graph::PackageMetadata<'_>) -> (value: Option<String>)
    ensures
        optional_text(value) == metadata_description(*package),
{
    package.description().map(|text| text.to_owned())
}

/// Calls `PackageMetadata::homepage`: the package's homepage.
#[verifier::external_body]
fn read_homepage(package: &guppy::graph::PackageMetadata<'_>) -> (value: Option<String>)
    ensures
        optional_text(value) == metadata_homepage(*package),
{
    package.homepage().map(|text| text.to_owned())
}

/// Calls `PackageMetadata::license`: the package's license.
#[verifier::external_body]
fn read_license(package: &guppy::graph::PackageMetadata<'_>) -> (value: Option<String>)
    ensures
        optional_text(value) == metadata_license(*package),
{
    package.license().map(|text| text.to_owned())
}

/// Calls `PackageMetadata::license_file`: the path to the package's license file.
#[verifier::external_body]
fn read_license_file(package: &guppy::graph::PackageMetadata<'_>) -> (value: Option<String>)
    ensures
        optional_text(value) == metadata_license_file(*package),
{
    package.license_file().map(|path| path.as_str().to_owned())
}

/// Calls `PackageMetadata::repository`: the package's repository.
#[verifier::external_body]
fn read_repository(package: &guppy::graph::PackageMetadata<'_>) -> (value: Option<String>)
    ensures
        optional_text(value) == metadata_repository(*package),
{
    package.repository().map(|text| text.to_owned())
}

/// Calls `PackageMetadata::rust_version`: the package's minimum supported Rust version.
#[verifier::external_body]
fn read_rust_version(package: &guppy::graph::PackageMetadata<'_>) -> (value: Option<Version>)
    ensures
        optional_version(value) == metadata_rust_version(*package),
{
    package.rust_version().map(|version| Version {
        major: version.major,
        minor: version.minor,
        patch: version.patch,
        pre: version.pre.as_str().to_owned(),
        build: version.build.as_str().to_owned(),
    })
}

/// Calls `PackageMetadata::manifest_path`: the path to the package's manifest.
#[verifier::external_body]
fn read_manifest_path(package: &guppy::graph::PackageMetadata<'_>) -> (value: String)
    ensures
        value@ == metadata_manifest_path(*package),
{
    package.manifest_path().as_str().to_owned()
}

/// The packages in a graph, by ID.
pub uninterp spec fn packages_of(graph: guppy::graph::PackageGraph) -> Map<Seq<char>, PackageInfoView>;

/// Calls `PackageGraph::packages`: every package in the graph, each once. The
/// order they come in is not stated.
#[verifier::external_body]
fn all_packages<'g>(graph: &'g guppy::graph::PackageGraph) -> (packages: Vec<
    guppy::graph::PackageMetadata<'g>,
>)
    ensures
        forall|index: int|
            0 <= index < packages@.len() ==> packages_of(*graph).contains_pair(
                metadata_id(#[trigger] packages@[index]),
                metadata_of(packages@[index]),
            ),
        forall|id: Seq<char>| #[trigger]
            packages_of(*graph).contains_key(id) ==> exists|index: int|
                0 <= index < packages@.len() && metadata_id(#[trigger] packages@[index]) == id,
{
    graph.packages().collect()
}

/// Calls `PackageGraph::metadata`: the package with the given ID, if the graph
/// has one.
#[verifier::external_body]
fn find_package<'g>(graph: &'g guppy::graph::PackageGraph, id: &str) -> (package: Option<
    guppy::graph::PackageMetadata<'g>,
>)
    ensures
        match package {
            Some(package) => {
                &&& packages_of(*graph).contains_pair(id@, metadata_of(package))
                &&& metadata_id(package) == id@
            },
            None => !packages_of(*graph).contains_key(id@),
        },
{
    graph.metadata(&guppy::PackageId::new(id)).ok()
}

/// A binary names the package with the given ID.
pub open spec fn names_package(binaries: Seq<RustTestBinary>, id: Seq<char>) -> bool {
    exists|index: int| 0 <= index < binaries.len() && #[trigger] binaries[index].package_id@ == id
}

impl PackageInfo {
    /// Creates a `PackageInfo` from Cargo package metadata.
    pub fn from_package_metadata(package: &guppy::graph::PackageMetadata<'_>) -> (info: Self)
        ensures
            info@ == metadata_of(*package),
    {
        PackageInfo {
            id: read_id(package),
            name: read_name(package),
            version: read_version(package),
            authors: read_authors(package),
            description: read_description(package),
            homepage: read_homepage(package),
            license: read_license(package),
            license_file: read_license_file(package),
            repository: read_repository(package),
            minimum_rust_version: read_rust_version(package),
            manifest_path: read_manifest_path(package),
        }
    }

    /// Builds a map of `PackageInfo` for every package in a Cargo package graph.
    pub fn map_from_graph(graph: &guppy::graph::PackageGraph) -> (packages: IdOrdMap<PackageInfo>)
        ensures
            packages_in(packages) == packages_of(*graph),
    {
        let found = all_packages(graph);
        let mut packages = new_packages();
        let mut index: usize = 0;
        while index < found.len()
            invariant
                index <= found.len(),
                forall|position: int|
                    0 <= position < found@.len() ==> packages_of(*graph).contains_pair(
                        metadata_id(#[trigger] found@[position]),
                        metadata_of(found@[position]),
                    ),
                forall|id: Seq<char>| #[trigger]
                    packages_in(packages).contains_key(id) <==> exists|position: int|
                        0 <= position < index && metadata_id(#[trigger] found@[position]) == id,
                forall|id: Seq<char>| #[trigger]
                    packages_in(packages).contains_key(id) ==> packages_of(*graph).contains_pair(
                        id,
                        packages_in(packages)[id],
                    ),
            decreases found.len() - index,
        {
            let ghost before = packages_in(packages);
            let info = PackageInfo::from_package_metadata(&found[index]);
            let ghost added = info@;
            insert_package(&mut packages, info);
            assert(metadata_of(found@[index as int]) == added);
            assert(packages_of(*graph).contains_pair(added.id, added));
            assert forall|id: Seq<char>| #[trigger]
                packages_in(packages).contains_key(id) <==> exists|position: int|
                    0 <= position < index + 1 && metadata_id(#[trigger] found@[position])
                        == id by {
                if before.contains_key(id) {
                    let position = choose|position: int|
                        0 <= position < index && metadata_id(#[trigger] found@[position]) == id;
                    assert(0 <= position < index + 1 && metadata_id(found@[position]) == id);
                }
            }
            index += 1;
        }
        assert(packages_in(packages) =~= packages_of(*graph));
        packages
    }

    /// Builds a map of `PackageInfo` for the packages a binary list refers to.
    ///
    /// Building test artifacts only looks up the packages the binaries belong
    /// to, so this is what Cargo-based callers want in preference to
    /// [`Self::map_from_graph`]: a workspace's test binaries typically name a
    /// small fraction of the packages in its graph.
    ///
    /// A package ID that is not in the graph is left out, and reported later
    /// against the binary that named it.
    pub fn map_from_binary_list(
        graph: &guppy::graph::PackageGraph,
        binary_list: &BinaryList,
    ) -> (packages: IdOrdMap<PackageInfo>)
        ensures
            forall|id: Seq<char>| #[trigger]
                packages_in(packages).contains_key(id) <==> {
                    &&& names_package(binary_list.rust_binaries@, id)
                    &&& packages_of(*graph).contains_key(id)
                },
            forall|id: Seq<char>| #[trigger]
                packages_in(packages).contains_key(id) ==> packages_in(packages)[id]
                    == packages_of(*graph)[id],
    {
        let binaries: &Vec<RustTestBinary> = &binary_list.rust_binaries;
        let mut packages = new_packages();
        let mut index: usize = 0;
        while index < binaries.len()
            invariant
                index <= binaries.len(),
                forall|id: Seq<char>| #[trigger]
                    packages_in(packages).contains_key(id) <==> {
                        &&& names_package(binaries@.subrange(0, index as int), id)
                        &&& packages_of(*graph).contains_key(id)
                    },
                forall|id: Seq<char>| #[trigger]
                    packages_in(packages).contains_key(id) ==> packages_in(packages)[id]
                        == packages_of(*graph)[id],
            decreases binaries.len() - index,
        {
            let id: &str = binaries[index].package_id.as_str();
            let ghost seen = binaries@.subrange(0, index as int);
            let ghost next = binaries@.subrange(0, index + 1);
            proof {
                assert forall|other: Seq<char>|
                    names_package(next, other) <==> names_package(seen, other) || other == id@ by {
                    if names_package(seen, other) {
                        let at = choose|at: int|
                            0 <= at < seen.len() && #[trigger] seen[at].package_id@ == other;
                        assert(next[at].package_id@ == other);
                    }
                    if other == id@ {
                        assert(next[index as int].package_id@ == other);
                    }
                    if names_package(next, other) {
                        let at = choose|at: int|
                            0 <= at < next.len() && #[trigger] next[at].package_id@ == other;
                        if at < index {
                            assert(seen[at].package_id@ == other);
                        }
                    }
                }
            }
            if let Some(package) = find_package(graph, id) {
                insert_package(&mut packages, PackageInfo::from_package_metadata(&package));
            }
            index += 1;
        }
        assert(binaries@.subrange(0, index as int) == binaries@);
        packages
    }

    /// This is the directory containing the manifest.
    pub fn cwd(&self) -> (cwd: String)
        requires
            path_parent(self.manifest_path@) is Some,
        ensures
            path_parent(self.manifest_path@) == Some(cwd@),
    {
        match paths::parent(self.manifest_path.as_str()) {
            Some(cwd) => cwd,
            None => "".to_owned(),
        }
    }

    /// This is the directory containing the manifest, unless the path to the
    /// manifest does not have a parent.
    pub fn checked_cwd(&self) -> (cwd: Option<String>)
        ensures
            optional_text(cwd) == path_parent(self.manifest_path@),
    {
        match paths::parent(self.manifest_path.as_str()) {
            Some(_) => Some(self.cwd()),
            None => None,
        }
    }
}

/// Each part of a package's metadata ends up in the field of its own name.
pub proof fn law_metadata_keeps_its_fields(
    info: PackageInfo,
    package: guppy::graph::PackageMetadata<'_>,
)
    requires
        info@ == metadata_of(package),
    ensures
        info.id@ == metadata_id(package),
        info.name@ == metadata_name(package),
        info.version@ == metadata_version(package),
        texts(info.authors@) == metadata_authors(package),
        optional_text(info.description) == metadata_description(package),
        optional_text(info.homepage) == metadata_homepage(package),
        optional_text(info.license) == metadata_license(package),
        optional_text(info.license_file) == metadata_license_file(package),
        optional_text(info.repository) == metadata_repository(package),
        info.minimum_rust_version is Some <==> metadata_rust_version(package) is Some,
        info.minimum_rust_version matches Some(version) ==> metadata_rust_version(package) == Some(
            version@,
        ),
        info.manifest_path@ == metadata_manifest_path(package),
{
    let view = info@;
    assert(view.id == info.id@);
}

/// A version stands for its three numbers and its two texts, and a release has
/// nothing in the texts.
pub proof fn law_versions_keep_their_parts(version: Version, major: u64, minor: u64, patch: u64)
    ensures
        version@.major == version.major,
        version@.minor == version.minor,
        version@.patch == version.patch,
        version@.pre == version.pre@,
        version@.build == version.build@,
        release(major, minor, patch).major == major,
        release(major, minor, patch).minor == minor,
        release(major, minor, patch).patch == patch,
        release(major, minor, patch).pre.len() == 0,
        release(major, minor, patch).build.len() == 0,
{
    reveal_strlit("");
}

/// A package is named by binaries exactly when one of them has its ID.
pub proof fn law_binaries_name_their_packages(binaries: Seq<RustTestBinary>, id: Seq<char>)
    ensures
        forall|index: int|
            0 <= index < binaries.len() ==> names_package(
                binaries,
                (#[trigger] binaries[index]).package_id@,
            ),
        names_package(binaries, id) ==> exists|index: int|
            0 <= index < binaries.len() && (#[trigger] binaries[index]).package_id@ == id,
{
    assert forall|index: int| 0 <= index < binaries.len() implies names_package(
        binaries,
        (#[trigger] binaries[index]).package_id@,
    ) by {
        let named = binaries[index].package_id@;
        assert(named == binaries[index].package_id@);
    }
    if names_package(binaries, id) {
        let index = choose|index: int|
            0 <= index < binaries.len() && #[trigger] binaries[index].package_id@ == id;
        assert(binaries[index].package_id@ == id);
    }
}

} // verus!
