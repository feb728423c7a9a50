//! What a build system supplies to a session.

use crate::binaries::{BinaryList, BuildPlatform};
use crate::package_info::PackageInfo;
use crate::session::filter::KnownGroups;
use crate::stats::NextestRunMode;
use crate::string_map::StringMap;
use crate::text::copy_texts;
use iddqd::IdOrdMap;
use nextest_filtering::Filterset;
use vstd::prelude::*;

verus! {

/// A remapping for paths recorded at build time.
#[derive(Debug, Eq, PartialEq)]
pub struct PathMapper {
    /// The workspace root tests run under, if it has moved. This one is
    /// absolute and normalized.
    pub workspace: Option<String>,

    /// Where the build's output is now, if it has moved.
    pub target_dir: Option<String>,
}

impl PathMapper {
    /// Returns a mapper that leaves paths as they are.
    pub fn noop() -> (mapper: Self)
        ensures
            mapper == (PathMapper { workspace: None, target_dir: None }),
    {
        PathMapper { workspace: None, target_dir: None }
    }
}

/// Environment variables for test processes, from outside the build.
#[derive(Debug, Eq, PartialEq)]
pub struct EnvironmentMap {
    /// The variables and their values.
    pub vars: StringMap<String>,
}

impl EnvironmentMap {
    /// Returns a map without variables.
    pub fn empty() -> (env: Self)
        ensures
            env.vars@ == Map::<Seq<char>, String>::empty(),
    {
        EnvironmentMap { vars: StringMap::new() }
    }
}

/// What a build system supplies to nextest: the test binaries it built, and
/// the world they live in.
///
/// This is the integration contract's input. Everything downstream --
/// filtering, listing, running, and reporting -- is derived from these fields
/// plus nextest's own configuration.
#[derive(Debug)]
pub struct SessionInputs<'a> {
    /// The test binaries, with their build metadata.
    pub binary_list: &'a BinaryList,

    /// The package each binary belongs to.
    ///
    /// Every binary's `package_id` must name an entry here.
    pub packages: &'a IdOrdMap<PackageInfo>,

    /// The workspace or project root.
    ///
    /// Tests see this as an absolute `NEXTEST_WORKSPACE_ROOT`, and
    /// configuration is read from `.config/nextest.toml` under it.
    pub workspace_root: String,

    /// Extra environment variables for test processes.
    ///
    /// [`EnvironmentMap::empty`] if the build system has no such source.
    pub env: EnvironmentMap,

    /// A remapping for paths recorded at build time, for when the artifacts
    /// have moved since.
    ///
    /// [`PathMapper::noop`] if paths are already where the binaries are.
    pub path_mapper: PathMapper,
}

/// What filtersets are bounded by.
#[derive(Clone, Copy, Debug, Eq, PartialEq, Structural)]
pub enum FilterBound {
    /// The profile's default filter.
    DefaultSet,

    /// Nothing.
    All,
}

/// Which tests to run, as far as being ignored goes.
#[derive(Clone, Copy, Debug, Eq, PartialEq, Structural)]
pub enum RunIgnored {
    /// Those that are not ignored.
    Default,

    /// Those that are ignored.
    Only,

    /// All of them.
    All,
}

/// How tests are spread across several invocations.
#[derive(Clone, Copy, Debug, Eq, PartialEq, Structural)]
pub enum PartitionerBuilder {
    /// By counting.
    Count {
        /// The shard this is, counting from one.
        shard: u64,

        /// How many there are.
        total_shards: u64,
    },

    /// By a hash of the test's name.
    Hash {
        /// The shard this is, counting from one.
        shard: u64,

        /// How many there are.
        total_shards: u64,
    },
}

/// How to show progress while listing.
#[derive(Clone, Copy, Debug, Eq, PartialEq, Structural)]
pub struct ListProgressOptions {
    /// Whether to show it through the terminal's own progress indicator.
    pub show_terminal_progress: bool,

    /// Whether standard error is a terminal.
    pub is_terminal: bool,
}

/// Options for building the test list.
#[derive(Clone, Copy, Debug, Eq, PartialEq, Structural)]
pub struct TestListOptions {
    /// Partitions the run across several invocations, if requested.
    pub partitioner_builder: Option<PartitionerBuilder>,

    /// Restricts the list to one build platform.
    pub platform_filter: Option<BuildPlatform>,

    /// What filtersets are bounded by: the profile's default filter, or
    /// everything.
    pub filter_bound: FilterBound,

    /// The number of threads to list tests with.
    pub list_threads: usize,

    /// How to show progress while listing.
    pub progress: ListProgressOptions,
}

/// The names a test filter looks for.
#[derive(Debug, Eq, PartialEq)]
pub struct TestFilterPatterns {
    /// Texts a test's name contains.
    pub substrings: Vec<String>,

    /// Names a test has exactly.
    pub exact: Vec<String>,
}

impl TestFilterPatterns {
    /// Returns patterns that look for substrings.
    pub fn new(substrings: Vec<String>) -> (patterns: Self)
        ensures
            patterns.substrings == substrings,
            patterns.exact@ == Seq::<String>::empty(),
    {
        TestFilterPatterns { substrings, exact: Vec::new() }
    }

    /// Looks for a test with exactly the given name as well.
    pub fn add_exact_pattern(&mut self, name: String)
        ensures
            final(self).substrings == old(self).substrings,
            final(self).exact@ == old(self).exact@.push(name),
    {
        self.exact.push(name);
    }
}

/// What a test filter is built from.
#[derive(Debug)]
pub struct TestFilterSpec {
    /// Whether to run tests or benchmarks.
    pub mode: NextestRunMode,

    /// Which tests to run, as far as being ignored goes.
    pub run_ignored: RunIgnored,

    /// The names to look for.
    pub patterns: TestFilterPatterns,

    /// The filtersets to go by.
    pub exprs: Vec<Filterset>,
}

/// A profile, before it is known what platforms it runs on.
#[derive(Debug, Eq, PartialEq)]
pub struct EarlyProfile {
    /// The profile's name.
    pub name: String,

    /// The directory its reports go in.
    pub store_dir: String,

    /// Whether it writes a JUnit report.
    pub has_junit: bool,

    /// The names of the test groups it defines.
    pub custom_groups: Vec<String>,
}

impl EarlyProfile {
    /// Returns the test groups a filterset may name.
    pub fn known_groups(&self) -> (groups: KnownGroups)
        ensures
            groups matches KnownGroups::Known { custom_groups } && custom_groups@
                == self.custom_groups@,
    {
        KnownGroups::Known { custom_groups: copy_texts(&self.custom_groups) }
    }
}

} // verus!
