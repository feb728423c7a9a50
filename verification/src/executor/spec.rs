//! What Buck2 says of the targets to test.

use crate::string_map::StringMap;
use crate::text::after_last;
use vstd::prelude::*;
use vstd::string::*;

verus! {

/// The type of tests this runner runs.
pub const SUPPORTED_TEST_TYPE: &'static str = "rust";

/// A target, and how it is configured.
#[derive(Debug, Eq, PartialEq)]
pub struct ConfiguredTarget {
    /// The cell the target is in.
    pub cell: String,

    /// The target's package within the cell, empty for the root package.
    pub package: String,

    /// The target's name within the package.
    pub target: String,

    /// The configuration, if Buck2 named one.
    pub configuration: Option<String>,
}

/// The label of a target.
pub open spec fn label_text(cell: Seq<char>, package: Seq<char>, target: Seq<char>) -> Seq<char> {
    cell + "//"@ + package + ":"@ + target
}

impl ConfiguredTarget {
    /// Returns the target's label.
    ///
    /// The configuration is left out, so a target reached under two of them has
    /// one label.
    pub fn label(&self) -> (label: String)
        ensures
            label@ == label_text(self.cell@, self.package@, self.target@),
    {
        let mut label: String = self.cell.clone();
        label.append("//");
        label.append(self.package.as_str());
        label.append(":");
        label.append(self.target.as_str());
        label
    }
}

/// A target that is ready to run.
#[derive(Debug, Eq, PartialEq)]
pub struct Buck2TestTarget {
    /// The target's label.
    pub label: String,

    /// The target.
    pub target: ConfiguredTarget,

    /// The test binary to run.
    pub program: String,

    /// Arguments that belong before nextest's own.
    pub leading_args: Vec<String>,

    /// Environment variables to set.
    pub env: StringMap<String>,

    /// The directory to run in, if Buck2 said.
    pub cwd: Option<String>,
}

/// What Buck2 calls a target when results are reported against it.
#[derive(Clone, Copy, Debug, Eq, PartialEq, Structural)]
pub struct ConfiguredTargetHandle {
    /// The number Buck2 gave it.
    pub id: i64,
}

/// A value in a spec.
#[derive(Debug, Eq, PartialEq)]
pub enum SpecValue {
    /// The value itself.
    Verbatim(String),

    /// A stand-in for a part of the command, which only Buck2 can resolve.
    ArgHandle {
        /// The number Buck2 gave it.
        id: i64,
    },

    /// A stand-in for an environment variable, which only Buck2 can resolve.
    EnvHandle {
        /// The variable.
        name: String,
    },
}

/// A value in a spec, as it is sent.
#[derive(Debug, Eq, PartialEq)]
pub struct ExternalRunnerSpecValue {
    /// The value, which is absent only if Buck2 left it out.
    pub value: Option<SpecValue>,
}

/// A target in a spec, as it is sent.
#[derive(Debug, Eq, PartialEq)]
pub struct SpecTarget {
    /// What Buck2 calls the target.
    pub handle: Option<ConfiguredTargetHandle>,

    /// The cell the target is in.
    pub cell: String,

    /// The target's package within the cell.
    pub package: String,

    /// The target's name within the package.
    pub target: String,

    /// The configuration, empty if there is none to name.
    pub configuration: String,

    /// The package's path relative to the project root.
    pub package_project_relative_path: String,
}

/// What Buck2 says of a target to test.
#[derive(Debug, Eq, PartialEq)]
pub struct ExternalRunnerSpec {
    /// The target.
    pub target: Option<SpecTarget>,

    /// The type of its tests.
    pub test_type: String,

    /// The command that runs them.
    pub command: Vec<ExternalRunnerSpecValue>,

    /// The environment they need.
    pub env: Vec<(String, ExternalRunnerSpecValue)>,
}

/// A label starts with the target's cell, ends with its name, and has its package
/// in between, set off by two slashes and a colon.
pub proof fn law_labels_name_their_targets(
    cell: Seq<char>,
    package: Seq<char>,
    target: Seq<char>,
)
    ensures
        cell.is_prefix_of(label_text(cell, package, target)),
        target.is_suffix_of(label_text(cell, package, target)),
        label_text(cell, package, target) == cell.push('/').push('/') + package.push(':') + target,
        !target.contains(':') ==> after_last(label_text(cell, package, target), ':') == target,
{
    reveal_strlit("//");
    reveal_strlit(":");
    let label = label_text(cell, package, target);
    assert(label =~= cell.push('/').push('/') + package.push(':') + target);
    assert(cell =~= label.subrange(0, cell.len() as int));
    assert(target =~= label.subrange(label.len() - target.len(), label.len() as int));
    if !target.contains(':') {
        let start = label.len() - target.len();
        assert(label[start - 1] == ':');
        assert(label.contains(':'));
        label.index_of_last_ensures(':');
        let last = label.index_of_last(':')->0;
        if last >= start {
            assert(target[last - start] == ':');
        }
        assert(after_last(label, ':') =~= target);
    }
}

} // verus!
