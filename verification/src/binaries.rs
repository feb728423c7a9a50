//! The test binaries a build system built, and what describes their build.

use crate::string_map::StringMap;
use vstd::prelude::*;

verus! {

/// The platform a binary was built for.
#[derive(Clone, Copy, Debug, Eq, PartialEq, Structural)]
pub enum BuildPlatform {
    /// The platform tests run on.
    Target,

    /// The platform the build ran on.
    Host,
}

/// One platform.
#[derive(Debug, Eq, PartialEq)]
pub struct Platform {
    /// The platform's target triple.
    pub triple: String,

    /// The directory with the Rust libraries for it, if known.
    pub libdir: Option<String>,
}

/// The platforms a build involved.
#[derive(Debug, Eq, PartialEq)]
pub struct BuildPlatforms {
    /// The platform the build ran on.
    pub host: Platform,

    /// The platform tests run on, if it is another.
    pub target: Option<Platform>,
}

/// How to invoke a test binary, beyond naming it.
#[derive(Debug, Eq, PartialEq)]
pub struct TestBinaryInvocation {
    /// Arguments that belong before nextest's own.
    pub leading_args: Vec<String>,

    /// Environment variables to set.
    pub env: StringMap<String>,

    /// The directory to run in, if not the package's.
    pub cwd: Option<String>,
}

impl TestBinaryInvocation {
    /// Returns an invocation that adds nothing.
    pub fn empty() -> (invocation: Self)
        ensures
            invocation.leading_args@ == Seq::<String>::empty(),
            invocation.env@ == Map::<Seq<char>, String>::empty(),
            invocation.cwd is None,
    {
        TestBinaryInvocation { leading_args: Vec::new(), env: StringMap::new(), cwd: None }
    }
}

/// A test binary.
#[derive(Debug, Eq, PartialEq)]
pub struct RustTestBinary {
    /// The binary's ID.
    pub id: String,

    /// The path to the binary.
    pub path: String,

    /// The ID of the package it belongs to.
    pub package_id: String,

    /// What it is built from, in Cargo's vocabulary.
    pub kind: String,

    /// The binary's name.
    pub name: String,

    /// The platform it was built for.
    pub build_platform: BuildPlatform,

    /// How to invoke it.
    pub invocation: TestBinaryInvocation,
}

/// Reads `nextest_metadata::RustTestBinaryKind::TEST`, the kind of integration
/// tests.
#[verifier::external_body]
pub(crate) fn test_kind() -> (kind: String)
    ensures
        kind@ == "test"@,
{
    nextest_metadata::RustTestBinaryKind::TEST.as_str().to_owned()
}

/// What describes a build as a whole.
#[derive(Debug, Eq, PartialEq)]
pub struct RustBuildMeta {
    /// The directory the build's output is in.
    pub target_directory: String,

    /// The directory the build's intermediate files are in.
    pub build_directory: String,

    /// The platforms the build involved.
    pub build_platforms: BuildPlatforms,
}

/// The test binaries of a build.
#[derive(Debug, Eq, PartialEq)]
pub struct BinaryList {
    /// What describes the build.
    pub rust_build_meta: RustBuildMeta,

    /// The test binaries.
    pub rust_binaries: Vec<RustTestBinary>,
}

} // verus!
