//! Converting targets into binaries and packages.

use buck2_nextest::binaries::{BuildPlatform, BuildPlatforms, Platform};
use buck2_nextest::convert::{
    package_dir, resolve_path, target_name, to_binary_list, to_binary_lists, Buck2BinaryList,
    TargetInput,
};
use buck2_nextest::errors::ExpectedError;
use buck2_nextest::package_info::Version;
use buck2_nextest::session::errors::ErrorChain;
use buck2_nextest::string_map::StringMap;
use nextest_metadata::RustTestBinaryKind;

fn platforms() -> BuildPlatforms {
    BuildPlatforms {
        host: Platform {
            triple: "x86_64-unknown-linux-gnu".to_owned(),
            libdir: Some("/fake/libdir".to_owned()),
        },
        target: None,
    }
}

fn convert(label: &str, package_path: &str, program: &str) -> Buck2BinaryList {
    let args = vec!["--flag".to_owned()];
    let env = StringMap::new();
    to_binary_list(
        &TargetInput {
            label,
            package_path,
            program,
            leading_args: &args,
            env: &env,
            cwd: Some("/project"),
        },
        "/project",
        Ok(platforms()),
    )
    .expect("conversion succeeds")
}

#[test]
fn the_label_becomes_the_binary_id_and_package_id() {
    let converted = convert("root//app/tests:zebra", "app/tests", "buck-out/gen/zebra");
    let binary = &converted.binary_list.rust_binaries[0];

    assert_eq!(binary.id.as_str(), "root//app/tests:zebra");
    assert_eq!(binary.package_id, "root//app/tests:zebra");
    assert_eq!(binary.name, "zebra");
    assert_eq!(binary.kind, RustTestBinaryKind::TEST.as_str());
}

#[test]
fn relative_programs_resolve_against_the_project_root() {
    let converted = convert("root//app/tests:zebra", "app/tests", "buck-out/gen/zebra");
    assert_eq!(
        converted.binary_list.rust_binaries[0].path,
        "/project/buck-out/gen/zebra"
    );
}

#[test]
fn absolute_programs_are_left_alone() {
    let converted = convert("root//app:aardvark", "app", "/abs/path/aardvark");
    assert_eq!(
        converted.binary_list.rust_binaries[0].path,
        "/abs/path/aardvark"
    );
}

/// A test runs where Buck2 ran the action, not in its package directory:
/// the paths Buck2 hands it are relative to the project root.
#[test]
fn cwd_is_where_buck2_ran_the_action() {
    let converted = convert("root//app/tests:zebra", "app/tests", "buck-out/gen/zebra");
    let binary = &converted.binary_list.rust_binaries[0];
    assert_eq!(binary.invocation.cwd.as_deref(), Some("/project"));
    assert_eq!(binary.invocation.leading_args, vec!["--flag"]);

    // The manifest path still names the package, which is where the target
    // was declared.
    let package = converted
        .packages
        .get("root//app/tests:zebra")
        .expect("present");
    assert_eq!(package.manifest_path, "/project/app/tests/BUCK");
}

/// The root package's manifest path has no trailing separator left behind
/// by joining an empty package path onto the project root.
#[test]
fn the_root_package_manifest_is_at_the_project_root() {
    let converted = convert("root//:demo", "", "buck-out/demo");
    let binary = &converted.binary_list.rust_binaries[0];
    assert_eq!(binary.name, "demo");

    let package = converted.packages.get("root//:demo").expect("present");
    assert_eq!(package.manifest_path, "/project/BUCK");
}

/// Building the test list looks the package up by the binary's package ID,
/// so a mismatch here fails the run rather than producing a bad listing.
#[test]
fn the_binary_has_a_matching_package() {
    let converted = convert("root//app:aardvark", "app", "out/aardvark");
    let binary = &converted.binary_list.rust_binaries[0];
    let package = converted
        .packages
        .get(binary.package_id.as_str())
        .expect("present");
    assert_eq!(package.name, binary.name);
}

#[test]
fn a_label_without_a_colon_is_its_own_name() {
    assert_eq!(target_name("root//app:aardvark"), "aardvark");
    assert_eq!(target_name("root//:demo"), "demo");
    assert_eq!(target_name("weird"), "weird");
}

#[test]
fn only_the_last_colon_ends_the_package() {
    assert_eq!(target_name("a:b:c"), "c");
    assert_eq!(target_name("a:"), "");
    assert_eq!(target_name(""), "");
}

#[test]
fn the_rest_of_the_build_is_empty_apart_from_the_platforms() {
    let converted = convert("root//app:aardvark", "app", "out/aardvark");
    let meta = &converted.binary_list.rust_build_meta;
    assert_eq!(meta.target_directory, "/project");
    assert_eq!(meta.build_directory, "/project");
    assert_eq!(meta.build_platforms, platforms());
    assert_eq!(
        converted.binary_list.rust_binaries[0].build_platform,
        BuildPlatform::Target
    );

    let package = converted.packages.get("root//app:aardvark").expect("present");
    assert_eq!(package.version, Version::new(0, 0, 0));
    assert!(package.authors.is_empty());
    assert_eq!(package.description, None);
    assert_eq!(package.minimum_rust_version, None);
    assert_eq!(converted.packages.len(), 1);
}

/// The environment a target needs travels with its binary, as data.
#[test]
fn the_targets_environment_travels_with_the_binary() {
    let args = Vec::new();
    let mut env = StringMap::new();
    env.insert("NEXTEST_PROFILE".to_owned(), "ci".to_owned());
    env.insert("EMPTY".to_owned(), String::new());
    let converted = to_binary_list(
        &TargetInput {
            label: "root//:demo",
            package_path: "",
            program: "demo",
            leading_args: &args,
            env: &env,
            cwd: None,
        },
        "/project",
        Ok(platforms()),
    )
    .expect("conversion succeeds");
    let invocation = &converted.binary_list.rust_binaries[0].invocation;
    assert_eq!(
        invocation.env.get("NEXTEST_PROFILE").map(String::as_str),
        Some("ci")
    );
    assert_eq!(invocation.env.get("EMPTY").map(String::as_str), Some(""));
    assert_eq!(invocation.env.len(), 2);
    assert_eq!(invocation.cwd, None);
}

#[test]
fn an_undetectable_host_is_an_error() {
    let args = Vec::new();
    let env = StringMap::new();
    let error = to_binary_list(
        &TargetInput {
            label: "root//:demo",
            package_path: "",
            program: "demo",
            leading_args: &args,
            env: &env,
            cwd: None,
        },
        "/project",
        Err(ErrorChain {
            messages: vec!["no rustc".to_owned()],
        }),
    )
    .expect_err("the host is not known");
    assert!(
        matches!(&error, ExpectedError::HostPlatformDetectError { error } if error.messages == ["no rustc"])
    );
    assert_eq!(error.exit_code(), 96);
}

#[test]
fn several_targets_become_one_binary_each() {
    let args = Vec::new();
    let env = StringMap::new();
    let input = |label: &'static str, package_path: &'static str| TargetInput {
        label,
        package_path,
        program: "out/test",
        leading_args: &args,
        env: &env,
        cwd: None,
    };
    let inputs = vec![
        input("root//a:one", "a"),
        input("root//b:two", "b"),
        input("root//a:one", "c"),
    ];
    let converted = to_binary_lists(&inputs, "/project", platforms());
    let ids: Vec<&str> = converted
        .binary_list
        .rust_binaries
        .iter()
        .map(|binary| binary.id.as_str())
        .collect();
    assert_eq!(ids, ["root//a:one", "root//b:two", "root//a:one"]);

    // One package per label; the last target with it is the one that counts.
    assert_eq!(converted.packages.len(), 2);
    let package = converted.packages.get("root//a:one").expect("present");
    assert_eq!(package.manifest_path, "/project/c/BUCK");
}

#[test]
fn package_directories_and_programs_are_resolved() {
    assert_eq!(package_dir("/project", ""), "/project");
    assert_eq!(package_dir("/project", "a/b"), "/project/a/b");
    assert_eq!(resolve_path("/project", "x"), "/project/x");
    assert_eq!(resolve_path("/project", "/x"), "/x");
}
