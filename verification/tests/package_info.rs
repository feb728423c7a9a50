//! Package metadata, from a Cargo package graph.

use buck2_nextest::binaries::{
    BinaryList, BuildPlatform, BuildPlatforms, Platform, RustBuildMeta, RustTestBinary,
    TestBinaryInvocation,
};
use buck2_nextest::package_info::{PackageInfo, Version};
use guppy::graph::PackageGraph;
use guppy::PackageId;

const MAIN_ID: &str = "main-package 1.2.3-beta.1+build (path+file:///workspace/main)";

/// Two packages, one with every field set and one with hardly any.
fn package_graph() -> PackageGraph {
    PackageGraph::from_json(
        r#"{
            "packages": [
                {
                    "name": "main-package",
                    "version": "1.2.3-beta.1+build",
                    "id": "main-package 1.2.3-beta.1+build (path+file:///workspace/main)",
                    "license": "MIT OR Apache-2.0",
                    "license_file": "LICENSE-EXTRA",
                    "description": "A package",
                    "source": null,
                    "dependencies": [],
                    "targets": [
                        {
                            "kind": ["lib"],
                            "crate_types": ["lib"],
                            "name": "main_package",
                            "src_path": "/workspace/main/src/lib.rs",
                            "edition": "2021",
                            "doc": true,
                            "doctest": true,
                            "test": true
                        }
                    ],
                    "features": {},
                    "manifest_path": "/workspace/main/Cargo.toml",
                    "metadata": null,
                    "publish": null,
                    "authors": ["One <one@example.com>", "Two"],
                    "categories": [],
                    "keywords": [],
                    "readme": null,
                    "repository": "https://example.com/repository",
                    "homepage": "https://example.com/",
                    "documentation": null,
                    "edition": "2021",
                    "links": null,
                    "default_run": null,
                    "rust_version": "1.70.2"
                },
                {
                    "name": "bare",
                    "version": "0.1.0",
                    "id": "bare 0.1.0 (path+file:///workspace/bare)",
                    "license": null,
                    "license_file": null,
                    "description": null,
                    "source": null,
                    "dependencies": [],
                    "targets": [
                        {
                            "kind": ["lib"],
                            "crate_types": ["lib"],
                            "name": "bare",
                            "src_path": "/workspace/bare/src/lib.rs",
                            "edition": "2021",
                            "doc": true,
                            "doctest": true,
                            "test": true
                        }
                    ],
                    "features": {},
                    "manifest_path": "/workspace/bare/Cargo.toml",
                    "metadata": null,
                    "publish": null,
                    "authors": [],
                    "categories": [],
                    "keywords": [],
                    "readme": null,
                    "repository": null,
                    "homepage": null,
                    "documentation": null,
                    "edition": "2021",
                    "links": null,
                    "default_run": null,
                    "rust_version": null
                }
            ],
            "workspace_members": [
                "main-package 1.2.3-beta.1+build (path+file:///workspace/main)",
                "bare 0.1.0 (path+file:///workspace/bare)"
            ],
            "workspace_default_members": [],
            "resolve": {
                "nodes": [
                    {
                        "id": "main-package 1.2.3-beta.1+build (path+file:///workspace/main)",
                        "dependencies": [],
                        "deps": [],
                        "features": []
                    },
                    {
                        "id": "bare 0.1.0 (path+file:///workspace/bare)",
                        "dependencies": [],
                        "deps": [],
                        "features": []
                    }
                ],
                "root": null
            },
            "workspace_root": "/workspace",
            "target_directory": "/workspace/target",
            "version": 1,
            "metadata": null
        }"#,
    )
    .expect("the metadata is valid")
}

fn same_version(version: &Version, other: &semver::Version) -> bool {
    version.major == other.major
        && version.minor == other.minor
        && version.patch == other.patch
        && version.pre == other.pre.as_str()
        && version.build == other.build.as_str()
}

/// Every field must be carried over from the graph. The `CARGO_PKG_*`
/// environment variables tests observe are derived from these, so a
/// dropped field is a silent behavior change.
#[test]
fn from_package_metadata_preserves_fields() {
    for package in package_graph().packages() {
        let info = PackageInfo::from_package_metadata(&package);

        assert_eq!(info.id, package.id().repr(), "id matches");
        assert_eq!(info.name, package.name(), "name matches");
        assert!(
            same_version(&info.version, package.version()),
            "version matches"
        );
        assert_eq!(info.authors, package.authors(), "authors match");
        assert_eq!(
            info.description.as_deref(),
            package.description(),
            "description matches"
        );
        assert_eq!(
            info.homepage.as_deref(),
            package.homepage(),
            "homepage matches"
        );
        assert_eq!(
            info.license.as_deref(),
            package.license(),
            "license matches"
        );
        assert_eq!(
            info.license_file.as_deref(),
            package.license_file().map(|path| path.as_str()),
            "license file matches"
        );
        assert_eq!(
            info.repository.as_deref(),
            package.repository(),
            "repository matches"
        );
        assert_eq!(
            info.minimum_rust_version.is_some(),
            package.rust_version().is_some(),
            "minimum rust version matches"
        );
        if let (Some(version), Some(other)) = (&info.minimum_rust_version, package.rust_version()) {
            assert!(same_version(version, other), "minimum rust version matches");
        }
        assert_eq!(
            info.manifest_path,
            package.manifest_path().as_str(),
            "manifest path matches"
        );
    }
}

/// The fields, read off the fixture.
#[test]
fn fields_have_the_values_cargo_gave() {
    let graph = package_graph();
    let package = graph
        .metadata(&PackageId::new(MAIN_ID))
        .expect("the package is known");
    let info = PackageInfo::from_package_metadata(&package);
    assert_eq!(info.id, MAIN_ID);
    assert_eq!(info.name, "main-package");
    assert_eq!(
        (info.version.major, info.version.minor, info.version.patch),
        (1, 2, 3)
    );
    assert_eq!(info.version.pre, "beta.1");
    assert_eq!(info.version.build, "build");
    assert_eq!(info.authors, ["One <one@example.com>", "Two"]);
    assert_eq!(info.description.as_deref(), Some("A package"));
    assert_eq!(info.homepage.as_deref(), Some("https://example.com/"));
    assert_eq!(info.license.as_deref(), Some("MIT OR Apache-2.0"));
    assert_eq!(info.license_file.as_deref(), Some("LICENSE-EXTRA"));
    assert_eq!(
        info.repository.as_deref(),
        Some("https://example.com/repository")
    );
    assert_eq!(info.minimum_rust_version, Some(Version::new(1, 70, 2)));
    assert_eq!(info.manifest_path, "/workspace/main/Cargo.toml");
    assert_eq!(info.cwd(), "/workspace/main");
}

/// Test artifacts look packages up by ID, so the map must cover every
/// package a test binary could belong to, not just workspace members.
#[test]
fn map_from_graph_covers_every_package() {
    let graph = package_graph();
    let map = PackageInfo::map_from_graph(&graph);

    assert_eq!(
        map.len(),
        graph.package_count(),
        "map has an entry per package"
    );
    for package in graph.packages() {
        assert!(
            map.get(package.id().repr()).is_some(),
            "package {} is present in the map",
            package.id()
        );
    }
}

fn binary_list_naming(package_ids: &[&str]) -> BinaryList {
    BinaryList {
        rust_build_meta: RustBuildMeta {
            target_directory: "/fake".to_owned(),
            build_directory: "/fake".to_owned(),
            build_platforms: BuildPlatforms {
                host: Platform {
                    triple: "x86_64-unknown-linux-gnu".to_owned(),
                    libdir: Some("/fake/libdir".to_owned()),
                },
                target: None,
            },
        },
        rust_binaries: package_ids
            .iter()
            .enumerate()
            .map(|(index, package_id)| RustTestBinary {
                id: format!("binary-{index}"),
                path: format!("/fake/binary-{index}"),
                package_id: (*package_id).to_owned(),
                kind: "lib".to_owned(),
                name: format!("binary-{index}"),
                build_platform: BuildPlatform::Target,
                invocation: TestBinaryInvocation::empty(),
            })
            .collect(),
    }
}

/// The map must cover exactly the packages the binaries name, however many
/// binaries share one, and must not carry the rest of the graph along.
#[test]
fn map_from_binary_list_covers_named_packages_only() {
    let graph = package_graph();
    let map = PackageInfo::map_from_binary_list(&graph, &binary_list_naming(&[MAIN_ID, MAIN_ID]));

    assert_eq!(map.len(), 1, "the shared package is present once");
    assert!(map.get(MAIN_ID).is_some(), "the named package is present");
    assert!(
        graph.package_count() > 1,
        "the fixture has packages the binary does not name"
    );
}

/// A package ID the graph does not know is reported later against the binary
/// that named it, so building the map must not fail.
#[test]
fn map_from_binary_list_skips_unknown_packages() {
    let map = PackageInfo::map_from_binary_list(
        &package_graph(),
        &binary_list_naming(&["not-a-real-package 1.0.0 (path+file:///nowhere)"]),
    );

    assert!(map.is_empty(), "the unknown package is left out");
}

/// Tests run in the directory containing the manifest.
#[test]
fn cwd_is_the_manifest_directory() {
    for package in package_graph().packages() {
        let info = PackageInfo::from_package_metadata(&package);
        assert_eq!(
            info.cwd(),
            package
                .manifest_path()
                .parent()
                .expect("manifest path has a parent")
                .as_str(),
            "cwd is the manifest directory"
        );
        assert_eq!(info.checked_cwd(), Some(info.cwd()));
    }
}

#[test]
fn a_manifest_without_a_parent_has_no_directory() {
    let graph = package_graph();
    let package = graph
        .metadata(&PackageId::new(MAIN_ID))
        .expect("the package is known");
    let mut info = PackageInfo::from_package_metadata(&package);
    info.manifest_path = "/".to_owned();
    assert_eq!(info.checked_cwd(), None);
}
