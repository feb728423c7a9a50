//! Finding the project root.

use buck2_nextest::errors::ExpectedError;
use buck2_nextest::project_root::{
    absolute_project_root, choose_root, current_dir, find_project_root, resolve, root_marker, PathError,
    RootMarker, BUCKCONFIG_FILE, BUCKROOT_FILE,
};
use camino::{Utf8Path, Utf8PathBuf};
use std::collections::BTreeSet;

/// Files that are said to exist, without there being any.
struct Files {
    paths: BTreeSet<Utf8PathBuf>,
}

impl Files {
    fn new() -> Self {
        Files {
            paths: BTreeSet::new(),
        }
    }

    fn touch(&mut self, dir: &Utf8Path, name: &str) {
        self.paths.insert(dir.join(name));
    }

    fn has(&self, path: &str) -> bool {
        self.paths.contains(Utf8Path::new(path))
    }
}

fn absolute(path: &str) -> Result<String, PathError> {
    let path = std::path::absolute(path).map_err(PathError::Io)?;
    Utf8PathBuf::try_from(path)
        .map(Utf8PathBuf::into_string)
        .map_err(PathError::NonUtf8)
}

fn unchanged(path: &str) -> Result<String, PathError> {
    Ok(path.to_owned())
}

#[test]
fn markers_are_ranked_by_how_much_they_say() {
    let temp = Utf8Path::new("/temp");
    let unmarked = temp.join("unmarked");
    let cell = temp.join("cell");
    let project = temp.join("project");

    let mut files = Files::new();
    files.touch(&cell, BUCKCONFIG_FILE);
    files.touch(&project, BUCKROOT_FILE);
    let has = |path: &str| files.has(path);

    assert_eq!(root_marker(unmarked.as_str(), &has), RootMarker::Unmarked);
    assert_eq!(root_marker(cell.as_str(), &has), RootMarker::Cell);
    assert_eq!(root_marker(project.as_str(), &has), RootMarker::Project);
    assert!(RootMarker::Project > RootMarker::Cell);
    assert!(RootMarker::Cell > RootMarker::Unmarked);
}

/// A `.buckroot` names the project outright, even with a cell between it
/// and where the walk started.
#[test]
fn the_nearest_buckroot_wins() {
    let root = Utf8Path::new("/temp").join("project");
    let cell = root.join("cell");
    let output = cell.join("buck-out/isolation");

    let mut files = Files::new();
    files.touch(&root, BUCKROOT_FILE);
    files.touch(&cell, BUCKCONFIG_FILE);
    let has = |path: &str| files.has(path);

    assert_eq!(
        find_project_root(output.as_str(), &has).as_deref(),
        Some(root.as_str())
    );
}

/// Without a `.buckroot`, the outermost cell is the best guess at the
/// project, since cells nest inside it.
#[test]
fn the_outermost_buckconfig_wins_without_a_buckroot() {
    let root = Utf8Path::new("/temp").join("project");
    let cell = root.join("cell");
    let output = cell.join("buck-out/isolation");

    let mut files = Files::new();
    files.touch(&root, BUCKCONFIG_FILE);
    files.touch(&cell, BUCKCONFIG_FILE);
    let has = |path: &str| files.has(path);

    assert_eq!(
        find_project_root(output.as_str(), &has).as_deref(),
        Some(root.as_str())
    );
}

#[test]
fn an_unmarked_tree_implies_nothing() {
    let output = Utf8Path::new("/temp").join("buck-out/isolation");
    let files = Files::new();
    let has = |path: &str| files.has(path);

    assert_eq!(find_project_root(output.as_str(), &has), None);
}

#[test]
fn a_relative_root_is_made_absolute() {
    let root = absolute_project_root(".", &absolute).expect("`.` is made absolute");
    assert!(Utf8Path::new(&root).is_absolute(), "got {root}");
}

/// A project outside the nearest one does not count, marked or not.
#[test]
fn an_outer_project_does_not_count() {
    let mut files = Files::new();
    files.touch(Utf8Path::new("/"), BUCKROOT_FILE);
    files.touch(Utf8Path::new("/a/b"), BUCKROOT_FILE);
    let has = |path: &str| files.has(path);
    assert_eq!(find_project_root("/a/b/c", &has).as_deref(), Some("/a/b"));
    assert_eq!(find_project_root("/a", &has).as_deref(), Some("/"));
}

#[test]
fn an_explicit_root_is_taken_at_its_word() {
    let mut files = Files::new();
    files.touch(Utf8Path::new("/work"), BUCKROOT_FILE);
    let has = |path: &str| files.has(path);

    let root = resolve(Some("/elsewhere"), "/work/sub", &has, &unchanged).expect("resolved");
    assert_eq!(root, "/elsewhere");
    let root = resolve(None, "/work/sub", &has, &unchanged).expect("resolved");
    assert_eq!(root, "/work");
    let root = resolve(None, "/other/sub", &has, &unchanged).expect("resolved");
    assert_eq!(root, "/other/sub");
}

#[test]
fn a_root_that_cannot_be_made_absolute_is_an_error() {
    let fails = |_: &str| -> Result<String, PathError> {
        Err(PathError::Io(std::io::Error::other("gone")))
    };
    let error = absolute_project_root("some/where", &fails).expect_err("it cannot be made absolute");
    assert!(
        matches!(&error, ExpectedError::ProjectRootAbsoluteError { path, .. } if path == "some/where")
    );
    assert_eq!(error.exit_code(), 96);

    let error = current_dir(|| Err(PathError::Io(std::io::Error::other("gone"))), &unchanged)
        .expect_err("there is no current directory");
    assert!(matches!(&error, ExpectedError::CurrentDirError { .. }));
    assert_eq!(error.exit_code(), 96);

    assert_eq!(
        current_dir(|| Ok("/here".to_owned()), &unchanged).expect("it is known"),
        "/here"
    );
}

/// What marks each directory, innermost first, settles which of them it is.
#[test]
fn the_markers_alone_settle_the_root() {
    let (unmarked, cell, project) = (RootMarker::Unmarked, RootMarker::Cell, RootMarker::Project);
    assert_eq!(choose_root(&vec![]), None);
    assert_eq!(choose_root(&vec![unmarked, unmarked]), None);
    assert_eq!(choose_root(&vec![unmarked, cell, unmarked, cell, unmarked]), Some(3));
    assert_eq!(choose_root(&vec![cell, project, cell, project]), Some(1));
    assert_eq!(choose_root(&vec![project]), Some(0));
}

/// The walk stops at the project: nothing beyond it is looked at.
#[test]
fn nothing_is_looked_at_beyond_the_project() {
    let looked = std::cell::RefCell::new(Vec::new());
    let has = |path: &str| {
        looked.borrow_mut().push(path.to_owned());
        path == "/a/.buckroot"
    };
    assert_eq!(find_project_root("/a/b", &has).as_deref(), Some("/a"));
    assert_eq!(
        looked.into_inner(),
        ["/a/b/.buckroot", "/a/b/.buckconfig", "/a/.buckroot"]
    );
}
