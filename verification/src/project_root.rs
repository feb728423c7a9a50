//! Working out where the Buck2 project root is.
//!
//! Getting this right matters for everything that reads configuration or
//! reports paths: it is the directory `.config/nextest.toml` is looked up
//! under, the `NEXTEST_WORKSPACE_ROOT` tests see, and what the profile's store
//! directory hangs off.
//!
//! Under the internal runner this is usually settled before the walk starts.
//! `InternalRunnerTestInfo` defaults `run_from_project_root` to true, so Buck2
//! runs each action from the project root and the current directory already is
//! the answer. The walk is what confirms it, and what covers a rule that turns
//! that default off or a person running the binary by hand.

use crate::errors::ExpectedError;
use crate::paths::{self, path_ancestors, path_join};
use vstd::prelude::*;

verus! {

/// Marks the root of a Buck2 project.
pub const BUCKROOT_FILE: &'static str = ".buckroot";

/// Marks the root of a Buck2 cell. The project root is a cell root too, but
/// cells nest, so this on its own does not identify the project.
pub const BUCKCONFIG_FILE: &'static str = ".buckconfig";

/// How strongly a directory claims to be the Buck2 project root.
///
/// Ordered weakest to strongest, so that two candidates can be compared.
#[derive(Clone, Copy, Debug, Eq, Ord, PartialEq, PartialOrd, Structural)]
pub enum RootMarker {
    /// Nothing marks this directory.
    Unmarked,

    /// A `.buckconfig`: the root of some cell, which may or may not be the
    /// project.
    Cell,

    /// A `.buckroot`: the project root itself.
    Project,
}

/// `has_file` answers, for every path, whether it is one of `present`.
pub open spec fn answers<F: Fn(&str) -> bool>(has_file: F, present: Set<Seq<char>>) -> bool {
    forall|path: &str, answer: bool|
        #[trigger] has_file.ensures((path,), answer) ==> answer == present.contains(path@)
}

/// What marks `dir`, where `present` are the paths at which there is a file.
pub open spec fn marker_of(present: Set<Seq<char>>, dir: Seq<char>) -> RootMarker {
    if present.contains(path_join(dir, BUCKROOT_FILE@)) {
        RootMarker::Project
    } else if present.contains(path_join(dir, BUCKCONFIG_FILE@)) {
        RootMarker::Cell
    } else {
        RootMarker::Unmarked
    }
}

/// `has_file` said at some point whether the given file is in `dir`.
pub open spec fn said<F: Fn(&str) -> bool>(
    has_file: F,
    dir: Seq<char>,
    file: Seq<char>,
    answer: bool,
) -> bool {
    exists|path: &str|
        path@ == path_join(dir, file) && #[trigger] has_file.ensures((path,), answer)
}

/// `path` may be looked at to find out what marks `dir`.
pub open spec fn may_look<F: Fn(&str) -> bool>(
    has_file: F,
    dir: Seq<char>,
    path: Seq<char>,
) -> bool {
    ||| path == path_join(dir, BUCKROOT_FILE@)
    ||| path == path_join(dir, BUCKCONFIG_FILE@) && said(has_file, dir, BUCKROOT_FILE@, false)
}

/// `marker` is what `has_file` says marks `dir`: the file that marks a project
/// is looked for first, and the one that marks a cell only where it is missing.
pub open spec fn marks<F: Fn(&str) -> bool>(
    has_file: F,
    dir: Seq<char>,
    marker: RootMarker,
) -> bool {
    match marker {
        RootMarker::Project => said(has_file, dir, BUCKROOT_FILE@, true),
        RootMarker::Cell => {
            &&& said(has_file, dir, BUCKROOT_FILE@, false)
            &&& said(has_file, dir, BUCKCONFIG_FILE@, true)
        },
        RootMarker::Unmarked => {
            &&& said(has_file, dir, BUCKROOT_FILE@, false)
            &&& said(has_file, dir, BUCKCONFIG_FILE@, false)
        },
    }
}

/// Returns what, if anything, marks `dir` as a Buck2 root.
///
/// `has_file` says whether there is a file at a path. One that cannot be read is
/// to be reported as absent: this is only ever used to choose between
/// candidates that were derived some other way, so a wrong answer here costs
/// the disambiguation rather than the root itself.
pub fn root_marker<F: Fn(&str) -> bool>(dir: &str, has_file: &F) -> (marker: RootMarker)
    requires
        forall|path: &str|
            may_look(*has_file, dir@, path@) ==> #[trigger] has_file.requires((path,)),
    ensures
        marks(*has_file, dir@, marker),
        forall|present: Set<Seq<char>>|
            #[trigger] answers(*has_file, present) ==> marker == marker_of(present, dir@),
{
    if has_file(paths::join(dir, BUCKROOT_FILE).as_str()) {
        RootMarker::Project
    } else if has_file(paths::join(dir, BUCKCONFIG_FILE).as_str()) {
        RootMarker::Cell
    } else {
        RootMarker::Unmarked
    }
}

/// Where the project root is among directories listed innermost first, given
/// what marks them: at the first that is marked as the project, or else at the
/// last that is marked as a cell.
pub open spec fn best_marker(markers: Seq<RootMarker>) -> Option<int>
    decreases markers.len(),
{
    if markers.len() == 0 {
        None
    } else {
        let before = best_marker(markers.drop_last());
        if before matches Some(index) && markers[index] == RootMarker::Project {
            before
        } else if markers.last() == RootMarker::Unmarked {
            before
        } else {
            Some(markers.len() - 1)
        }
    }
}

/// Returns where the project root is among directories listed innermost first,
/// given what marks them.
///
/// The nearest `.buckroot` wins outright. Failing that, the outermost
/// `.buckconfig` does: cells nest, and the project encloses all of them.
pub fn choose_root(markers: &Vec<RootMarker>) -> (index: Option<usize>)
    ensures
        match index {
            Some(index) => best_marker(markers@) == Some(index as int),
            None => best_marker(markers@) is None,
        },
{
    let mut best: Option<usize> = None;
    let mut index: usize = 0;
    assert(markers@.subrange(0, 0) =~= Seq::<RootMarker>::empty());
    while index < markers.len()
        invariant
            index <= markers.len(),
            match best {
                Some(best) => best < index && best_marker(markers@.subrange(0, index as int))
                    == Some(best as int) && markers@[best as int] != RootMarker::Project,
                None => best_marker(markers@.subrange(0, index as int)) is None,
            },
        decreases markers.len() - index,
    {
        proof {
            let next = markers@.subrange(0, index + 1);
            assert(next.drop_last() =~= markers@.subrange(0, index as int));
            assert(next.last() == markers@[index as int]);
        }
        match markers[index] {
            RootMarker::Project => {
                proof {
                    lemma_project_settles_it(markers@, index as int);
                }
                return Some(index);
            },
            RootMarker::Cell => {
                best = Some(index);
            },
            RootMarker::Unmarked => {},
        }
        index += 1;
    }
    assert(markers@.subrange(0, index as int) =~= markers@);
    best
}

/// The project root lies within the directories it is looked for among.
proof fn lemma_best_is_within(markers: Seq<RootMarker>)
    ensures
        best_marker(markers) matches Some(index) ==> {
            &&& 0 <= index < markers.len()
            &&& markers[index] != RootMarker::Unmarked
        },
    decreases markers.len(),
{
    if markers.len() > 0 {
        lemma_best_is_within(markers.drop_last());
    }
}

/// Once the project is found, nothing further out changes that.
proof fn lemma_project_settles_it(markers: Seq<RootMarker>, index: int)
    requires
        0 <= index < markers.len(),
        markers[index] == RootMarker::Project,
        best_marker(markers.subrange(0, index + 1)) == Some(index),
    ensures
        best_marker(markers) == Some(index),
    decreases markers.len(),
{
    if index + 1 == markers.len() {
        assert(markers.subrange(0, index + 1) =~= markers);
    } else {
        assert(markers.drop_last().subrange(0, index + 1) =~= markers.subrange(0, index + 1));
        lemma_project_settles_it(markers.drop_last(), index);
    }
}

/// What marks each of some directories.
pub open spec fn markers_of(present: Set<Seq<char>>, dirs: Seq<Seq<char>>) -> Seq<RootMarker> {
    dirs.map_values(|dir: Seq<char>| marker_of(present, dir))
}

/// The project root among directories listed innermost first.
pub open spec fn root_among(present: Set<Seq<char>>, dirs: Seq<Seq<char>>) -> Option<Seq<char>> {
    match best_marker(markers_of(present, dirs)) {
        Some(index) => Some(dirs[index]),
        None => None,
    }
}

/// `markers` are what `has_file` says marks the first of some directories, none of
/// them as the project, so that there is reason to look further.
pub open spec fn climbs<F: Fn(&str) -> bool>(
    has_file: F,
    dirs: Seq<Seq<char>>,
    markers: Seq<RootMarker>,
) -> bool {
    &&& markers.len() < dirs.len()
    &&& forall|index: int|
        0 <= index < markers.len() ==> marks(has_file, dirs[index], #[trigger] markers[index])
    &&& forall|index: int|
        0 <= index < markers.len() ==> #[trigger] markers[index] != RootMarker::Project
}

/// What walking up some directories asks `has_file` may be asked: nothing is
/// looked at beyond the first that is marked as the project.
pub open spec fn walk_grants<F: Fn(&str) -> bool>(has_file: F, dirs: Seq<Seq<char>>) -> bool {
    forall|markers: Seq<RootMarker>, path: &str|
        #[trigger] climbs(has_file, dirs, markers) && may_look(
            has_file,
            dirs[markers.len() as int],
            path@,
        ) ==> #[trigger] has_file.requires((path,))
}

/// `markers` are what `has_file` says marks the first of some directories, as far
/// as the first that is marked as the project, or else all of them.
pub open spec fn walked<F: Fn(&str) -> bool>(
    has_file: F,
    dirs: Seq<Seq<char>>,
    markers: Seq<RootMarker>,
) -> bool {
    &&& markers.len() <= dirs.len()
    &&& forall|index: int|
        0 <= index < markers.len() ==> marks(has_file, dirs[index], #[trigger] markers[index])
    &&& forall|index: int|
        0 <= index < markers.len() - 1 ==> #[trigger] markers[index] != RootMarker::Project
    &&& markers.len() == dirs.len() || markers.len() > 0 && markers.last() == RootMarker::Project
}

/// `root` is the project root that `has_file` points to among directories listed
/// innermost first.
pub open spec fn finds<F: Fn(&str) -> bool>(
    has_file: F,
    dirs: Seq<Seq<char>>,
    root: Option<Seq<char>>,
) -> bool {
    exists|markers: Seq<RootMarker>| #[trigger]
        walked(has_file, dirs, markers) && root == match best_marker(markers) {
            Some(index) => Some(dirs[index]),
            None => None,
        }
}

/// Finds the project root by walking up from `start`.
///
/// The starting point is the directory the action runs in, which under
/// `run_from_project_root` is the project root itself -- so the common case
/// finds a marker on the first step and stops.
pub fn find_project_root<F: Fn(&str) -> bool>(start: &str, has_file: &F) -> (root: Option<String>)
    requires
        walk_grants(*has_file, path_ancestors(start@)),
    ensures
        finds(*has_file, path_ancestors(start@), crate::text::optional_text(root)),
        root matches Some(root) ==> path_ancestors(start@).contains(root@),
        forall|present: Set<Seq<char>>|
            #[trigger] answers(*has_file, present) ==> crate::text::optional_text(root)
                == root_among(present, path_ancestors(start@)),
{
    let dirs: Vec<String> = paths::ancestors(start);
    let ghost all = crate::text::texts(dirs@);
    let mut markers: Vec<RootMarker> = Vec::new();
    let mut found = false;
    while markers.len() < dirs.len() && !found
        invariant
            markers.len() <= dirs.len(),
            all == crate::text::texts(dirs@),
            all == path_ancestors(start@),
            walk_grants(*has_file, path_ancestors(start@)),
            forall|index: int|
                0 <= index < markers@.len() ==> marks(
                    *has_file,
                    all[index],
                    #[trigger] markers@[index],
                ),
            forall|present: Set<Seq<char>>| #[trigger]
                answers(*has_file, present) ==> markers@ == markers_of(present, all).subrange(
                    0,
                    markers@.len() as int,
                ),
            found ==> markers@.len() > 0 && markers@.last() == RootMarker::Project,
            forall|index: int|
                0 <= index < markers@.len() - 1 ==> #[trigger] markers@[index]
                    != RootMarker::Project,
            !found && markers@.len() > 0 ==> markers@.last() != RootMarker::Project,
        decreases dirs.len() - markers.len(),
    {
        let ghost before = markers@;
        assert(all[before.len() as int] == dirs@[before.len() as int]@);
        assert(climbs(*has_file, path_ancestors(start@), before)) by {
            assert forall|index: int| 0 <= index < before.len() implies #[trigger] before[index]
                != RootMarker::Project by {
                if index == before.len() - 1 {
                    assert(before.last() == before[index]);
                }
            }
        }
        let marker = root_marker(dirs[markers.len()].as_str(), has_file);
        markers.push(marker);
        found = matches!(marker, RootMarker::Project);
        proof {
            assert forall|present: Set<Seq<char>>| #[trigger]
                answers(*has_file, present) implies markers@ == markers_of(present, all).subrange(
                0,
                markers@.len() as int,
            ) by {
                assert(markers_of(present, all)[before.len() as int] == marker);
                assert(markers@ =~= markers_of(present, all).subrange(0, markers@.len() as int));
            }
            assert forall|index: int| 0 <= index < markers@.len() - 1 implies
                #[trigger] markers@[index] != RootMarker::Project by {
                assert(markers@[index] == before[index]);
            }
        }
    }
    assert(walked(*has_file, path_ancestors(start@), markers@));
    let chosen = choose_root(&markers);
    proof {
        lemma_best_is_within(markers@);
        assert forall|present: Set<Seq<char>>| #[trigger]
            answers(*has_file, present) implies best_marker(markers_of(present, all))
            == best_marker(markers@) by {
            let whole = markers_of(present, all);
            if found {
                lemma_first_project_is_best(markers@);
                lemma_project_settles_it(whole, markers@.len() - 1);
            } else {
                assert(whole.subrange(0, whole.len() as int) =~= whole);
            }
        }
    }
    match chosen {
        Some(index) => {
            assert(all[index as int] == dirs@[index as int]@);
            Some(dirs[index].clone())
        },
        None => None,
    }
}

/// A project that comes last, with none before it, is the project root.
proof fn lemma_first_project_is_best(markers: Seq<RootMarker>)
    requires
        markers.len() > 0,
        markers.last() == RootMarker::Project,
        forall|index: int|
            0 <= index < markers.len() - 1 ==> #[trigger] markers[index] != RootMarker::Project,
    ensures
        best_marker(markers) == Some(markers.len() - 1),
{
    lemma_best_is_within(markers.drop_last());
}

/// Why the system gave no usable path.
#[derive(Debug)]
pub enum PathError {
    /// The system could not give one.
    Io(std::io::Error),

    /// The path it gave is not valid UTF-8.
    NonUtf8(camino::FromPathBufError),
}

/// `made` is reported as `result` for a project root that was given as `path`.
pub open spec fn absolute_outcome(
    path: Seq<char>,
    made: Result<String, PathError>,
    result: Result<String, ExpectedError>,
) -> bool {
    match made {
        Ok(absolute) => result == Ok::<String, ExpectedError>(absolute),
        Err(PathError::Io(error)) => {
            &&& result matches Err(ExpectedError::ProjectRootAbsoluteError {
                path: given,
                error: source,
            })
            &&& given@ == path
            &&& source == error
        },
        Err(PathError::NonUtf8(error)) => {
            &&& result matches Err(ExpectedError::ProjectRootNonUtf8 { path: given, error: source })
            &&& given@ == path
            &&& source == error
        },
    }
}

/// Makes a project root absolute, so that everything derived from it is too.
///
/// Nextest passes the project root to each test process as
/// `NEXTEST_WORKSPACE_ROOT`, and the directory the test runs in as
/// `CARGO_MANIFEST_DIR`. A test resolves neither against the project: it runs
/// somewhere within it, so a relative root -- such as a bare `.` -- would name
/// wherever the test happens to be instead. `cargo-nextest` guarantees both are
/// absolute, and so does this.
///
/// Symlinks are to be left alone by `absolute`: a project root is stated rather
/// than discovered, and resolving one would leave these paths naming a place
/// that whoever stated it did not.
pub fn absolute_project_root<A: Fn(&str) -> Result<String, PathError>>(
    path: &str,
    absolute: &A,
) -> (root: Result<String, ExpectedError>)
    requires
        absolute.requires((path,)),
    ensures
        exists|made: Result<String, PathError>|
            #[trigger] absolute.ensures((path,), made) && absolute_outcome(path@, made, root),
{
    let made = absolute(path);
    match made {
        Ok(absolute) => Ok(absolute),
        Err(PathError::Io(error)) => Err(
            ExpectedError::ProjectRootAbsoluteError { path: path.to_owned(), error },
        ),
        Err(PathError::NonUtf8(error)) => Err(
            ExpectedError::ProjectRootNonUtf8 { path: path.to_owned(), error },
        ),
    }
}

/// `start` is the directory taken for the project root, before it is made
/// absolute.
pub open spec fn chosen<F: Fn(&str) -> bool>(
    explicit: Option<Seq<char>>,
    cwd: Seq<char>,
    has_file: F,
    start: Seq<char>,
) -> bool {
    match explicit {
        Some(path) => start == path,
        None => {
            &&& exists|root: Option<Seq<char>>| #[trigger]
                finds(has_file, path_ancestors(cwd), root) && start == match root {
                    Some(root) => root,
                    None => cwd,
                }
            &&& start == cwd || path_ancestors(cwd).contains(start)
            &&& forall|present: Set<Seq<char>>| #[trigger]
                answers(has_file, present) ==> start == match root_among(
                    present,
                    path_ancestors(cwd),
                ) {
                    Some(root) => root,
                    None => cwd,
                }
        },
    }
}

/// Settles on the project root for this invocation.
///
/// An explicit `--project-root` is taken at its word. Otherwise the current
/// directory is where the walk starts, and stands in for the root if nothing
/// along the way is marked -- which leaves nextest reading configuration from
/// the same place a person running `cargo nextest run` there would.
pub fn resolve<F: Fn(&str) -> bool, A: Fn(&str) -> Result<String, PathError>>(
    explicit: Option<&str>,
    cwd: &str,
    has_file: &F,
    absolute: &A,
) -> (root: Result<String, ExpectedError>)
    requires
        explicit is None ==> walk_grants(*has_file, path_ancestors(cwd@)),
        forall|start: &str|
            chosen(
                match explicit {
                    Some(path) => Some(path@),
                    None => None,
                },
                cwd@,
                *has_file,
                start@,
            ) ==> #[trigger] absolute.requires((start,)),
    ensures
        exists|start: &str, made: Result<String, PathError>|
            {
                &&& #[trigger] absolute.ensures((start,), made)
                &&& absolute_outcome(start@, made, root)
                &&& chosen(
                    match explicit {
                        Some(path) => Some(path@),
                        None => None,
                    },
                    cwd@,
                    *has_file,
                    start@,
                )
            },
{
    match explicit {
        Some(path) => absolute_project_root(path, absolute),
        None => match find_project_root(cwd, has_file) {
            Some(root) => absolute_project_root(root.as_str(), absolute),
            None => absolute_project_root(cwd, absolute),
        },
    }
}

/// `read` and `made` are reported as `result` for the current directory.
pub open spec fn current_dir_outcome<A: Fn(&str) -> Result<String, PathError>>(
    read: Result<String, PathError>,
    absolute: A,
    result: Result<String, ExpectedError>,
) -> bool {
    match read {
        Ok(cwd) => exists|path: &str, made: Result<String, PathError>|
            {
                &&& path@ == cwd@
                &&& #[trigger] absolute.ensures((path,), made)
                &&& absolute_outcome(cwd@, made, result)
            },
        Err(PathError::Io(error)) => result == Err::<String, ExpectedError>(
            ExpectedError::CurrentDirError { error },
        ),
        Err(PathError::NonUtf8(error)) => result == Err::<String, ExpectedError>(
            ExpectedError::CurrentDirNonUtf8 { error },
        ),
    }
}

/// Returns the directory Buck2 ran this action in, as a UTF-8 absolute path.
pub fn current_dir<
    R: FnOnce() -> Result<String, PathError>,
    A: Fn(&str) -> Result<String, PathError>,
>(read: R, absolute: &A) -> (cwd: Result<String, ExpectedError>)
    requires
        read.requires(()),
        forall|cwd: String, path: &str|
            #[trigger] read.ensures((), Ok::<String, PathError>(cwd)) && path@ == cwd@
                ==> #[trigger] absolute.requires((path,)),
    ensures
        exists|answer: Result<String, PathError>|
            #[trigger] read.ensures((), answer) && current_dir_outcome(answer, *absolute, cwd),
{
    let answer = read();
    match answer {
        Ok(cwd) => absolute_project_root(cwd.as_str(), absolute),
        Err(PathError::Io(error)) => Err(ExpectedError::CurrentDirError { error }),
        Err(PathError::NonUtf8(error)) => Err(ExpectedError::CurrentDirNonUtf8 { error }),
    }
}

/// The nearest directory marked as the project wins outright, whatever cells
/// lie between it and where the walk started.
pub proof fn law_nearest_project_wins(present: Set<Seq<char>>, dirs: Seq<Seq<char>>, nearest: int)
    requires
        0 <= nearest < dirs.len(),
        marker_of(present, dirs[nearest]) == RootMarker::Project,
        forall|nearer: int|
            0 <= nearer < nearest ==> marker_of(present, #[trigger] dirs[nearer])
                != RootMarker::Project,
    ensures
        root_among(present, dirs) == Some(dirs[nearest]),
{
    let markers = markers_of(present, dirs);
    let upto = markers.subrange(0, nearest + 1);
    assert forall|index: int| 0 <= index < upto.len() - 1 implies #[trigger] upto[index]
        != RootMarker::Project by {
        assert(upto[index] == marker_of(present, dirs[index]));
    }
    assert(upto.last() == marker_of(present, dirs[nearest]));
    lemma_first_project_is_best(upto);
    lemma_project_settles_it(markers, nearest);
}

/// Without a directory marked as the project, the outermost cell stands for it,
/// since cells nest inside it.
pub proof fn law_outermost_cell_wins(present: Set<Seq<char>>, dirs: Seq<Seq<char>>, outermost: int)
    requires
        forall|index: int|
            0 <= index < dirs.len() ==> marker_of(present, #[trigger] dirs[index])
                != RootMarker::Project,
        0 <= outermost < dirs.len(),
        marker_of(present, dirs[outermost]) == RootMarker::Cell,
        forall|outer: int|
            outermost < outer < dirs.len() ==> marker_of(present, #[trigger] dirs[outer])
                == RootMarker::Unmarked,
    ensures
        root_among(present, dirs) == Some(dirs[outermost]),
    decreases dirs.len(),
{
    let markers = markers_of(present, dirs);
    let inner = dirs.drop_last();
    assert(markers_of(present, inner) =~= markers.drop_last());
    assert(markers.last() == marker_of(present, dirs[dirs.len() - 1]));
    lemma_best_is_within(markers.drop_last());
    assert(best_marker(markers.drop_last()) matches Some(index) ==> markers[index]
        == marker_of(present, dirs[index]));
    if outermost < dirs.len() - 1 {
        assert forall|index: int| 0 <= index < inner.len() implies marker_of(
            present,
            #[trigger] inner[index],
        ) != RootMarker::Project by {
            assert(inner[index] == dirs[index]);
        }
        assert forall|outer: int| outermost < outer < inner.len() implies marker_of(
            present,
            #[trigger] inner[outer],
        ) == RootMarker::Unmarked by {
            assert(inner[outer] == dirs[outer]);
        }
        law_outermost_cell_wins(present, inner, outermost);
    }
}

/// No directory stands for the project exactly if none is marked.
pub proof fn law_no_marker_no_root(present: Set<Seq<char>>, dirs: Seq<Seq<char>>)
    ensures
        root_among(present, dirs) is None <==> forall|index: int|
            0 <= index < dirs.len() ==> marker_of(present, #[trigger] dirs[index])
                == RootMarker::Unmarked,
    decreases dirs.len(),
{
    if dirs.len() > 0 {
        let markers = markers_of(present, dirs);
        let inner = dirs.drop_last();
        assert(markers_of(present, inner) =~= markers.drop_last());
        assert(markers.last() == marker_of(present, dirs[dirs.len() - 1]));
        law_no_marker_no_root(present, inner);
        if forall|index: int|
            0 <= index < dirs.len() ==> marker_of(present, #[trigger] dirs[index])
                == RootMarker::Unmarked {
            assert forall|index: int| 0 <= index < inner.len() implies marker_of(
                present,
                #[trigger] inner[index],
            ) == RootMarker::Unmarked by {
                assert(inner[index] == dirs[index]);
            }
        }
        if root_among(present, dirs) is None {
            assert forall|index: int| 0 <= index < dirs.len() implies marker_of(
                present,
                #[trigger] dirs[index],
            ) == RootMarker::Unmarked by {
                if index < inner.len() {
                    assert(inner[index] == dirs[index]);
                }
            }
        }
    }
}

/// A directory is the project's where there is a `.buckroot` in it, a cell's where
/// there is only a `.buckconfig`, and nothing's where there is neither.
pub proof fn law_files_mark_directories(present: Set<Seq<char>>, dir: Seq<char>)
    ensures
        marker_of(present, dir) == RootMarker::Project <==> present.contains(
            path_join(dir, ".buckroot"@),
        ),
        marker_of(present, dir) == RootMarker::Cell <==> present.contains(
            path_join(dir, ".buckconfig"@),
        ) && !present.contains(path_join(dir, ".buckroot"@)),
        marker_of(present, dir) == RootMarker::Unmarked <==> !present.contains(
            path_join(dir, ".buckconfig"@),
        ) && !present.contains(path_join(dir, ".buckroot"@)),
{
}

/// What is read off the answers about files is what those files mark.
pub proof fn law_answers_tell_what_marks_a_directory<F: Fn(&str) -> bool>(
    has_file: F,
    present: Set<Seq<char>>,
    dir: Seq<char>,
    marker: RootMarker,
)
    requires
        answers(has_file, present),
        marks(has_file, dir, marker),
    ensures
        marker == RootMarker::Project <==> present.contains(path_join(dir, ".buckroot"@)),
        marker == RootMarker::Cell ==> present.contains(path_join(dir, ".buckconfig"@)),
        marker == RootMarker::Unmarked ==> !present.contains(path_join(dir, ".buckconfig"@)),
{
}

/// The file that marks a project may always be looked for, the one that marks a cell
/// exactly where the other was said to be missing, and no other file at all.
pub proof fn law_only_markers_are_looked_for<F: Fn(&str) -> bool>(
    has_file: F,
    dir: Seq<char>,
    path: Seq<char>,
)
    ensures
        may_look(has_file, dir, path) <==> {
            ||| path == path_join(dir, ".buckroot"@)
            ||| path == path_join(dir, ".buckconfig"@) && exists|asked: &str|
                asked@ == path_join(dir, ".buckroot"@) && #[trigger] has_file.ensures(
                    (asked,),
                    false,
                )
        },
{
}

/// Looking stops at the project: nothing beyond the first directory that has a
/// `.buckroot` need be there to be looked at.
pub proof fn law_looking_stops_at_the_project<F: Fn(&str) -> bool>(
    has_file: F,
    present: Set<Seq<char>>,
    dirs: Seq<Seq<char>>,
    nearest: int,
)
    requires
        answers(has_file, present),
        0 <= nearest < dirs.len(),
        present.contains(path_join(dirs[nearest], ".buckroot"@)),
        forall|path: &str, index: int|
            0 <= index <= nearest && (path@ == path_join(#[trigger] dirs[index], ".buckroot"@)
                || path@ == path_join(dirs[index], ".buckconfig"@)) ==> #[trigger] has_file.requires(
                (path,),
            ),
    ensures
        walk_grants(has_file, dirs),
{
    assert forall|markers: Seq<RootMarker>, path: &str|
        #[trigger] climbs(has_file, dirs, markers) && may_look(
            has_file,
            dirs[markers.len() as int],
            path@,
        ) implies #[trigger] has_file.requires((path,)) by {
        if markers.len() > nearest {
            assert(marks(has_file, dirs[nearest], markers[nearest]));
            law_answers_tell_what_marks_a_directory(
                has_file,
                present,
                dirs[nearest],
                markers[nearest],
            );
            assert(markers[nearest] != RootMarker::Project);
        }
        assert(path@ == path_join(dirs[markers.len() as int], ".buckroot"@) || path@ == path_join(
            dirs[markers.len() as int],
            ".buckconfig"@,
        ));
    }
}

/// The root that the answers about files lead to is the one that those files mark.
pub proof fn law_walking_finds_the_marked_root<F: Fn(&str) -> bool>(
    has_file: F,
    present: Set<Seq<char>>,
    dirs: Seq<Seq<char>>,
    root: Option<Seq<char>>,
)
    requires
        answers(has_file, present),
        finds(has_file, dirs, root),
    ensures
        root == root_among(present, dirs),
{
    let markers = choose|markers: Seq<RootMarker>| #[trigger]
        walked(has_file, dirs, markers) && root == match best_marker(markers) {
            Some(index) => Some(dirs[index]),
            None => None,
        };
    let whole = markers_of(present, dirs);
    assert forall|index: int| 0 <= index < markers.len() implies #[trigger] markers[index]
        == whole[index] by {
        assert(marks(has_file, dirs[index], markers[index]));
        law_answers_tell_what_marks_a_directory(has_file, present, dirs[index], markers[index]);
        law_files_mark_directories(present, dirs[index]);
    }
    assert(markers =~= whole.subrange(0, markers.len() as int));
    if markers.len() > 0 && markers.last() == RootMarker::Project {
        lemma_first_project_is_best(markers);
        assert(whole[markers.len() - 1] == markers[markers.len() - 1]);
        lemma_project_settles_it(whole, markers.len() - 1);
    } else {
        assert(whole.subrange(0, whole.len() as int) =~= whole);
    }
}

/// Among directories listed innermost first, the root is the first with a
/// `.buckroot`, whatever else there is.
pub proof fn law_the_nearest_buckroot_is_the_root(
    present: Set<Seq<char>>,
    dirs: Seq<Seq<char>>,
    nearest: int,
)
    requires
        0 <= nearest < dirs.len(),
        present.contains(path_join(dirs[nearest], ".buckroot"@)),
        forall|nearer: int|
            0 <= nearer < nearest ==> !present.contains(
                path_join(#[trigger] dirs[nearer], ".buckroot"@),
            ),
    ensures
        root_among(present, dirs) == Some(dirs[nearest]),
{
    assert forall|nearer: int| 0 <= nearer < nearest implies marker_of(
        present,
        #[trigger] dirs[nearer],
    ) != RootMarker::Project by {
        law_files_mark_directories(present, dirs[nearer]);
    }
    law_nearest_project_wins(present, dirs, nearest);
}

/// Where there is no `.buckroot`, the root is the last directory with a
/// `.buckconfig`.
pub proof fn law_the_outermost_buckconfig_is_the_root(
    present: Set<Seq<char>>,
    dirs: Seq<Seq<char>>,
    outermost: int,
)
    requires
        forall|index: int|
            0 <= index < dirs.len() ==> !present.contains(
                path_join(#[trigger] dirs[index], ".buckroot"@),
            ),
        0 <= outermost < dirs.len(),
        present.contains(path_join(dirs[outermost], ".buckconfig"@)),
        forall|outer: int|
            outermost < outer < dirs.len() ==> !present.contains(
                path_join(#[trigger] dirs[outer], ".buckconfig"@),
            ),
    ensures
        root_among(present, dirs) == Some(dirs[outermost]),
{
    assert forall|index: int| 0 <= index < dirs.len() implies marker_of(
        present,
        #[trigger] dirs[index],
    ) != RootMarker::Project by {
        law_files_mark_directories(present, dirs[index]);
    }
    assert forall|outer: int| outermost < outer < dirs.len() implies marker_of(
        present,
        #[trigger] dirs[outer],
    ) == RootMarker::Unmarked by {
        law_files_mark_directories(present, dirs[outer]);
    }
    law_outermost_cell_wins(present, dirs, outermost);
}

/// Where no directory has either file, there is no root.
pub proof fn law_no_files_no_root(present: Set<Seq<char>>, dirs: Seq<Seq<char>>)
    requires
        forall|index: int|
            0 <= index < dirs.len() ==> !present.contains(
                path_join(#[trigger] dirs[index], ".buckroot"@),
            ) && !present.contains(path_join(dirs[index], ".buckconfig"@)),
    ensures
        root_among(present, dirs) is None,
{
    assert forall|index: int| 0 <= index < dirs.len() implies marker_of(
        present,
        #[trigger] dirs[index],
    ) == RootMarker::Unmarked by {
        law_files_mark_directories(present, dirs[index]);
    }
    law_no_marker_no_root(present, dirs);
}

/// Given what marks some directories, the root is at the first that is marked as the
/// project; where none is, at the last that is marked as a cell; and nowhere where
/// none is marked.
pub proof fn law_the_best_marker_is_chosen(markers: Seq<RootMarker>, at: int)
    requires
        0 <= at < markers.len(),
    ensures
        markers[at] == RootMarker::Project && (forall|nearer: int|
            0 <= nearer < at ==> #[trigger] markers[nearer] != RootMarker::Project)
            ==> best_marker(markers) == Some(at),
        markers[at] == RootMarker::Cell && (forall|index: int|
            0 <= index < markers.len() ==> #[trigger] markers[index] != RootMarker::Project) && (
        forall|outer: int|
            at < outer < markers.len() ==> #[trigger] markers[outer] == RootMarker::Unmarked)
            ==> best_marker(markers) == Some(at),
        best_marker(markers) is None ==> markers[at] == RootMarker::Unmarked,
    decreases markers.len(),
{
    let rest = markers.drop_last();
    lemma_best_is_within(rest);
    if at < rest.len() {
        law_the_best_marker_is_chosen(rest, at);
        assert(rest[at] == markers[at]);
        assert(forall|index: int|
            0 <= index < rest.len() ==> #[trigger] rest[index] == markers[index]);
        if markers[at] == RootMarker::Cell && (forall|outer: int|
            at < outer < markers.len() ==> #[trigger] markers[outer] == RootMarker::Unmarked) {
            assert(markers[markers.len() - 1] == RootMarker::Unmarked);
        }
    } else {
        assert(forall|index: int|
            0 <= index < rest.len() ==> #[trigger] rest[index] == markers[index]);
        if best_marker(rest) is Some {
            assert(rest[best_marker(rest)->0] == markers[best_marker(rest)->0]);
        }
    }
}

/// A root that was named is taken, whatever files there are; where none was, it is
/// looked for from the current directory outwards, which stands in if nothing is
/// marked.
pub proof fn law_named_roots_come_first<F: Fn(&str) -> bool>(
    explicit: Option<Seq<char>>,
    cwd: Seq<char>,
    has_file: F,
    present: Set<Seq<char>>,
    start: Seq<char>,
)
    requires
        answers(has_file, present),
        chosen(explicit, cwd, has_file, start),
    ensures
        explicit matches Some(path) ==> start == path,
        explicit is None && (forall|index: int|
            0 <= index < path_ancestors(cwd).len() ==> !present.contains(
                path_join(#[trigger] path_ancestors(cwd)[index], ".buckroot"@),
            ) && !present.contains(path_join(path_ancestors(cwd)[index], ".buckconfig"@)))
            ==> start == cwd,
        explicit is None ==> forall|nearest: int|
            0 <= nearest < path_ancestors(cwd).len() && present.contains(
                path_join(#[trigger] path_ancestors(cwd)[nearest], ".buckroot"@),
            ) && (forall|nearer: int|
                0 <= nearer < nearest ==> !present.contains(
                    path_join(#[trigger] path_ancestors(cwd)[nearer], ".buckroot"@),
                )) ==> start == path_ancestors(cwd)[nearest],
{
    let dirs = path_ancestors(cwd);
    if explicit is None {
        if forall|index: int|
            0 <= index < dirs.len() ==> !present.contains(
                path_join(#[trigger] dirs[index], ".buckroot"@),
            ) && !present.contains(path_join(dirs[index], ".buckconfig"@)) {
            law_no_files_no_root(present, dirs);
        }
        assert forall|nearest: int|
            0 <= nearest < dirs.len() && present.contains(
                path_join(#[trigger] dirs[nearest], ".buckroot"@),
            ) && (forall|nearer: int|
                0 <= nearer < nearest ==> !present.contains(
                    path_join(#[trigger] dirs[nearer], ".buckroot"@),
                )) implies start == dirs[nearest] by {
            law_the_nearest_buckroot_is_the_root(present, dirs, nearest);
        }
    }
}

/// A root that could be made absolute is what came of that; one that could not is
/// named in the error, along with why.
pub proof fn law_roots_are_made_absolute(
    path: Seq<char>,
    made: Result<String, PathError>,
    result: Result<String, ExpectedError>,
)
    requires
        absolute_outcome(path, made, result),
    ensures
        result is Ok <==> made is Ok,
        made matches Ok(absolute) ==> result == Ok::<String, ExpectedError>(absolute),
        made matches Err(PathError::Io(error)) ==> (result matches Err(
            ExpectedError::ProjectRootAbsoluteError { path: given, error: source },
        ) && given@ == path && source == error),
        made matches Err(PathError::NonUtf8(error)) ==> (result matches Err(
            ExpectedError::ProjectRootNonUtf8 { path: given, error: source },
        ) && given@ == path && source == error),
{
}

/// The current directory is the one that was read, made absolute; where it could not
/// be read, the error says so and why.
pub proof fn law_the_current_directory_is_made_absolute<
    A: Fn(&str) -> Result<String, PathError>,
>(read: Result<String, PathError>, absolute: A, result: Result<String, ExpectedError>)
    requires
        current_dir_outcome(read, absolute, result),
    ensures
        read matches Ok(cwd) ==> exists|path: &str, made: Result<String, PathError>|
            {
                &&& #[trigger] absolute.ensures((path,), made)
                &&& path@ == cwd@
                &&& result is Ok <==> made is Ok
                &&& made matches Ok(dir) ==> result == Ok::<String, ExpectedError>(dir)
            },
        read matches Err(PathError::Io(error)) ==> result == Err::<String, ExpectedError>(
            ExpectedError::CurrentDirError { error },
        ),
        read matches Err(PathError::NonUtf8(error)) ==> result == Err::<String, ExpectedError>(
            ExpectedError::CurrentDirNonUtf8 { error },
        ),
{
    if let Ok(cwd) = read {
        let (path, made) = choose|path: &str, made: Result<String, PathError>|
            {
                &&& path@ == cwd@
                &&& #[trigger] absolute.ensures((path,), made)
                &&& absolute_outcome(cwd@, made, result)
            };
        assert(absolute.ensures((path,), made));
    }
}

} // verus!
