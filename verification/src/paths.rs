//! UTF-8 paths, in the path syntax of the platform this crate is built for.
//!
//! Paths are plain text here. What they mean is [`camino`]'s to say, so each
//! question about one is put to it.

use camino::Utf8Path;
use vstd::prelude::*;

verus! {

/// Whether `Utf8Path::is_absolute` holds of a path.
pub uninterp spec fn path_is_absolute(path: Seq<char>) -> bool;

/// What `Utf8Path::join` makes of a path and another adjoined to it.
pub uninterp spec fn path_join(base: Seq<char>, path: Seq<char>) -> Seq<char>;

/// What `Utf8Path::parent` gives for a path.
pub uninterp spec fn path_parent(path: Seq<char>) -> Option<Seq<char>>;

/// What `Utf8Path::file_name` gives for a path.
pub uninterp spec fn path_file_name(path: Seq<char>) -> Option<Seq<char>>;

/// The paths that `Utf8Path::ancestors` yields, nearest first.
pub uninterp spec fn path_ancestors(path: Seq<char>) -> Seq<Seq<char>>;

/// The text of each component that `Utf8Path::components` yields, in order.
pub uninterp spec fn path_components(path: Seq<char>) -> Seq<Seq<char>>;

/// Whether two paths are equal as `Utf8Path` compares them.
pub uninterp spec fn path_same(left: Seq<char>, right: Seq<char>) -> bool;

/// Calls `==` on `Utf8Path`: whether two paths have the same components. A path
/// is the same as itself.
#[verifier::external_body]
pub(crate) fn same(left: &str, right: &str) -> (same: bool)
    ensures
        same == path_same(left@, right@),
        left@ == right@ ==> same,
{
    Utf8Path::new(left) == Utf8Path::new(right)
}

/// Calls `Utf8Path::is_absolute`: whether the path is independent of the
/// current directory.
#[verifier::external_body]
pub(crate) fn is_absolute(path: &str) -> (absolute: bool)
    ensures
        absolute == path_is_absolute(path@),
{
    Utf8Path::new(path).is_absolute()
}

/// Calls `Utf8Path::join`: `path` adjoined to `base`. An absolute path replaces
/// what it is adjoined to.
#[verifier::external_body]
pub(crate) fn join(base: &str, path: &str) -> (joined: String)
    ensures
        joined@ == path_join(base@, path@),
        path_is_absolute(path@) ==> joined@ == path@,
{
    Utf8Path::new(base).join(path).into_string()
}

/// Calls `Utf8Path::parent`: the path without its final component, if it has
/// one.
#[verifier::external_body]
pub(crate) fn parent(path: &str) -> (parent: Option<String>)
    ensures
        crate::text::optional_text(parent) == path_parent(path@),
{
    Utf8Path::new(path).parent().map(|parent| parent.as_str().to_owned())
}

/// Calls `Utf8Path::file_name`: the final component of the path, if it has one
/// that names a file or directory.
#[verifier::external_body]
pub(crate) fn file_name(path: &str) -> (name: Option<String>)
    ensures
        crate::text::optional_text(name) == path_file_name(path@),
{
    Utf8Path::new(path).file_name().map(|name| name.to_owned())
}

/// Calls `Utf8Path::ancestors`: the path itself, its parent, and so on.
#[verifier::external_body]
pub(crate) fn ancestors(path: &str) -> (dirs: Vec<String>)
    ensures
        crate::text::texts(dirs@) == path_ancestors(path@),
        dirs@.len() > 0,
        dirs@[0]@ == path@,
{
    Utf8Path::new(path).ancestors().map(|dir| dir.as_str().to_owned()).collect()
}

/// Calls `Utf8Path::components`: the parts of the path between separators.
#[verifier::external_body]
pub(crate) fn components(path: &str) -> (parts: Vec<String>)
    ensures
        crate::text::texts(parts@) == path_components(path@),
{
    Utf8Path::new(path).components().map(|part| part.as_str().to_owned()).collect()
}

} // verus!
