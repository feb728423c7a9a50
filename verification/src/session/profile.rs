//! Profile evaluation, and what it prepares on disk.

use crate::binaries::BuildPlatforms;
use crate::session::errors::StoreDirCreateError;
use crate::session::input::EarlyProfile;
use vstd::prelude::*;

verus! {

/// A profile, with the platforms it runs on.
#[derive(Debug, Eq, PartialEq)]
pub struct EvaluatableProfile<'cfg> {
    /// The profile.
    pub profile: EarlyProfile,

    /// The platforms.
    pub build_platforms: &'cfg BuildPlatforms,
}

/// `dir` is a directory to create for a profile: its store directory, and only
/// where it writes a JUnit report.
pub open spec fn may_create(profile: EarlyProfile, dir: &str) -> bool {
    profile.has_junit && dir@ == profile.store_dir@
}

/// `result` is what creating a profile's store directory comes to.
pub open spec fn store_dir_outcome<C: FnOnce(&str) -> Result<(), std::io::Error>>(
    profile: EarlyProfile,
    create: C,
    result: Result<(), StoreDirCreateError>,
) -> bool {
    if profile.has_junit {
        exists|dir: &str, created: Result<(), std::io::Error>|
            {
                &&& dir@ == profile.store_dir@
                &&& #[trigger] create.ensures((dir,), created)
                &&& match created {
                    Ok(()) => result is Ok,
                    Err(error) => {
                        &&& result matches Err(failure)
                        &&& failure.store_dir@ == profile.store_dir@
                        &&& failure.error == error
                    },
                }
            }
    } else {
        result is Ok
    }
}

/// Creates the store directory if the profile writes a JUnit report, and nothing
/// otherwise.
///
/// `create` creates a directory and those above it, and is idempotent.
/// [`evaluate_profile`] calls this itself; it is also exposed on its own for a
/// frontend that wants the failure surfaced before doing more expensive work,
/// such as a build.
pub fn create_junit_store_dir<C: FnOnce(&str) -> Result<(), std::io::Error>>(
    profile: &EarlyProfile,
    create: C,
) -> (result: Result<(), StoreDirCreateError>)
    requires
        forall|dir: &str| may_create(*profile, dir) ==> #[trigger] create.requires((dir,)),
    ensures
        store_dir_outcome(*profile, create, result),
{
    if profile.has_junit {
        match create(profile.store_dir.as_str()) {
            Ok(()) => Ok(()),
            Err(error) => Err(
                StoreDirCreateError { store_dir: profile.store_dir.clone(), error },
            ),
        }
    } else {
        Ok(())
    }
}

/// Applies build platforms to a profile, making it evaluatable.
///
/// Also creates the profile's store directory if it writes a JUnit report, so
/// that the report does not fail at the end of the run for want of a
/// directory.
pub fn evaluate_profile<'cfg, C: FnOnce(&str) -> Result<(), std::io::Error>>(
    profile: EarlyProfile,
    build_platforms: &'cfg BuildPlatforms,
    create: C,
) -> (result: Result<EvaluatableProfile<'cfg>, StoreDirCreateError>)
    requires
        forall|dir: &str| may_create(profile, dir) ==> #[trigger] create.requires((dir,)),
    ensures
        exists|created: Result<(), StoreDirCreateError>|
            {
                &&& #[trigger] store_dir_outcome(profile, create, created)
                &&& match created {
                    Ok(()) => result == Ok::<EvaluatableProfile<'cfg>, StoreDirCreateError>(
                        EvaluatableProfile { profile, build_platforms },
                    ),
                    Err(failure) => result == Err::<EvaluatableProfile<'cfg>, StoreDirCreateError>(
                        failure,
                    ),
                }
            },
{
    match create_junit_store_dir(&profile, create) {
        Ok(()) => Ok(EvaluatableProfile { profile, build_platforms }),
        Err(failure) => Err(failure),
    }
}

/// What `create` does to a directory tree, whenever it is asked: a directory that
/// it says it created is there afterwards, with all that was there before, and one
/// that was there already is created without a change.
pub open spec fn creates_within<C: FnOnce(&str) -> Result<(), std::io::Error>>(
    create: C,
    before: Set<Seq<char>>,
    after: Set<Seq<char>>,
) -> bool {
    forall|dir: &str, created: Result<(), std::io::Error>| #[trigger]
        create.ensures((dir,), created) ==> {
            &&& created is Ok ==> after.contains(dir@) && before.subset_of(after)
            &&& before.contains(dir@) ==> created is Ok && after == before
        }
}

/// `after` is the directory tree that creating a profile's store directory leaves
/// of `before`: what `create` leaves where it is called, and else the same.
pub open spec fn leaves_tree<C: FnOnce(&str) -> Result<(), std::io::Error>>(
    profile: EarlyProfile,
    create: C,
    before: Set<Seq<char>>,
    after: Set<Seq<char>>,
) -> bool {
    if exists|dir: &str| may_create(profile, dir) {
        creates_within(create, before, after)
    } else {
        after == before
    }
}

/// Creating a profile's store directory is idempotent. Where it worked once, it
/// works again and changes nothing; the directory is there if the profile writes
/// a JUnit report, and if it does not, neither call creates anything, nor asks to.
pub proof fn law_creating_again_changes_nothing<
    C: FnOnce(&str) -> Result<(), std::io::Error>,
    D: FnOnce(&str) -> Result<(), std::io::Error>,
>(
    profile: EarlyProfile,
    create: C,
    create_again: D,
    before: Set<Seq<char>>,
    between: Set<Seq<char>>,
    after: Set<Seq<char>>,
    first: Result<(), StoreDirCreateError>,
    second: Result<(), StoreDirCreateError>,
)
    requires
        store_dir_outcome(profile, create, first),
        leaves_tree(profile, create, before, between),
        first is Ok,
        store_dir_outcome(profile, create_again, second),
        leaves_tree(profile, create_again, between, after),
    ensures
        second is Ok,
        after == between,
        profile.has_junit ==> after.contains(profile.store_dir@),
        !profile.has_junit ==> after == before,
        !profile.has_junit ==> forall|dir: &str| !#[trigger] may_create(profile, dir),
{
    if profile.has_junit {
        let (dir, _) = choose|dir: &str, created: Result<(), std::io::Error>|
            dir@ == profile.store_dir@ && #[trigger] create.ensures((dir,), created);
        assert(may_create(profile, dir));
    }
}

/// Only a profile that writes a JUnit report has a directory to create, and it is the
/// profile's own; a profile that could not have it created says which and why.
pub proof fn law_only_reports_need_a_directory<C: FnOnce(&str) -> Result<(), std::io::Error>>(
    profile: EarlyProfile,
    create: C,
    result: Result<(), StoreDirCreateError>,
    dir: &str,
)
    requires
        store_dir_outcome(profile, create, result),
    ensures
        may_create(profile, dir) <==> profile.has_junit && dir@ == profile.store_dir@,
        !profile.has_junit ==> result is Ok,
        result matches Err(failure) ==> failure.store_dir@ == profile.store_dir@,
        profile.has_junit ==> exists|asked: &str, created: Result<(), std::io::Error>|
            {
                &&& #[trigger] create.ensures((asked,), created)
                &&& asked@ == profile.store_dir@
                &&& created is Ok <==> result is Ok
                &&& created is Err ==> result->Err_0.error == created->Err_0
            },
{
    if profile.has_junit {
        let (asked, created) = choose|asked: &str, created: Result<(), std::io::Error>|
            {
                &&& asked@ == profile.store_dir@
                &&& #[trigger] create.ensures((asked,), created)
                &&& match created {
                    Ok(()) => result is Ok,
                    Err(error) => {
                        &&& result matches Err(failure)
                        &&& failure.store_dir@ == profile.store_dir@
                        &&& failure.error == error
                    },
                }
            };
        assert(create.ensures((asked,), created));
    }
}

} // verus!
