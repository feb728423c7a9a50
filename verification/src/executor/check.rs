//! Checking over what Buck2's answers amount to.

use crate::errors::ExpectedError;
use crate::executor::prepare::PreparedTarget;
use crate::executor::spec::{Buck2TestTarget, ConfiguredTargetHandle};
use crate::paths::{self, path_same};
use crate::string_map::StringMap;
use crate::text::optional_text;
use vstd::prelude::*;

verus! {

/// What Buck2's answers amount to, once checked over.
#[derive(Debug, Eq, PartialEq)]
pub struct PreparedTargets {
    /// The targets, in order.
    pub targets: Vec<Buck2TestTarget>,

    /// The handle to report each binary's results against.
    ///
    /// The binary ID is the target's label.
    pub handles: StringMap<ConfiguredTargetHandle>,

    /// The project root the answers imply, if they implied one.
    ///
    /// Buck2 does not pass the root to the executor; see
    /// [`project_root_from`](crate::executor::prepare::project_root_from) for
    /// how it is worked out and why.
    pub project_root: Option<String>,
}

/// The first project root that some targets imply.
pub open spec fn first_root(prepared: Seq<PreparedTarget>) -> Option<Seq<char>>
    decreases prepared.len(),
{
    if prepared.len() == 0 {
        None
    } else {
        match first_root(prepared.drop_last()) {
            Some(root) => Some(root),
            None => optional_text(prepared.last().project_root),
        }
    }
}

/// The handles of some targets, by label.
pub open spec fn handles_of(prepared: Seq<PreparedTarget>) -> Map<Seq<char>, ConfiguredTargetHandle>
    decreases prepared.len(),
{
    if prepared.len() == 0 {
        Map::empty()
    } else {
        handles_of(prepared.drop_last()).insert(
            prepared.last().target.label@,
            prepared.last().handle,
        )
    }
}

/// Another target before the one at `index` has its label.
pub open spec fn repeats_label(prepared: Seq<PreparedTarget>, index: int) -> bool {
    exists|earlier: int|
        0 <= earlier < index && #[trigger] prepared[earlier].target.label@
            == prepared[index].target.label@
}

/// The target at `index` implies another root than those before it.
pub open spec fn disagrees(prepared: Seq<PreparedTarget>, index: int) -> bool {
    match (
        first_root(prepared.subrange(0, index)),
        optional_text(prepared[index].project_root),
    ) {
        (Some(root), Some(implied)) => root != implied && !path_same(root, implied),
        _ => false,
    }
}

/// The target at `index` is one the run can use, given those before it.
pub open spec fn usable_at(prepared: Seq<PreparedTarget>, index: int) -> bool {
    !repeats_label(prepared, index) && !disagrees(prepared, index)
}

/// `error` says why the target at `index` cannot be used.
pub open spec fn rejects_at(
    prepared: Seq<PreparedTarget>,
    index: int,
    error: ExpectedError,
) -> bool {
    if repeats_label(prepared, index) {
        &&& error matches ExpectedError::DuplicateTargetLabel { label }
        &&& label@ == prepared[index].target.label@
    } else {
        &&& disagrees(prepared, index)
        &&& error matches ExpectedError::ConflictingProjectRoots { first, second, label }
        &&& first_root(prepared.subrange(0, index)) == Some(first@)
        &&& optional_text(prepared[index].project_root) == Some(second@)
        &&& label@ == prepared[index].target.label@
    }
}

/// The first target that cannot be used is the one at `index`, because of
/// `error`.
pub open spec fn first_rejected(
    prepared: Seq<PreparedTarget>,
    index: int,
    error: ExpectedError,
) -> bool {
    &&& 0 <= index < prepared.len()
    &&& forall|earlier: int| 0 <= earlier < index ==> #[trigger] usable_at(prepared, earlier)
    &&& rejects_at(prepared, index, error)
}

/// The targets among what Buck2's answers amount to.
pub open spec fn targets_of(prepared: Seq<PreparedTarget>) -> Seq<Buck2TestTarget> {
    prepared.map_values(|item: PreparedTarget| item.target)
}

/// A label is among the handles exactly when a target has it.
proof fn lemma_handles_domain(prepared: Seq<PreparedTarget>, label: Seq<char>)
    ensures
        handles_of(prepared).contains_key(label) <==> exists|index: int|
            0 <= index < prepared.len() && #[trigger] prepared[index].target.label@ == label,
    decreases prepared.len(),
{
    if prepared.len() > 0 {
        let rest = prepared.drop_last();
        lemma_handles_domain(rest, label);
        if handles_of(rest).contains_key(label) {
            let index = choose|index: int|
                0 <= index < rest.len() && #[trigger] rest[index].target.label@ == label;
            assert(prepared[index].target.label@ == label);
        }
        if prepared.last().target.label@ == label {
            assert(prepared[prepared.len() - 1].target.label@ == label);
        }
        if exists|index: int|
            0 <= index < prepared.len() && #[trigger] prepared[index].target.label@ == label {
            let index = choose|index: int|
                0 <= index < prepared.len() && #[trigger] prepared[index].target.label@ == label;
            if index < rest.len() {
                assert(rest[index].target.label@ == label);
            }
        }
    }
}

/// Sorts prepared targets into what the run needs, rejecting what it cannot use.
///
/// The binary ID is the label, exactly as the binary list has it, so a result
/// can be matched back to the target it came from.
pub fn check_prepared(prepared: Vec<PreparedTarget>) -> (checked: Result<
    PreparedTargets,
    ExpectedError,
>)
    ensures
        match checked {
            Ok(checked) => {
                &&& forall|index: int|
                    0 <= index < prepared@.len() ==> #[trigger] usable_at(prepared@, index)
                &&& checked.targets@ == targets_of(prepared@)
                &&& checked.handles@ == handles_of(prepared@)
                &&& optional_text(checked.project_root) == first_root(prepared@)
            },
            Err(error) => exists|index: int| #[trigger] first_rejected(prepared@, index, error),
        },
{
    let mut targets: Vec<Buck2TestTarget> = Vec::new();
    let mut handles: StringMap<ConfiguredTargetHandle> = StringMap::new();
    let mut project_root: Option<String> = None;

    for item in iter: prepared
        invariant
            iter.seq() == prepared@,
            forall|index: int| 0 <= index < iter.index() ==> #[trigger] usable_at(prepared@, index),
            targets@ == targets_of(prepared@.subrange(0, iter.index())),
            handles@ == handles_of(prepared@.subrange(0, iter.index())),
            optional_text(project_root) == first_root(prepared@.subrange(0, iter.index())),
    {
        let ghost at = iter.index();
        let ghost seen = prepared@.subrange(0, at);
        proof {
            assert(item == prepared@[at]);
            let next = prepared@.subrange(0, at + 1);
            assert(next =~= seen.push(item));
            assert(next.drop_last() =~= seen);
            lemma_handles_domain(seen, item.target.label@);
            assert(repeats_label(prepared@, at) <==> handles_of(seen).contains_key(
                item.target.label@,
            )) by {
                if repeats_label(prepared@, at) {
                    let earlier = choose|earlier: int|
                        0 <= earlier < at && #[trigger] prepared@[earlier].target.label@
                            == prepared@[at].target.label@;
                    assert(seen[earlier].target.label@ == item.target.label@);
                }
                if handles_of(seen).contains_key(item.target.label@) {
                    let earlier = choose|earlier: int|
                        0 <= earlier < seen.len() && #[trigger] seen[earlier].target.label@
                            == item.target.label@;
                    assert(prepared@[earlier].target.label@ == prepared@[at].target.label@);
                }
            }
        }

        // A label Buck2 has already sent means two configured targets share one
        // binary ID -- the label leaves the configuration out, so a target
        // reached under two of them arrives twice. Nothing downstream can tell
        // the two apart: the binary list would keep one, and the other's tests
        // would silently never run while Buck2 waited for results that never
        // came. Say so instead.
        let occupied = handles.insert(item.target.label.clone(), item.handle);
        if occupied {
            let error = ExpectedError::DuplicateTargetLabel { label: item.target.label };
            assert(first_rejected(prepared@, at, error));
            return Err(error);
        }

        // One session is one project, so every target must agree on where its
        // root is. A disagreement means the root was derived wrongly for at
        // least one of them, and quietly picking either would put every path
        // nextest reports somewhere it is not.
        if let Some(implied) = item.project_root {
            match project_root {
                None => {
                    project_root = Some(implied);
                },
                Some(root) => {
                    if !paths::same(root.as_str(), implied.as_str()) {
                        let error = ExpectedError::ConflictingProjectRoots {
                            first: root,
                            second: implied,
                            label: item.target.label,
                        };
                        assert(first_rejected(prepared@, at, error));
                        return Err(error);
                    }
                    project_root = Some(root);
                },
            }
        }
        assert(usable_at(prepared@, at));

        targets.push(item.target);
    }
    assert(prepared@.subrange(0, prepared@.len() as int) =~= prepared@);

    Ok(PreparedTargets { targets, handles, project_root })
}

/// What is accepted has no two targets of one label, and every target has its
/// own handle, so each result is reported against the target it came from.
pub proof fn law_accepted_targets_have_their_handles(prepared: Seq<PreparedTarget>, index: int)
    requires
        forall|at: int| 0 <= at < prepared.len() ==> #[trigger] usable_at(prepared, at),
        0 <= index < prepared.len(),
    ensures
        forall|other: int|
            0 <= other < prepared.len() && other != index ==> (
            #[trigger] prepared[other]).target.label@ != prepared[index].target.label@,
        handles_of(prepared).contains_pair(prepared[index].target.label@, prepared[index].handle),
{
    assert forall|other: int| 0 <= other < prepared.len() && other != index implies (
    #[trigger] prepared[other]).target.label@ != prepared[index].target.label@ by {
        assert(usable_at(prepared, other));
        assert(usable_at(prepared, index));
        if prepared[other].target.label@ == prepared[index].target.label@ {
            if other < index {
                assert(repeats_label(prepared, index));
            } else {
                assert(prepared[index].target.label@ == prepared[other].target.label@);
                assert(repeats_label(prepared, other));
            }
        }
    }
    lemma_handle_of_unique(prepared, index);
}

/// A target whose label no other has is found under its own handle.
proof fn lemma_handle_of_unique(prepared: Seq<PreparedTarget>, index: int)
    requires
        0 <= index < prepared.len(),
        forall|other: int|
            0 <= other < prepared.len() && other != index ==> (
            #[trigger] prepared[other]).target.label@ != prepared[index].target.label@,
    ensures
        handles_of(prepared).contains_pair(prepared[index].target.label@, prepared[index].handle),
    decreases prepared.len(),
{
    let rest = prepared.drop_last();
    if index < rest.len() {
        assert forall|other: int| 0 <= other < rest.len() && other != index implies (
        #[trigger] rest[other]).target.label@ != rest[index].target.label@ by {
            assert(prepared[other].target.label@ != prepared[index].target.label@);
        }
        lemma_handle_of_unique(rest, index);
        assert(prepared[prepared.len() - 1].target.label@ != prepared[index].target.label@);
    }
}

/// One session is one project: every accepted target that implies a root
/// implies the one the session takes, up to how the path is spelled.
pub proof fn law_accepted_targets_agree_on_the_root(prepared: Seq<PreparedTarget>, index: int)
    requires
        forall|at: int| 0 <= at < prepared.len() ==> #[trigger] usable_at(prepared, at),
        0 <= index < prepared.len(),
    ensures
        optional_text(prepared[index].project_root) matches Some(implied) ==> {
            &&& first_root(prepared) matches Some(root)
            &&& root == implied || path_same(root, implied)
        },
{
    assert(usable_at(prepared, index));
    let upto = prepared.subrange(0, index + 1);
    assert(upto.drop_last() =~= prepared.subrange(0, index));
    assert(upto.last() == prepared[index]);
    lemma_first_root_of_prefix(prepared, index + 1);
}

/// Once a root is implied, later targets do not change it.
proof fn lemma_first_root_of_prefix(prepared: Seq<PreparedTarget>, count: int)
    requires
        0 <= count <= prepared.len(),
    ensures
        first_root(prepared.subrange(0, count)) is Some ==> first_root(prepared) == first_root(
            prepared.subrange(0, count),
        ),
    decreases prepared.len() - count,
{
    if count == prepared.len() {
        assert(prepared.subrange(0, count) =~= prepared);
    } else {
        lemma_first_root_of_prefix(prepared, count + 1);
        assert(prepared.subrange(0, count + 1).drop_last() =~= prepared.subrange(0, count));
    }
}

/// What is accepted is passed on whole: every target at its own place.
pub proof fn law_accepted_targets_keep_their_places(prepared: Seq<PreparedTarget>, index: int)
    requires
        0 <= index < prepared.len(),
    ensures
        targets_of(prepared).len() == prepared.len(),
        targets_of(prepared)[index] == prepared[index].target,
{
}

/// A target is rejected only for a label that an earlier one has, or for a root that
/// is spelled otherwise and is another path than that of the first target that
/// implied one; and then always.
pub proof fn law_targets_are_rejected_for_cause(
    prepared: Seq<PreparedTarget>,
    index: int,
    first: int,
)
    requires
        0 <= first < index < prepared.len(),
        prepared[first].project_root is Some,
        forall|at: int| 0 <= at < first ==> (#[trigger] prepared[at]).project_root is None,
    ensures
        usable_at(prepared, index) <==> {
            &&& forall|earlier: int|
                0 <= earlier < index ==> (#[trigger] prepared[earlier]).target.label@
                    != prepared[index].target.label@
            &&& prepared[index].project_root matches Some(implied) ==> (implied@
                == prepared[first].project_root->0@ || path_same(
                prepared[first].project_root->0@,
                implied@,
            ))
        },
{
    law_the_first_root_is_taken(prepared.subrange(0, index), first);
    lemma_repeats_label(prepared, index);
}

/// A target that no earlier one implied a root for is rejected for its label alone.
pub proof fn law_first_roots_are_never_rejected(prepared: Seq<PreparedTarget>, index: int)
    requires
        0 <= index < prepared.len(),
        forall|at: int| 0 <= at < index ==> (#[trigger] prepared[at]).project_root is None,
    ensures
        usable_at(prepared, index) <==> forall|earlier: int|
            0 <= earlier < index ==> (#[trigger] prepared[earlier]).target.label@
                != prepared[index].target.label@,
{
    law_no_root_is_taken_from_nowhere(prepared.subrange(0, index));
    lemma_repeats_label(prepared, index);
}

/// The labels before a target are all different from its own exactly when it repeats
/// none.
proof fn lemma_repeats_label(prepared: Seq<PreparedTarget>, index: int)
    requires
        0 <= index < prepared.len(),
    ensures
        !repeats_label(prepared, index) <==> forall|earlier: int|
            0 <= earlier < index ==> (#[trigger] prepared[earlier]).target.label@
                != prepared[index].target.label@,
{
    if repeats_label(prepared, index) {
        let earlier = choose|earlier: int|
            0 <= earlier < index && #[trigger] prepared[earlier].target.label@
                == prepared[index].target.label@;
        assert(prepared[earlier].target.label@ == prepared[index].target.label@);
    } else {
        assert forall|earlier: int| 0 <= earlier < index implies (
        #[trigger] prepared[earlier]).target.label@ != prepared[index].target.label@ by {
            let label = prepared[earlier].target.label@;
            assert(label != prepared[index].target.label@);
        }
    }
}

/// The root that targets imply is that of the first of them that implies any.
pub proof fn law_the_first_root_is_taken(prepared: Seq<PreparedTarget>, first: int)
    requires
        0 <= first < prepared.len(),
        prepared[first].project_root is Some,
        forall|at: int| 0 <= at < first ==> (#[trigger] prepared[at]).project_root is None,
    ensures
        first_root(prepared) == Some(prepared[first].project_root->0@),
    decreases prepared.len(),
{
    let rest = prepared.drop_last();
    if first < rest.len() {
        assert(rest[first] == prepared[first]);
        assert forall|at: int| 0 <= at < first implies (
        #[trigger] rest[at]).project_root is None by {
            assert(rest[at] == prepared[at]);
        }
        law_the_first_root_is_taken(rest, first);
    } else {
        assert forall|at: int| 0 <= at < rest.len() implies (
        #[trigger] rest[at]).project_root is None by {
            assert(rest[at] == prepared[at]);
        }
        law_no_root_is_taken_from_nowhere(rest);
    }
}

/// Targets none of which implies a root imply none.
pub proof fn law_no_root_is_taken_from_nowhere(prepared: Seq<PreparedTarget>)
    requires
        forall|at: int| 0 <= at < prepared.len() ==> (#[trigger] prepared[at]).project_root is None,
    ensures
        first_root(prepared) is None,
    decreases prepared.len(),
{
    if prepared.len() > 0 {
        let rest = prepared.drop_last();
        assert forall|at: int| 0 <= at < rest.len() implies (
        #[trigger] rest[at]).project_root is None by {
            assert(rest[at] == prepared[at]);
        }
        law_no_root_is_taken_from_nowhere(rest);
        assert(prepared[prepared.len() - 1].project_root is None);
    }
}

/// There is a handle for the label of each target, and for no other label.
pub proof fn law_handles_are_for_targets(prepared: Seq<PreparedTarget>, label: Seq<char>)
    ensures
        handles_of(prepared).contains_key(label) <==> exists|index: int|
            0 <= index < prepared.len() && (#[trigger] prepared[index]).target.label@ == label,
{
    lemma_handles_domain(prepared, label);
    if handles_of(prepared).contains_key(label) {
        let index = choose|index: int|
            0 <= index < prepared.len() && #[trigger] prepared[index].target.label@ == label;
        assert(prepared[index].target.label@ == label);
    }
    if exists|index: int|
        0 <= index < prepared.len() && (#[trigger] prepared[index]).target.label@ == label {
        let index = choose|index: int|
            0 <= index < prepared.len() && (#[trigger] prepared[index]).target.label@ == label;
        let found = prepared[index].target.label@;
        assert(found == label);
    }
}

/// A rejection names the target it is about: one whose label an earlier one has, or
/// else one whose root is at odds with the first, and then both roots too. No target
/// before it could have been rejected.
pub proof fn law_rejections_name_their_target(
    prepared: Seq<PreparedTarget>,
    index: int,
    error: ExpectedError,
)
    requires
        first_rejected(prepared, index, error),
    ensures
        0 <= index < prepared.len(),
        forall|earlier: int| 0 <= earlier < index ==> usable_at(prepared, earlier),
        match error {
            ExpectedError::DuplicateTargetLabel { label } => {
                &&& label@ == prepared[index].target.label@
                &&& exists|earlier: int|
                    0 <= earlier < index && (#[trigger] prepared[earlier]).target.label@ == label@
            },
            ExpectedError::ConflictingProjectRoots { first, second, label } => {
                &&& label@ == prepared[index].target.label@
                &&& prepared[index].project_root matches Some(implied) && implied@ == second@
                &&& first@ != second@
                &&& !path_same(first@, second@)
                &&& first_root(prepared.subrange(0, index)) == Some(first@)
                &&& forall|earlier: int|
                    0 <= earlier < index ==> (#[trigger] prepared[earlier]).target.label@ != label@
            },
            _ => false,
        },
{
    lemma_repeats_label(prepared, index);
    if repeats_label(prepared, index) {
        let earlier = choose|earlier: int|
            0 <= earlier < index && #[trigger] prepared[earlier].target.label@
                == prepared[index].target.label@;
        assert(prepared[earlier].target.label@ == prepared[index].target.label@);
    }
}

} // verus!
