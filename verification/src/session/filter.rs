//! Parsing filtersets against a profile's known groups.

use nextest_filtering::errors::FiltersetParseErrors;
use nextest_filtering::{Filterset, ParseContext};
use vstd::prelude::*;

verus! {

/// What a filterset is for, which decides what it may contain.
#[derive(Clone, Copy, Debug, Eq, PartialEq, Structural)]
pub enum FiltersetKind {
    /// Selecting tests.
    Test,

    /// Selecting what goes into an archive.
    TestArchive,

    /// Selecting what an override in a profile applies to.
    OverrideFilter,

    /// Selecting the tests a profile runs by default.
    DefaultFilter,
}

/// The test groups a filterset may name.
#[derive(Debug, Eq, PartialEq)]
pub enum KnownGroups {
    /// These, and the global group.
    Known {
        /// The names of the groups.
        custom_groups: Vec<String>,
    },

    /// Nobody knows, because filtersets may not name groups here.
    Unavailable,
}

/// Declares `nextest_filtering::ParseContext`, what a filterset is parsed
/// against.
#[verifier::external_type_specification]
#[verifier::external_body]
pub struct ExParseContext<'g>(nextest_filtering::ParseContext<'g>);

/// Declares `nextest_filtering::Filterset`, a parsed filterset.
#[verifier::external_type_specification]
#[verifier::external_body]
pub struct ExFilterset(nextest_filtering::Filterset);

/// What `Filterset::parse` makes of a filterset.
pub uninterp spec fn parsed_filterset(
    input: Seq<char>,
    pcx: ParseContext<'_>,
    kind: FiltersetKind,
    known_groups: KnownGroups,
) -> Result<Filterset, FiltersetParseErrors>;

/// Calls `Filterset::parse`: the filterset, or what is wrong with it. A
/// filterset that selects tests may name groups, and parsing one that does
/// panics unless the groups are known.
#[verifier::external_body]
fn parse_filterset(
    input: String,
    pcx: &ParseContext<'_>,
    kind: FiltersetKind,
    known_groups: &KnownGroups,
) -> (parsed: Result<Filterset, FiltersetParseErrors>)
    requires
        kind == FiltersetKind::Test ==> known_groups is Known,
    ensures
        parsed == parsed_filterset(input@, *pcx, kind, *known_groups),
{
    let kind = match kind {
        FiltersetKind::Test => nextest_filtering::FiltersetKind::Test,
        FiltersetKind::TestArchive => nextest_filtering::FiltersetKind::TestArchive,
        FiltersetKind::OverrideFilter => nextest_filtering::FiltersetKind::OverrideFilter,
        FiltersetKind::DefaultFilter => nextest_filtering::FiltersetKind::DefaultFilter,
    };
    let known_groups = match known_groups {
        KnownGroups::Known { custom_groups } => nextest_filtering::KnownGroups::Known {
            custom_groups: custom_groups.iter().cloned().collect(),
        },
        KnownGroups::Unavailable => nextest_filtering::KnownGroups::Unavailable,
    };
    Filterset::parse(input, pcx, kind, &known_groups)
}

/// The values of the outcomes that are good, in order.
pub open spec fn accepted<T, E>(outcomes: Seq<Result<T, E>>) -> Seq<T>
    decreases outcomes.len(),
{
    if outcomes.len() == 0 {
        seq![]
    } else {
        match outcomes.last() {
            Ok(value) => accepted(outcomes.drop_last()).push(value),
            Err(_) => accepted(outcomes.drop_last()),
        }
    }
}

/// The errors of the outcomes that are bad, in order.
pub open spec fn rejected<T, E>(outcomes: Seq<Result<T, E>>) -> Seq<E>
    decreases outcomes.len(),
{
    if outcomes.len() == 0 {
        seq![]
    } else {
        match outcomes.last() {
            Ok(_) => rejected(outcomes.drop_last()),
            Err(error) => rejected(outcomes.drop_last()).push(error),
        }
    }
}

/// `result` holds all the values if every outcome is good, and else all the
/// errors.
pub open spec fn collected<T, E>(
    outcomes: Seq<Result<T, E>>,
    result: Result<Vec<T>, Vec<E>>,
) -> bool {
    if rejected(outcomes).len() == 0 {
        result matches Ok(values) && values@ == accepted(outcomes)
    } else {
        result matches Err(errors) && errors@ == rejected(outcomes)
    }
}

/// Collects all the values if every outcome is good, and else all the errors.
pub fn collect_outcomes<T, E>(outcomes: Vec<Result<T, E>>) -> (result: Result<Vec<T>, Vec<E>>)
    ensures
        collected(outcomes@, result),
{
    let mut values: Vec<T> = Vec::new();
    let mut all_errors: Vec<E> = Vec::new();
    let ghost mut seen: Seq<Result<T, E>> = seq![];
    for outcome in iter: outcomes
        invariant
            seen == iter.seq().subrange(0, iter.index()),
            iter.seq() == outcomes@,
            values@ == accepted(seen),
            all_errors@ == rejected(seen),
    {
        proof {
            let next = seen.push(outcome);
            assert(next.drop_last() == seen);
            assert(next == iter.seq().subrange(0, iter.index() + 1));
            seen = next;
        }
        match outcome {
            Ok(value) => values.push(value),
            Err(error) => all_errors.push(error),
        }
    }
    assert(seen == outcomes@);

    if all_errors.len() == 0 {
        Ok(values)
    } else {
        Err(all_errors)
    }
}

/// What each of some inputs is parsed into.
pub open spec fn parsed_filtersets(
    inputs: Seq<String>,
    pcx: ParseContext<'_>,
    kind: FiltersetKind,
    known_groups: KnownGroups,
) -> Seq<Result<Filterset, FiltersetParseErrors>> {
    inputs.map_values(|input: String| parsed_filterset(input@, pcx, kind, known_groups))
}

/// Parses a set of filterset inputs, reporting every bad one at once rather
/// than stopping at the first.
///
/// `known_groups` comes from the profile: `group()` is legal in a filterset,
/// so the set of valid group names must be known before one is compiled.
pub fn parse_filtersets(
    pcx: &ParseContext<'_>,
    inputs: &Vec<String>,
    kind: FiltersetKind,
    known_groups: &KnownGroups,
) -> (result: Result<Vec<Filterset>, Vec<FiltersetParseErrors>>)
    requires
        kind == FiltersetKind::Test ==> known_groups is Known,
    ensures
        collected(parsed_filtersets(inputs@, *pcx, kind, *known_groups), result),
{
    let mut outcomes: Vec<Result<Filterset, FiltersetParseErrors>> = Vec::new();
    let mut index: usize = 0;
    while index < inputs.len()
        invariant
            index <= inputs.len(),
            kind == FiltersetKind::Test ==> known_groups is Known,
            outcomes@ == parsed_filtersets(
                inputs@.subrange(0, index as int),
                *pcx,
                kind,
                *known_groups,
            ),
        decreases inputs.len() - index,
    {
        outcomes.push(parse_filterset(inputs[index].clone(), pcx, kind, known_groups));
        index += 1;
    }
    assert(inputs@.subrange(0, index as int) == inputs@);
    collect_outcomes(outcomes)
}

/// Every bad filterset is reported, not just the first: there is one report for
/// each, and none only where all of them are good.
pub proof fn law_every_bad_filterset_is_reported<T, E>(outcomes: Seq<Result<T, E>>)
    ensures
        accepted(outcomes).len() + rejected(outcomes).len() == outcomes.len(),
        forall|index: int|
            0 <= index < outcomes.len() ==> match #[trigger] outcomes[index] {
                Ok(value) => accepted(outcomes).contains(value),
                Err(error) => rejected(outcomes).contains(error),
            },
        rejected(outcomes).len() == 0 <==> forall|index: int|
            0 <= index < outcomes.len() ==> #[trigger] outcomes[index] is Ok,
    decreases outcomes.len(),
{
    if outcomes.len() > 0 {
        let rest = outcomes.drop_last();
        law_every_bad_filterset_is_reported(rest);
        assert forall|index: int| 0 <= index < outcomes.len() implies match #[trigger] outcomes[index] {
            Ok(value) => accepted(outcomes).contains(value),
            Err(error) => rejected(outcomes).contains(error),
        } by {
            if index < rest.len() {
                assert(rest[index] == outcomes[index]);
                match outcomes[index] {
                    Ok(value) => {
                        let at = choose|at: int|
                            0 <= at < accepted(rest).len() && accepted(rest)[at] == value;
                        assert(accepted(outcomes)[at] == value);
                    },
                    Err(error) => {
                        let at = choose|at: int|
                            0 <= at < rejected(rest).len() && rejected(rest)[at] == error;
                        assert(rejected(outcomes)[at] == error);
                    },
                }
            } else {
                match outcomes[index] {
                    Ok(value) => {
                        assert(accepted(outcomes)[accepted(rest).len() as int] == value);
                    },
                    Err(error) => {
                        assert(rejected(outcomes)[rejected(rest).len() as int] == error);
                    },
                }
            }
        }
        if rejected(outcomes).len() == 0 {
            assert forall|index: int| 0 <= index < outcomes.len() implies #[trigger] outcomes[index] is Ok by {
                if index < rest.len() {
                    assert(rest[index] == outcomes[index]);
                }
            }
        }
        if forall|index: int| 0 <= index < outcomes.len() ==> #[trigger] outcomes[index] is Ok {
            assert forall|index: int| 0 <= index < rest.len() implies #[trigger] rest[index] is Ok by {
                assert(rest[index] == outcomes[index]);
            }
            assert(outcomes[outcomes.len() - 1] is Ok);
        }
    }
}

/// Good outcomes and bad ones are each kept in the order they came: those of more
/// outcomes follow those of the ones before.
pub proof fn law_outcomes_keep_their_order<T, E>(
    first: Seq<Result<T, E>>,
    second: Seq<Result<T, E>>,
    value: T,
    error: E,
)
    ensures
        accepted(first + second) == accepted(first) + accepted(second),
        rejected(first + second) == rejected(first) + rejected(second),
        accepted(seq![Ok::<T, E>(value)]) == seq![value],
        rejected(seq![Ok::<T, E>(value)]).len() == 0,
        accepted(seq![Err::<T, E>(error)]).len() == 0,
        rejected(seq![Err::<T, E>(error)]) == seq![error],
    decreases second.len(),
{
    let good = seq![Ok::<T, E>(value)];
    let bad = seq![Err::<T, E>(error)];
    assert(good.drop_last() =~= Seq::<Result<T, E>>::empty());
    assert(bad.drop_last() =~= Seq::<Result<T, E>>::empty());
    assert(accepted(Seq::<Result<T, E>>::empty()) =~= Seq::<T>::empty());
    assert(rejected(Seq::<Result<T, E>>::empty()) =~= Seq::<E>::empty());
    assert(accepted(good) =~= seq![value]);
    assert(rejected(bad) =~= seq![error]);
    if second.len() == 0 {
        assert(first + second =~= first);
    } else {
        law_outcomes_keep_their_order(first, second.drop_last(), value, error);
        assert((first + second).drop_last() =~= first + second.drop_last());
        assert((first + second).last() == second.last());
    }
}

/// Where every outcome is good, the value of each is at its own place; where one is
/// bad, no value is given.
pub proof fn law_all_or_nothing_is_collected<T, E>(
    outcomes: Seq<Result<T, E>>,
    result: Result<Vec<T>, Vec<E>>,
)
    requires
        collected(outcomes, result),
    ensures
        result is Ok <==> forall|index: int|
            0 <= index < outcomes.len() ==> #[trigger] outcomes[index] is Ok,
        result matches Ok(values) ==> values@.len() == outcomes.len() && forall|index: int|
            0 <= index < outcomes.len() ==> #[trigger] outcomes[index] == Ok::<T, E>(
                values@[index],
            ),
        result matches Err(errors) ==> errors@.len() > 0,
{
    law_every_bad_filterset_is_reported(outcomes);
    if result is Ok {
        lemma_good_outcomes_keep_their_places(outcomes);
    }
}

/// Where every outcome is good, the values are those of the outcomes, each in place.
proof fn lemma_good_outcomes_keep_their_places<T, E>(outcomes: Seq<Result<T, E>>)
    requires
        forall|index: int| 0 <= index < outcomes.len() ==> #[trigger] outcomes[index] is Ok,
    ensures
        accepted(outcomes).len() == outcomes.len(),
        forall|index: int|
            0 <= index < outcomes.len() ==> #[trigger] outcomes[index] == Ok::<T, E>(
                accepted(outcomes)[index],
            ),
    decreases outcomes.len(),
{
    if outcomes.len() > 0 {
        let rest = outcomes.drop_last();
        assert forall|index: int| 0 <= index < rest.len() implies #[trigger] rest[index] is Ok by {
            assert(rest[index] == outcomes[index]);
        }
        lemma_good_outcomes_keep_their_places(rest);
        assert(outcomes[outcomes.len() - 1] is Ok);
        assert forall|index: int| 0 <= index < outcomes.len() implies #[trigger] outcomes[index]
            == Ok::<T, E>(accepted(outcomes)[index]) by {
            if index < rest.len() {
                assert(rest[index] == outcomes[index]);
            }
        }
    }
}

/// Each filterset is parsed by itself, as what it is for and against the groups that
/// are known.
pub proof fn law_filtersets_are_parsed_one_by_one(
    inputs: Seq<String>,
    pcx: ParseContext<'_>,
    kind: FiltersetKind,
    known_groups: KnownGroups,
    index: int,
)
    requires
        0 <= index < inputs.len(),
    ensures
        parsed_filtersets(inputs, pcx, kind, known_groups).len() == inputs.len(),
        parsed_filtersets(inputs, pcx, kind, known_groups)[index] == parsed_filterset(
            inputs[index]@,
            pcx,
            kind,
            known_groups,
        ),
{
}

} // verus!
