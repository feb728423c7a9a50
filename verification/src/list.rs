//! Listing the tests in one Buck2 test target.
//!
//! This is the `listing_command` Buck2 runs once per test target. What it
//! prints becomes the set of tests Buck2 knows about, so anything left out here
//! is never run, and every entry must be one the run mode can select again by
//! its `filter`.

use crate::errors::ExpectedError;
use crate::output::{display_name, display_text, ListedTest};
use crate::package_info::Version;
use crate::pipeline::{
    options_for, ConfigSource, Context, FilterMatch, OutputError, Stages, TestInstance,
};
use crate::session::context::{simple_for, ReportUuid, SessionContext};
use crate::session::errors::ErrorChain;
use crate::session::input::{
    EarlyProfile, FilterBound, RunIgnored, TestFilterPatterns, TestFilterSpec,
};
use crate::session::test_session::{ArtifactRequest, TestListRequest, TestSession};
use crate::stats::NextestRunMode;
use nextest_filtering::Filterset;
use vstd::prelude::*;

verus! {

/// `filter` selects every test of a target, ignored or not.
pub open spec fn selects_everything(filter: TestFilterSpec) -> bool {
    &&& filter.mode == NextestRunMode::Test
    &&& filter.run_ignored == RunIgnored::All
    &&& filter.patterns.substrings@ == Seq::<String>::empty()
    &&& filter.patterns.exact@ == Seq::<String>::empty()
    &&& filter.exprs@ == Seq::<Filterset>::empty()
}

/// Returns the filter to list tests with.
///
/// Ignored tests are listed, not hidden. Buck2 shows one row per test, so an
/// ignored test that never appears is indistinguishable from one that does
/// not exist; listing it and reporting SKIP when it is run says which.
pub fn list_filter() -> (filter: TestFilterSpec)
    ensures
        selects_everything(filter),
{
    TestFilterSpec {
        mode: NextestRunMode::Test,
        run_ignored: RunIgnored::All,
        patterns: TestFilterPatterns::new(Vec::new()),
        exprs: Vec::new(),
    }
}

/// The entries of a listing, each its name and its filter.
pub open spec fn entries(listed: Seq<ListedTest>) -> Seq<(Seq<char>, Seq<char>)> {
    listed.map_values(|test: ListedTest| (test.name@, test.filter@))
}

/// The listing of a target with the given tests: those the filter selects, in
/// order.
pub open spec fn listing(label: Seq<char>, tests: Seq<TestInstance>) -> Seq<(Seq<char>, Seq<char>)>
    decreases tests.len(),
{
    if tests.len() == 0 {
        seq![]
    } else {
        let rest = listing(label, tests.drop_last());
        let last = tests.last();
        if last.filter_match is Matches {
            rest.push((display_text(label, last.name@), last.name@))
        } else {
            rest
        }
    }
}

/// Returns the listing of a target with the given tests.
pub fn listed_tests(label: &str, tests: &Vec<TestInstance>) -> (listed: Vec<ListedTest>)
    ensures
        entries(listed@) == listing(label@, tests@),
{
    let mut listed: Vec<ListedTest> = Vec::new();
    let mut index: usize = 0;
    while index < tests.len()
        invariant
            index <= tests.len(),
            entries(listed@) == listing(label@, tests@.subrange(0, index as int)),
        decreases tests.len() - index,
    {
        let test: &TestInstance = &tests[index];
        proof {
            let next = tests@.subrange(0, index + 1);
            assert(next.drop_last() == tests@.subrange(0, index as int));
            assert(next.last() == *test);
        }
        if matches!(test.filter_match, FilterMatch::Matches) {
            let ghost before = listed@;
            listed.push(
                ListedTest {
                    name: display_name(label, test.name.as_str()),
                    filter: test.name.clone(),
                },
            );
            assert(entries(listed@) =~= entries(before).push(
                (display_text(label@, test.name@), test.name@),
            ));
        }
        index += 1;
    }
    assert(tests@.subrange(0, index as int) == tests@);
    listed
}

/// `result` is what writing a listing comes to.
pub open spec fn list_outcome<W: FnOnce(&Vec<ListedTest>) -> Result<(), OutputError>>(
    label: Seq<char>,
    tests: Seq<TestInstance>,
    write: W,
    result: Result<(), ExpectedError>,
) -> bool {
    exists|listed: &Vec<ListedTest>, written: Result<(), OutputError>|
        {
            &&& #[trigger] write.ensures((listed,), written)
            &&& entries(listed@) == listing(label, tests)
            &&& match written {
                Ok(()) => result is Ok,
                Err(error) => result == Err::<(), ExpectedError>(error.reported()),
            }
        }
}

/// Lists the target's tests in the shape Buck2's `parse_test_listing` reads.
///
/// `run_id` and `version` are what tests see of this run and this program, and
/// `is_terminal` says whether standard error is a terminal. `tests_of` reads the
/// tests off a session, and `write` writes the listing as JSON. Nothing is
/// written unless the tests were enumerated.
///
/// The profile's default-filter is honoured, since that is a statement about
/// which tests are worth running at all -- and applying it here means Buck2
/// never schedules an action for a test it would discard.
pub fn list<
    C,
    T,
    A,
    L,
    S: FnOnce(ConfigSource<'_>) -> Result<C, ErrorChain>,
    P: FnOnce(&C, &str) -> Result<EarlyProfile, ErrorChain>,
    D: FnOnce(&str) -> Result<(), std::io::Error>,
    B: FnOnce(TestFilterSpec) -> Result<T, ErrorChain>,
    F: FnOnce(ArtifactRequest<'_>) -> Result<A, ErrorChain>,
    N: FnOnce(TestListRequest<'_, T>, A) -> Result<L, ErrorChain>,
    I: FnOnce(&TestSession<'_, L>, ()) -> Result<Vec<TestInstance>, ExpectedError>,
    W: FnOnce(&Vec<ListedTest>) -> Result<(), OutputError>,
>(
    cx: &Context,
    run_id: ReportUuid,
    version: Version,
    is_terminal: bool,
    stages: Stages<S, P, D, B, F, N>,
    tests_of: I,
    write: W,
) -> (result: Result<(), ExpectedError>)
    requires
        forall|filter: TestFilterSpec| #[trigger]
            selects_everything(filter) ==> cx.grants(
                simple_for(run_id, version),
                filter,
                options_for(FilterBound::DefaultSet, 1, is_terminal),
                stages,
                (),
                tests_of,
            ),
        forall|filter: TestFilterSpec, tests: Vec<TestInstance>, listed: &Vec<ListedTest>|
            {
                &&& #[trigger] cx.piped(
                    simple_for(run_id, version),
                    filter,
                    options_for(FilterBound::DefaultSet, 1, is_terminal),
                    stages,
                    (),
                    tests_of,
                    Ok::<Vec<TestInstance>, ExpectedError>(tests),
                )
                &&& selects_everything(filter)
                &&& entries(listed@) == listing(cx.label@, tests@)
            } ==> #[trigger] write.requires((listed,)),
    ensures
        exists|filter: TestFilterSpec, enumerated: Result<Vec<TestInstance>, ExpectedError>|
            {
                &&& #[trigger] cx.piped(
                    simple_for(run_id, version),
                    filter,
                    options_for(FilterBound::DefaultSet, 1, is_terminal),
                    stages,
                    (),
                    tests_of,
                    enumerated,
                )
                &&& selects_everything(filter)
                &&& match enumerated {
                    Ok(tests) => list_outcome(cx.label@, tests@, write, result),
                    Err(error) => result == Err::<(), ExpectedError>(error),
                }
            },
{
    let ctx = SessionContext::simple(run_id, version);
    match cx.with_session(
        &ctx,
        list_filter(),
        FilterBound::DefaultSet,
        is_terminal,
        stages,
        (),
        tests_of,
    ) {
        Ok(tests) => {
            let listed = listed_tests(cx.label.as_str(), &tests);
            match write(&listed) {
                Ok(()) => Ok(()),
                Err(error) => Err(error.into_expected()),
            }
        },
        Err(error) => Err(error),
    }
}

/// Every test the filter selects is listed, under the name and the filter that
/// are its own, and nothing else is.
pub proof fn law_listing_is_complete(label: Seq<char>, tests: Seq<TestInstance>)
    ensures
        forall|index: int|
            0 <= index < tests.len() && (#[trigger] tests[index]).filter_match is Matches
                ==> listing(label, tests).contains(
                (display_text(label, tests[index].name@), tests[index].name@),
            ),
        forall|entry: (Seq<char>, Seq<char>)| #[trigger]
            listing(label, tests).contains(entry) ==> {
                &&& entry.0 == display_text(label, entry.1)
                &&& exists|index: int|
                    0 <= index < tests.len() && (#[trigger] tests[index]).filter_match is Matches
                        && tests[index].name@ == entry.1
            },
    decreases tests.len(),
{
    if tests.len() > 0 {
        let rest = tests.drop_last();
        let last = tests.last();
        let before = listing(label, rest);
        let after = listing(label, tests);
        law_listing_is_complete(label, rest);
        assert forall|index: int|
            0 <= index < tests.len() && (#[trigger] tests[index]).filter_match is Matches implies after.contains(
            (display_text(label, tests[index].name@), tests[index].name@),
        ) by {
            let entry = (display_text(label, tests[index].name@), tests[index].name@);
            if index < rest.len() {
                assert(rest[index] == tests[index]);
                assert(before.contains(entry));
                let at = choose|at: int| 0 <= at < before.len() && before[at] == entry;
                assert(after[at] == entry);
            } else {
                assert(after[before.len() as int] == entry);
            }
        }
        assert forall|entry: (Seq<char>, Seq<char>)| #[trigger] after.contains(entry) implies {
            &&& entry.0 == display_text(label, entry.1)
            &&& exists|index: int|
                0 <= index < tests.len() && (#[trigger] tests[index]).filter_match is Matches
                    && tests[index].name@ == entry.1
        } by {
            let at = choose|at: int| 0 <= at < after.len() && after[at] == entry;
            if at < before.len() {
                assert(before[at] == entry);
                assert(before.contains(entry));
                let index = choose|index: int|
                    0 <= index < rest.len() && (#[trigger] rest[index]).filter_match is Matches
                        && rest[index].name@ == entry.1;
                assert(tests[index] == rest[index]);
            } else {
                assert(tests[tests.len() - 1] == last);
            }
        }
    }
}

/// A listing is asked for with a filter that leaves nothing out: tests and not
/// benchmarks, ignored or not, by no pattern and no expression.
pub proof fn law_listings_ask_for_everything(filter: TestFilterSpec)
    ensures
        selects_everything(filter) <==> {
            &&& filter.mode == NextestRunMode::Test
            &&& filter.run_ignored == RunIgnored::All
            &&& filter.patterns.substrings@.len() == 0
            &&& filter.patterns.exact@.len() == 0
            &&& filter.exprs@.len() == 0
        },
{
    if filter.patterns.substrings@.len() == 0 && filter.patterns.exact@.len() == 0
        && filter.exprs@.len() == 0 {
        assert(filter.patterns.substrings@ =~= Seq::<String>::empty());
        assert(filter.patterns.exact@ =~= Seq::<String>::empty());
        assert(filter.exprs@ =~= Seq::<Filterset>::empty());
    }
}

/// Listing more tests adds their entries behind those already listed, one entry for
/// each that the filter selects: the test's own name selects it, and the name shown
/// puts the target's label before it.
pub proof fn law_listings_keep_their_order(
    label: Seq<char>,
    first: Seq<TestInstance>,
    second: Seq<TestInstance>,
    test: TestInstance,
)
    ensures
        listing(label, first + second) == listing(label, first) + listing(label, second),
        test.filter_match is Matches ==> listing(label, seq![test]) == seq![
            (label + " - "@ + test.name@, test.name@),
        ],
        !(test.filter_match is Matches) ==> listing(label, seq![test]).len() == 0,
        listing(label, Seq::empty()).len() == 0,
    decreases second.len(),
{
    let one = seq![test];
    assert(one.drop_last() =~= Seq::<TestInstance>::empty());
    assert(one.last() == test);
    assert(listing(label, Seq::<TestInstance>::empty()).len() == 0);
    assert(listing(label, one.drop_last()) =~= Seq::<(Seq<char>, Seq<char>)>::empty());
    if second.len() == 0 {
        assert(first + second =~= first);
    } else {
        law_listings_keep_their_order(label, first, second.drop_last(), test);
        assert((first + second).drop_last() =~= first + second.drop_last());
        assert((first + second).last() == second.last());
    }
}

/// What is written is the listing: each entry's name and filter are those of the
/// entry at its place.
pub proof fn law_listings_are_written_whole<
    W: FnOnce(&Vec<ListedTest>) -> Result<(), OutputError>,
>(
    label: Seq<char>,
    tests: Seq<TestInstance>,
    write: W,
    result: Result<(), ExpectedError>,
)
    requires
        list_outcome(label, tests, write, result),
    ensures
        exists|listed: &Vec<ListedTest>, written: Result<(), OutputError>|
            {
                &&& #[trigger] write.ensures((listed,), written)
                &&& listed@.len() == listing(label, tests).len()
                &&& forall|index: int|
                    0 <= index < listed@.len() ==> (#[trigger] listed@[index]).name@ == listing(
                        label,
                        tests,
                    )[index].0 && listed@[index].filter@ == listing(label, tests)[index].1
                &&& result is Ok <==> written is Ok
            },
{
    let (listed, written) = choose|listed: &Vec<ListedTest>, written: Result<(), OutputError>|
        {
            &&& #[trigger] write.ensures((listed,), written)
            &&& entries(listed@) == listing(label, tests)
            &&& match written {
                Ok(()) => result is Ok,
                Err(error) => result == Err::<(), ExpectedError>(error.reported()),
            }
        };
    assert(write.ensures((listed,), written));
    assert forall|index: int| 0 <= index < listed@.len() implies (
    #[trigger] listed@[index]).name@ == listing(label, tests)[index].0 && listed@[index].filter@
        == listing(label, tests)[index].1 by {
        assert(entries(listed@)[index] == (listed@[index].name@, listed@[index].filter@));
    }
}

} // verus!
