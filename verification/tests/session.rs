//! The session pipeline.

use buck2_nextest::binaries::{BinaryList, BuildPlatform, BuildPlatforms, Platform, RustBuildMeta};
use buck2_nextest::package_info::{PackageInfo, Version};
use buck2_nextest::session::context::{
    checked_session_context, session_context, DoubleSpawnInfo, ReportUuid, SessionContext,
};
use buck2_nextest::session::errors::{
    into_report_errors, ErrorChain, ExecuteError, SessionBuildError, SinkError,
    TestRunnerExecuteErrors, WriteEventError,
};
use buck2_nextest::session::filter::{
    collect_outcomes, parse_filtersets, FiltersetKind, KnownGroups,
};
use buck2_nextest::session::input::{
    EarlyProfile, EnvironmentMap, FilterBound, ListProgressOptions, PartitionerBuilder, PathMapper,
    SessionInputs, TestListOptions,
};
use buck2_nextest::session::profile::{
    create_junit_store_dir, evaluate_profile, EvaluatableProfile,
};
use buck2_nextest::session::relay::Relay;
use buck2_nextest::session::test_session::{
    run_to_completion, ExecutedRun, InputHandlerKind, SignalHandlerKind, TestSession,
};
use buck2_nextest::stats::RunStats;
use guppy::graph::PackageGraph;
use iddqd::IdOrdMap;
use nextest_filtering::ParseContext;
use std::convert::Infallible;
use std::io;

/// A graph without packages, for filtersets that do not ask about any.
fn no_packages() -> PackageGraph {
    PackageGraph::from_json(
        r#"{
            "packages": [],
            "workspace_members": [],
            "workspace_default_members": [],
            "resolve": null,
            "workspace_root": "/workspace",
            "target_directory": "/workspace/target",
            "version": 1
        }"#,
    )
    .expect("the metadata is valid")
}

fn no_groups() -> KnownGroups {
    KnownGroups::Known {
        custom_groups: Vec::new(),
    }
}

#[test]
fn valid_filtersets_parse_in_order() {
    let graph = no_packages();
    let pcx = ParseContext::new(&graph);
    let inputs = vec!["all()".to_owned(), "test(foo)".to_owned()];
    let filtersets = parse_filtersets(&pcx, &inputs, FiltersetKind::Test, &no_groups())
        .expect("both filtersets are valid");
    assert_eq!(filtersets.len(), 2);
    assert_eq!(filtersets[0].input, "all()");
    assert_eq!(filtersets[1].input, "test(foo)");
}

#[test]
fn every_invalid_filterset_is_reported() {
    let graph = no_packages();
    let pcx = ParseContext::new(&graph);
    let inputs = vec![
        "test(".to_owned(),
        "all()".to_owned(),
        "nonsense_predicate(foo)".to_owned(),
    ];
    let all_errors = parse_filtersets(&pcx, &inputs, FiltersetKind::Test, &no_groups())
        .expect_err("two of the filtersets are invalid");
    assert_eq!(
        all_errors.len(),
        2,
        "both bad filtersets are reported, not just the first"
    );
    assert_eq!(all_errors[0].input, "test(");
    assert_eq!(all_errors[1].input, "nonsense_predicate(foo)");
}

/// What a filterset may contain depends on what it is for, and on the groups
/// the profile defines.
#[test]
fn filtersets_are_parsed_against_their_kind_and_groups() {
    let graph = no_packages();
    let pcx = ParseContext::new(&graph);
    let group = vec!["group(serial)".to_owned()];
    parse_filtersets(&pcx, &group, FiltersetKind::Test, &no_groups())
        .expect_err("no such group is known");
    let known = KnownGroups::Known {
        custom_groups: vec!["serial".to_owned()],
    };
    parse_filtersets(&pcx, &group, FiltersetKind::Test, &known).expect("the group is known");
    parse_filtersets(
        &pcx,
        &group,
        FiltersetKind::DefaultFilter,
        &KnownGroups::Unavailable,
    )
    .expect_err("a default filter may not name groups");

    let default = vec!["default()".to_owned()];
    parse_filtersets(
        &pcx,
        &default,
        FiltersetKind::DefaultFilter,
        &KnownGroups::Unavailable,
    )
    .expect_err("a default filter may not refer to itself");
    parse_filtersets(
        &pcx,
        &default,
        FiltersetKind::OverrideFilter,
        &KnownGroups::Unavailable,
    )
    .expect("an override may refer to it");
    parse_filtersets(
        &pcx,
        &vec!["test(foo)".to_owned()],
        FiltersetKind::TestArchive,
        &KnownGroups::Unavailable,
    )
    .expect_err("an archive holds whole binaries");
}

#[test]
fn outcomes_are_collected_all_at_once() {
    let collected = |outcomes: Vec<Result<u8, char>>| collect_outcomes(outcomes);
    assert_eq!(collected(vec![]), Ok(vec![]));
    assert_eq!(collected(vec![Ok(1), Ok(2)]), Ok(vec![1, 2]));
    assert_eq!(
        collected(vec![Err('a'), Ok(1), Err('b'), Ok(2)]),
        Err(vec!['a', 'b'])
    );
}

#[test]
fn report_errors_survive_the_infallible_mapping() {
    let errors = TestRunnerExecuteErrors {
        report_error: Some(SinkError::<Infallible>::Report(WriteEventError::Io(
            io::Error::other("disk full"),
        ))),
        join_errors: Vec::new(),
    };
    let mapped = into_report_errors(errors);
    assert!(
        matches!(&mapped.report_error, Some(WriteEventError::Io(error)) if error.to_string() == "disk full"),
        "the reporter error passes through unchanged, got {:?}",
        mapped.report_error
    );
    assert!(mapped.join_errors.is_empty());
}

#[test]
fn absent_report_errors_stay_absent() {
    let errors: TestRunnerExecuteErrors<SinkError<Infallible>> = TestRunnerExecuteErrors {
        report_error: None,
        join_errors: Vec::new(),
    };
    let mapped = into_report_errors(errors);
    assert!(mapped.report_error.is_none());
}

fn profile(has_junit: bool) -> EarlyProfile {
    EarlyProfile {
        name: "ci".to_owned(),
        store_dir: "/project/target/nextest/ci".to_owned(),
        has_junit,
        custom_groups: vec!["serial".to_owned()],
    }
}

fn platforms() -> BuildPlatforms {
    BuildPlatforms {
        host: Platform {
            triple: "x86_64-unknown-linux-gnu".to_owned(),
            libdir: None,
        },
        target: None,
    }
}

#[test]
fn a_store_directory_is_created_for_a_junit_report_only() {
    let mut created = Vec::new();
    create_junit_store_dir(&profile(true), |dir| {
        created.push(dir.to_owned());
        Ok(())
    })
    .expect("the directory is created");
    assert_eq!(created, ["/project/target/nextest/ci"]);

    create_junit_store_dir(&profile(false), |_| panic!("there is nothing to create"))
        .expect("there is nothing to do");
}

#[test]
fn a_store_directory_that_cannot_be_created_is_an_error() {
    let platforms = platforms();
    let error = evaluate_profile(profile(true), &platforms, |_| {
        Err(io::Error::other("read-only"))
    })
    .expect_err("the directory cannot be created");
    assert_eq!(error.store_dir, "/project/target/nextest/ci");
    assert_eq!(error.error.to_string(), "read-only");

    let evaluated =
        evaluate_profile(profile(true), &platforms, |_| Ok(())).expect("the profile is evaluated");
    assert_eq!(evaluated.profile, profile(true));
    assert_eq!(evaluated.build_platforms, &platforms);
}

#[test]
fn a_profile_knows_the_groups_it_defines() {
    assert_eq!(
        profile(false).known_groups(),
        KnownGroups::Known {
            custom_groups: vec!["serial".to_owned()]
        }
    );
}

#[test]
fn a_simple_context_constrains_nothing() {
    let run_id = ReportUuid { value: 7 };
    let ctx = SessionContext::simple(run_id, Version::new(0, 9, 1));
    assert_eq!(ctx.run_id, run_id);
    assert_eq!(ctx.version_env_vars.current_version, Version::new(0, 9, 1));
    assert_eq!(ctx.version_env_vars.required_version, None);
    assert_eq!(ctx.version_env_vars.recommended_version, None);
    assert_eq!(ctx.double_spawn, DoubleSpawnInfo::Disabled);
    assert_eq!(ctx.target_runner.host, None);
    assert_eq!(ctx.target_runner.target, None);

    let context = ctx.test_execute_context("ci");
    assert_eq!(context.run_id, run_id);
    assert_eq!(context.profile_name, "ci");
    assert_eq!(context.version_env_vars, &ctx.version_env_vars);
}

#[test]
fn the_programs_own_version_is_parsed() {
    let run_id = ReportUuid { value: 7 };
    let ctx = session_context(run_id, "1.2.3-rc.4+five");
    let version = &ctx.version_env_vars.current_version;
    assert_eq!((version.major, version.minor, version.patch), (1, 2, 3));
    assert_eq!(version.pre, "rc.4");
    assert_eq!(version.build, "five");
    assert_eq!(checked_session_context(run_id, "1.2.3-rc.4+five"), Some(ctx));
    assert_eq!(checked_session_context(run_id, "one"), None);
}

fn binary_list() -> BinaryList {
    BinaryList {
        rust_build_meta: RustBuildMeta {
            target_directory: "/project".to_owned(),
            build_directory: "/project".to_owned(),
            build_platforms: platforms(),
        },
        rust_binaries: Vec::new(),
    }
}

fn inputs<'a>(
    binary_list: &'a BinaryList,
    packages: &'a IdOrdMap<PackageInfo>,
    workspace: Option<&str>,
) -> SessionInputs<'a> {
    SessionInputs {
        binary_list,
        packages,
        workspace_root: "/project".to_owned(),
        env: EnvironmentMap::empty(),
        path_mapper: PathMapper {
            workspace: workspace.map(Into::into),
            target_dir: None,
        },
    }
}

fn list_options() -> TestListOptions {
    TestListOptions {
        partitioner_builder: Some(PartitionerBuilder::Hash {
            shard: 1,
            total_shards: 2,
        }),
        platform_filter: Some(BuildPlatform::Target),
        filter_bound: FilterBound::DefaultSet,
        list_threads: 3,
        progress: ListProgressOptions {
            show_terminal_progress: false,
            is_terminal: true,
        },
    }
}

#[test]
fn a_session_lists_and_runs_under_one_identity() {
    let ctx = SessionContext::simple(ReportUuid { value: 99 }, Version::new(1, 0, 0));
    let platforms = platforms();
    let profile = EvaluatableProfile {
        profile: profile(false),
        build_platforms: &platforms,
    };
    let list = binary_list();
    let packages = IdOrdMap::new();
    let session = TestSession::build(
        &ctx,
        &profile,
        inputs(&list, &packages, None),
        &"filter",
        list_options(),
        |request| {
            assert_eq!(request.platform_filter, Some(BuildPlatform::Target));
            assert_eq!(request.binary_list, &list);
            Ok("artifacts")
        },
        |request, artifacts| {
            assert_eq!(artifacts, "artifacts");
            assert_eq!(request.context.run_id, ReportUuid { value: 99 });
            assert_eq!(request.context.profile_name, "ci");
            assert_eq!(*request.test_filter, "filter");
            assert_eq!(request.workspace_root, "/project");
            assert_eq!(request.filter_bound, FilterBound::DefaultSet);
            assert_eq!(request.list_threads, 3);
            assert_eq!(
                request.partitioner_builder,
                Some(PartitionerBuilder::Hash {
                    shard: 1,
                    total_shards: 2
                })
            );
            assert!(request.progress.is_terminal);
            Ok(vec!["a test"])
        },
    )
    .expect("the session is built");
    assert_eq!(session.test_list(), &vec!["a test"]);

    let runner = session
        .build_runner(
            vec!["arg".to_owned()],
            SignalHandlerKind::Standard,
            InputHandlerKind::Noop,
            |request| {
                assert_eq!(request.run_id, ReportUuid { value: 99 });
                assert_eq!(request.test_list, &vec!["a test"]);
                assert_eq!(request.cli_args, ["arg"]);
                assert_eq!(request.signal_handler, SignalHandlerKind::Standard);
                assert_eq!(request.input_handler, InputHandlerKind::Noop);
                assert_eq!(request.profile.profile.name, "ci");
                Ok("runner")
            },
        )
        .expect("the runner is built");
    assert_eq!(runner, "runner");
}

/// A remapped workspace root is what tests see, in place of the one that was
/// given.
#[test]
fn a_remapped_root_replaces_the_workspace_root() {
    let ctx = SessionContext::simple(ReportUuid { value: 1 }, Version::new(1, 0, 0));
    let platforms = platforms();
    let profile = EvaluatableProfile {
        profile: profile(false),
        build_platforms: &platforms,
    };
    let list = binary_list();
    let packages = IdOrdMap::new();
    TestSession::build(
        &ctx,
        &profile,
        inputs(&list, &packages, Some("/moved")),
        &(),
        list_options(),
        |_| Ok(()),
        |request, ()| {
            assert_eq!(request.workspace_root, "/moved");
            Ok(())
        },
    )
    .expect("the session is built");
}

#[test]
fn a_session_that_cannot_be_built_says_which_phase_failed() {
    let ctx = SessionContext::simple(ReportUuid { value: 1 }, Version::new(1, 0, 0));
    let platforms = platforms();
    let profile = EvaluatableProfile {
        profile: profile(false),
        build_platforms: &platforms,
    };
    let list = binary_list();
    let packages = IdOrdMap::new();
    let failure = || ErrorChain {
        messages: vec!["broken".to_owned()],
    };
    let error = TestSession::<()>::build(
        &ctx,
        &profile,
        inputs(&list, &packages, None),
        &(),
        list_options(),
        |_| Err::<(), ErrorChain>(failure()),
        |_, ()| panic!("there is nothing to list"),
    )
    .expect_err("the artifacts cannot be built");
    assert!(matches!(error, SessionBuildError::FromMessages(chain) if chain == failure()));

    let error = TestSession::<()>::build(
        &ctx,
        &profile,
        inputs(&list, &packages, None),
        &(),
        list_options(),
        |_| Ok(()),
        |_, ()| Err(failure()),
    )
    .expect_err("the tests cannot be listed");
    assert!(matches!(error, SessionBuildError::CreateTestList(chain) if chain == failure()));
}

#[test]
fn the_sink_sees_an_event_before_the_reporter() {
    let order = std::cell::RefCell::new(Vec::new());
    let relay = Relay::new(
        0,
        |taken, event: &i32| {
            order.borrow_mut().push(("sink", *event));
            (taken + 1, Ok::<(), &str>(()))
        },
        0,
        |rendered, event| {
            order.borrow_mut().push(("report", event));
            (rendered + 1, Ok(()))
        },
    );
    let (relay, result) = relay.forward(5);
    assert!(result.is_ok());
    let (relay, result) = relay.forward(6);
    assert!(result.is_ok());
    assert_eq!(relay.into_parts(), (2, 2));
    assert_eq!(
        order.into_inner(),
        [("sink", 5), ("report", 5), ("sink", 6), ("report", 6)]
    );

    let relay = Relay::new(
        "sink",
        |state, _: &i32| (state, Err("gone")),
        "reporter",
        |_, _| panic!("nobody will see this event"),
    );
    let (relay, result) = relay.forward(5);
    assert!(matches!(result, Err(SinkError::Sink("gone"))));
    assert_eq!(relay.into_parts(), ("sink", "reporter"));

    let relay = Relay::new(
        (),
        |(), _: &i32| ((), Ok::<(), &str>(())),
        "reporter",
        |reporter, _| {
            (
                reporter,
                Err(WriteEventError::Io(io::Error::other("full"))),
            )
        },
    );
    let (_, result) = relay.forward(5);
    assert!(matches!(
        result,
        Err(SinkError::Report(WriteEventError::Io(_)))
    ));
}

#[test]
fn a_run_is_configured_executed_and_finished() {
    let stats = RunStats {
        passed: 1,
        ..Default::default()
    };
    let executed: Result<ExecutedRun<Vec<i32>>, ExecuteError<Infallible>> = run_to_completion(
        true,
        (),
        |(), _: &i32| ((), Ok(())),
        Vec::new(),
        |mut rendered, event| {
            rendered.push(event);
            (rendered, Ok(()))
        },
        |no_capture| {
            assert!(no_capture);
            Ok(())
        },
        |relay| {
            let (relay, first) = relay.forward(1);
            assert!(first.is_ok());
            let (relay, second) = relay.forward(2);
            assert!(second.is_ok());
            (relay, Ok(stats))
        },
        |rendered| rendered,
    );
    let executed = executed.expect("the run completes");
    assert_eq!(executed.run_stats, stats);
    assert_eq!(executed.reporter_stats, [1, 2]);

    let executed: Result<ExecutedRun<()>, ExecuteError<Infallible>> = run_to_completion(
        false,
        (),
        |(), _: &i32| panic!("there is no event"),
        (),
        |(), _| panic!("there is no event"),
        |_| {
            Err(ErrorChain {
                messages: vec!["handles".to_owned()],
            })
        },
        |_| panic!("there is nothing to run"),
        |()| panic!("there is nothing to finish"),
    );
    assert!(matches!(
        executed,
        Err(ExecuteError::ConfigureHandleInheritance(_))
    ));

    let executed: Result<ExecutedRun<()>, ExecuteError<&str>> = run_to_completion(
        false,
        (),
        |(), _: &i32| ((), Err("gone")),
        (),
        |(), _| panic!("the sink did not take the event"),
        |_| Ok(()),
        |relay| {
            let (relay, told) = relay.forward(1);
            let errors = TestRunnerExecuteErrors {
                report_error: told.err(),
                join_errors: Vec::new(),
            };
            (relay, Err(errors))
        },
        |()| panic!("there is nothing to finish"),
    );
    assert!(matches!(
        executed,
        Err(ExecuteError::Execute(TestRunnerExecuteErrors {
            report_error: Some(SinkError::Sink("gone")),
            ..
        }))
    ));
}

/// Creating the store directory again changes nothing.
#[test]
fn a_store_dir_is_created_as_often_as_one_likes() {
    let mut tree = std::collections::BTreeSet::new();
    for _ in 0..2 {
        create_junit_store_dir(&profile(true), |dir| {
            tree.insert(dir.to_owned());
            Ok(())
        })
        .expect("the directory is created");
        assert_eq!(tree.len(), 1);
        assert!(tree.contains(&profile(true).store_dir));
    }
}
