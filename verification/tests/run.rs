//! Listing and running the tests of several targets.

use buck2_nextest::binaries::{BuildPlatforms, Platform};
use buck2_nextest::convert::to_binary_lists;
use buck2_nextest::errors::ExpectedError;
use buck2_nextest::package_info::Version;
use buck2_nextest::pipeline::{build_buck2_runner, ConfigSource, Context, Stages};
use buck2_nextest::run::{OutputTo, RunContext};
use buck2_nextest::session::context::{ReportUuid, SessionContext};
use buck2_nextest::session::errors::ErrorChain;
use buck2_nextest::session::filter::KnownGroups;
use buck2_nextest::session::input::{
    EarlyProfile, FilterBound, RunIgnored, TestFilterPatterns, TestFilterSpec,
};
use buck2_nextest::session::outcome::NoTestsBehavior;
use buck2_nextest::session::test_session::{
    ArtifactRequest, InputHandlerKind, SignalHandlerKind, TestListRequest,
};
use buck2_nextest::stats::{NextestRunMode, RunStats};
use guppy::graph::PackageGraph;
use nextest_filtering::ParseContext;

fn no_packages() -> PackageGraph {
    PackageGraph::from_json(
        r#"{
            "packages": [],
            "workspace_members": [],
            "workspace_default_members": [],
            "resolve": null,
            "workspace_root": "/workspace",
            "target_directory": "/workspace/target",
            "version": 1
        }"#,
    )
    .expect("the metadata is valid")
}

fn platforms() -> BuildPlatforms {
    BuildPlatforms {
        host: Platform {
            triple: "x86_64-unknown-linux-gnu".to_owned(),
            libdir: None,
        },
        target: None,
    }
}

fn run_context(no_tests: Option<NoTestsBehavior>, filtersets: &[&str]) -> RunContext {
    RunContext {
        binaries: to_binary_lists(&Vec::new(), "/project", platforms()),
        project_root: "/project".to_owned(),
        profile_name: None,
        config_file: Some("/project/custom.toml".to_owned()),
        run_id: ReportUuid { value: 3 },
        filtersets: filtersets.iter().map(|text| (*text).to_owned()).collect(),
        filter_patterns: vec!["needle".to_owned()],
        run_ignored: RunIgnored::Only,
        filter_bound: FilterBound::All,
        list_threads: 8,
        no_tests,
    }
}

fn chain(message: &str) -> ErrorChain {
    ErrorChain {
        messages: vec![message.to_owned()],
    }
}

fn profile(custom_groups: &[&str]) -> EarlyProfile {
    EarlyProfile {
        name: "default".to_owned(),
        store_dir: "/project/target/nextest/default".to_owned(),
        has_junit: true,
        custom_groups: custom_groups.iter().map(|text| (*text).to_owned()).collect(),
    }
}

fn stats(initial_run_count: usize, failed: usize) -> RunStats {
    RunStats {
        initial_run_count,
        finished_count: initial_run_count,
        failed,
        ..Default::default()
    }
}

#[test]
fn the_terminal_belongs_to_whoever_is_looked_at() {
    assert_eq!(
        OutputTo::Terminal.handlers(),
        (SignalHandlerKind::Standard, InputHandlerKind::Standard)
    );
    assert_eq!(
        OutputTo::PlainStderr.handlers(),
        (SignalHandlerKind::Standard, InputHandlerKind::Noop)
    );
}

fn load_config(source: ConfigSource<'_>) -> Result<(), ErrorChain> {
    assert_eq!(source.workspace_root, "/project");
    Ok(())
}

fn find_profile(_: &(), name: &str) -> Result<EarlyProfile, ErrorChain> {
    assert_eq!(name, "default");
    Ok(profile(&[]))
}

fn missing_profile(_: &(), _: &str) -> Result<EarlyProfile, ErrorChain> {
    Err(chain("no such profile"))
}

fn create_dir(dir: &str) -> Result<(), std::io::Error> {
    assert_eq!(dir, "/project/target/nextest/default");
    Ok(())
}

fn build_filter(spec: TestFilterSpec) -> Result<(), ErrorChain> {
    assert_eq!(spec.patterns.substrings, ["needle"]);
    Ok(())
}

fn convert(request: ArtifactRequest<'_>) -> Result<(), ErrorChain> {
    assert_eq!(request.platform_filter, None);
    Ok(())
}

fn list_tests(request: TestListRequest<'_, ()>, (): ()) -> Result<&'static str, ErrorChain> {
    assert_eq!(request.list_threads, 8);
    assert_eq!(request.context.run_id, ReportUuid { value: 3 });
    Ok("tests")
}

#[test]
fn a_run_exits_with_the_canonical_codes() {
    let graph = no_packages();
    let pcx = ParseContext::new(&graph);
    let code = |no_tests, run_stats| {
        run_context(no_tests, &[])
            .run(
                vec!["arg".to_owned()],
                Version::new(0, 1, 0),
                &pcx,
                false,
                Stages::new(
                    load_config,
                    find_profile,
                    create_dir,
                    build_filter,
                    convert,
                    list_tests,
                ),
                |session, spec| {
                    assert_eq!(*session.test_list(), "tests");
                    assert_eq!(spec.output, OutputTo::Terminal);
                    assert_eq!(spec.input_handler, InputHandlerKind::Standard);
                    assert_eq!(spec.cli_args, ["arg"]);
                    assert!(!spec.no_capture);
                    Ok(Ok(run_stats))
                },
            )
            .expect("the run completes")
    };
    assert_eq!(code(None, stats(2, 0)), 0);
    assert_eq!(code(None, stats(2, 1)), 100);
    assert_eq!(code(None, stats(0, 0)), 4);
    assert_eq!(code(Some(NoTestsBehavior::Pass), stats(0, 0)), 0);
}

#[test]
fn a_run_with_a_sink_leaves_the_terminal_alone() {
    let graph = no_packages();
    let pcx = ParseContext::new(&graph);
    let run = |executed| {
        run_context(None, &[]).run_with_sink(
            Vec::new(),
            Version::new(0, 1, 0),
            &pcx,
            false,
            Stages::new(
                load_config,
                find_profile,
                create_dir,
                build_filter,
                convert,
                list_tests,
            ),
            |_, spec| {
                assert_eq!(spec.output, OutputTo::PlainStderr);
                assert_eq!(spec.signal_handler, SignalHandlerKind::Standard);
                assert_eq!(spec.input_handler, InputHandlerKind::Noop);
                executed
            },
        )
    };
    let code = run(Ok(Ok(stats(1, 0)))).expect("the run completes");
    assert_eq!(code, 0);

    let error = run(Ok(Err(std::io::Error::other("failed to forward results"))))
        .expect_err("the run fails");
    assert!(matches!(error, ExpectedError::WriteEventError { .. }));
    assert_eq!(error.exit_code(), 110);

    let error = run(Err(ExpectedError::TestRunnerBuildError {
        error: chain("no runner"),
    }))
    .expect_err("the runner is not built");
    assert!(matches!(error, ExpectedError::TestRunnerBuildError { .. }));
}

#[test]
fn a_listing_is_written_in_the_format_asked_for() {
    let graph = no_packages();
    let pcx = ParseContext::new(&graph);
    let write = |written| {
        run_context(None, &[]).list(
            "json",
            Version::new(0, 1, 0),
            &pcx,
            false,
            Stages::new(
                load_config,
                find_profile,
                create_dir,
                build_filter,
                convert,
                list_tests,
            ),
            |session, format| {
                assert_eq!(*session.test_list(), "tests");
                assert_eq!(format, "json");
                Ok(written)
            },
        )
    };
    write(Ok(())).expect("the listing is written");
    let error = write(Err(std::io::Error::other("closed"))).expect_err("it cannot be written");
    assert!(matches!(error, ExpectedError::WriteEventError { .. }));
    assert_eq!(error.exit_code(), 110);

    let error = run_context(None, &[])
        .list(
            "json",
            Version::new(0, 1, 0),
            &pcx,
            false,
            Stages::new(
                load_config,
                missing_profile,
                create_dir,
                build_filter,
                convert,
                list_tests,
            ),
            |_, _| panic!("there is no session"),
        )
        .expect_err("the pipeline is not set up");
    assert!(matches!(error, ExpectedError::ProfileNotFound { .. }));
    assert_eq!(error.exit_code(), 96);
}

#[test]
fn a_filter_is_built_from_what_was_asked_for() {
    let graph = no_packages();
    let pcx = ParseContext::new(&graph);
    let groups = KnownGroups::Known {
        custom_groups: Vec::new(),
    };
    let built = run_context(None, &["all()", "test(foo)"])
        .build_filter(&pcx, &groups, |spec| {
            assert_eq!(spec.mode, NextestRunMode::Test);
            assert_eq!(spec.run_ignored, RunIgnored::Only);
            assert_eq!(spec.patterns.substrings, ["needle"]);
            assert!(spec.patterns.exact.is_empty());
            assert_eq!(spec.exprs.len(), 2);
            assert_eq!(spec.exprs[1].input, "test(foo)");
            Ok("filter")
        })
        .expect("the filter is built");
    assert_eq!(built, "filter");

    let error = run_context(None, &["test(", "all()", "nope()"])
        .build_filter(&pcx, &groups, |_| -> Result<(), ErrorChain> {
            panic!("there is nothing to build")
        })
        .expect_err("two filtersets are bad");
    assert!(matches!(
        &error,
        ExpectedError::FiltersetParseError { all_errors } if all_errors.len() == 2
    ));
    assert_eq!(error.exit_code(), 94);

    let error = run_context(None, &[])
        .build_filter(&pcx, &groups, |_| Err::<(), ErrorChain>(chain("too many")))
        .expect_err("the filter is not built");
    assert!(matches!(error, ExpectedError::TestFilterBuildError { .. }));
    assert_eq!(error.exit_code(), 96);
}

/// Takes a context's pipeline up to where `stop` says it fails.
fn stages(stop: &str) -> (Vec<&'static str>, Result<&'static str, ExpectedError>) {
    let graph = no_packages();
    let pcx = ParseContext::new(&graph);
    let ctx = SessionContext::simple(ReportUuid { value: 3 }, Version::new(0, 1, 0));
    let cx = run_context(None, &["group(serial)"]);
    let reached = std::cell::RefCell::new(Vec::new());
    let enter = |stage: &'static str| -> Result<(), ErrorChain> {
        reached.borrow_mut().push(stage);
        if stage == stop {
            Err(chain(stage))
        } else {
            Ok(())
        }
    };
    let result = cx.with_session(
        &ctx,
        &pcx,
        true,
        Stages::new(
            |source| {
                assert_eq!(source.workspace_root, "/project");
                assert_eq!(source.config_file, Some("/project/custom.toml"));
                enter("config")
            },
            |(), name| {
                assert_eq!(name, "default");
                enter("profile").map(|()| profile(&["serial"]))
            },
            |dir| {
                assert_eq!(dir, "/project/target/nextest/default");
                enter("store").map_err(|_| std::io::Error::other("read-only"))
            },
            |spec| {
                assert_eq!(spec.exprs.len(), 1);
                enter("filter")
            },
            |_| enter("artifacts"),
            |request, ()| {
                assert_eq!(request.list_threads, 8);
                assert_eq!(request.filter_bound, FilterBound::All);
                assert_eq!(request.workspace_root, "/project");
                enter("tests")
            },
        ),
        "the plan",
        |session, plan| {
            assert_eq!(plan, "the plan");
            build_buck2_runner(
                session,
                Vec::new(),
                SignalHandlerKind::Standard,
                InputHandlerKind::Noop,
                |request| {
                    assert_eq!(request.run_id, ReportUuid { value: 3 });
                    enter("runner").map(|()| "runner")
                },
            )
        },
    );
    (reached.into_inner(), result)
}

#[test]
fn the_pipeline_stops_at_the_first_failure() {
    let all = [
        "config",
        "profile",
        "filter",
        "store",
        "artifacts",
        "tests",
        "runner",
    ];
    let (reached, result) = stages("nowhere");
    assert_eq!(reached, all);
    assert_eq!(result.expect("every stage succeeds"), "runner");

    for (index, stage) in all.iter().enumerate() {
        let (reached, result) = stages(stage);
        assert_eq!(reached, all[..=index], "nothing runs after {stage}");
        let error = result.expect_err("a stage failed");
        assert!(
            match index {
                0 => matches!(error, ExpectedError::ConfigParseError { .. }),
                1 => matches!(error, ExpectedError::ProfileNotFound { .. }),
                2 => matches!(error, ExpectedError::TestFilterBuildError { .. }),
                3 => matches!(error, ExpectedError::StoreDirCreateError { .. }),
                4 => matches!(error, ExpectedError::FromMessagesError { .. }),
                5 => matches!(error, ExpectedError::CreateTestListError { .. }),
                _ => matches!(error, ExpectedError::TestRunnerBuildError { .. }),
            },
            "{stage} is reported as what it is, got {error:?}"
        );
    }
}

#[test]
fn one_target_is_listed_by_one_thread() {
    let ctx = SessionContext::simple(ReportUuid { value: 3 }, Version::new(0, 1, 0));
    let cx = Context {
        label: "root//:demo".to_owned(),
        binaries: to_binary_lists(&Vec::new(), "/project", platforms()),
        project_root: "/project".to_owned(),
        profile_name: Some("ci".to_owned()),
        config_file: None,
    };
    let order = std::cell::RefCell::new(Vec::new());
    let tests = cx
        .with_session(
            &ctx,
            TestFilterSpec {
                mode: NextestRunMode::Test,
                run_ignored: RunIgnored::Default,
                patterns: TestFilterPatterns::new(Vec::new()),
                exprs: Vec::new(),
            },
            FilterBound::DefaultSet,
            false,
            Stages::new(
                |source| {
                    assert_eq!(source.config_file, None);
                    order.borrow_mut().push("config");
                    Ok(())
                },
                |(), name| {
                    assert_eq!(name, "ci");
                    order.borrow_mut().push("profile");
                    Ok(profile(&[]))
                },
                |_| {
                    order.borrow_mut().push("store");
                    Ok(())
                },
                |_| {
                    order.borrow_mut().push("filter");
                    Ok("filter")
                },
                |request| {
                    assert_eq!(request.platform_filter, None);
                    order.borrow_mut().push("artifacts");
                    Ok(())
                },
                |request, ()| {
                    assert_eq!(request.list_threads, 1);
                    assert_eq!(request.filter_bound, FilterBound::DefaultSet);
                    assert_eq!(*request.test_filter, "filter");
                    assert!(!request.progress.is_terminal);
                    order.borrow_mut().push("tests");
                    Ok(vec!["a test"])
                },
            ),
            (),
            |session, ()| Ok(session.test_list().len()),
        )
        .expect("every stage succeeds");
    assert_eq!(tests, 1);
    assert_eq!(
        order.into_inner(),
        ["config", "profile", "store", "filter", "artifacts", "tests"]
    );
}
