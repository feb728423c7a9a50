//! A nextest client for Buck2's test runners.
//!
//! Buck2 discovers, schedules, and caches tests; nextest executes them. A rule
//! that returns `InternalRunnerTestInfo` names two commands, and Buck2 runs
//! both itself as ordinary actions: one per test target, to find out what tests
//! exist ([`list`]), and one per discovered test, with the test's filter
//! appended as the final argument ([`run_one`]). Buck2 can also hand a whole
//! session to an external executor, and take results back as they happen
//! ([`executor`]).
//!
//! Buck2 owns everything spanning tests -- scheduling, concurrency, caching,
//! and the results UI. Nextest owns everything within a test: the profile and
//! its configuration, retries, slow-test handling, leak detection, and the
//! environment a test sees. What lies between the two is decided here: what a
//! target becomes, what is asked of nextest and of Buck2, and what is made of
//! the answers.
//!
//! Touching the disk, executing tests and talking to Buck2 are functions that
//! callers hand in. The preconditions say when such a function is called and what
//! it is asked, often in terms of what an earlier one answered: a function that
//! need not be fit for a call is not called. The postconditions say what each
//! answer leads to. Calls into other crates that only compute are made by small
//! trusted functions, each of which says what it takes the call to do.

pub mod binaries;
pub mod cli;
pub mod convert;
pub mod duration;
pub mod errors;
pub mod events;
pub mod executor;
mod exit_code;
pub mod list;
pub mod output;
pub mod package_info;
mod paths;
pub mod pipeline;
pub mod project_root;
pub mod run;
pub mod run_one;
pub mod session;
pub mod stats;
pub mod string_map;
pub mod text;
