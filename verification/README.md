# buck2-nextest

A client that lets Buck2 run Rust tests with nextest, verified with Verus.

Buck2 discovers, schedules, and caches tests; nextest executes them. This crate
holds the decisions in between, each with a contract that Verus proves.

- `src/session/` is the pipeline between a build system and nextest: profiles,
  filtersets, the test list, running to completion, and what a finished run's
  statistics amount to.
- `src/list.rs` and `src/run_one.rs` are the two commands Buck2's internal runner
  invokes, and `src/output.rs` is what they write for it.
- `src/executor/` runs a whole session as Buck2's external test executor.
- `src/convert.rs`, `src/project_root.rs` and `src/package_info.rs` turn targets,
  directories and Cargo packages into what nextest works on.
- `src/cli.rs`, `src/pipeline.rs` and `src/run.rs` tie these together.
- `app/` is the program: arguments, files, sockets, JSON, and nextest's runner.

Properties that span functions are public proof functions whose names start with
`law_`. Functions marked `#[verifier::external_body]` call into other crates;
their contracts are taken on trust, and each says what it claims.
