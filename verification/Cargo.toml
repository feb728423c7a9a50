[package]
name = "buck2-nextest"
version = "0.1.0"
edition = "2021"
publish = false

[dependencies]
camino = "1"
clap = { version = "4", features = ["derive", "env"] }
guppy = "*"
iddqd = "*"
miette = { version = "*", features = ["fancy"] }
nextest-filtering = "*"
nextest-metadata = "*"
prost-types = "*"
quick-junit = "*"
semver = "1"
serde = { version = "1", features = ["derive"] }
serde_json = "1"
swrite = "*"
thiserror = "2"
tokio = { version = "1", features = ["rt-multi-thread", "sync", "time", "macros"] }
tonic = { version = "*", default-features = false }
tracing = "0.1"
tracing-subscriber = "0.3"
