//! The build-system integration pipeline for nextest.
//!
//! Nextest's runner does not care who built the test binaries. This module is
//! the contract between a build system and nextest: a frontend supplies what
//! it built, and this carries it through nextest's shared pipeline --
//! configuration, profiles, filtersets, listing, running, and reporting.
//!
//! The inputs are data. What only the outside can do -- touching the disk,
//! executing a binary, rendering an event -- is handed in as a function, and
//! the contracts here say when it is called, what it is asked, and what its
//! answer leads to.

pub mod context;
pub mod errors;
pub mod filter;
pub mod input;
pub mod outcome;
pub mod profile;
pub mod relay;
pub mod test_session;
