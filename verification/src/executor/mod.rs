//! Running tests as Buck2's external test executor.
//!
//! Buck2 sends one spec per target over a connection, answers how each is to
//! be run, and takes results back as they happen. Holding the connections is
//! the caller's; what is said over them, and what is made of the answers, is
//! decided here.

pub mod check;
pub mod collect;
pub mod prepare;
pub mod run;
pub mod sink;
pub mod spec;
