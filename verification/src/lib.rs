//! Verified renderers for shell prompt segments: a breadcrumb of the working
//! directory, a badge bar for the state of a version-control repository, and a
//! short window title for a terminal multiplexer.
//!
//! Everything here is pure: each renderer is a function from plain values
//! (paths, counters, branch names) to the exact output string, stated in its
//! contract. Reading the environment, querying the repository and printing are
//! left to the surrounding binary.
pub mod branch;
pub mod cli;
pub mod colors;
pub mod git_segment;
pub mod numfmt;
pub mod path;
pub mod status;
pub mod strutil;
pub mod title;
pub mod upstream;
