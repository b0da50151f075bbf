//! An interactive helper for composing conventional commit messages.
//!
//! The crate is organised around a small core: a [`commit::builder::CommitBuilder`]
//! that accumulates the pieces of a commit message while enforcing a total
//! length budget and a case convention, and a review controller in
//! [`logic::states`] that drives the prompt / revise / confirm flow.  The
//! remaining modules hold the supporting value types (commit types, scopes,
//! semantic versions, working-tree items) and the boundary traits that a host
//! environment implements to supply terminal prompts and version-control
//! commands.

pub mod commit;
pub mod config;
pub mod git;
pub mod logic;
pub mod models;
pub mod semver;
pub mod shell;
pub mod ui;
pub mod util;
