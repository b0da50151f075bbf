//! Semantic versions.

pub mod semver;
