//! The session configuration: what the host supplies once at startup.

pub mod config;

use vstd::prelude::*;

use crate::commit::cmt_type::CommitType;
use crate::commit::strategy::CaseStrategy;

verus! {

/// The commit-type catalog and the active case strategy, supplied once at
/// process start and treated as immutable for the session.
#[derive(Debug, Clone, PartialEq, Eq)]
pub struct Config {
    pub commit_types: Vec<CommitType>,
    pub strategy: CaseStrategy,
}

impl Config {
    /// Bundles the catalog and the strategy into a configuration.
    pub fn new(commit_types: Vec<CommitType>, strategy: CaseStrategy) -> (r: Self)
        ensures
            r.commit_types == commit_types,
            r.strategy == strategy,
    {
        Self { commit_types, strategy }
    }
}

} // verus!
