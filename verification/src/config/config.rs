//! The configuration interface read by the config-driven commit builder in
//! [`crate::git::commit`], and a ready-made implementation with fixed
//! values.

use vstd::prelude::*;

use crate::git::commit::CaseResolutionStrategy;
use crate::git::commit::CommitType;

verus! {

/// What the config-driven builder needs to know.  A host implements this;
/// the two length limits carry contracts so that the builder's guarantees
/// hold of any implementation.
pub trait Config<'a> {
    /// The maximum length of a commit's title, which includes the commit
    /// type, the scope, the `!` for breaking changes, and the description.
    spec fn spec_max_message_len(&self) -> usize;

    /// The maximum length of a scope, if one is enforced.
    spec fn spec_max_scope_len(&self) -> Option<usize>;

    /// Returns the maximum length of a commit's title.
    fn max_commit_message_length(&self) -> (r: usize)
        ensures
            r == self.spec_max_message_len(),
    ;

    /// Returns the maximum length of a scope, if one is enforced.
    fn max_scope_length(&self) -> (r: Option<usize>)
        ensures
            r == self.spec_max_scope_len(),
    ;

    /// The available commit types.
    fn commit_types(&self) -> &Vec<CommitType<'a>>;

    /// The case resolution strategy for the commit type.
    fn commit_type_strategy(&self) -> CaseResolutionStrategy;

    /// The case resolution strategy for the scope.
    fn scope_strategy(&self) -> CaseResolutionStrategy;

    /// The case resolution strategy for the description.
    fn description_strategy(&self) -> CaseResolutionStrategy;
}

/// A configuration with fixed values.
#[derive(Debug, Clone, PartialEq, Eq)]
pub struct StaticConfig<'a> {
    pub max_message_len: usize,
    pub max_scope_len: Option<usize>,
    pub types: Vec<CommitType<'a>>,
    pub type_case: CaseResolutionStrategy,
    pub scope_case: CaseResolutionStrategy,
    pub description_case: CaseResolutionStrategy,
}

impl<'a> Config<'a> for StaticConfig<'a> {
    open spec fn spec_max_message_len(&self) -> usize {
        self.max_message_len
    }

    open spec fn spec_max_scope_len(&self) -> Option<usize> {
        self.max_scope_len
    }

    fn max_commit_message_length(&self) -> (r: usize) {
        self.max_message_len
    }

    fn max_scope_length(&self) -> (r: Option<usize>) {
        self.max_scope_len
    }

    fn commit_types(&self) -> &Vec<CommitType<'a>> {
        &self.types
    }

    fn commit_type_strategy(&self) -> CaseResolutionStrategy {
        self.type_case
    }

    fn scope_strategy(&self) -> CaseResolutionStrategy {
        self.scope_case
    }

    fn description_strategy(&self) -> CaseResolutionStrategy {
        self.description_case
    }
}

} // verus!
