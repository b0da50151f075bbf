//! The commit record assembled from the compact value types.

use vstd::prelude::*;

use crate::models::commit_scope::CommitScopeFL;
use crate::models::commit_type::CommitType;

verus! {

/// A commit with a fixed-capacity scope.
#[derive(Debug, Clone, PartialEq, Eq)]
pub struct Commit<const SCOPE_MAX_LEN: usize> {
    pub commit_type: CommitType,
    pub scope: CommitScopeFL<SCOPE_MAX_LEN>,
    pub subject: String,
    pub description: Option<String>,
}

} // verus!
