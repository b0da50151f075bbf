//! Compact value types for commit data: a fixed-capacity scope, a
//! catalog commit type, and the commit record built from them.

pub mod commit;
pub mod commit_scope;
pub mod commit_type;
