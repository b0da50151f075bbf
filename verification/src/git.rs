//! Types around the version-control boundary: the config-driven commit
//! builder, the command interface a host implements, working-tree changes
//! and status items.

pub mod commit;
pub mod git;
pub mod git_change;
pub mod item;
