//! The commit-message construction core: case conventions, the length
//! budget, the builder, the finished commit value and the error taxonomy.

pub mod builder;
pub mod cmt_type;
pub mod commit;
pub mod constants;
pub mod error;
pub mod strategy;
