//! Small reusable building blocks: string helpers, the hybrid string type
//! and the byte-sink writer trait.

pub mod my_str;
pub mod strutil;
pub mod writer;
