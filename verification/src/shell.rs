//! The shell boundary: the errors a command run can report, and the
//! interface a host implements to run one.

pub mod shell;
