//! The prompt surface a host implements to talk to the user.

pub mod ui;
