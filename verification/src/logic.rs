//! The control logic of the interactive flow, kept free of any terminal or
//! process concern: a host drives it by reporting the user's answers and
//! the outcomes of external actions.

pub mod states;
