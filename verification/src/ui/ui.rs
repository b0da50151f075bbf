//! The prompt surface: what a terminal host offers the flow.

use vstd::prelude::*;

verus! {

/// How a piece of text should be styled.
pub enum TextVariant {
    /// Text the user typed, echoed back.
    UserInput,
}

/// The prompts the flow needs.  A host renders them on its terminal; the
/// flow treats every answer as already collected when control returns.
pub trait UI {
    /// Prints the given text to the user.
    fn print(&self, text: &str, variant: TextVariant);

    /// Prints the given text to the user, followed by a newline.
    fn println(&self, text: &str, variant: TextVariant);

    /// Asks the user to select one of the options, with an optional
    /// default pre-selected.
    fn select(&self, prompt: &str, options: &Vec<String>, default: Option<usize>) -> usize;

    /// Asks the user to select any number of the options, with the given
    /// defaults pre-selected.
    fn multi_select(&self, prompt: &str, options: &Vec<String>, default: &Vec<usize>) -> Vec<
        usize,
    >;

    /// Asks the user to type a line of text.
    fn input(&self) -> String;

    /// Asks the user a yes/no question.
    fn confirm(&self, prompt: &str) -> bool;
}

} // verus!
