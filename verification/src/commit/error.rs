//! The validation failures that the commit builder can report.

use vstd::prelude::*;
use vstd::string::StringExecFns;

use crate::commit::strategy::CaseStrategy;
use crate::commit::strategy::strategy_name;
use crate::util::strutil::dec_digits;
use crate::util::strutil::usize_to_string;

verus! {

/// A failure reported while building a commit; each variant carries enough
/// context to re-prompt for the offending field.
#[derive(Debug, Clone, PartialEq, Eq)]
pub enum CommitError {
    /// A mutation would make the rendered header exceed the maximum length:
    /// `available` is the budget left for the subject given the attempted
    /// prefix, `actual` the offending subject length.
    SubjectTooLongError { available: usize, actual: usize },
    /// `build` was called although no commit type was ever set.
    MissingCommitTypeError,
    /// `build` was called although no subject was ever set.
    MissingSubjectError,
    /// A candidate value for a field does not follow the active case
    /// convention; carries the field, the rejected text and the convention.
    CaseError(CommitComponent, String, CaseStrategy),
}

/// The field of the commit that an error refers to.
#[derive(Debug, Clone, Copy, PartialEq, Eq, Structural)]
pub enum CommitComponent {
    CommitType,
    Scope,
    Subject,
    Description,
}

/// The display name of each component.
pub open spec fn component_name(c: CommitComponent) -> Seq<char> {
    match c {
        CommitComponent::CommitType => "Commit Type"@,
        CommitComponent::Scope => "Scope"@,
        CommitComponent::Subject => "Subject"@,
        CommitComponent::Description => "Description"@,
    }
}

/// The human-readable message of each error, naming the offending value and
/// the limit or convention violated.
pub open spec fn message_spec(e: CommitError) -> Seq<char> {
    match e {
        CommitError::SubjectTooLongError { available, actual } => "The subject is too long: "@
            + dec_digits(actual as nat) + " characters, but only "@ + dec_digits(
            available as nat,
        ) + " are available"@,
        CommitError::MissingCommitTypeError => "You did not select a commit type"@,
        CommitError::MissingSubjectError => "You did not enter a subject"@,
        CommitError::CaseError(component, content, strategy) => "The content '"@ + content@
            + "' for "@ + component_name(component) + " does not match the case strategy: "@
            + strategy_name(strategy),
    }
}

impl CommitComponent {
    /// The display name of this component.
    pub fn name(&self) -> (r: &'static str)
        ensures
            r@ == component_name(*self),
    {
        match self {
            CommitComponent::CommitType => "Commit Type",
            CommitComponent::Scope => "Scope",
            CommitComponent::Subject => "Subject",
            CommitComponent::Description => "Description",
        }
    }
}

impl CommitError {
    /// Renders the human-readable message for this error.
    pub fn message(&self) -> (r: String)
        ensures
            r@ == message_spec(*self),
    {
        match self {
            CommitError::SubjectTooLongError { available, actual } => {
                let mut out = String::new();
                out.append("The subject is too long: ");
                let actual_text = usize_to_string(*actual);
                out.append(actual_text.as_str());
                out.append(" characters, but only ");
                let available_text = usize_to_string(*available);
                out.append(available_text.as_str());
                out.append(" are available");
                proof {
                    assert(out@ =~= message_spec(*self));
                }
                out
            },
            CommitError::MissingCommitTypeError => {
                let out = String::from_str("You did not select a commit type");
                out
            },
            CommitError::MissingSubjectError => {
                let out = String::from_str("You did not enter a subject");
                out
            },
            CommitError::CaseError(component, content, strategy) => {
                let mut out = String::new();
                out.append("The content '");
                out.append(content.as_str());
                out.append("' for ");
                let component_text = component.name();
                out.append(component_text);
                out.append(" does not match the case strategy: ");
                let strategy_text = strategy.name();
                out.append(strategy_text);
                proof {
                    assert(out@ =~= message_spec(*self));
                }
                out
            },
        }
    }
}

} // verus!
