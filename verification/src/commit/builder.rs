//! The incremental commit builder: accumulates the fields of a commit and
//! validates every mutation against the length budget and the active case
//! strategy.  A setter either commits its mutation and returns `Ok`, or
//! rejects it and leaves the builder exactly as it was.

use vstd::prelude::*;
use vstd::string::StrSliceExecFns;

use crate::commit::cmt_type::CommitType;
use crate::commit::commit::Commit;
use crate::commit::constants::MAX_MESSAGE_LEN;
use crate::commit::error::CommitComponent;
use crate::commit::error::CommitError;
use crate::commit::strategy::CaseStrategy;
use crate::commit::strategy::satisfies_case;

verus! {

/// Accumulates the pieces of a commit message.  All reachable states keep
/// the rendered header within [`MAX_MESSAGE_LEN`] (see [`CommitBuilder::wf`]).
#[derive(Debug, Clone, PartialEq, Eq)]
pub struct CommitBuilder {
    pub commit_type: Option<CommitType>,
    pub scope: Option<String>,
    pub subject: Option<String>,
    pub description: Option<String>,
    pub is_breaking_change: bool,
    pub strategy: CaseStrategy,
}

/// The remaining budget for the subject given a prefix length, clamped at
/// zero when the prefix alone exceeds the budget.
pub open spec fn spec_available(prefix: int) -> int {
    if prefix <= MAX_MESSAGE_LEN as int {
        MAX_MESSAGE_LEN as int - prefix
    } else {
        0
    }
}

impl CommitBuilder {
    /// The characters the commit type contributes to the header.
    pub open spec fn spec_type_len(&self) -> int {
        match self.commit_type {
            Some(t) => t.name@.len() as int,
            None => 0,
        }
    }

    /// The characters the scope contributes to the header, parentheses
    /// included.
    pub open spec fn spec_scope_len(&self) -> int {
        match self.scope {
            Some(s) => s@.len() as int + 2,
            None => 0,
        }
    }

    /// The character the breaking-change marker contributes to the header.
    pub open spec fn spec_breaking_len(&self) -> int {
        if self.is_breaking_change {
            1
        } else {
            0
        }
    }

    /// The length of the header prefix: type name, scope with parentheses,
    /// and the breaking-change marker.
    pub open spec fn spec_prefix_len(&self) -> int {
        self.spec_type_len() + self.spec_scope_len() + self.spec_breaking_len()
    }

    /// The length of the subject, or zero while none is set.
    pub open spec fn spec_message_len(&self) -> int {
        match self.subject {
            Some(s) => s@.len() as int,
            None => 0,
        }
    }

    /// Every builder obtained from [`Commit::builder`] and mutated only
    /// through the public operations satisfies this: the rendered header
    /// never exceeds the budget.
    pub open spec fn wf(&self) -> bool {
        self.spec_prefix_len() + self.spec_message_len() <= MAX_MESSAGE_LEN as int
    }

    /// The length of the header prefix in characters.
    pub fn prefix_len(&self) -> (r: usize)
        requires
            self.wf(),
        ensures
            r == self.spec_prefix_len(),
    {
        let mut len: usize = 0;
        match &self.commit_type {
            Some(commit_type) => {
                len = len + commit_type.len();
            },
            None => {},
        }
        match &self.scope {
            Some(scope) => {
                len = len + scope.as_str().unicode_len() + 2;
            },
            None => {},
        }
        if self.is_breaking_change {
            len = len + 1;
        }
        len
    }

    /// The length of the subject in characters, or zero while none is set.
    pub fn message_len(&self) -> (r: usize)
        ensures
            r == self.spec_message_len(),
    {
        match &self.subject {
            Some(subject) => subject.as_str().unicode_len(),
            None => 0,
        }
    }

    /// Sets the commit type, re-validating the total length: the new type
    /// is kept exactly when the header still fits the budget; otherwise the
    /// builder is left unchanged and the offending lengths are reported.
    pub fn commit_type(&mut self, commit_type: CommitType) -> (r: Result<(), CommitError>)
        requires
            old(self).wf(),
        ensures
            final(self).wf(),
            ({
                let cand = (CommitBuilder { commit_type: Some(commit_type), ..*old(self) });
                if cand.spec_prefix_len() + cand.spec_message_len() <= MAX_MESSAGE_LEN as int {
                    &&& r is Ok
                    &&& *final(self) == cand
                } else {
                    &&& *final(self) == *old(self)
                    &&& r matches Err(e) && e == (CommitError::SubjectTooLongError {
                        available: spec_available(cand.spec_prefix_len()) as usize,
                        actual: cand.spec_message_len() as usize,
                    })
                }
            }),
    {
        let type_len = commit_type.len();
        let mut rest: usize = 0;
        match &self.scope {
            Some(scope) => {
                rest = rest + scope.as_str().unicode_len() + 2;
            },
            None => {},
        }
        if self.is_breaking_change {
            rest = rest + 1;
        }
        let msg_len = self.message_len();
        if type_len <= MAX_MESSAGE_LEN && type_len + rest + msg_len <= MAX_MESSAGE_LEN {
            self.commit_type = Some(commit_type);
            Ok(())
        } else {
            let available: usize = if type_len <= MAX_MESSAGE_LEN && type_len + rest
                <= MAX_MESSAGE_LEN {
                MAX_MESSAGE_LEN - (type_len + rest)
            } else {
                0
            };
            Err(CommitError::SubjectTooLongError { available, actual: msg_len })
        }
    }

    /// Sets the scope.  The candidate text must follow the active case
    /// strategy, and the header must still fit the budget afterwards; a
    /// rejected mutation leaves the builder unchanged.
    pub fn scope(&mut self, scope: &str) -> (r: Result<(), CommitError>)
        requires
            old(self).wf(),
        ensures
            final(self).wf(),
            !satisfies_case(old(self).strategy, scope@) ==> {
                &&& *final(self) == *old(self)
                &&& r matches Err(e)
                &&& e matches CommitError::CaseError(component, content, strategy)
                &&& component == CommitComponent::Scope
                &&& content@ == scope@
                &&& strategy == old(self).strategy
            },
            ({
                let cand_prefix = old(self).spec_type_len() + scope@.len() + 2 + old(
                    self,
                ).spec_breaking_len();
                &&& (satisfies_case(old(self).strategy, scope@) && cand_prefix + old(
                    self,
                ).spec_message_len() <= MAX_MESSAGE_LEN as int) ==> {
                    &&& r is Ok
                    &&& final(self).scope matches Some(s) && s@ == scope@
                    &&& *final(self) == (CommitBuilder { scope: final(self).scope, ..*old(self) })
                }
                &&& (satisfies_case(old(self).strategy, scope@) && cand_prefix + old(
                    self,
                ).spec_message_len() > MAX_MESSAGE_LEN as int) ==> {
                    &&& *final(self) == *old(self)
                    &&& r matches Err(e) && e == (CommitError::SubjectTooLongError {
                        available: spec_available(cand_prefix) as usize,
                        actual: old(self).spec_message_len() as usize,
                    })
                }
            }),
    {
        if !self.strategy.verify(scope) {
            return Err(
                CommitError::CaseError(CommitComponent::Scope, scope.to_owned(), self.strategy),
            );
        }
        let scope_chars = scope.unicode_len();
        let mut rest: usize = 0;
        match &self.commit_type {
            Some(commit_type) => {
                rest = rest + commit_type.len();
            },
            None => {},
        }
        if self.is_breaking_change {
            rest = rest + 1;
        }
        let msg_len = self.message_len();
        if scope_chars <= MAX_MESSAGE_LEN && scope_chars + 2 + rest + msg_len <= MAX_MESSAGE_LEN {
            self.scope = Some(scope.to_owned());
            Ok(())
        } else {
            let available: usize = if scope_chars <= MAX_MESSAGE_LEN && scope_chars + 2 + rest
                <= MAX_MESSAGE_LEN {
                MAX_MESSAGE_LEN - (scope_chars + 2 + rest)
            } else {
                0
            };
            Err(CommitError::SubjectTooLongError { available, actual: msg_len })
        }
    }

    /// Sets the subject.  The candidate text must follow the active case
    /// strategy and fit the budget left by the prefix as it stands at this
    /// moment; a rejected mutation leaves the builder unchanged.
    pub fn subject(&mut self, subject: &str) -> (r: Result<(), CommitError>)
        requires
            old(self).wf(),
        ensures
            final(self).wf(),
            !satisfies_case(old(self).strategy, subject@) ==> {
                &&& *final(self) == *old(self)
                &&& r matches Err(e)
                &&& e matches CommitError::CaseError(component, content, strategy)
                &&& component == CommitComponent::Subject
                &&& content@ == subject@
                &&& strategy == old(self).strategy
            },
            (satisfies_case(old(self).strategy, subject@) && old(self).spec_prefix_len()
                + subject@.len() > MAX_MESSAGE_LEN as int) ==> {
                &&& *final(self) == *old(self)
                &&& r matches Err(e) && e == (CommitError::SubjectTooLongError {
                    available: spec_available(old(self).spec_prefix_len()) as usize,
                    actual: subject@.len() as usize,
                })
            },
            (satisfies_case(old(self).strategy, subject@) && old(self).spec_prefix_len()
                + subject@.len() <= MAX_MESSAGE_LEN as int) ==> {
                &&& r is Ok
                &&& final(self).subject matches Some(s) && s@ == subject@
                &&& *final(self) == (CommitBuilder { subject: final(self).subject, ..*old(self) })
            },
    {
        if !self.strategy.verify(subject) {
            return Err(
                CommitError::CaseError(CommitComponent::Subject, subject.to_owned(), self.strategy),
            );
        }
        let prefix_len = self.prefix_len();
        let subject_chars = subject.unicode_len();
        if subject_chars > MAX_MESSAGE_LEN - prefix_len {
            return Err(
                CommitError::SubjectTooLongError {
                    available: MAX_MESSAGE_LEN - prefix_len,
                    actual: subject_chars,
                },
            );
        }
        self.subject = Some(subject.to_owned());
        Ok(())
    }

    /// Sets the description.  Descriptions are unconstrained: no length or
    /// case check applies.
    pub fn description(&mut self, description: &str)
        ensures
            final(self).description matches Some(d) && d@ == description@,
            *final(self) == (CommitBuilder { description: final(self).description, ..*old(self) }),
    {
        self.description = Some(description.to_owned());
    }

    /// Marks the commit as a breaking change, re-validating the total
    /// length: the marker is kept exactly when the header still fits;
    /// otherwise the builder is left unchanged.
    pub fn breaking_change(&mut self) -> (r: Result<(), CommitError>)
        requires
            old(self).wf(),
        ensures
            final(self).wf(),
            ({
                let cand = (CommitBuilder { is_breaking_change: true, ..*old(self) });
                if cand.spec_prefix_len() + cand.spec_message_len() <= MAX_MESSAGE_LEN as int {
                    &&& r is Ok
                    &&& *final(self) == cand
                } else {
                    &&& *final(self) == *old(self)
                    &&& r matches Err(e) && e == (CommitError::SubjectTooLongError {
                        available: spec_available(cand.spec_prefix_len()) as usize,
                        actual: cand.spec_message_len() as usize,
                    })
                }
            }),
    {
        let mut prefix: usize = 0;
        match &self.commit_type {
            Some(commit_type) => {
                prefix = prefix + commit_type.len();
            },
            None => {},
        }
        match &self.scope {
            Some(scope) => {
                prefix = prefix + scope.as_str().unicode_len() + 2;
            },
            None => {},
        }
        prefix = prefix + 1;
        let msg_len = self.message_len();
        if prefix + msg_len <= MAX_MESSAGE_LEN {
            self.is_breaking_change = true;
            Ok(())
        } else {
            let available: usize = if prefix <= MAX_MESSAGE_LEN {
                MAX_MESSAGE_LEN - prefix
            } else {
                0
            };
            Err(CommitError::SubjectTooLongError { available, actual: msg_len })
        }
    }

    /// Builds the commit.  Succeeds exactly when a commit type and a
    /// subject have been set (the type is checked first), and returns the
    /// immutable commit holding all currently-set fields.
    pub fn build(&self) -> (r: Result<Commit, CommitError>)
        requires
            self.wf(),
        ensures
            r is Err <==> (self.commit_type is None || self.subject is None),
            match r {
                Ok(c) => {
                    &&& self.commit_type matches Some(t) && c.commit_type == t
                    &&& self.subject matches Some(s) && c.subject == s
                    &&& c.scope == self.scope
                    &&& c.description == self.description
                    &&& c.is_breaking_change == self.is_breaking_change
                },
                Err(e) => {
                    &&& (e == CommitError::MissingCommitTypeError <==> self.commit_type is None)
                    &&& (e == CommitError::MissingSubjectError <==> (self.commit_type is Some
                        && self.subject is None))
                },
            },
    {
        let commit_type = match &self.commit_type {
            Some(commit_type) => commit_type.duplicate(),
            None => {
                return Err(CommitError::MissingCommitTypeError);
            },
        };
        let subject = match &self.subject {
            Some(subject) => subject.clone(),
            None => {
                return Err(CommitError::MissingSubjectError);
            },
        };
        if self.message_len() + self.prefix_len() > MAX_MESSAGE_LEN {
            return Err(
                CommitError::SubjectTooLongError {
                    available: MAX_MESSAGE_LEN - self.prefix_len(),
                    actual: self.message_len(),
                },
            );
        }
        let scope = match &self.scope {
            Some(scope) => Some(scope.clone()),
            None => None,
        };
        let description = match &self.description {
            Some(description) => Some(description.clone()),
            None => None,
        };
        Ok(
            Commit {
                commit_type,
                scope,
                subject,
                description,
                is_breaking_change: self.is_breaking_change,
            },
        )
    }
}

impl Default for CommitBuilder {
    /// A fresh builder: no field set, no breaking change, and the default
    /// (lowercase) strategy.
    fn default() -> (r: Self)
        ensures
            r == (CommitBuilder {
                commit_type: None,
                scope: None,
                subject: None,
                description: None,
                is_breaking_change: false,
                strategy: CaseStrategy::Lowercase,
            }),
    {
        CommitBuilder {
            commit_type: None,
            scope: None,
            subject: None,
            description: None,
            is_breaking_change: false,
            strategy: CaseStrategy::Lowercase,
        }
    }
}

} // verus!
