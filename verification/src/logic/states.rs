//! The review/revise state machine.
//!
//! The controller owns the single [`CommitBuilder`] of a session.  A host
//! environment reads [`StateData::state`] to know which prompt to show or
//! which external action to run, and reports the answer through the event
//! methods below.  Validation failures route control back to the prompt
//! for the offending field; once a commit has been built, a review menu
//! lets the user confirm, revise any field, or quit.

use vstd::prelude::*;

use crate::commit::builder::CommitBuilder;
use crate::commit::cmt_type::CommitType;
use crate::commit::commit::Commit;
use crate::commit::constants::MAX_MESSAGE_LEN;
use crate::commit::error::CommitComponent;
use crate::commit::error::CommitError;
use crate::commit::strategy::CaseStrategy;
use crate::commit::strategy::satisfies_case;

verus! {

/// The phases of the interactive flow.
#[derive(Debug, Clone, Copy, PartialEq, Eq, Structural)]
pub enum State {
    /// Prompt for the commit type.
    AskType,
    /// Prompt for the optional scope.
    AskScope,
    /// Prompt for the subject.
    AskSubject,
    /// Prompt for the optional description.
    AskDescription,
    /// Ask whether the change is a breaking one.
    AskBreakingChange,
    /// Show the rendered commit and the review menu.
    ReviewMenu,
    /// Ask the user to confirm that they really want to quit.
    ConfirmQuit,
    /// Run the external commit action.
    Commit,
    /// Ask whether to push, and run the external push action.
    Push,
    /// Terminal: the commit was made (push attempted or declined).
    Done,
    /// Terminal: the user quit without committing.
    Quit,
}

/// Why the controller is currently asking for a field: as part of the
/// initial linear sequence, to repair a failed build, or to revise a field
/// from the review menu.
#[derive(Debug, Clone, Copy, PartialEq, Eq, Structural)]
pub enum AskContext {
    Sequence,
    Repair,
    Revision,
}

/// The seven options of the review menu.
#[derive(Debug, Clone, Copy, PartialEq, Eq, Structural)]
pub enum MenuChoice {
    Confirm,
    ReviseCommitType,
    ReviseScope,
    ReviseSubject,
    ReviseDescription,
    ReviseBreakingChange,
    Quit,
}

/// The successor of each phase in the linear prompt sequence.
pub open spec fn successor(s: State) -> State {
    match s {
        State::AskType => State::AskScope,
        State::AskScope => State::AskSubject,
        State::AskSubject => State::AskDescription,
        State::AskDescription => State::AskBreakingChange,
        State::AskBreakingChange => State::ReviewMenu,
        State::ReviewMenu => State::Commit,
        State::ConfirmQuit => State::ReviewMenu,
        State::Commit => State::Push,
        State::Push => State::Done,
        State::Done => State::Done,
        State::Quit => State::Quit,
    }
}

/// The prompt that a validation failure routes control back to.
pub open spec fn error_target(e: CommitError) -> State {
    match e {
        CommitError::SubjectTooLongError { .. } => State::AskSubject,
        CommitError::MissingCommitTypeError => State::AskType,
        CommitError::MissingSubjectError => State::AskSubject,
        CommitError::CaseError(component, _, _) => match component {
            CommitComponent::CommitType => State::AskType,
            CommitComponent::Scope => State::AskScope,
            CommitComponent::Subject => State::AskSubject,
            CommitComponent::Description => State::AskDescription,
        },
    }
}

/// The commit that a successful build of `b` yields.
pub open spec fn built_commit(b: CommitBuilder) -> Commit
    recommends
        b.commit_type is Some,
        b.subject is Some,
{
    Commit {
        commit_type: match b.commit_type {
            Some(t) => t,
            None => arbitrary(),
        },
        scope: b.scope,
        subject: match b.subject {
            Some(s) => s,
            None => arbitrary(),
        },
        description: b.description,
        is_breaking_change: b.is_breaking_change,
    }
}

/// The error a build attempt reports: the missing field, or nothing when
/// the build succeeds.
pub open spec fn build_error(b: CommitBuilder) -> Option<CommitError> {
    if b.commit_type is Some && b.subject is Some {
        None
    } else if b.commit_type is None {
        Some(CommitError::MissingCommitTypeError)
    } else {
        Some(CommitError::MissingSubjectError)
    }
}

/// The error reported after a successfully answered field prompt: only a
/// repair, a revision or the end of the linear sequence attempts a build
/// that can fail.
pub open spec fn after_field_error(ctx: AskContext, cur: State, b: CommitBuilder) -> Option<
    CommitError,
> {
    match ctx {
        AskContext::Sequence => {
            if cur == State::AskBreakingChange {
                build_error(b)
            } else {
                None
            }
        },
        AskContext::Repair => build_error(b),
        AskContext::Revision => build_error(b),
    }
}

/// Where a build attempt leaves the controller: the review menu with the
/// built commit, or the prompt for the missing field with the stale commit
/// dropped.
pub open spec fn after_build(b: CommitBuilder) -> (State, Option<Commit>, AskContext) {
    if b.commit_type is Some && b.subject is Some {
        (State::ReviewMenu, Some(built_commit(b)), AskContext::Revision)
    } else if b.commit_type is None {
        (State::AskType, None::<Commit>, AskContext::Repair)
    } else {
        (State::AskSubject, None::<Commit>, AskContext::Repair)
    }
}

/// Where a successfully answered field prompt leaves the controller: the
/// linear sequence continues with the next prompt, while a repair or a
/// revision goes back to building the commit.
pub open spec fn after_field(ctx: AskContext, cur: State, b: CommitBuilder, commit: Option<Commit>) -> (
    State,
    Option<Commit>,
    AskContext,
) {
    match ctx {
        AskContext::Sequence => {
            if cur == State::AskBreakingChange {
                after_build(b)
            } else {
                (successor(cur), commit, AskContext::Sequence)
            }
        },
        AskContext::Repair => after_build(b),
        AskContext::Revision => after_build(b),
    }
}

/// A linear successor for each phase, usable by a host that walks the
/// prompt sequence.
pub trait StateTrait {
    /// The successor in the linear sequence.
    spec fn spec_next(&self) -> State;

    /// Returns the successor in the linear sequence.
    fn next(&self) -> (r: State)
        ensures
            r == self.spec_next(),
    ;
}

impl StateTrait for State {
    open spec fn spec_next(&self) -> State {
        successor(*self)
    }

    fn next(&self) -> (r: State) {
        match self {
            State::AskType => State::AskScope,
            State::AskScope => State::AskSubject,
            State::AskSubject => State::AskDescription,
            State::AskDescription => State::AskBreakingChange,
            State::AskBreakingChange => State::ReviewMenu,
            State::ReviewMenu => State::Commit,
            State::ConfirmQuit => State::ReviewMenu,
            State::Commit => State::Push,
            State::Push => State::Done,
            State::Done => State::Done,
            State::Quit => State::Quit,
        }
    }
}

/// The controller: the current phase, why a field is being asked, the one
/// commit builder of the session, and the commit of the last successful
/// build while the review menu is open.
#[derive(Debug, Clone, PartialEq, Eq)]
pub struct StateData {
    pub state: State,
    pub context: AskContext,
    pub builder: CommitBuilder,
    pub commit: Option<Commit>,
}

impl StateData {
    /// The controller invariant: the builder keeps its budget, and while
    /// the review menu, the quit confirmation or a later phase is showing,
    /// the stored commit is the one built from the builder.
    pub open spec fn wf(&self) -> bool {
        &&& self.builder.wf()
        &&& (self.state == State::ReviewMenu || self.state == State::ConfirmQuit || self.state
            == State::Commit || self.state == State::Push) ==> {
            &&& self.builder.commit_type is Some
            &&& self.builder.subject is Some
            &&& self.commit == Some(built_commit(self.builder))
        }
    }

    /// A fresh controller at the start of the flow.
    pub fn new(strategy: CaseStrategy) -> (r: Self)
        ensures
            r == (StateData {
                state: State::AskType,
                context: AskContext::Sequence,
                builder: (CommitBuilder {
                    commit_type: None,
                    scope: None,
                    subject: None,
                    description: None,
                    is_breaking_change: false,
                    strategy,
                }),
                commit: None::<Commit>,
            }),
            r.wf(),
    {
        StateData {
            state: State::AskType,
            context: AskContext::Sequence,
            builder: Commit::builder(strategy),
            commit: None,
        }
    }

    /// Attempts a build and moves to the review menu, or routes to the
    /// prompt for the missing field, reporting which one is missing.
    fn settle_build(&mut self) -> (r: Option<CommitError>)
        requires
            old(self).builder.wf(),
        ensures
            final(self).builder == old(self).builder,
            final(self).context == after_build(old(self).builder).2,
            final(self).state == after_build(old(self).builder).0,
            final(self).commit == after_build(old(self).builder).1,
            r == build_error(old(self).builder),
    {
        match self.builder.build() {
            Ok(commit) => {
                self.commit = Some(commit);
                self.state = State::ReviewMenu;
                self.context = AskContext::Revision;
                None
            },
            Err(e) => {
                self.commit = None;
                match &e {
                    CommitError::MissingCommitTypeError => {
                        self.state = State::AskType;
                    },
                    _ => {
                        self.state = State::AskSubject;
                    },
                }
                self.context = AskContext::Repair;
                Some(e)
            },
        }
    }

    /// Moves on after a field prompt succeeded: the linear sequence
    /// continues, while a repair or a revision goes back to building and
    /// reports a build failure.
    fn settle_field(&mut self, cur: State) -> (r: Option<CommitError>)
        requires
            old(self).builder.wf(),
        ensures
            final(self).builder == old(self).builder,
            final(self).state == after_field(old(self).context, cur, old(self).builder, old(self).commit).0,
            final(self).commit == after_field(old(self).context, cur, old(self).builder, old(self).commit).1,
            final(self).context == after_field(old(self).context, cur, old(self).builder, old(self).commit).2,
            r == after_field_error(old(self).context, cur, old(self).builder),
    {
        match self.context {
            AskContext::Sequence => {
                if cur == State::AskBreakingChange {
                    self.settle_build()
                } else {
                    self.state = cur.next();
                    None
                }
            },
            AskContext::Repair => self.settle_build(),
            AskContext::Revision => self.settle_build(),
        }
    }

    /// The user picked a commit type.  The builder accepts it exactly when
    /// the header still fits the budget; a rejection is reported and
    /// control moves to the prompt the error names.
    pub fn on_type_chosen(&mut self, commit_type: CommitType) -> (r: Option<CommitError>)
        requires
            old(self).wf(),
            old(self).state == State::AskType,
        ensures
            final(self).wf(),
            ({
                let cand = (CommitBuilder {
                    commit_type: Some(commit_type),
                    ..old(self).builder
                });
                if cand.spec_prefix_len() + cand.spec_message_len() <= MAX_MESSAGE_LEN as int {
                    &&& r == after_field_error(old(self).context, State::AskType, cand)
                    &&& final(self).builder == cand
                    &&& final(self).state == after_field(old(self).context, State::AskType, cand, old(self).commit).0
                    &&& final(self).commit == after_field(old(self).context, State::AskType, cand, old(self).commit).1
                    &&& final(self).context == after_field(old(self).context, State::AskType, cand, old(self).commit).2
                } else {
                    &&& r matches Some(e) && e == (CommitError::SubjectTooLongError {
                        available: crate::commit::builder::spec_available(cand.spec_prefix_len()) as usize,
                        actual: cand.spec_message_len() as usize,
                    }) && *final(self) == (StateData { state: error_target(e), ..*old(self) })
                }
            }),
    {
        match self.builder.commit_type(commit_type) {
            Ok(()) => self.settle_field(State::AskType),
            Err(e) => {
                self.state = State::AskSubject;
                Some(e)
            },
        }
    }

    /// The user answered the scope prompt.  An empty answer skips the
    /// field; a rejected answer is reported and control moves to the
    /// prompt for the field the error names.
    pub fn on_scope_entered(&mut self, scope: &str) -> (r: Option<CommitError>)
        requires
            old(self).wf(),
            old(self).state == State::AskScope,
        ensures
            final(self).wf(),
            scope@.len() == 0 ==> {
                &&& r == after_field_error(old(self).context, State::AskScope, old(self).builder)
                &&& final(self).builder == old(self).builder
                &&& final(self).state == after_field(old(self).context, State::AskScope, old(self).builder, old(self).commit).0
                &&& final(self).commit == after_field(old(self).context, State::AskScope, old(self).builder, old(self).commit).1
                &&& final(self).context == after_field(old(self).context, State::AskScope, old(self).builder, old(self).commit).2
            },
            scope@.len() > 0 && !satisfies_case(old(self).builder.strategy, scope@) ==> {
                &&& r matches Some(e)
                &&& e matches CommitError::CaseError(component, content, strategy)
                &&& component == CommitComponent::Scope
                &&& content@ == scope@
                &&& strategy == old(self).builder.strategy
                &&& *final(self) == (StateData { state: error_target(e), ..*old(self) })
            },
            ({
                let cand_prefix = old(self).builder.spec_type_len() + scope@.len() + 2 + old(
                    self,
                ).builder.spec_breaking_len();
                &&& (scope@.len() > 0 && satisfies_case(old(self).builder.strategy, scope@)
                    && cand_prefix + old(self).builder.spec_message_len() <= MAX_MESSAGE_LEN as int)
                    ==> {
                    &&& r == after_field_error(old(self).context, State::AskScope, final(self).builder)
                    &&& final(self).builder.scope matches Some(s) && s@ == scope@
                    &&& final(self).builder == (CommitBuilder { scope: final(self).builder.scope, ..old(self).builder })
                    &&& final(self).state == after_field(old(self).context, State::AskScope, final(self).builder, old(self).commit).0
                    &&& final(self).commit == after_field(old(self).context, State::AskScope, final(self).builder, old(self).commit).1
                    &&& final(self).context == after_field(old(self).context, State::AskScope, final(self).builder, old(self).commit).2
                }
                &&& (scope@.len() > 0 && satisfies_case(old(self).builder.strategy, scope@)
                    && cand_prefix + old(self).builder.spec_message_len() > MAX_MESSAGE_LEN as int)
                    ==> {
                    &&& r matches Some(e) && e == (CommitError::SubjectTooLongError {
                        available: crate::commit::builder::spec_available(cand_prefix) as usize,
                        actual: old(self).builder.spec_message_len() as usize,
                    }) && *final(self) == (StateData { state: error_target(e), ..*old(self) })
                }
            }),
    {
        if scope.is_empty() {
            return self.settle_field(State::AskScope);
        }
        match self.builder.scope(scope) {
            Ok(()) => self.settle_field(State::AskScope),
            Err(e) => {
                match &e {
                    CommitError::CaseError(_, _, _) => {
                        self.state = State::AskScope;
                    },
                    _ => {
                        self.state = State::AskSubject;
                    },
                }
                Some(e)
            },
        }
    }

    /// The user answered the subject prompt.  An empty answer skips the
    /// field; a rejected answer is reported and the subject is asked
    /// again.
    pub fn on_subject_entered(&mut self, subject: &str) -> (r: Option<CommitError>)
        requires
            old(self).wf(),
            old(self).state == State::AskSubject,
        ensures
            final(self).wf(),
            subject@.len() == 0 ==> {
                &&& r == after_field_error(old(self).context, State::AskSubject, old(self).builder)
                &&& final(self).builder == old(self).builder
                &&& final(self).state == after_field(old(self).context, State::AskSubject, old(self).builder, old(self).commit).0
                &&& final(self).commit == after_field(old(self).context, State::AskSubject, old(self).builder, old(self).commit).1
                &&& final(self).context == after_field(old(self).context, State::AskSubject, old(self).builder, old(self).commit).2
            },
            subject@.len() > 0 && !satisfies_case(old(self).builder.strategy, subject@) ==> {
                &&& r matches Some(e)
                &&& e matches CommitError::CaseError(component, content, strategy)
                &&& component == CommitComponent::Subject
                &&& content@ == subject@
                &&& strategy == old(self).builder.strategy
                &&& *final(self) == (StateData { state: error_target(e), ..*old(self) })
            },
            (subject@.len() > 0 && satisfies_case(old(self).builder.strategy, subject@) && old(
                self,
            ).builder.spec_prefix_len() + subject@.len() > MAX_MESSAGE_LEN as int) ==> {
                &&& r matches Some(e) && e == (CommitError::SubjectTooLongError {
                    available: crate::commit::builder::spec_available(
                        old(self).builder.spec_prefix_len(),
                    ) as usize,
                    actual: subject@.len() as usize,
                }) && *final(self) == (StateData { state: error_target(e), ..*old(self) })
            },
            (subject@.len() > 0 && satisfies_case(old(self).builder.strategy, subject@) && old(
                self,
            ).builder.spec_prefix_len() + subject@.len() <= MAX_MESSAGE_LEN as int) ==> {
                &&& r == after_field_error(
                    old(self).context,
                    State::AskSubject,
                    final(self).builder,
                )
                &&& final(self).builder.subject matches Some(s) && s@ == subject@
                &&& final(self).builder == (CommitBuilder { subject: final(self).builder.subject, ..old(self).builder })
                &&& final(self).state == after_field(old(self).context, State::AskSubject, final(self).builder, old(self).commit).0
                &&& final(self).commit == after_field(old(self).context, State::AskSubject, final(self).builder, old(self).commit).1
                &&& final(self).context == after_field(old(self).context, State::AskSubject, final(self).builder, old(self).commit).2
            },
    {
        if subject.is_empty() {
            return self.settle_field(State::AskSubject);
        }
        match self.builder.subject(subject) {
            Ok(()) => self.settle_field(State::AskSubject),
            Err(e) => {
                self.state = State::AskSubject;
                Some(e)
            },
        }
    }

    /// The user answered the description prompt, or aborted the editor.
    /// Descriptions are unconstrained, so this never fails; an absent or
    /// empty answer skips the field.
    pub fn on_description_entered(&mut self, description: Option<&str>) -> (r: Option<
        CommitError,
    >)
        requires
            old(self).wf(),
            old(self).state == State::AskDescription,
        ensures
            final(self).wf(),
            r == after_field_error(old(self).context, State::AskDescription, final(self).builder),
            (match description {
                Some(d) => d@.len() > 0,
                None => false,
            }) ==> {
                &&& final(self).builder.description matches Some(d) && (description matches Some(given)
                    && d@ == given@)
                &&& final(self).builder == (CommitBuilder {
                    description: final(self).builder.description,
                    ..old(self).builder
                })
                &&& final(self).state == after_field(old(self).context, State::AskDescription, final(self).builder, old(self).commit).0
                &&& final(self).commit == after_field(old(self).context, State::AskDescription, final(self).builder, old(self).commit).1
                &&& final(self).context == after_field(old(self).context, State::AskDescription, final(self).builder, old(self).commit).2
            },
            (match description {
                Some(d) => d@.len() == 0,
                None => true,
            }) ==> {
                &&& final(self).builder == old(self).builder
                &&& final(self).state == after_field(old(self).context, State::AskDescription, old(self).builder, old(self).commit).0
                &&& final(self).commit == after_field(old(self).context, State::AskDescription, old(self).builder, old(self).commit).1
                &&& final(self).context == after_field(old(self).context, State::AskDescription, old(self).builder, old(self).commit).2
            },
    {
        match description {
            Some(d) => {
                if !d.is_empty() {
                    self.builder.description(d);
                }
            },
            None => {},
        }
        self.settle_field(State::AskDescription)
    }

    /// The user answered whether the change is a breaking one.  Marking a
    /// breaking change may exceed the budget, in which case the error is
    /// reported and the subject is asked again.
    pub fn on_breaking_change(&mut self, is_breaking: bool) -> (r: Option<CommitError>)
        requires
            old(self).wf(),
            old(self).state == State::AskBreakingChange,
        ensures
            final(self).wf(),
            !is_breaking ==> {
                &&& r == after_field_error(
                    old(self).context,
                    State::AskBreakingChange,
                    old(self).builder,
                )
                &&& final(self).builder == old(self).builder
                &&& final(self).state == after_field(old(self).context, State::AskBreakingChange, old(self).builder, old(self).commit).0
                &&& final(self).commit == after_field(old(self).context, State::AskBreakingChange, old(self).builder, old(self).commit).1
                &&& final(self).context == after_field(old(self).context, State::AskBreakingChange, old(self).builder, old(self).commit).2
            },
            ({
                let cand = (CommitBuilder { is_breaking_change: true, ..old(self).builder });
                &&& (is_breaking && cand.spec_prefix_len() + cand.spec_message_len()
                    <= MAX_MESSAGE_LEN as int) ==> {
                    &&& r == after_field_error(old(self).context, State::AskBreakingChange, cand)
                    &&& final(self).builder == cand
                    &&& final(self).state == after_field(old(self).context, State::AskBreakingChange, cand, old(self).commit).0
                    &&& final(self).commit == after_field(old(self).context, State::AskBreakingChange, cand, old(self).commit).1
                    &&& final(self).context == after_field(old(self).context, State::AskBreakingChange, cand, old(self).commit).2
                }
                &&& (is_breaking && cand.spec_prefix_len() + cand.spec_message_len()
                    > MAX_MESSAGE_LEN as int) ==> {
                    &&& r matches Some(e) && e == (CommitError::SubjectTooLongError {
                        available: crate::commit::builder::spec_available(cand.spec_prefix_len()) as usize,
                        actual: cand.spec_message_len() as usize,
                    }) && *final(self) == (StateData { state: error_target(e), ..*old(self) })
                }
            }),
    {
        if !is_breaking {
            return self.settle_field(State::AskBreakingChange);
        }
        match self.builder.breaking_change() {
            Ok(()) => self.settle_field(State::AskBreakingChange),
            Err(e) => {
                self.state = State::AskSubject;
                Some(e)
            },
        }
    }

    /// The user picked one of the seven review-menu options.
    pub fn on_menu_choice(&mut self, choice: MenuChoice)
        requires
            old(self).wf(),
            old(self).state == State::ReviewMenu,
        ensures
            final(self).wf(),
            final(self).builder == old(self).builder,
            final(self).commit == old(self).commit,
            final(self).state == (match choice {
                MenuChoice::Confirm => State::Commit,
                MenuChoice::ReviseCommitType => State::AskType,
                MenuChoice::ReviseScope => State::AskScope,
                MenuChoice::ReviseSubject => State::AskSubject,
                MenuChoice::ReviseDescription => State::AskDescription,
                MenuChoice::ReviseBreakingChange => State::AskBreakingChange,
                MenuChoice::Quit => State::ConfirmQuit,
            }),
            final(self).context == (match choice {
                MenuChoice::Confirm => old(self).context,
                MenuChoice::Quit => old(self).context,
                _ => AskContext::Revision,
            }),
    {
        match choice {
            MenuChoice::Confirm => {
                self.state = State::Commit;
            },
            MenuChoice::ReviseCommitType => {
                self.state = State::AskType;
                self.context = AskContext::Revision;
            },
            MenuChoice::ReviseScope => {
                self.state = State::AskScope;
                self.context = AskContext::Revision;
            },
            MenuChoice::ReviseSubject => {
                self.state = State::AskSubject;
                self.context = AskContext::Revision;
            },
            MenuChoice::ReviseDescription => {
                self.state = State::AskDescription;
                self.context = AskContext::Revision;
            },
            MenuChoice::ReviseBreakingChange => {
                self.state = State::AskBreakingChange;
                self.context = AskContext::Revision;
            },
            MenuChoice::Quit => {
                self.state = State::ConfirmQuit;
            },
        }
    }

    /// The user answered the quit confirmation: an affirmed quit ends the
    /// whole flow with no commit performed, a declined one returns to the
    /// review menu.
    pub fn on_quit_confirm(&mut self, confirmed: bool)
        requires
            old(self).wf(),
            old(self).state == State::ConfirmQuit,
        ensures
            final(self).wf(),
            *final(self) == (StateData {
                state: if confirmed {
                    State::Quit
                } else {
                    State::ReviewMenu
                },
                ..*old(self)
            }),
    {
        if confirmed {
            self.state = State::Quit;
        } else {
            self.state = State::ReviewMenu;
        }
    }

    /// The host ran the external commit action and reports its outcome: on
    /// success the flow proceeds to the push question, on failure control
    /// returns to the review menu so the user can retry or adjust.
    pub fn on_commit_result(&mut self, success: bool)
        requires
            old(self).wf(),
            old(self).state == State::Commit,
        ensures
            final(self).wf(),
            *final(self) == (StateData {
                state: if success {
                    State::Push
                } else {
                    State::ReviewMenu
                },
                ..*old(self)
            }),
    {
        if success {
            self.state = State::Push;
        } else {
            self.state = State::ReviewMenu;
        }
    }

    /// The user declined to push: the flow is done.
    pub fn on_push_declined(&mut self)
        requires
            old(self).wf(),
            old(self).state == State::Push,
        ensures
            final(self).wf(),
            *final(self) == (StateData { state: State::Done, ..*old(self) }),
    {
        self.state = State::Done;
    }

    /// The host ran the external push action and reports its outcome: on
    /// success the flow is done, on failure the push question is asked
    /// again.
    pub fn on_push_result(&mut self, success: bool)
        requires
            old(self).wf(),
            old(self).state == State::Push,
        ensures
            final(self).wf(),
            *final(self) == (StateData {
                state: if success {
                    State::Done
                } else {
                    State::Push
                },
                ..*old(self)
            }),
    {
        if success {
            self.state = State::Done;
        }
    }
}

} // verus!
