use gcmt::commit::cmt_type::CommitType;
use gcmt::commit::error::CommitError;
use gcmt::commit::strategy::CaseStrategy;
use gcmt::logic::states::AskContext;
use gcmt::logic::states::MenuChoice;
use gcmt::logic::states::State;
use gcmt::logic::states::StateData;
use gcmt::logic::states::StateTrait;

fn feat() -> CommitType {
    CommitType::new("feat", Some("A new feature"))
}

#[test]
fn linear_sequence_walks_every_prompt() {
    let mut data = StateData::new(CaseStrategy::Lowercase);
    assert_eq!(data.state, State::AskType);
    assert_eq!(data.context, AskContext::Sequence);

    assert_eq!(data.on_type_chosen(feat()), None);
    assert_eq!(data.state, State::AskScope);
    assert_eq!(data.on_scope_entered("core"), None);
    assert_eq!(data.state, State::AskSubject);
    assert_eq!(data.on_subject_entered("add things"), None);
    assert_eq!(data.state, State::AskDescription);
    assert_eq!(data.on_description_entered(Some("details")), None);
    assert_eq!(data.state, State::AskBreakingChange);
    assert_eq!(data.on_breaking_change(false), None);
    assert_eq!(data.state, State::ReviewMenu);

    let commit = data.commit.clone().unwrap();
    assert_eq!(commit.render(), "feat(core): add things\n\ndetails");
}

#[test]
fn review_flow_repairs_missing_subject_then_revises_scope() {
    let mut data = StateData::new(CaseStrategy::Lowercase);
    // the user picks a type but skips every later prompt
    assert_eq!(data.on_type_chosen(feat()), None);
    assert_eq!(data.on_scope_entered(""), None);
    assert_eq!(data.on_subject_entered(""), None);
    assert_eq!(data.on_description_entered(None), None);
    // the build fails on its first attempt and the subject is re-asked
    assert_eq!(
        data.on_breaking_change(false),
        Some(CommitError::MissingSubjectError)
    );
    assert_eq!(data.state, State::AskSubject);
    assert_eq!(data.context, AskContext::Repair);
    assert_eq!(data.commit, None);

    // the user supplies valid text and the build now succeeds
    assert_eq!(data.on_subject_entered("add login"), None);
    assert_eq!(data.state, State::ReviewMenu);
    assert_eq!(data.commit.clone().unwrap().render(), "feat: add login");

    // revising only the scope leaves type and subject untouched
    data.on_menu_choice(MenuChoice::ReviseScope);
    assert_eq!(data.state, State::AskScope);
    assert_eq!(data.context, AskContext::Revision);
    assert_eq!(data.on_scope_entered("auth"), None);
    assert_eq!(data.state, State::ReviewMenu);
    let commit = data.commit.clone().unwrap();
    assert_eq!(commit.commit_type.name, "feat");
    assert_eq!(commit.subject, "add login");
    assert_eq!(commit.scope.as_deref(), Some("auth"));

    // confirming moves on to the commit action
    data.on_menu_choice(MenuChoice::Confirm);
    assert_eq!(data.state, State::Commit);
}

#[test]
fn case_error_routes_back_to_the_offending_field() {
    let mut data = StateData::new(CaseStrategy::Lowercase);
    assert_eq!(data.on_type_chosen(feat()), None);
    let err = data.on_scope_entered("Core").unwrap();
    assert!(matches!(err, CommitError::CaseError(_, _, _)));
    assert_eq!(data.state, State::AskScope);
    // the builder did not take the rejected scope
    assert_eq!(data.builder.scope, None);
}

#[test]
fn commit_failure_returns_to_review_menu() {
    let mut data = reviewed();
    data.on_menu_choice(MenuChoice::Confirm);
    assert_eq!(data.state, State::Commit);
    data.on_commit_result(false);
    assert_eq!(data.state, State::ReviewMenu);
}

#[test]
fn push_is_retried_on_failure_and_optional() {
    let mut data = reviewed();
    data.on_menu_choice(MenuChoice::Confirm);
    data.on_commit_result(true);
    assert_eq!(data.state, State::Push);
    data.on_push_result(false);
    assert_eq!(data.state, State::Push);
    data.on_push_result(true);
    assert_eq!(data.state, State::Done);

    let mut declined = reviewed();
    declined.on_menu_choice(MenuChoice::Confirm);
    declined.on_commit_result(true);
    declined.on_push_declined();
    assert_eq!(declined.state, State::Done);
}

#[test]
fn quit_needs_a_confirmation() {
    let mut data = reviewed();
    data.on_menu_choice(MenuChoice::Quit);
    assert_eq!(data.state, State::ConfirmQuit);
    data.on_quit_confirm(false);
    assert_eq!(data.state, State::ReviewMenu);
    data.on_menu_choice(MenuChoice::Quit);
    data.on_quit_confirm(true);
    assert_eq!(data.state, State::Quit);
}

#[test]
fn revising_breaking_change_updates_the_commit() {
    let mut data = reviewed();
    data.on_menu_choice(MenuChoice::ReviseBreakingChange);
    assert_eq!(data.state, State::AskBreakingChange);
    assert_eq!(data.on_breaking_change(true), None);
    assert_eq!(data.state, State::ReviewMenu);
    let commit = data.commit.clone().unwrap();
    assert!(commit.is_breaking_change);
    assert_eq!(commit.render(), "feat(core)!: add things");
}

#[test]
fn revising_description_updates_the_commit() {
    let mut data = reviewed();
    data.on_menu_choice(MenuChoice::ReviseDescription);
    assert_eq!(data.state, State::AskDescription);
    assert_eq!(data.on_description_entered(Some("why it matters")), None);
    assert_eq!(data.state, State::ReviewMenu);
    let commit = data.commit.clone().unwrap();
    assert_eq!(
        commit.render(),
        "feat(core): add things\n\nwhy it matters"
    );
}

#[test]
fn oversized_type_routes_to_the_subject_prompt() {
    let mut data = StateData::new(CaseStrategy::Lowercase);
    let huge = CommitType::new(&"t".repeat(100), None);
    let err = data.on_type_chosen(huge).unwrap();
    assert_eq!(
        err,
        CommitError::SubjectTooLongError { available: 0, actual: 0 }
    );
    assert_eq!(data.state, State::AskSubject);
    // the rejected type was not kept
    assert_eq!(data.builder.commit_type, None);
}

#[test]
fn successor_walks_the_linear_sequence() {
    assert_eq!(State::AskType.next(), State::AskScope);
    assert_eq!(State::AskScope.next(), State::AskSubject);
    assert_eq!(State::AskSubject.next(), State::AskDescription);
    assert_eq!(State::AskDescription.next(), State::AskBreakingChange);
    assert_eq!(State::AskBreakingChange.next(), State::ReviewMenu);
    assert_eq!(State::Done.next(), State::Done);
}

fn reviewed() -> StateData {
    let mut data = StateData::new(CaseStrategy::Lowercase);
    data.on_type_chosen(feat());
    data.on_scope_entered("core");
    data.on_subject_entered("add things");
    data.on_description_entered(None);
    data.on_breaking_change(false);
    assert_eq!(data.state, State::ReviewMenu);
    data
}
