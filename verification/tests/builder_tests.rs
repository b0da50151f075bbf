use gcmt::commit::builder::CommitBuilder;
use gcmt::commit::cmt_type::CommitType;
use gcmt::commit::commit::Commit;
use gcmt::commit::constants::MAX_MESSAGE_LEN;
use gcmt::commit::error::CommitComponent;
use gcmt::commit::error::CommitError;
use gcmt::commit::strategy::CaseStrategy;

#[test]
fn builder_starts_empty() {
    let builder = Commit::builder(CaseStrategy::Lowercase);
    assert_eq!(builder.prefix_len(), 0);
    assert_eq!(builder.message_len(), 0);
    assert_eq!(builder.strategy, CaseStrategy::Lowercase);
}

#[test]
fn build_on_fresh_builder_reports_missing_type() {
    let builder = Commit::builder(CaseStrategy::Lowercase);
    assert_eq!(builder.build(), Err(CommitError::MissingCommitTypeError));
}

#[test]
fn build_after_type_only_reports_missing_subject() {
    let mut builder = Commit::builder(CaseStrategy::Lowercase);
    builder.commit_type(CommitType::new("feat", None)).unwrap();
    assert_eq!(builder.build(), Err(CommitError::MissingSubjectError));
}

#[test]
fn prefix_length_counts_type_scope_and_marker() {
    let mut builder = Commit::builder(CaseStrategy::Lowercase);
    builder.commit_type(CommitType::new("feat", None)).unwrap();
    builder.scope("core").unwrap();
    assert_eq!(builder.prefix_len(), 10);
    builder.breaking_change().unwrap();
    assert_eq!(builder.prefix_len(), 11);
}

#[test]
fn subject_boundary_is_exact() {
    assert_eq!(MAX_MESSAGE_LEN, 72);
    let mut builder = Commit::builder(CaseStrategy::Lowercase);
    builder.commit_type(CommitType::new("feat", None)).unwrap();
    builder.scope("core").unwrap();
    assert_eq!(builder.prefix_len(), 10);
    let fitting = "a".repeat(62);
    assert!(builder.subject(&fitting).is_ok());
    assert_eq!(builder.message_len(), 62);
    let too_long = "a".repeat(63);
    let err = builder.subject(&too_long).unwrap_err();
    assert_eq!(
        err,
        CommitError::SubjectTooLongError { available: 62, actual: 63 }
    );
    // the rejected mutation left the accepted subject in place
    assert_eq!(builder.message_len(), 62);
}

#[test]
fn rejected_marker_leaves_builder_unchanged() {
    let mut builder = Commit::builder(CaseStrategy::Lowercase);
    builder.commit_type(CommitType::new("feat", None)).unwrap();
    builder.scope("core").unwrap();
    let subject = "a".repeat(62);
    builder.subject(&subject).unwrap();
    // 10 + 62 == 72: the marker would make it 73
    let err = builder.breaking_change().unwrap_err();
    assert_eq!(
        err,
        CommitError::SubjectTooLongError { available: 61, actual: 62 }
    );
    assert_eq!(builder.prefix_len(), 10);
    let commit = builder.build().unwrap();
    assert!(!commit.is_breaking_change);
}

#[test]
fn rejected_type_leaves_builder_unchanged() {
    let mut builder = Commit::builder(CaseStrategy::Lowercase);
    builder.commit_type(CommitType::new("feat", None)).unwrap();
    let subject = "a".repeat(68);
    builder.subject(&subject).unwrap();
    let err = builder.commit_type(CommitType::new("refactor", None)).unwrap_err();
    assert_eq!(
        err,
        CommitError::SubjectTooLongError { available: 64, actual: 68 }
    );
    let commit = builder.build().unwrap();
    assert_eq!(commit.commit_type.name, "feat");
}

#[test]
fn scope_case_violation_is_rejected_with_context() {
    let mut builder = Commit::builder(CaseStrategy::Lowercase);
    let err = builder.scope("Core").unwrap_err();
    assert_eq!(
        err,
        CommitError::CaseError(
            CommitComponent::Scope,
            "Core".to_string(),
            CaseStrategy::Lowercase
        )
    );
    // the builder's scope remains unset
    assert_eq!(builder.prefix_len(), 0);
    assert_eq!(builder.scope, None);
}

#[test]
fn subject_case_violation_is_rejected_with_context() {
    let mut builder = Commit::builder(CaseStrategy::Uppercase);
    let err = builder.subject("Shout").unwrap_err();
    assert_eq!(
        err,
        CommitError::CaseError(
            CommitComponent::Subject,
            "Shout".to_string(),
            CaseStrategy::Uppercase
        )
    );
    assert_eq!(builder.message_len(), 0);
}

#[test]
fn built_commit_renders_all_parts() {
    let mut builder = Commit::builder(CaseStrategy::Lowercase);
    builder.commit_type(CommitType::new("feat", Some("A new feature"))).unwrap();
    builder.scope("core").unwrap();
    builder.subject("add things").unwrap();
    builder.description("More detail about the change.");
    builder.breaking_change().unwrap();
    let commit = builder.build().unwrap();
    assert_eq!(
        commit.render(),
        "feat(core)!: add things\n\nMore detail about the change."
    );
}

#[test]
fn rendering_skips_empty_parts() {
    let mut builder = Commit::builder(CaseStrategy::Lowercase);
    builder.commit_type(CommitType::new("fix", None)).unwrap();
    builder.subject("repair the hinge").unwrap();
    let commit = builder.build().unwrap();
    assert_eq!(commit.render(), "fix: repair the hinge");

    builder.description("");
    let commit = builder.build().unwrap();
    assert_eq!(commit.render(), "fix: repair the hinge");
}

#[test]
fn setters_are_idempotent() {
    let mut builder = Commit::builder(CaseStrategy::Lowercase);
    builder.commit_type(CommitType::new("feat", None)).unwrap();
    builder.scope("core").unwrap();
    builder.subject("add things").unwrap();
    let once = builder.clone();
    builder.commit_type(CommitType::new("feat", None)).unwrap();
    builder.scope("core").unwrap();
    builder.subject("add things").unwrap();
    assert_eq!(builder, once);
}

#[test]
fn error_messages_name_the_violation() {
    let too_long = CommitError::SubjectTooLongError { available: 62, actual: 63 };
    assert_eq!(
        too_long.message(),
        "The subject is too long: 63 characters, but only 62 are available"
    );
    assert_eq!(
        CommitError::MissingCommitTypeError.message(),
        "You did not select a commit type"
    );
    assert_eq!(
        CommitError::MissingSubjectError.message(),
        "You did not enter a subject"
    );
    let case = CommitError::CaseError(
        CommitComponent::Scope,
        "Core".to_string(),
        CaseStrategy::Lowercase,
    );
    assert_eq!(
        case.message(),
        "The content 'Core' for Scope does not match the case strategy: lowercase"
    );
}

#[test]
fn commit_type_knows_its_length_and_catalog_line() {
    let t = CommitType::new("feat", Some("A new feature"));
    assert_eq!(t.len(), 4);
    assert_eq!(t.display_string(), "feat: A new feature");
    let bare = CommitType::new("ci", None);
    assert_eq!(bare.display_string(), "ci: ");
}

#[test]
fn default_builder_uses_lowercase() {
    let builder = CommitBuilder::default();
    assert_eq!(builder.strategy, CaseStrategy::Lowercase);
}
