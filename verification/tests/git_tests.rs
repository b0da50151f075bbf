use gcmt::config::config::Config;
use gcmt::config::config::StaticConfig;
use gcmt::git::commit::CaseResolutionStrategy;
use gcmt::git::commit::Commit;
use gcmt::git::commit::CommitBuildError;
use gcmt::git::commit::CommitType;
use gcmt::git::git::GitError;
use gcmt::git::git::parse_status_output;
use gcmt::git::git_change::GitChange;
use gcmt::git::git_change::GitChangeStatus;
use gcmt::git::git_change::GitChanges;
use gcmt::git::item::GitItem;
use gcmt::git::item::ItemStatus;
use gcmt::git::item::trim;

fn config() -> StaticConfig<'static> {
    StaticConfig {
        max_message_len: 50,
        max_scope_len: Some(10),
        types: vec![CommitType::new("feat", "A new feature")],
        type_case: CaseResolutionStrategy::LowerCase,
        scope_case: CaseResolutionStrategy::LowerCase,
        description_case: CaseResolutionStrategy::Keep,
    }
}

#[test]
fn config_driven_builder_renders_all_parts() {
    let cfg = config();
    let mut builder = Commit::builder(&cfg);
    builder.commit_type(CommitType::new("fix", "A bug fix")).unwrap();
    builder.scope("parser").unwrap();
    builder.is_breaking_change(true).unwrap();
    builder.description("rework everything").unwrap();
    builder.body("A body.");
    builder.footer("A footer.");
    let commit = builder.build();
    assert_eq!(
        commit.render(),
        "fix(parser)!: rework everything\n\nA body.\n\nA footer."
    );
}

#[test]
fn config_driven_builder_footer_without_body_gets_blank_line() {
    let cfg = config();
    let mut builder = Commit::builder(&cfg);
    builder.description("tidy up").unwrap();
    builder.footer("Reviewed-by: someone");
    let commit = builder.build();
    assert_eq!(commit.render(), "feat: tidy up\n\n\n\nReviewed-by: someone");
}

#[test]
fn config_driven_builder_rejects_over_budget_title() {
    let cfg = config();
    let mut builder = Commit::builder(&cfg);
    let long = "x".repeat(47);
    let err = builder.description(&long).unwrap_err();
    assert_eq!(
        err,
        CommitBuildError::ExceedsMaxLineLength {
            type_len: 4,
            scope_len: 0,
            breaking_change_len: 0,
            description_len: 47,
            max_len: 50,
        }
    );
    // 46 fits: 4 + 46 == 50
    let fitting = "x".repeat(46);
    assert!(builder.description(&fitting).is_ok());
}

#[test]
fn config_driven_builder_rejects_long_scope() {
    let cfg = config();
    let mut builder = Commit::builder(&cfg);
    let err = builder.scope("veryverylongscope").unwrap_err();
    assert_eq!(
        err,
        CommitBuildError::ScopeLengthExceedsMax { scope_len: 17, max_len: 10 }
    );
}

#[test]
fn config_driven_builder_skips_blank_body_and_footer() {
    let cfg = config();
    let mut builder = Commit::builder(&cfg);
    builder.description("tidy up").unwrap();
    builder.body("   \n\t ");
    builder.footer("");
    builder.body("\u{a0}\u{2028}");
    let commit = builder.build();
    assert_eq!(commit.render(), "feat: tidy up");
}

#[test]
fn case_resolution_strategies_map_text() {
    assert_eq!(CaseResolutionStrategy::Keep.resolve("MiXeD"), "MiXeD");
    assert_eq!(CaseResolutionStrategy::LowerCase.resolve("MiXeD"), "mixed");
    assert_eq!(CaseResolutionStrategy::UpperCase.resolve("MiXeD"), "MIXED");
    assert_eq!(CaseResolutionStrategy::Capitalized.resolve("mIxED"), "MIxED");
    assert_eq!(CaseResolutionStrategy::Capitalized.resolve(""), "");
    assert_eq!(CaseResolutionStrategy::LowerCase.resolve("\u{c9}t\u{c9}"), "\u{e9}t\u{e9}");
    assert_eq!(CaseResolutionStrategy::UpperCase.resolve("stra\u{df}e"), "STRASSE");
    assert_eq!(
        CaseResolutionStrategy::Capitalized.resolve("\u{e9}clair"),
        "\u{c9}clair"
    );
    assert_eq!(CaseResolutionStrategy::default(), CaseResolutionStrategy::Keep);
}

#[test]
fn static_config_answers_through_the_trait() {
    let cfg = config();
    assert_eq!(cfg.max_commit_message_length(), 50);
    assert_eq!(cfg.max_scope_length(), Some(10));
    assert_eq!(cfg.commit_types().len(), 1);
    assert_eq!(cfg.commit_type_strategy(), CaseResolutionStrategy::LowerCase);
}

#[test]
fn build_error_messages_name_the_numbers() {
    let err = CommitBuildError::ExceedsMaxLineLength {
        type_len: 4,
        scope_len: 6,
        breaking_change_len: 1,
        description_len: 47,
        max_len: 50,
    };
    assert_eq!(
        err.message(),
        "exceeds max line length (type: 4 + scope: 6 + breaking: 1 + description: 47 = 58 > 50)"
    );
    let err = CommitBuildError::ScopeLengthExceedsMax { scope_len: 17, max_len: 10 };
    assert_eq!(err.message(), "scope length exceeds max (17 > 10)");
}

#[test]
fn item_parses_a_status_line() {
    let item = GitItem::parse("MM src/lib.rs").unwrap();
    assert_eq!(item.x, ItemStatus::Modified);
    assert_eq!(item.y, ItemStatus::Modified);
    assert_eq!(item.path, "src/lib.rs");
    assert!(item.is_staged());

    let item = GitItem::parse("UA  spaced path  ").unwrap();
    assert_eq!(item.x, ItemStatus::Unmodified);
    assert_eq!(item.y, ItemStatus::Added);
    assert_eq!(item.path, "spaced path");
    assert!(!item.is_staged());

    assert_eq!(GitItem::parse("XY"), None);
}

#[test]
fn status_output_parses_line_by_line() {
    let items = parse_status_output("A  added.rs\n M changed.rs\r\n?? unknown.rs\n").unwrap();
    assert_eq!(items.len(), 3);
    assert_eq!(items[0].x, ItemStatus::Added);
    assert_eq!(items[0].path, "added.rs");
    assert_eq!(items[1].x, ItemStatus::Unmodified);
    assert_eq!(items[1].y, ItemStatus::Modified);
    assert_eq!(items[1].path, "changed.rs");
    // unknown letters read as unmodified
    assert_eq!(items[2].x, ItemStatus::Unmodified);

    assert_eq!(parse_status_output(""), Ok(vec![]));

    let err = parse_status_output("A  ok.rs\nxy\n").unwrap_err();
    assert_eq!(err, GitError::GitError("Unknown git item: xy".to_string()));
}

#[test]
fn trim_strips_blank_edges() {
    assert_eq!(trim("  padded\t"), "padded");
    assert_eq!(trim("plain"), "plain");
    assert_eq!(trim(" \t\r\n"), "");
    assert_eq!(trim(""), "");
    assert_eq!(trim(" inner  space "), "inner  space");
    assert_eq!(trim("\u{a0}padded\u{2009}"), "padded");
}

#[test]
fn item_status_letters_round_trip() {
    let letters = ["U", "M", "T", "A", "D", "R", "C", "X"];
    for letter in letters {
        let status = ItemStatus::from_char(letter.chars().next().unwrap());
        assert_eq!(status.short_name(), letter);
    }
    assert_eq!(ItemStatus::from_char('?'), ItemStatus::Unmodified);
}

#[test]
fn copy_status_keeps_the_path() {
    let mut item = GitItem::new(ItemStatus::Added, ItemStatus::Added, "a.rs".to_string());
    let other = GitItem::new(ItemStatus::Deleted, ItemStatus::Modified, "b.rs".to_string());
    item.copy_status_from(&other);
    assert_eq!(item.x, ItemStatus::Deleted);
    assert_eq!(item.y, ItemStatus::Modified);
    assert_eq!(item.path, "a.rs");
}

#[test]
fn changes_know_their_staging_state() {
    let mut change = GitChange::new("a.rs".to_string(), GitChangeStatus::Unstaged);
    change.apply_stage_result(false);
    assert_eq!(change.status, GitChangeStatus::Unstaged);
    change.apply_stage_result(true);
    assert_eq!(change.status, GitChangeStatus::Staged);
    change.apply_unstage_result(true);
    assert_eq!(change.status, GitChangeStatus::Unstaged);
    assert_eq!(change.display_string(), "Unstaged\t: a.rs");
}

#[test]
fn change_lists_answer_queries() {
    let staged = GitChange::new("a.rs".to_string(), GitChangeStatus::Staged);
    let unstaged = GitChange::new("b.rs".to_string(), GitChangeStatus::Unstaged);
    let both = vec![staged.clone(), unstaged.clone()];
    assert!(both.has_staged_changes());
    assert!(both.has_unstaged_changes());
    assert!(both.has_changes());
    let none: Vec<GitChange> = vec![];
    assert!(!none.has_staged_changes());
    assert!(!none.has_unstaged_changes());
    assert!(!none.has_changes());
}

#[test]
fn changes_order_staged_first_then_by_path() {
    let a = GitChange::new("b.rs".to_string(), GitChangeStatus::Staged);
    let b = GitChange::new("a.rs".to_string(), GitChangeStatus::Unstaged);
    assert!(a < b);
    let c = GitChange::new("a.rs".to_string(), GitChangeStatus::Staged);
    assert!(c < a);
}

#[test]
fn git_error_messages_render() {
    assert_eq!(
        GitError::GitError("fatal: oops".to_string()).message(),
        "fatal: oops"
    );
    assert_eq!(GitError::NoGitRepository.message(), "No git repository found");
    assert_eq!(GitError::NoRemote.message(), "No remote found");
    assert_eq!(GitError::NoUpstream.message(), "No upstream found");
    assert_eq!(
        GitError::ParseError("bad".to_string()).message(),
        "Error parsing git output: bad"
    );
    assert_eq!(
        GitError::ExecError("bad".to_string()).message(),
        "Error executing git command: bad"
    );
}
