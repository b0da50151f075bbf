use gcmt::commit::strategy::CaseStrategy;

#[test]
fn apply_maps_letters() {
    assert_eq!(CaseStrategy::Lowercase.apply("MiXeD-42"), "mixed-42");
    assert_eq!(CaseStrategy::Uppercase.apply("MiXeD-42"), "MIXED-42");
    assert_eq!(CaseStrategy::Capitalized.apply("hELLO"), "Hello");
    assert_eq!(CaseStrategy::Unchanged.apply("MiXeD-42"), "MiXeD-42");
}

#[test]
fn apply_folds_unicode_letters() {
    assert_eq!(CaseStrategy::Lowercase.apply("\u{c9}t\u{c9}"), "\u{e9}t\u{e9}");
    assert_eq!(CaseStrategy::Uppercase.apply("stra\u{df}e"), "STRASSE");
    assert_eq!(CaseStrategy::Capitalized.apply("m\u{c9}NU"), "M\u{e9}nu");
}

#[test]
fn apply_on_empty_text_yields_empty_text() {
    assert_eq!(CaseStrategy::Lowercase.apply(""), "");
    assert_eq!(CaseStrategy::Uppercase.apply(""), "");
    assert_eq!(CaseStrategy::Capitalized.apply(""), "");
    assert_eq!(CaseStrategy::Unchanged.apply(""), "");
}

#[test]
fn verify_accepts_applied_text() {
    let samples = ["", "Foo", "BAR", "mixed case 42", "Punct!?", "\u{c9}t\u{c9} stra\u{df}e"];
    let strategies = [
        CaseStrategy::Lowercase,
        CaseStrategy::Uppercase,
        CaseStrategy::Capitalized,
        CaseStrategy::Unchanged,
    ];
    for strategy in strategies {
        for sample in samples {
            let applied = strategy.apply(sample);
            assert!(strategy.verify(&applied));
        }
    }
}

#[test]
fn verify_rejects_a_violating_text() {
    assert!(!CaseStrategy::Lowercase.verify("Foo"));
    assert!(!CaseStrategy::Uppercase.verify("Foo"));
    assert!(!CaseStrategy::Capitalized.verify("fOO"));
    assert!(!CaseStrategy::Lowercase.verify("\u{c9}"));
    assert!(!CaseStrategy::Uppercase.verify("\u{e9}"));
}

#[test]
fn verify_accepts_conforming_text() {
    assert!(CaseStrategy::Lowercase.verify("foo"));
    assert!(CaseStrategy::Uppercase.verify("FOO"));
    assert!(CaseStrategy::Capitalized.verify("Foo"));
    assert!(CaseStrategy::Unchanged.verify("AnYtHiNg"));
}

#[test]
fn capitalized_on_empty_verifies_true() {
    assert!(CaseStrategy::Capitalized.verify(""));
}

#[test]
fn strategy_names_render() {
    assert_eq!(CaseStrategy::Lowercase.name(), "lowercase");
    assert_eq!(CaseStrategy::Uppercase.name(), "uppercase");
    assert_eq!(CaseStrategy::Capitalized.name(), "capitalized");
    assert_eq!(CaseStrategy::Unchanged.name(), "unchanged");
}

#[test]
fn default_strategy_is_lowercase() {
    assert_eq!(CaseStrategy::default(), CaseStrategy::Lowercase);
}
