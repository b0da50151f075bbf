use gcmt::semver::semver::SemVer;
use gcmt::shell::shell::ShellError;

#[test]
fn versions_parse_from_dotted_text() {
    assert_eq!(SemVer::from_str("1.2.3"), Some(SemVer::new(1, 2, 3)));
    assert_eq!(SemVer::from_str("0.0.0"), Some(SemVer::new(0, 0, 0)));
    // anything after a third dot is ignored
    assert_eq!(SemVer::from_str("1.2.3.4"), Some(SemVer::new(1, 2, 3)));
    // a leading plus is a sign, as the standard number parser reads it
    assert_eq!(SemVer::from_str("+1.2.3"), Some(SemVer::new(1, 2, 3)));
}

#[test]
fn malformed_versions_do_not_parse() {
    assert_eq!(SemVer::from_str(""), None);
    assert_eq!(SemVer::from_str("1"), None);
    assert_eq!(SemVer::from_str("1.2"), None);
    assert_eq!(SemVer::from_str("1..3"), None);
    assert_eq!(SemVer::from_str("1.2.x"), None);
    assert_eq!(SemVer::from_str("1.2.3x"), None);
    assert_eq!(SemVer::from_str("a.b.c"), None);
    assert_eq!(SemVer::from_str("99999999999999999999999.0.0"), None);
}

#[test]
fn bumps_move_and_reset_the_right_parts() {
    let mut v = SemVer::new(1, 2, 3);
    v.bump_patch();
    assert_eq!(v, SemVer::new(1, 2, 4));
    v.bump_minor();
    assert_eq!(v, SemVer::new(1, 3, 0));
    v.bump_major();
    assert_eq!(v, SemVer::new(2, 0, 0));
}

#[test]
fn versions_order_lexicographically() {
    assert!(SemVer::new(1, 0, 0) < SemVer::new(2, 0, 0));
    assert!(SemVer::new(1, 2, 0) < SemVer::new(1, 3, 0));
    assert!(SemVer::new(1, 2, 3) < SemVer::new(1, 2, 4));
    assert!(SemVer::new(2, 0, 0) > SemVer::new(1, 9, 9));
    assert_eq!(SemVer::new(1, 2, 3), SemVer::new(1, 2, 3));
}

#[test]
fn versions_render_dotted() {
    assert_eq!(SemVer::new(1, 2, 3).render(), "1.2.3");
    assert_eq!(SemVer::new(0, 10, 0).render(), "0.10.0");
    assert_eq!(SemVer::default().render(), "0.0.0");
}

#[test]
fn shell_error_messages_render() {
    assert_eq!(
        ShellError::ParseError("bad bytes".to_string()).message(),
        "Error parsing shell output: bad bytes"
    );
    assert_eq!(
        ShellError::ExecError("no such file".to_string()).message(),
        "Error executing shell command: no such file"
    );
    assert_eq!(
        ShellError::CommandError("exit 1".to_string()).message(),
        "Error executing shell command: exit 1"
    );
}
