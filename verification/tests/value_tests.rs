use gcmt::models::commit_scope::CommitScopeFL;
use gcmt::models::commit_scope::CommitScopeVL;
use gcmt::models::commit_type::CommitType;
use gcmt::util::my_str::MyStr;
use gcmt::util::my_str::MyStrFixed;
use gcmt::util::my_str::MyStrTrait;
use gcmt::util::my_str::StrWriteError;
use gcmt::util::strutil::usize_to_string;
use gcmt::util::writer::Writer;

#[test]
fn test_my_str_default() {
    let mut s: MyStr<10> = Default::default();
    assert_eq!(s, MyStr::Fixed(MyStrFixed::default()));
    let bytes_written = s.write(b"abcdefghij");
    assert!(bytes_written.is_ok());
    assert_eq!(bytes_written.unwrap(), 10);
    assert_eq!(s.len(), 10);
    let bytes_written = s.write(b"k");
    assert!(bytes_written.is_ok());
    assert_eq!(bytes_written.unwrap(), 1);
    assert_eq!(s, MyStr::Variable("abcdefghijk".to_owned()));
}

#[test]
fn my_str_new_picks_the_fitting_representation() {
    let short: MyStr<10> = MyStrTrait::new("short");
    assert!(matches!(short, MyStr::Fixed(_)));
    assert_eq!(short.len(), 5);
    assert_eq!(short.as_str(), "short");

    let long: MyStr<10> = MyStrTrait::new("quite a bit longer");
    assert!(matches!(long, MyStr::Variable(_)));
    assert_eq!(long.as_str(), "quite a bit longer");
}

#[test]
fn my_str_clear_empties_both_representations() {
    let mut fixed: MyStr<10> = MyStrTrait::new("abc");
    fixed.clear();
    assert!(fixed.is_empty());
    let mut heap: MyStr<4> = MyStrTrait::new("abcdefgh");
    heap.clear();
    assert!(heap.is_empty());
}

#[test]
fn my_str_rejects_bytes_that_are_not_text() {
    let mut s: MyStr<10> = Default::default();
    let err = s.write(&[0xff, 0xfe]).unwrap_err();
    assert_eq!(err, StrWriteError::InvalidUtf8);
    assert!(s.is_empty());
}

#[test]
fn my_str_fixed_reports_exhausted_capacity() {
    let mut s: MyStrFixed<4> = Default::default();
    s.write(b"abc").unwrap();
    let err = s.write(b"de").unwrap_err();
    assert_eq!(
        err,
        StrWriteError::CapacityExceeded { requested: 2, available: 1 }
    );
    assert_eq!(s.as_str(), "abc");
}

#[test]
fn test_commit_scope() {
    let mut scope = CommitScopeFL::<10>::default();
    scope.write(b"feat").unwrap();
    assert_eq!(scope.len(), 4);
    assert_eq!(scope.scope(), b"feat");
    assert_eq!(scope.display_string(), "(feat)");
}

#[test]
fn commit_scope_rejects_text_over_capacity() {
    let err = CommitScopeFL::<4>::new("longer").unwrap_err();
    assert_eq!(err.len, 6);
    assert_eq!(err.max, 4);
    let ok = CommitScopeFL::<10>::new("core").unwrap();
    assert_eq!(ok.display_string(), "(core)");
}

#[test]
fn commit_scope_writes_itself_in_parentheses() {
    let scope = CommitScopeFL::<10>::new("core").unwrap();
    let mut out: Vec<u8> = Vec::new();
    scope.write_to(&mut out);
    assert_eq!(out, b"(core)".to_vec());
    let mut line: Vec<u8> = Vec::new();
    scope.write_line_to(&mut line);
    assert_eq!(line, b"(core)\n".to_vec());
}

#[test]
fn commit_scope_variable_defaults_empty() {
    let scope = CommitScopeVL::default();
    assert_eq!(scope.scope, "");
}

#[test]
fn model_commit_type_renders_catalog_line() {
    let t = CommitType::new("feat", "A new feature");
    assert_eq!(t.name(), "feat");
    assert_eq!(t.description(), "A new feature");
    let mut out: Vec<u8> = Vec::new();
    t.write_to(&mut out);
    assert_eq!(out, b"feat: A new feature".to_vec());
}

#[test]
fn numbers_render_in_decimal() {
    assert_eq!(usize_to_string(0), "0");
    assert_eq!(usize_to_string(7), "7");
    assert_eq!(usize_to_string(10), "10");
    assert_eq!(usize_to_string(40962), "40962");
}
