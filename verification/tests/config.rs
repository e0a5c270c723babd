use merger::config::{ArgValue, Field, ToolArg};

fn arg(field: Field, flag: &str) -> ToolArg {
    ToolArg { name: "n".to_string(), key: "k".to_string(), field, flag: flag.to_string() }
}

fn text(found: Option<(ArgValue, usize)>) -> Option<(String, usize)> {
    match found {
        Some((ArgValue::Text(value), taken)) => Some((value, taken)),
        Some((ArgValue::Switch(_), _)) => panic!("a text was expected"),
        None => None,
    }
}

fn switch(found: Option<(ArgValue, usize)>) -> Option<(bool, usize)> {
    match found {
        Some((ArgValue::Switch(on), taken)) => Some((on, taken)),
        Some((ArgValue::Text(_), _)) => panic!("a switch was expected"),
        None => None,
    }
}

#[test]
fn a_text_in_the_same_argument() {
    let a = arg(Field::Source, "rust-src");
    assert_eq!(text(a.recognize("--rust-src=../rust", None)), Some(("../rust".to_string(), 1)));
    assert_eq!(
        text(a.recognize("--rust-src=a=b", Some("next"))),
        Some(("a=b".to_string(), 1))
    );
    assert_eq!(text(a.recognize("--rust-src=", None)), Some(("".to_string(), 1)));
}

#[test]
fn a_text_in_the_next_argument() {
    let a = arg(Field::Branch, "rust-branch");
    assert_eq!(text(a.recognize("--rust-branch", Some("next"))), Some(("next".to_string(), 2)));
    assert_eq!(text(a.recognize("--rust-branch", Some(""))), Some(("".to_string(), 2)));
    assert_eq!(text(a.recognize("--rust-branch", None)), None);
}

#[test]
fn the_target_directory_is_a_text() {
    let a = arg(Field::TargetDir, "target-dir");
    assert_eq!(text(a.recognize("--target-dir=/t", None)), Some(("/t".to_string(), 1)));
    assert_eq!(text(a.recognize("--target-dir", Some("/t"))), Some(("/t".to_string(), 2)));
}

#[test]
fn other_arguments_are_not_recognized() {
    let a = arg(Field::Source, "rust-src");
    assert!(a.recognize("--rust-srcs=x", None).is_none());
    assert!(a.recognize("--rust-src-x", Some("y")).is_none());
    assert!(a.recognize("-rust-src=x", None).is_none());
    assert!(a.recognize("rust-src", Some("y")).is_none());
    assert!(a.recognize("--rust-branch=x", None).is_none());
    assert!(a.recognize("--no-rust-src", None).is_none());
    assert!(a.recognize("", Some("y")).is_none());
    assert!(a.recognize("--rust-sr", Some("y")).is_none());
}

#[test]
fn a_switch_is_set_and_cleared() {
    let a = arg(Field::Clobber, "clobber-rust-srcs");
    assert_eq!(switch(a.recognize("--clobber-rust-srcs", None)), Some((true, 1)));
    assert_eq!(switch(a.recognize("--no-clobber-rust-srcs", Some("x"))), Some((false, 1)));
    assert!(a.recognize("--clobber-rust-srcs=yes", None).is_none());
    assert!(a.recognize("--no-no-clobber-rust-srcs", None).is_none());
    assert!(a.recognize("--clobber-rust-src", None).is_none());
    assert!(a.recognize("--no-clobber-rust-srcs ", None).is_none());
}
