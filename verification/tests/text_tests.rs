use smarttodo::text::{prefixed, same_text, trim};

#[test]
fn trim_removes_outer_whitespace_only() {
    assert_eq!(trim("  hello world \n"), "hello world");
    assert_eq!(trim("\t a  b \t"), "a  b");
    assert_eq!(trim("plain"), "plain");
}

#[test]
fn trim_of_blank_is_empty() {
    assert_eq!(trim(""), "");
    assert_eq!(trim("   \n\t "), "");
}

#[test]
fn trim_handles_unicode_whitespace() {
    assert_eq!(trim("\u{3000}caf\u{e9}\u{a0}"), "caf\u{e9}");
    assert_eq!(trim("\u{2003}x\u{2028}"), "x");
}

#[test]
fn trim_is_idempotent() {
    let once = trim("  buy milk  ");
    assert_eq!(trim(&once), once);
}

#[test]
fn trim_agrees_with_std() {
    for s in [" a ", "\n\nb", "c\r\n", "  ", "d e", "\u{85}f\u{1680}"] {
        assert_eq!(trim(s), s.trim());
    }
}

#[test]
fn prefixed_joins() {
    assert_eq!(prefixed("mkdir: ", "denied"), "mkdir: denied");
    assert_eq!(prefixed("", ""), "");
}

#[test]
fn same_text_compares_characters() {
    assert!(same_text("show", "show"));
    assert!(!same_text("show", "shows"));
    assert!(!same_text("quit", "qUit"));
    assert!(same_text("", ""));
}
