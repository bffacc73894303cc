use regex_matcher::text::str_eq;

#[test]
fn equal_texts() {
    assert!(str_eq("", ""));
    assert!(str_eq("emacs", "emacs"));
    assert!(str_eq("h\u{e9}llo \u{1f600}", "h\u{e9}llo \u{1f600}"));
}

#[test]
fn unequal_texts() {
    assert!(!str_eq("", "a"));
    assert!(!str_eq("emacs", "emacS"));
    assert!(!str_eq("emacs", "emac"));
    assert!(!str_eq("abc", "abd"));
    assert!(!str_eq("\u{e9}", "e"));
    assert!(!str_eq("\u{e9}", "\u{e8}"));
}
