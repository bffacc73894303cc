use onig::{Regex, RegexOptions, Syntax};
use regex_matcher::dialect::RegexType;
use regex_matcher::matcher::RegexMatcher;
use regex_matcher::predicate::Matcher;
use walkdir::{DirEntry, WalkDir};

/// The entry for the directory that the tests run in: its path is ".".
fn here() -> DirEntry {
    WalkDir::new(".").max_depth(0).into_iter().next().unwrap().unwrap()
}

#[test]
fn from_compiled_wraps_a_compiled_pattern() {
    let compiled =
        Regex::with_options("b+", RegexOptions::REGEX_OPTION_NONE, Syntax::posix_extended());
    let matcher = RegexMatcher::from_compiled(RegexType::PosixExtended, false, compiled).unwrap();
    assert_eq!(matcher.regex_type(), RegexType::PosixExtended);
    assert!(!matcher.ignore_case());
    assert!(matcher.matches_path("abbbc"));
    assert!(!matcher.matches_path("ac"));
}

#[test]
fn from_compiled_keeps_the_cause() {
    let compiled =
        Regex::with_options("[", RegexOptions::REGEX_OPTION_NONE, Syntax::posix_extended());
    let code = compiled.as_ref().unwrap_err().code();
    let description = compiled.as_ref().unwrap_err().description().to_owned();
    let e = RegexMatcher::from_compiled(RegexType::PosixExtended, true, compiled).unwrap_err();
    assert_eq!(e.cause().code(), code);
    assert_eq!(e.cause().description(), description);
}

#[test]
fn found_reads_the_outcome_of_a_search() {
    assert!(RegexMatcher::found(Ok(Some(0))));
    assert!(RegexMatcher::found(Ok(Some(17))));
    assert!(!RegexMatcher::found(Ok(None)));
    let complaint = Regex::new("(").unwrap_err();
    assert!(!RegexMatcher::found(Err(complaint)));
}

#[test]
fn syntax_for_gives_the_dialects_own_syntax() {
    let pairs = [
        (RegexType::Emacs, Syntax::emacs()),
        (RegexType::Grep, Syntax::grep()),
        (RegexType::PosixBasic, Syntax::posix_basic()),
        (RegexType::PosixExtended, Syntax::posix_extended()),
    ];
    for (regex_type, syntax) in pairs {
        let ours = RegexMatcher::syntax_for(regex_type);
        assert!(std::ptr::eq(ours, syntax));
        assert_eq!(ours.operators(), syntax.operators());
        assert_eq!(ours.behavior(), syntax.behavior());
        assert_eq!(ours.options(), syntax.options());
    }
    assert_ne!(
        RegexMatcher::syntax_for(RegexType::Grep).operators(),
        RegexMatcher::syntax_for(RegexType::PosixBasic).operators()
    );
}

#[test]
fn entry_is_matched_by_its_path() {
    let entry = here();
    let mut io: u32 = 7;

    let matcher = RegexMatcher::new(RegexType::Emacs, r"^\.$", false).unwrap();
    assert!(matcher.matches(&entry, &mut io));
    assert_eq!(matcher.matches(&entry, &mut io), matcher.matches_path("."));

    let matcher = RegexMatcher::new(RegexType::Emacs, "x", false).unwrap();
    assert!(!matcher.matches(&entry, &mut io));

    assert_eq!(io, 7);
}

#[test]
fn boxed_matcher_answers_as_the_matcher_does() {
    let entry = here();
    let mut io = String::from("shared");

    for (regex_type, pattern) in [
        (RegexType::PosixExtended, r"^\.{1,1}$"),
        (RegexType::PosixBasic, r"^\.{1,1}$"),
        (RegexType::Emacs, "x"),
        (RegexType::Grep, r"^\.$"),
    ] {
        let matcher = RegexMatcher::new(regex_type, pattern, false).unwrap();
        let expected = matcher.matches(&entry, &mut io);
        let boxed: Box<dyn Matcher<String>> = Box::new(matcher);
        assert_eq!(boxed.matches(&entry, &mut io), expected);
    }

    let boxed: Box<dyn Matcher<String>> =
        Box::new(RegexMatcher::new(RegexType::PosixExtended, r"^\.{1,1}$", false).unwrap());
    assert!(boxed.matches(&entry, &mut io));

    let boxed: Box<dyn Matcher<String>> =
        Box::new(RegexMatcher::new(RegexType::PosixBasic, r"^\.{1,1}$", false).unwrap());
    assert!(!boxed.matches(&entry, &mut io));

    assert_eq!(io, "shared");
}

fn shared_between_threads<T: Send + Sync>(_: &T) {}

#[test]
fn matcher_can_be_shared_between_threads() {
    let matcher = RegexMatcher::new(RegexType::Emacs, "a", false).unwrap();
    shared_between_threads(&matcher);
    assert!(matcher.matches_path("a"));
}
