//! What holds of the dialects' names, of the complaint about a wrong name,
//! and of a matcher's answers.

use vstd::prelude::*;
use onig::{Error, Regex};
use crate::dialect::{listing, quoted, rejection_message, RegexType};
use crate::matcher::{compile_outcome, RegexMatcher};

verus! {

/// Whether `needle` stands somewhere in `text`, unbroken.
pub open spec fn occurs_in(needle: Seq<char>, text: Seq<char>) -> bool {
    exists|at: int|
        0 <= at && at + needle.len() <= text.len() && #[trigger] text.subrange(
            at,
            at + needle.len(),
        ) == needle
}

/// The four names have four different lengths.
pub proof fn lemma_name_lengths()
    ensures
        RegexType::Emacs.spec_name().len() == 5,
        RegexType::Grep.spec_name().len() == 4,
        RegexType::PosixBasic.spec_name().len() == 11,
        RegexType::PosixExtended.spec_name().len() == 14,
{
    reveal_strlit("emacs");
    reveal_strlit("grep");
    reveal_strlit("posix-basic");
    reveal_strlit("posix-extended");
}

/// Reading a dialect's name gives that dialect back.
pub proof fn lemma_name_round_trip(regex_type: RegexType)
    ensures
        RegexType::spec_from_str(regex_type.spec_name()) == Some(regex_type),
{
    lemma_name_lengths();
}

/// A text is read as a dialect exactly when it is that dialect's name, so
/// every text that is none of the four names is rejected.
pub proof fn lemma_only_names_are_read(s: Seq<char>)
    ensures
        forall|regex_type: RegexType|
            RegexType::spec_from_str(s) == Some(regex_type) <==> s
                == #[trigger] regex_type.spec_name(),
        RegexType::spec_from_str(s) is None <==> (forall|regex_type: RegexType|
            s != #[trigger] regex_type.spec_name()),
{
    lemma_name_lengths();
}

/// Every text occurs in itself.
pub proof fn lemma_occurs_in_itself(text: Seq<char>)
    ensures
        occurs_in(text, text),
{
    let at: int = 0;
    assert(text.subrange(at, at + text.len()) =~= text);
}

/// What occurs in the middle part of a text occurs in the text.
pub proof fn lemma_occurs_in_part(
    needle: Seq<char>,
    before: Seq<char>,
    part: Seq<char>,
    after: Seq<char>,
)
    requires
        occurs_in(needle, part),
    ensures
        occurs_in(needle, before + part + after),
{
    let at = choose|at: int|
        0 <= at && at + needle.len() <= part.len() && #[trigger] part.subrange(
            at,
            at + needle.len(),
        ) == needle;
    let text = before + part + after;
    let shifted = before.len() + at;
    assert(text.subrange(shifted, shifted + needle.len()) =~= part.subrange(
        at,
        at + needle.len(),
    ));
}

/// A listing holds the quoted name of each of its dialects.
pub proof fn lemma_listing_holds_each(values: Seq<RegexType>, i: int)
    requires
        0 <= i < values.len(),
    ensures
        occurs_in(quoted(values[i]), listing(values)),
    decreases values.len(),
{
    let whole = listing(values);
    if values.len() == 1 {
        lemma_occurs_in_itself(whole);
    } else if i == values.len() - 1 {
        let last = quoted(values.last());
        let head = listing(values.drop_last()) + ", "@;
        lemma_occurs_in_itself(last);
        lemma_occurs_in_part(last, head, last, Seq::empty());
    } else {
        let rest = values.drop_last();
        lemma_listing_holds_each(rest, i);
        let tail = ", "@ + quoted(values.last());
        assert(whole =~= Seq::<char>::empty() + listing(rest) + tail);
        lemma_occurs_in_part(quoted(values[i]), Seq::empty(), listing(rest), tail);
    }
}

/// The complaint about a rejected text names every dialect, whatever the
/// text was.
pub proof fn lemma_message_names_every_dialect(input: Seq<char>, regex_type: RegexType)
    ensures
        occurs_in(regex_type.spec_name(), rejection_message(input)),
{
    let name = regex_type.spec_name();
    let all = RegexType::VALUES@;
    let i: int = match regex_type {
        RegexType::Emacs => 0,
        RegexType::Grep => 1,
        RegexType::PosixBasic => 2,
        RegexType::PosixExtended => 3,
    };
    lemma_listing_holds_each(all, i);
    // The name stands inside its quotes, the quoted name inside the listing,
    // and the listing inside the complaint.
    lemma_occurs_in_itself(name);
    lemma_occurs_in_part(name, "'"@, name, "'"@);
    let list = listing(all);
    let at = choose|at: int|
        0 <= at && at + quoted(regex_type).len() <= list.len() && #[trigger] list.subrange(
            at,
            at + quoted(regex_type).len(),
        ) == quoted(regex_type);
    let before = list.subrange(0, at);
    let after = list.subrange(at + quoted(regex_type).len(), list.len() as int);
    assert(list =~= before + quoted(regex_type) + after);
    lemma_occurs_in_part(name, before, quoted(regex_type), after);
    let opening = "Invalid regex type: "@ + input + " (must be one of "@;
    lemma_occurs_in_part(name, opening, list, ")"@);
}

/// The dialect that stands where none was chosen is the one that "emacs"
/// names, so a pattern compiles to the same under both.
pub proof fn lemma_default_is_emacs(pattern: Seq<char>, ignore_case: bool)
    ensures
        RegexType::spec_from_str("emacs"@) == Some(RegexType::spec_default()),
        compile_outcome(RegexType::spec_default(), pattern, ignore_case) == compile_outcome(
            RegexType::spec_from_str("emacs"@)->Some_0,
            pattern,
            ignore_case,
        ),
{
}

/// Two matchers that hold what one pattern compiles to, the first under the
/// dialect that stands where none was chosen and the second under the one
/// that "emacs" names, give the same answer about every path.
pub proof fn lemma_default_matcher_answers_as_emacs(
    plain: RegexMatcher,
    named: RegexMatcher,
    pattern: Seq<char>,
    ignore_case: bool,
    path: Seq<char>,
)
    requires
        compile_outcome(RegexType::spec_default(), pattern, ignore_case) == Ok::<Regex, Error>(
            plain.spec_regex(),
        ),
        compile_outcome(RegexType::spec_from_str("emacs"@)->Some_0, pattern, ignore_case) == Ok::<
            Regex,
            Error,
        >(named.spec_regex()),
    ensures
        plain.accepts(path) == named.accepts(path),
{
}

/// A matcher's answer depends on the matcher and the path alone: asked
/// again about the same path, it answers the same.
pub proof fn lemma_same_path_same_answer(matcher: RegexMatcher, path: Seq<char>, again: Seq<char>)
    requires
        path == again,
    ensures
        matcher.accepts(path) == matcher.accepts(again),
{
}

} // verus!
