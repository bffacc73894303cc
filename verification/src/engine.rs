//! The regular-expression engine, as far as this library draws on it.
//!
//! Nothing in this file is proved: each item states what the engine is taken
//! to do. A compiled expression, a syntax and a set of options stand in
//! contracts as values that only the engine can look into. A compiled
//! expression stands there for the program that the engine made of the
//! pattern, whichever allocation holds it.

use vstd::prelude::*;
use onig::{Error, MatchParam, Regex, RegexOptions, SearchOptions, Syntax};
use crate::dialect::RegexType;

verus! {

/// `onig::Regex`, a compiled expression.
#[verifier::external_type_specification]
#[verifier::external_body]
pub struct ExRegex(Regex);

/// `onig::Error`, the engine's complaint about a pattern or a search.
#[verifier::external_type_specification]
#[verifier::external_body]
pub struct ExError(Error);

/// `onig::Syntax`, the grammar in which a pattern is read.
#[verifier::external_type_specification]
#[verifier::external_body]
pub struct ExSyntax(Syntax);

/// `onig::RegexOptions`, the switches under which a pattern is compiled.
#[verifier::external_type_specification]
#[verifier::external_body]
pub struct ExRegexOptions(RegexOptions);

/// The engine's own syntax of each dialect: what `Syntax::emacs`,
/// `Syntax::grep`, `Syntax::posix_basic` and `Syntax::posix_extended` return.
pub uninterp spec fn onig_syntax(regex_type: RegexType) -> Syntax;

/// The engine's options with case folding switched on or off: the constants
/// `REGEX_OPTION_IGNORECASE` and `REGEX_OPTION_NONE`.
pub uninterp spec fn onig_case_option(ignore_case: bool) -> RegexOptions;

/// What `Regex::with_options` makes of a pattern under given options and
/// the syntax of one of the four dialects: the compiled expression, or the
/// engine's complaint. Of any other syntax nothing is said: some of them let
/// a pattern name a character property, and which properties there are can
/// change while the process runs.
pub uninterp spec fn onig_compile(pattern: Seq<char>, option: RegexOptions, syntax: Syntax) -> Result<Regex, Error>;

/// What a forward search of the whole of `text` with a compiled expression
/// comes to: where the first stretch that the expression matches begins (in
/// bytes), that there is none, or the engine's complaint.
pub uninterp spec fn onig_search(regex: Regex, text: Seq<char>) -> Result<Option<usize>, Error>;

/// `Syntax::emacs` returns the engine's Emacs syntax.
pub assume_specification[ Syntax::emacs ]() -> (syntax: &'static Syntax)
    ensures
        *syntax == onig_syntax(RegexType::Emacs),
;

/// `Syntax::grep` returns the engine's grep syntax.
pub assume_specification[ Syntax::grep ]() -> (syntax: &'static Syntax)
    ensures
        *syntax == onig_syntax(RegexType::Grep),
;

/// `Syntax::posix_basic` returns the engine's POSIX basic syntax.
pub assume_specification[ Syntax::posix_basic ]() -> (syntax: &'static Syntax)
    ensures
        *syntax == onig_syntax(RegexType::PosixBasic),
;

/// `Syntax::posix_extended` returns the engine's POSIX extended syntax.
pub assume_specification[ Syntax::posix_extended ]() -> (syntax: &'static Syntax)
    ensures
        *syntax == onig_syntax(RegexType::PosixExtended),
;

/// The constant `RegexOptions::REGEX_OPTION_NONE`: no switch is set, so case
/// is told apart.
#[verifier::external_body]
pub(crate) fn option_none() -> (option: RegexOptions)
    ensures
        option == onig_case_option(false),
{
    RegexOptions::REGEX_OPTION_NONE
}

/// The constant `RegexOptions::REGEX_OPTION_IGNORECASE`: case is folded.
#[verifier::external_body]
pub(crate) fn option_ignorecase() -> (option: RegexOptions)
    ensures
        option == onig_case_option(true),
{
    RegexOptions::REGEX_OPTION_IGNORECASE
}

/// `Regex::with_options` compiles the pattern, or returns the engine's
/// complaint. Under the syntax of one of the four dialects, which of the two
/// it is, and what, depends on its arguments alone: none of the four has the
/// operator for character properties, the one thing that the parser looks up
/// in a table that a process can add to.
pub assume_specification[ Regex::with_options ](
    pattern: &str,
    option: RegexOptions,
    syntax: &Syntax,
) -> (compiled: Result<Regex, Error>)
    requires
        exists|regex_type: RegexType| *syntax == #[trigger] onig_syntax(regex_type),
    ensures
        compiled == onig_compile(pattern@, option, *syntax),
;

/// `Regex::search_with_param`, from the first byte of `text` to its end,
/// with no search option, no region and the engine's default limits. It
/// returns an error where the engine gives up; it does not panic.
#[verifier::external_body]
pub(crate) fn search(regex: &Regex, text: &str) -> (outcome: Result<Option<usize>, Error>)
    ensures
        outcome == onig_search(*regex, text@),
{
    regex.search_with_param(
        text,
        0,
        text.len(),
        SearchOptions::SEARCH_OPTION_NONE,
        None,
        MatchParam::default(),
    )
}

} // verus!
