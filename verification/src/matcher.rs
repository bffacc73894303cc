//! A pattern compiled once under a dialect, and asked about paths.

use vstd::prelude::*;
use onig::{Error, Regex, Syntax};
use walkdir::DirEntry;
use crate::dialect::RegexType;
use crate::entry::{entry_path, path_text};
use crate::predicate::Matcher;
use crate::engine::{
    onig_case_option, onig_compile, onig_search, onig_syntax, option_ignorecase, option_none,
    search,
};

verus! {

/// Why a pattern could not be compiled: the engine's own complaint.
#[derive(Debug)]
pub struct RegexCompileError {
    cause: Error,
}

impl RegexCompileError {
    /// The engine's complaint.
    pub closed spec fn spec_cause(self) -> Error {
        self.cause
    }

    /// The engine's complaint.
    pub fn cause(&self) -> (cause: &Error)
        ensures
            *cause == self.spec_cause(),
    {
        &self.cause
    }
}

/// What compiling `pattern` under a dialect comes to, with case folded or
/// not: the engine is given the dialect's own syntax and the one option.
pub open spec fn compile_outcome(
    regex_type: RegexType,
    pattern: Seq<char>,
    ignore_case: bool,
) -> Result<Regex, Error> {
    onig_compile(pattern, onig_case_option(ignore_case), onig_syntax(regex_type))
}

/// Whether a search found a stretch of the text that the expression matches.
/// A search that the engine gave up counts as finding none.
pub open spec fn search_hit(outcome: Result<Option<usize>, Error>) -> bool {
    outcome matches Ok(Some(_))
}

/// A compiled pattern with the dialect and the case setting that it was
/// compiled under. None of the three changes after construction.
#[derive(Debug)]
pub struct RegexMatcher {
    regex: Regex,
    regex_type: RegexType,
    ignore_case: bool,
}

impl RegexMatcher {
    /// The compiled expression.
    pub closed spec fn spec_regex(self) -> Regex {
        self.regex
    }

    /// The dialect under which the pattern was compiled.
    pub closed spec fn spec_regex_type(self) -> RegexType {
        self.regex_type
    }

    /// Whether case is folded.
    pub closed spec fn spec_ignore_case(self) -> bool {
        self.ignore_case
    }

    /// Whether some stretch of `path` matches the pattern.
    pub open spec fn accepts(self, path: Seq<char>) -> bool {
        search_hit(onig_search(self.spec_regex(), path))
    }

    /// The engine's syntax for a dialect.
    pub fn syntax_for(regex_type: RegexType) -> (syntax: &'static Syntax)
        ensures
            *syntax == onig_syntax(regex_type),
    {
        match regex_type {
            RegexType::Emacs => Syntax::emacs(),
            RegexType::Grep => Syntax::grep(),
            RegexType::PosixBasic => Syntax::posix_basic(),
            RegexType::PosixExtended => Syntax::posix_extended(),
        }
    }

    /// Wraps what the engine made of a pattern: a matcher around the
    /// compiled expression, or the engine's complaint. The dialect and the
    /// case setting are those that the caller says the pattern was compiled
    /// under; they are kept as given.
    pub fn from_compiled(
        regex_type: RegexType,
        ignore_case: bool,
        compiled: Result<Regex, Error>,
    ) -> (r: Result<RegexMatcher, RegexCompileError>)
        ensures
            match compiled {
                Ok(regex) => r matches Ok(m) && m.spec_regex() == regex && m.spec_regex_type()
                    == regex_type && m.spec_ignore_case() == ignore_case,
                Err(cause) => r matches Err(e) && e.spec_cause() == cause,
            },
    {
        match compiled {
            Ok(regex) => Ok(RegexMatcher { regex, regex_type, ignore_case }),
            Err(cause) => Err(RegexCompileError { cause }),
        }
    }

    /// Compiles `pattern` under a dialect, with case folded or not.
    pub fn new(regex_type: RegexType, pattern: &str, ignore_case: bool) -> (r: Result<
        RegexMatcher,
        RegexCompileError,
    >)
        ensures
            match compile_outcome(regex_type, pattern@, ignore_case) {
                Ok(regex) => r matches Ok(m) && m.spec_regex() == regex && m.spec_regex_type()
                    == regex_type && m.spec_ignore_case() == ignore_case,
                Err(cause) => r matches Err(e) && e.spec_cause() == cause,
            },
    {
        let syntax = RegexMatcher::syntax_for(regex_type);
        let option = if ignore_case {
            option_ignorecase()
        } else {
            option_none()
        };
        let compiled = Regex::with_options(pattern, option, syntax);
        RegexMatcher::from_compiled(regex_type, ignore_case, compiled)
    }

    /// The dialect under which the pattern was compiled.
    pub fn regex_type(&self) -> (r: RegexType)
        ensures
            r == self.spec_regex_type(),
    {
        self.regex_type
    }

    /// Whether case is folded.
    pub fn ignore_case(&self) -> (r: bool)
        ensures
            r == self.spec_ignore_case(),
    {
        self.ignore_case
    }

    /// Reads the outcome of a search: `true` where the engine found a
    /// stretch that matches.
    pub fn found(outcome: Result<Option<usize>, Error>) -> (r: bool)
        ensures
            r == search_hit(outcome),
    {
        match outcome {
            Ok(Some(_)) => true,
            _ => false,
        }
    }

    /// Whether some stretch of `path` matches the pattern. The path is taken
    /// as it is given.
    pub fn matches_path(&self, path: &str) -> (r: bool)
        ensures
            r == self.accepts(path@),
    {
        RegexMatcher::found(search(&self.regex, path))
    }
}

impl<Io> Matcher<Io> for RegexMatcher {
    /// Whether some stretch of the entry's full path matches the pattern.
    /// The shared state is left as it was.
    fn matches(&self, file_info: &DirEntry, matcher_io: &mut Io) -> (r: bool)
        ensures
            r == self.accepts(entry_path(*file_info)),
            *final(matcher_io) == *old(matcher_io),
    {
        let path = path_text(file_info);
        self.matches_path(path.as_str())
    }
}

} // verus!
