//! The closed set of regular-expression dialects and their textual names.

use vstd::prelude::*;
use vstd::string::StringExecFns;
use crate::text::str_eq;

verus! {

/// A regular-expression dialect.
#[derive(Debug, Clone, Copy, PartialEq, Eq, Structural)]
pub enum RegexType {
    Emacs,
    Grep,
    PosixBasic,
    PosixExtended,
}

impl RegexType {
    /// Every dialect, in the order in which they are listed to the user.
    pub const VALUES: [RegexType; 4] = [
        RegexType::Emacs,
        RegexType::Grep,
        RegexType::PosixBasic,
        RegexType::PosixExtended,
    ];

    /// The dialect that stands where none was chosen.
    pub open spec fn spec_default() -> RegexType {
        RegexType::Emacs
    }

    /// The canonical name of a dialect, as a sequence of characters.
    pub open spec fn spec_name(self) -> Seq<char> {
        match self {
            RegexType::Emacs => "emacs"@,
            RegexType::Grep => "grep"@,
            RegexType::PosixBasic => "posix-basic"@,
            RegexType::PosixExtended => "posix-extended"@,
        }
    }

    /// The dialect that a text names, if it names one.
    pub open spec fn spec_from_str(s: Seq<char>) -> Option<RegexType> {
        if s == RegexType::Emacs.spec_name() {
            Some(RegexType::Emacs)
        } else if s == RegexType::Grep.spec_name() {
            Some(RegexType::Grep)
        } else if s == RegexType::PosixBasic.spec_name() {
            Some(RegexType::PosixBasic)
        } else if s == RegexType::PosixExtended.spec_name() {
            Some(RegexType::PosixExtended)
        } else {
            None
        }
    }

    /// The canonical name of the dialect.
    pub fn name(&self) -> (r: &'static str)
        ensures
            r@ == self.spec_name(),
    {
        match self {
            RegexType::Emacs => "emacs",
            RegexType::Grep => "grep",
            RegexType::PosixBasic => "posix-basic",
            RegexType::PosixExtended => "posix-extended",
        }
    }

    /// The canonical name of the dialect, as an owned string.
    pub fn to_string(&self) -> (r: String)
        ensures
            r@ == self.spec_name(),
    {
        String::from_str(self.name())
    }
}

impl std::str::FromStr for RegexType {
    type Err = ParseRegexTypeError;

    /// Reads a dialect from its canonical name. Any other text is handed
    /// back in the error.
    fn from_str(s: &str) -> (r: Result<RegexType, ParseRegexTypeError>)
        ensures
            match r {
                Ok(regex_type) => RegexType::spec_from_str(s@) == Some(regex_type),
                Err(e) => RegexType::spec_from_str(s@) is None && e@ == s@,
            },
    {
        if str_eq(s, "emacs") {
            Ok(RegexType::Emacs)
        } else if str_eq(s, "grep") {
            Ok(RegexType::Grep)
        } else if str_eq(s, "posix-basic") {
            Ok(RegexType::PosixBasic)
        } else if str_eq(s, "posix-extended") {
            Ok(RegexType::PosixExtended)
        } else {
            Err(ParseRegexTypeError(s.to_owned()))
        }
    }
}

impl Default for RegexType {
    fn default() -> (r: RegexType)
        ensures
            r == RegexType::spec_default(),
    {
        RegexType::Emacs
    }
}

/// A text that was offered as a dialect's name and is none.
#[derive(Debug)]
pub struct ParseRegexTypeError(String);

impl View for ParseRegexTypeError {
    type V = Seq<char>;

    /// The text that was rejected.
    closed spec fn view(&self) -> Seq<char> {
        self.0@
    }
}

/// A dialect's name between single quotes.
pub open spec fn quoted(regex_type: RegexType) -> Seq<char> {
    "'"@ + regex_type.spec_name() + "'"@
}

/// The quoted names of `values`, in order, with a comma and a space
/// between neighbours.
pub open spec fn listing(values: Seq<RegexType>) -> Seq<char>
    decreases values.len(),
{
    if values.len() == 0 {
        Seq::empty()
    } else if values.len() == 1 {
        quoted(values[0])
    } else {
        listing(values.drop_last()) + ", "@ + quoted(values.last())
    }
}

/// The complaint about a rejected text: the text itself, then the name of
/// every dialect.
pub open spec fn rejection_message(input: Seq<char>) -> Seq<char> {
    "Invalid regex type: "@ + input + " (must be one of "@ + listing(RegexType::VALUES@) + ")"@
}

impl ParseRegexTypeError {
    /// The text that was rejected.
    pub fn input(&self) -> (r: &str)
        ensures
            r@ == self@,
    {
        self.0.as_str()
    }

    /// The complaint, which names every dialect.
    pub fn to_string(&self) -> (r: String)
        ensures
            r@ == rejection_message(self@),
    {
        let all = RegexType::VALUES;
        let mut list = String::new();
        let mut i: usize = 0;
        while i < all.len()
            invariant
                i <= all.len(),
                list@ == listing(all@.take(i as int)),
            decreases all.len() - i,
        {
            if i > 0 {
                list.append(", ");
            }
            list.append("'");
            list.append(all[i].name());
            list.append("'");
            assert(all@.take(i + 1).drop_last() =~= all@.take(i as int));
            i += 1;
        }
        assert(all@.take(all@.len() as int) =~= all@);
        let mut message = String::from_str("Invalid regex type: ");
        message.append(self.0.as_str());
        message.append(" (must be one of ");
        message.append(list.as_str());
        message.append(")");
        message
    }
}

} // verus!
