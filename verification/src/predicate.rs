//! The shape that every test on a directory entry has.

use vstd::prelude::*;
use walkdir::DirEntry;

verus! {

/// A test on the entries of a directory walk. `Io` is the state that the
/// tests of one expression share; a test may use it, and may change it.
pub trait Matcher<Io> {
    /// Whether the entry passes the test.
    fn matches(&self, file_info: &DirEntry, matcher_io: &mut Io) -> bool;
}

} // verus!
