//! The entries of a directory walk, as far as this library reads them.
//!
//! Nothing in this file is proved: each item states what the walker's entry
//! is taken to hold.

use vstd::prelude::*;
use walkdir::DirEntry;

verus! {

/// `walkdir::DirEntry`, one file or directory met on a walk.
#[verifier::external_type_specification]
#[verifier::external_body]
pub struct ExDirEntry(DirEntry);

/// The path that an entry holds (`DirEntry::path`), read as text: a stretch
/// of it that is not valid Unicode comes out as U+FFFD.
pub uninterp spec fn entry_path(entry: DirEntry) -> Seq<char>;

/// `DirEntry::path`, turned into text by `Path::to_string_lossy`. The entry
/// holds its path, so the text depends on the entry alone; nothing is read
/// from the file system.
#[verifier::external_body]
pub(crate) fn path_text(entry: &DirEntry) -> (path: String)
    ensures
        path@ == entry_path(*entry),
{
    entry.path().to_string_lossy().into_owned()
}

} // verus!
