//! A test on file paths by regular expression, in one of four named
//! dialects.
//!
//! - `dialect`: the dialects, their names, and the complaint about a text
//!   that names none.
//! - `matcher`: a pattern compiled once under a dialect, and its answers
//!   about paths.
//! - `predicate`: the shape that every test on a directory entry has.
//! - `engine`, `entry`: what is taken from the regular-expression engine
//!   and from the directory walker, without proof.
//! - `laws`: what holds of the above, proved.
//! - `text`: comparison of string slices.

pub mod dialect;
pub mod engine;
pub mod entry;
pub mod laws;
pub mod matcher;
pub mod predicate;
pub mod text;
