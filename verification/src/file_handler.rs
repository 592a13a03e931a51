//! The handle to a resolved configuration file.
//!
//! A handle associates a resolved absolute file path with the read and write
//! operations the shell performs on it. It holds no open file descriptor:
//! every read or write opens, locks, operates, unlocks and closes the file
//! anew, so a handle is nothing but the path the search settled on.

use vstd::prelude::*;

verus! {

/// A resolved configuration file: the full path the candidate search chose.
///
/// It is safe to read and write the same file through handles held by
/// several threads or processes at once: every operation the shell performs
/// with a handle takes an advisory file lock (shared for reads, exclusive
/// for writes), so each observes or produces one complete content, never a
/// mix.
#[derive(Debug)]
pub struct FileHandler {
    path: String,
}

impl View for FileHandler {
    type V = Seq<char>;

    closed spec fn view(&self) -> Seq<char> {
        self.path@
    }
}

impl FileHandler {
    /// Wraps an already resolved absolute file path.
    pub fn at_path(path: String) -> (h: FileHandler)
        ensures
            h@ == path@,
    {
        FileHandler { path }
    }

    /// Get the full path to the file.
    pub fn path(&self) -> (p: &String)
        ensures
            p@ == self@,
    {
        &self.path
    }
}

impl Clone for FileHandler {
    fn clone(&self) -> (r: Self)
        ensures
            r@ == self@,
    {
        FileHandler { path: self.path.clone() }
    }
}

} // verus!
