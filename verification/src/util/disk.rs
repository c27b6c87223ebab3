//! What the program found on disk.
//!
//! The library does not look at the file system. Where a decision depends
//! on what exists, the program looks first and hands over what it found;
//! the decision is then a function of that value.

use crate::util::path::{PartView, PathParts};
use vstd::prelude::*;

verus! {

/// What stands at a path.
#[derive(Clone, Copy, Debug, PartialEq, Eq, Structural)]
pub enum Kind {
    File,
    Dir,
    /// Something that is neither a file nor a directory.
    Other,
}

/// The paths that the program looked at and found something at. A path
/// that is not listed counts as missing; of a path listed twice the first
/// entry counts.
#[derive(Debug)]
pub struct Disk {
    pub entries: Vec<(PathParts, Kind)>,
}

/// What the entries from number `from` on say stands at `path`.
pub open spec fn kind_from(entries: Seq<(PathParts, Kind)>, path: Seq<PartView>, from: int) -> Option<
    Kind,
>
    decreases entries.len() - from,
{
    if from < 0 || from >= entries.len() {
        None
    } else if entries[from].0@ == path {
        Some(entries[from].1)
    } else {
        kind_from(entries, path, from + 1)
    }
}

impl Disk {
    /// What stands at `path`, if anything.
    pub open spec fn kind(&self, path: Seq<PartView>) -> Option<Kind> {
        kind_from(self.entries@, path, 0)
    }

    pub open spec fn file_at(&self, path: Seq<PartView>) -> bool {
        self.kind(path) == Some(Kind::File)
    }

    pub open spec fn dir_at(&self, path: Seq<PartView>) -> bool {
        self.kind(path) == Some(Kind::Dir)
    }

    pub open spec fn something_at(&self, path: Seq<PartView>) -> bool {
        self.kind(path) is Some
    }

    /// A disk on which nothing was found.
    pub fn new() -> (r: Self)
        ensures
            forall|path: Seq<PartView>| r.kind(path) is None,
    {
        Self { entries: Vec::new() }
    }

    /// What stands at `path`.
    pub fn lookup(&self, path: &PathParts) -> (r: Option<Kind>)
        ensures
            r == self.kind(path@),
    {
        let mut i: usize = 0;
        while i < self.entries.len()
            invariant
                i <= self.entries.len(),
                self.kind(path@) == kind_from(self.entries@, path@, i as int),
            decreases self.entries.len() - i,
        {
            if same_path(&self.entries[i].0, path) {
                return Some(self.entries[i].1);
            }
            i += 1;
        }
        None
    }

    /// Whether a file stands at `path` (`Path::is_file`).
    pub fn is_file(&self, path: &PathParts) -> (r: bool)
        ensures
            r == self.file_at(path@),
    {
        match self.lookup(path) {
            Some(Kind::File) => true,
            _ => false,
        }
    }

    /// Whether a directory stands at `path` (`Path::is_dir`).
    pub fn is_dir(&self, path: &PathParts) -> (r: bool)
        ensures
            r == self.dir_at(path@),
    {
        match self.lookup(path) {
            Some(Kind::Dir) => true,
            _ => false,
        }
    }

    /// Whether anything stands at `path` (`Path::exists`).
    pub fn has(&self, path: &PathParts) -> (r: bool)
        ensures
            r == self.something_at(path@),
    {
        self.lookup(path).is_some()
    }
}

/// Whether two paths have the same components.
pub fn same_path(a: &PathParts, b: &PathParts) -> (r: bool)
    ensures
        r == (a@ == b@),
{
    let r = a.len() == b.len() && a.starts_with(b);
    proof {
        if a@.len() == b@.len() {
            assert(a@.take(a@.len() as int) =~= a@);
        }
    }
    r
}

} // verus!
