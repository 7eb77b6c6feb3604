//! Absolute paths: paths that the operating system canonicalized whole.

use vstd::prelude::*;
use crate::arc::PathArc;
use crate::error::{Action, Error, IoFailure, Outcome, Resolved, outcome, seen};

verus! {

/// A path that was canonical when it was made: absolute, without `.` and
/// `..`, with every link resolved, the last component too, and naming
/// something that existed.
#[derive(Debug, PartialEq, Eq, Hash, PartialOrd, Ord)]
pub struct PathAbs(PathArc);

impl View for PathAbs {
    type V = Seq<u8>;

    closed spec fn view(&self) -> Seq<u8> {
        self.0@
    }
}

impl Clone for PathAbs {
    fn clone(&self) -> (r: Self)
        ensures
            r@ == self@,
    {
        PathAbs(self.0.clone())
    }
}

/// What comes of canonicalizing `s`, where `resolved` is what the operating
/// system answered for `s`.
pub open spec fn abs_outcome(s: Seq<u8>, resolved: Result<Seq<u8>, IoFailure>) -> Outcome<Seq<u8>> {
    match resolved {
        Ok(canonical) => Outcome::Made(canonical),
        Err(io) => Outcome::Failed { io, action: Action::Canonicalizing, path: s },
    }
}

impl PathAbs {
    /// The canonical form of `path`. `resolved` is what the operating
    /// system answered when asked to canonicalize `path`.
    pub fn new(path: &[u8], resolved: Resolved) -> (r: Result<PathAbs, Error>)
        ensures
            outcome(r) == abs_outcome(path@, seen(resolved)),
    {
        match resolved {
            Ok(canonical) => Ok(PathAbs(canonical)),
            Err(io) => Err(Error::new(io, Action::Canonicalizing, PathArc::new(path))),
        }
    }

    /// Takes the caller's word that `path` is canonical.
    pub fn from_arc_unchecked(path: PathArc) -> (r: PathAbs)
        ensures
            r@ == path@,
    {
        PathAbs(path)
    }

    /// A path for tests. Nothing of it is checked: it need not exist, nor
    /// be absolute.
    pub fn mock(fake_path: &[u8]) -> (r: PathAbs)
        ensures
            r@ == fake_path@,
    {
        PathAbs(PathArc::new(fake_path))
    }

    /// The text of the path.
    pub fn as_path(&self) -> (r: &[u8])
        ensures
            r@ == self@,
    {
        self.0.as_path()
    }

    /// The path without its guarantee.
    pub fn as_arc(&self) -> (r: &PathArc)
        ensures
            r@ == self@,
    {
        &self.0
    }

    /// Gives up the guarantee.
    pub fn into_arc(self) -> (r: PathArc)
        ensures
            r@ == self@,
    {
        self.0
    }

    /// Whether both paths have the same text.
    pub fn same(&self, other: &PathAbs) -> (r: bool)
        ensures
            r == (self@ == other@),
    {
        self.0.same(&other.0)
    }
}

} // verus!
