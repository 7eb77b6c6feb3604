//! Paths to directories.

use vstd::prelude::*;
use crate::abs::{PathAbs, abs_outcome};
use crate::arc::PathArc;
use crate::entry::PathEntry;
use crate::lexical::joined;
use crate::ty::{EntryType, classify_entry};
use crate::error::{
    Action, Done, Error, FileKind, IoFailure, Outcome, Probe, Resolved, change_outcome, outcome,
    refine_outcome, seen,
};

verus! {

/// An absolute path that was a directory when it was made.
#[derive(Debug, PartialEq, Eq, Hash, PartialOrd, Ord)]
pub struct PathDir(PathAbs);

impl View for PathDir {
    type V = Seq<u8>;

    closed spec fn view(&self) -> Seq<u8> {
        self.0@
    }
}

impl Clone for PathDir {
    fn clone(&self) -> (r: Self)
        ensures
            r@ == self@,
    {
        PathDir(self.0.clone())
    }
}

/// What comes of making a directory path of `s`, where `resolved` is what the
/// operating system answered when asked to canonicalize `s`, and `meta` what
/// it answered when asked for the metadata of the canonical path.
pub open spec fn dir_outcome(s: Seq<u8>, resolved: Result<Seq<u8>, IoFailure>, meta: Probe) -> Outcome<
    Seq<u8>,
> {
    match abs_outcome(s, resolved) {
        Outcome::Made(canonical) => refine_outcome(FileKind::Dir, canonical, meta, Action::Metadata),
        failed => failed,
    }
}

/// What comes of renaming the directory at `from` to `to`, where `renamed` is
/// what the operating system answered to the rename, and `resolved` and
/// `meta` are its answers for `to` after that.
pub open spec fn dir_rename_outcome(
    from: Seq<u8>,
    to: Seq<u8>,
    renamed: Done,
    resolved: Result<Seq<u8>, IoFailure>,
    meta: Probe,
) -> Outcome<Seq<u8>> {
    match renamed {
        Err(io) => Outcome::Failed { io, action: Action::Renaming, path: from },
        Ok(_) => dir_outcome(to, resolved, meta),
    }
}

impl PathDir {
    /// The directory at `path`. `resolved` is what the operating system answered
    /// when asked to canonicalize `path`, `meta` what it answered when asked
    /// for the metadata of the canonical path.
    pub fn new(path: &[u8], resolved: Resolved, meta: Probe) -> (r: Result<PathDir, Error>)
        ensures
            outcome(r) == dir_outcome(path@, seen(resolved), meta),
    {
        match PathAbs::new(path, resolved) {
            Ok(abs) => PathDir::from_abs(abs, meta),
            Err(e) => Err(e),
        }
    }

    /// Narrows an absolute path to a directory. `meta` is what the operating
    /// system answered when asked for the metadata of `abs`.
    pub fn from_abs(abs: PathAbs, meta: Probe) -> (r: Result<PathDir, Error>)
        ensures
            outcome(r) == refine_outcome(FileKind::Dir, abs@, meta, Action::Metadata),
    {
        match meta {
            Err(io) => Err(Error::new(io, Action::Metadata, abs.into_arc())),
            Ok(FileKind::Dir) => Ok(PathDir(abs)),
            Ok(_) => Err(Error::invalid_input(abs.into_arc())),
        }
    }

    /// Takes the caller's word that `abs` is a directory.
    pub fn from_abs_unchecked(abs: PathAbs) -> (r: PathDir)
        ensures
            r@ == abs@,
    {
        PathDir(abs)
    }

    /// Narrows an entry to a directory. `probe` is what the operating system
    /// answered when asked for the metadata of the entry itself, a link not
    /// followed. An entry that is a directory is no link, so its path is
    /// canonical.
    pub fn from_entry_strict(entry: PathEntry, probe: Probe) -> (r: Result<PathDir, Error>)
        ensures
            outcome(r) == refine_outcome(FileKind::Dir, entry@, probe, Action::SymlinkMetadata),
    {
        match probe {
            Err(io) => Err(Error::new(io, Action::SymlinkMetadata, entry.into_arc())),
            Ok(FileKind::Dir) => Ok(PathDir(PathAbs::from_arc_unchecked(entry.into_arc()))),
            Ok(_) => Err(Error::invalid_input(entry.into_arc())),
        }
    }

    /// The directory after it was renamed to `to`. `renamed` is what the
    /// operating system answered to the rename; `resolved` and `meta` are
    /// its answers for `to` after that, and count only where the rename
    /// succeeded.
    pub fn rename(self, to: &[u8], renamed: Done, resolved: Resolved, meta: Probe) -> (r: Result<
        PathDir,
        Error,
    >)
        ensures
            outcome(r) == dir_rename_outcome(self@, to@, renamed, seen(resolved), meta),
    {
        match renamed {
            Err(io) => Err(Error::new(io, Action::Renaming, self.into_arc())),
            Ok(_) => PathDir::new(to, resolved, meta),
        }
    }

    /// The end of a directory that was removed. `removed` is what the operating
    /// system answered to the removal.
    pub fn remove(self, removed: Done) -> (r: Result<(), Error>)
        ensures
            outcome(r) == change_outcome(self@, removed, Action::Removing),
    {
        match removed {
            Ok(_) => Ok(()),
            Err(io) => Err(Error::new(io, Action::Removing, self.into_arc())),
        }
    }

    /// What the directory holds under `name`, classified. `probe` is what
    /// the operating system answered when asked for the metadata of that
    /// entry itself, a link not followed. A listing gives the names that a
    /// directory holds: the entry is taken to stand in this directory.
    pub fn list_entry(&self, name: &[u8], probe: Probe) -> (r: Result<EntryType, Error>)
        ensures
            outcome(r) == classify_entry(joined(self@, name@), probe),
    {
        let entry = PathEntry::from_arc_unchecked(self.0.as_arc().join(name));
        EntryType::from_entry(entry, probe)
    }

    /// A directory path for tests. Nothing of it is checked.
    pub fn mock(fake_path: &[u8]) -> (r: PathDir)
        ensures
            r@ == fake_path@,
    {
        PathDir(PathAbs::mock(fake_path))
    }

    /// The text of the path.
    pub fn as_path(&self) -> (r: &[u8])
        ensures
            r@ == self@,
    {
        self.0.as_path()
    }

    /// The path as an absolute path.
    pub fn as_abs(&self) -> (r: &PathAbs)
        ensures
            r@ == self@,
    {
        &self.0
    }

    /// Gives up the knowledge that this is a directory.
    pub fn into_abs(self) -> (r: PathAbs)
        ensures
            r@ == self@,
    {
        self.0
    }

    /// Gives up every guarantee.
    pub fn into_arc(self) -> (r: PathArc)
        ensures
            r@ == self@,
    {
        self.0.into_arc()
    }
}

} // verus!
