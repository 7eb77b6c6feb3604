//! Paths to regular files.

use vstd::prelude::*;
use crate::abs::{PathAbs, abs_outcome};
use crate::arc::PathArc;
use crate::entry::PathEntry;
use crate::error::{
    Action, Done, Error, FileKind, IoFailure, Outcome, Probe, Resolved, change_outcome, outcome,
    refine_outcome, seen,
};

verus! {

/// An absolute path that was a regular file when it was made.
#[derive(Debug, PartialEq, Eq, Hash, PartialOrd, Ord)]
pub struct PathFile(PathAbs);

impl View for PathFile {
    type V = Seq<u8>;

    closed spec fn view(&self) -> Seq<u8> {
        self.0@
    }
}

impl Clone for PathFile {
    fn clone(&self) -> (r: Self)
        ensures
            r@ == self@,
    {
        PathFile(self.0.clone())
    }
}

/// What comes of making a file path of `s`, where `resolved` is what the
/// operating system answered when asked to canonicalize `s`, and `meta` what
/// it answered when asked for the metadata of the canonical path.
pub open spec fn file_outcome(s: Seq<u8>, resolved: Result<Seq<u8>, IoFailure>, meta: Probe) -> Outcome<
    Seq<u8>,
> {
    match abs_outcome(s, resolved) {
        Outcome::Made(canonical) => refine_outcome(FileKind::File, canonical, meta, Action::Metadata),
        failed => failed,
    }
}

/// What comes of renaming the file at `from` to `to`, where `renamed` is
/// what the operating system answered to the rename, and `resolved` and
/// `meta` are its answers for `to` after that.
pub open spec fn file_rename_outcome(
    from: Seq<u8>,
    to: Seq<u8>,
    renamed: Done,
    resolved: Result<Seq<u8>, IoFailure>,
    meta: Probe,
) -> Outcome<Seq<u8>> {
    match renamed {
        Err(io) => Outcome::Failed { io, action: Action::Renaming, path: from },
        Ok(_) => file_outcome(to, resolved, meta),
    }
}

impl PathFile {
    /// The file at `path`. `resolved` is what the operating system answered
    /// when asked to canonicalize `path`, `meta` what it answered when asked
    /// for the metadata of the canonical path.
    pub fn new(path: &[u8], resolved: Resolved, meta: Probe) -> (r: Result<PathFile, Error>)
        ensures
            outcome(r) == file_outcome(path@, seen(resolved), meta),
    {
        match PathAbs::new(path, resolved) {
            Ok(abs) => PathFile::from_abs(abs, meta),
            Err(e) => Err(e),
        }
    }

    /// Narrows an absolute path to a file. `meta` is what the operating
    /// system answered when asked for the metadata of `abs`.
    pub fn from_abs(abs: PathAbs, meta: Probe) -> (r: Result<PathFile, Error>)
        ensures
            outcome(r) == refine_outcome(FileKind::File, abs@, meta, Action::Metadata),
    {
        match meta {
            Err(io) => Err(Error::new(io, Action::Metadata, abs.into_arc())),
            Ok(FileKind::File) => Ok(PathFile(abs)),
            Ok(_) => Err(Error::invalid_input(abs.into_arc())),
        }
    }

    /// Takes the caller's word that `abs` is a file.
    pub fn from_abs_unchecked(abs: PathAbs) -> (r: PathFile)
        ensures
            r@ == abs@,
    {
        PathFile(abs)
    }

    /// Narrows an entry to a file. `probe` is what the operating system
    /// answered when asked for the metadata of the entry itself, a link not
    /// followed. An entry that is a file is no link, so its path is
    /// canonical.
    pub fn from_entry_strict(entry: PathEntry, probe: Probe) -> (r: Result<PathFile, Error>)
        ensures
            outcome(r) == refine_outcome(FileKind::File, entry@, probe, Action::SymlinkMetadata),
    {
        match probe {
            Err(io) => Err(Error::new(io, Action::SymlinkMetadata, entry.into_arc())),
            Ok(FileKind::File) => Ok(PathFile(PathAbs::from_arc_unchecked(entry.into_arc()))),
            Ok(_) => Err(Error::invalid_input(entry.into_arc())),
        }
    }

    /// The file after it was renamed to `to`. `renamed` is what the
    /// operating system answered to the rename; `resolved` and `meta` are
    /// its answers for `to` after that, and count only where the rename
    /// succeeded.
    pub fn rename(self, to: &[u8], renamed: Done, resolved: Resolved, meta: Probe) -> (r: Result<
        PathFile,
        Error,
    >)
        ensures
            outcome(r) == file_rename_outcome(self@, to@, renamed, seen(resolved), meta),
    {
        match renamed {
            Err(io) => Err(Error::new(io, Action::Renaming, self.into_arc())),
            Ok(_) => PathFile::new(to, resolved, meta),
        }
    }

    /// The end of a file that was removed. `removed` is what the operating
    /// system answered to the removal.
    pub fn remove(self, removed: Done) -> (r: Result<(), Error>)
        ensures
            outcome(r) == change_outcome(self@, removed, Action::Removing),
    {
        match removed {
            Ok(_) => Ok(()),
            Err(io) => Err(Error::new(io, Action::Removing, self.into_arc())),
        }
    }

    /// A file path for tests. Nothing of it is checked.
    pub fn mock(fake_path: &[u8]) -> (r: PathFile)
        ensures
            r@ == fake_path@,
    {
        PathFile(PathAbs::mock(fake_path))
    }

    /// The text of the path.
    pub fn as_path(&self) -> (r: &[u8])
        ensures
            r@ == self@,
    {
        self.0.as_path()
    }

    /// The path as an absolute path.
    pub fn as_abs(&self) -> (r: &PathAbs)
        ensures
            r@ == self@,
    {
        &self.0
    }

    /// Gives up the knowledge that this is a file.
    pub fn into_abs(self) -> (r: PathAbs)
        ensures
            r@ == self@,
    {
        self.0
    }

    /// Gives up every guarantee.
    pub fn into_arc(self) -> (r: PathArc)
        ensures
            r@ == self@,
    {
        self.0.into_arc()
    }
}

} // verus!
