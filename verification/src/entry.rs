//! Directory entries: paths with a canonical parent, naming something that
//! existed, which may be a link.

use vstd::prelude::*;
use crate::abs::PathAbs;
use crate::arc::{PathArc, parent_text};
use crate::dir::PathDir;
use crate::error::{
    Action, Done, Error, FileKind, IoFailure, Outcome, Probe, Resolved, outcome, refine_outcome,
    seen,
};
use crate::file::PathFile;
use crate::lexical::joined;
use crate::resolve::{canonicalize_parent, parent_outcome};
use crate::symlink::{PathSymlink, symlink_outcome};

verus! {

/// A path whose parent was canonical, and which named an existing entry,
/// when it was made. The last component is not resolved: the entry may be a
/// symbolic link.
#[derive(Debug, PartialEq, Eq, Hash, PartialOrd, Ord)]
pub struct PathEntry(PathArc);

impl View for PathEntry {
    type V = Seq<u8>;

    closed spec fn view(&self) -> Seq<u8> {
        self.0@
    }
}

impl Clone for PathEntry {
    fn clone(&self) -> (r: Self)
        ensures
            r@ == self@,
    {
        PathEntry(self.0.clone())
    }
}

/// What comes of making an entry of `s`, where `resolved` is what the
/// operating system answered when asked to canonicalize
/// `canonicalize_target_text(s)`, and `probe` what it answered when asked
/// for the metadata of the resulting path, a link not followed: that path
/// where something is there.
pub open spec fn entry_outcome(s: Seq<u8>, resolved: Result<Seq<u8>, IoFailure>, probe: Probe) -> Outcome<
    Seq<u8>,
> {
    match parent_outcome(s, resolved) {
        Outcome::Made(path) => match probe {
            Ok(_) => Outcome::Made(path),
            Err(io) => Outcome::Failed { io, action: Action::SymlinkMetadata, path },
        },
        failed => failed,
    }
}

/// What comes of renaming the entry at `from` to `to`, where `renamed` is
/// what the operating system answered to the rename, and `resolved` and
/// `probe` are its answers for `to` after that: the new place must be a
/// link.
pub open spec fn entry_rename_outcome(
    from: Seq<u8>,
    to: Seq<u8>,
    renamed: Done,
    resolved: Result<Seq<u8>, IoFailure>,
    probe: Probe,
) -> Outcome<Seq<u8>> {
    match renamed {
        Err(io) => Outcome::Failed { io, action: Action::Renaming, path: from },
        Ok(_) => symlink_outcome(to, resolved, probe),
    }
}

impl PathEntry {
    /// The entry at `path`. `resolved` is what the operating system
    /// answered when asked to canonicalize `canonicalize_target(path)`;
    /// `probe` is what it answered when asked for the metadata of the path
    /// that `canonicalize_parent` gives, a link not followed.
    pub fn new(path: &[u8], resolved: Resolved, probe: Probe) -> (r: Result<PathEntry, Error>)
        ensures
            outcome(r) == entry_outcome(path@, seen(resolved), probe),
    {
        match canonicalize_parent(path, resolved) {
            Err(e) => Err(e),
            Ok(found) => match probe {
                Ok(_) => Ok(PathEntry(found)),
                Err(io) => Err(Error::new(io, Action::SymlinkMetadata, found)),
            },
        }
    }

    /// The entry at this path extended by `path`, checked as [`Self::new`]
    /// checks the joined path.
    pub fn entry_join(&self, path: &[u8], resolved: Resolved, probe: Probe) -> (r: Result<
        PathEntry,
        Error,
    >)
        ensures
            outcome(r) == entry_outcome(joined(self@, path@), seen(resolved), probe),
    {
        let whole = self.0.join(path);
        PathEntry::new(whole.as_path(), resolved, probe)
    }

    /// Narrows the entry to a file. `probe` is what the operating system
    /// answered when asked for the metadata of the entry itself.
    pub fn into_file_strict(self, probe: Probe) -> (r: Result<PathFile, Error>)
        ensures
            outcome(r) == refine_outcome(FileKind::File, self@, probe, Action::SymlinkMetadata),
    {
        PathFile::from_entry_strict(self, probe)
    }

    /// Narrows the entry to a directory. `probe` is what the operating
    /// system answered when asked for the metadata of the entry itself.
    pub fn into_dir_strict(self, probe: Probe) -> (r: Result<PathDir, Error>)
        ensures
            outcome(r) == refine_outcome(FileKind::Dir, self@, probe, Action::SymlinkMetadata),
    {
        PathDir::from_entry_strict(self, probe)
    }

    /// Narrows the entry to a link. `probe` is what the operating system
    /// answered when asked for the metadata of the entry itself.
    pub fn into_symlink(self, probe: Probe) -> (r: Result<PathSymlink, Error>)
        ensures
            outcome(r) == refine_outcome(FileKind::Symlink, self@, probe, Action::SymlinkMetadata),
    {
        PathSymlink::from_entry(self, probe)
    }

    /// The directory that holds the entry. Nothing is asked of the
    /// operating system: the parent of an entry is a canonical directory.
    pub fn parent_dir(&self) -> (r: Option<PathDir>)
        ensures
            match r {
                Some(dir) => parent_text(self@) == Some(dir@),
                None => parent_text(self@) is None,
            },
    {
        match self.0.parent() {
            Some(p) => Some(PathDir::from_abs_unchecked(PathAbs::from_arc_unchecked(p))),
            None => None,
        }
    }

    /// The entry after it was renamed to `to`, which must then be a link.
    /// `renamed` is what the operating system answered to the rename;
    /// `resolved` and `probe` are its answers for `to` after that, as
    /// [`PathSymlink::new`] takes them, and count only where the rename
    /// succeeded.
    pub fn rename(self, to: &[u8], renamed: Done, resolved: Resolved, probe: Probe) -> (r: Result<
        PathSymlink,
        Error,
    >)
        ensures
            outcome(r) == entry_rename_outcome(self@, to@, renamed, seen(resolved), probe),
    {
        match renamed {
            Err(io) => Err(Error::new(io, Action::Renaming, self.0)),
            Ok(_) => PathSymlink::new(to, resolved, probe),
        }
    }

    /// Takes the caller's word that `path` is an entry.
    pub fn from_arc_unchecked(path: PathArc) -> (r: PathEntry)
        ensures
            r@ == path@,
    {
        PathEntry(path)
    }

    /// The text of the path.
    pub fn as_path(&self) -> (r: &[u8])
        ensures
            r@ == self@,
    {
        self.0.as_path()
    }

    /// The path without its guarantee.
    pub fn as_arc(&self) -> (r: &PathArc)
        ensures
            r@ == self@,
    {
        &self.0
    }

    /// Gives up the guarantee.
    pub fn into_arc(self) -> (r: PathArc)
        ensures
            r@ == self@,
    {
        self.0
    }

    /// An entry for tests. Nothing of it is checked: it need not exist, nor
    /// be canonical in any way.
    pub fn mock(fake_path: &[u8]) -> (r: PathEntry)
        ensures
            r@ == fake_path@,
    {
        PathEntry(PathArc::new(fake_path))
    }
}

} // verus!
