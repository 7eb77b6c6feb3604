//! Paths to symbolic links.

use vstd::prelude::*;
use crate::arc::{PathArc, with_file_name_text};
use crate::entry::{PathEntry, entry_outcome};
use crate::error::{
    Action, Done, Error, FileKind, IoFailure, Outcome, Probe, Resolved, change_outcome, outcome,
    refine_outcome, seen,
};

verus! {

/// An entry that was a symbolic link when it was made.
#[derive(Debug, PartialEq, Eq, Hash, PartialOrd, Ord)]
pub struct PathSymlink(PathEntry);

impl View for PathSymlink {
    type V = Seq<u8>;

    closed spec fn view(&self) -> Seq<u8> {
        self.0@
    }
}

impl Clone for PathSymlink {
    fn clone(&self) -> (r: Self)
        ensures
            r@ == self@,
    {
        PathSymlink(self.0.clone())
    }
}

/// What comes of making a link path of `s`, where `resolved` and `probe`
/// are the answers that `entry_outcome` takes: the entry, where it is a
/// link.
pub open spec fn symlink_outcome(s: Seq<u8>, resolved: Result<Seq<u8>, IoFailure>, probe: Probe) -> Outcome<
    Seq<u8>,
> {
    match entry_outcome(s, resolved, probe) {
        Outcome::Made(path) => refine_outcome(
            FileKind::Symlink,
            path,
            probe,
            Action::SymlinkMetadata,
        ),
        failed => failed,
    }
}

/// What comes of reading where the link at `s` points, where `link` is what
/// the operating system answered when asked to read the link: a target that
/// does not start at the root is taken from the directory that holds the
/// link.
pub open spec fn target_outcome(s: Seq<u8>, link: Result<Seq<u8>, IoFailure>) -> Outcome<Seq<u8>> {
    match link {
        Ok(raw) => Outcome::Made(with_file_name_text(s, raw)),
        Err(io) => Outcome::Failed { io, action: Action::ReadLink, path: s },
    }
}

/// What comes of following the link at `s` one step, where `link` is what
/// the operating system answered when asked to read the link, and
/// `resolved` and `probe` are the answers that `entry_outcome` takes for
/// the target.
pub open spec fn follow_outcome(
    s: Seq<u8>,
    link: Result<Seq<u8>, IoFailure>,
    resolved: Result<Seq<u8>, IoFailure>,
    probe: Probe,
) -> Outcome<Seq<u8>> {
    match target_outcome(s, link) {
        Outcome::Made(target) => entry_outcome(target, resolved, probe),
        failed => failed,
    }
}

/// What comes of renaming the link at `from` to `to`, where `renamed` is
/// what the operating system answered to the rename, and `resolved` and
/// `probe` are its answers for `to` after that.
pub open spec fn symlink_rename_outcome(
    from: Seq<u8>,
    to: Seq<u8>,
    renamed: Done,
    resolved: Result<Seq<u8>, IoFailure>,
    probe: Probe,
) -> Outcome<Seq<u8>> {
    match renamed {
        Err(io) => Outcome::Failed { io, action: Action::Renaming, path: from },
        Ok(_) => symlink_outcome(to, resolved, probe),
    }
}

impl PathSymlink {
    /// The link at `path`. `resolved` and `probe` are the answers that
    /// [`PathEntry::new`] takes.
    pub fn new(path: &[u8], resolved: Resolved, probe: Probe) -> (r: Result<PathSymlink, Error>)
        ensures
            outcome(r) == symlink_outcome(path@, seen(resolved), probe),
    {
        match PathEntry::new(path, resolved, probe) {
            Ok(entry) => PathSymlink::from_entry(entry, probe),
            Err(e) => Err(e),
        }
    }

    /// Narrows an entry to a link. `probe` is what the operating system
    /// answered when asked for the metadata of the entry itself, a link not
    /// followed. The path is taken as it is.
    pub fn from_entry(entry: PathEntry, probe: Probe) -> (r: Result<PathSymlink, Error>)
        ensures
            outcome(r) == refine_outcome(FileKind::Symlink, entry@, probe, Action::SymlinkMetadata),
    {
        match probe {
            Err(io) => Err(Error::new(io, Action::SymlinkMetadata, entry.into_arc())),
            Ok(FileKind::Symlink) => Ok(PathSymlink::from_entry_unchecked(entry)),
            Ok(_) => Err(Error::invalid_input(entry.into_arc())),
        }
    }

    /// Takes the caller's word that `entry` is a link.
    pub fn from_entry_unchecked(entry: PathEntry) -> (r: PathSymlink)
        ensures
            r@ == entry@,
    {
        PathSymlink(entry)
    }

    /// Where the link points. `link` is what the operating system answered
    /// when asked to read the link. A target that does not start at the
    /// root is taken from the directory that holds the link.
    pub fn target(&self, link: Resolved) -> (r: Result<PathArc, Error>)
        ensures
            outcome(r) == target_outcome(self@, seen(link)),
    {
        match link {
            Ok(raw) => Ok(self.0.as_arc().with_file_name(raw.as_path())),
            Err(io) => Err(Error::new(io, Action::ReadLink, self.0.as_arc().clone())),
        }
    }

    /// The entry that the link points to, which may be a link again. `link`
    /// is what the operating system answered when asked to read the link;
    /// `resolved` and `probe` are the answers that [`PathEntry::new`] takes
    /// for the target.
    pub fn follow(&self, link: Resolved, resolved: Resolved, probe: Probe) -> (r: Result<
        PathEntry,
        Error,
    >)
        ensures
            outcome(r) == follow_outcome(self@, seen(link), seen(resolved), probe),
    {
        match self.target(link) {
            Ok(target) => PathEntry::new(target.as_path(), resolved, probe),
            Err(e) => Err(e),
        }
    }

    /// The link after it was renamed to `to`. `renamed` is what the
    /// operating system answered to the rename; `resolved` and `probe` are
    /// its answers for `to` after that, as [`Self::new`] takes them, and
    /// count only where the rename succeeded.
    pub fn rename(self, to: &[u8], renamed: Done, resolved: Resolved, probe: Probe) -> (r: Result<
        PathSymlink,
        Error,
    >)
        ensures
            outcome(r) == symlink_rename_outcome(self@, to@, renamed, seen(resolved), probe),
    {
        match renamed {
            Err(io) => Err(Error::new(io, Action::Renaming, self.into_arc())),
            Ok(_) => PathSymlink::new(to, resolved, probe),
        }
    }

    /// The end of a link that was removed. `removed` is what the operating
    /// system answered to the removal.
    pub fn remove(self, removed: Done) -> (r: Result<(), Error>)
        ensures
            outcome(r) == change_outcome(self@, removed, Action::Removing),
    {
        match removed {
            Ok(_) => Ok(()),
            Err(io) => Err(Error::new(io, Action::Removing, self.into_arc())),
        }
    }

    /// The text of the path.
    pub fn as_path(&self) -> (r: &[u8])
        ensures
            r@ == self@,
    {
        self.0.as_path()
    }

    /// The link as an entry.
    pub fn as_entry(&self) -> (r: &PathEntry)
        ensures
            r@ == self@,
    {
        &self.0
    }

    /// Gives up the knowledge that this is a link.
    pub fn into_entry(self) -> (r: PathEntry)
        ensures
            r@ == self@,
    {
        self.0
    }

    /// Gives up every guarantee.
    pub fn into_arc(self) -> (r: PathArc)
        ensures
            r@ == self@,
    {
        self.0.into_arc()
    }

    /// A link path for tests. Nothing of it is checked.
    pub fn mock(path: &[u8]) -> (r: PathSymlink)
        ensures
            r@ == path@,
    {
        PathSymlink(PathEntry::mock(path))
    }
}

} // verus!
