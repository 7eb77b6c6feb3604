//! Paths classified by what they lead to.

use vstd::prelude::*;
use crate::abs::{PathAbs, abs_outcome};
use crate::arc::PathArc;
use crate::dir::PathDir;
use crate::entry::{PathEntry, entry_outcome};
use crate::error::{
    Action, Error, FileKind, IoFailure, Outcome, Probe, Resolved, outcome, seen, wrong_kind,
};
use crate::file::PathFile;
use crate::symlink::PathSymlink;

verus! {

/// The mathematical value of a classified path: its kind and its text.
pub struct Typed {
    pub kind: FileKind,
    pub path: Seq<u8>,
}

/// An absolute path that is known to be a file or a directory. A link is
/// neither: a canonical path never ends in one.
#[derive(Debug, PartialEq, Eq, Hash, PartialOrd, Ord)]
pub enum PathType {
    File(PathFile),
    Dir(PathDir),
}

impl View for PathType {
    type V = Typed;

    open spec fn view(&self) -> Typed {
        match self {
            PathType::File(file) => Typed { kind: FileKind::File, path: file@ },
            PathType::Dir(dir) => Typed { kind: FileKind::Dir, path: dir@ },
        }
    }
}

impl Clone for PathType {
    fn clone(&self) -> (r: Self)
        ensures
            r@ == self@,
    {
        match self {
            PathType::File(file) => PathType::File(file.clone()),
            PathType::Dir(dir) => PathType::Dir(dir.clone()),
        }
    }
}

/// What comes of classifying the absolute path `text`, where `meta` is what
/// the operating system answered when asked for its metadata: a file or a
/// directory, and a failure for anything else.
pub open spec fn classify_abs(text: Seq<u8>, meta: Probe) -> Outcome<Typed> {
    match meta {
        Err(io) => Outcome::Failed { io, action: Action::Metadata, path: text },
        Ok(FileKind::File) => Outcome::Made(Typed { kind: FileKind::File, path: text }),
        Ok(FileKind::Dir) => Outcome::Made(Typed { kind: FileKind::Dir, path: text }),
        Ok(_) => Outcome::Failed { io: wrong_kind(), action: Action::Resolving, path: text },
    }
}

/// What comes of canonicalizing and classifying `s`, where `resolved` is
/// what the operating system answered when asked to canonicalize `s`, and
/// `meta` what it answered when asked for the metadata of the canonical
/// path.
pub open spec fn path_type_outcome(s: Seq<u8>, resolved: Result<Seq<u8>, IoFailure>, meta: Probe) -> Outcome<
    Typed,
> {
    match abs_outcome(s, resolved) {
        Outcome::Made(canonical) => classify_abs(canonical, meta),
        Outcome::Failed { io, action, path } => Outcome::Failed { io, action, path },
    }
}

impl PathType {
    /// Canonicalizes and classifies `path`. `resolved` is what the
    /// operating system answered when asked to canonicalize `path`, `meta`
    /// what it answered when asked for the metadata of the canonical path.
    pub fn new(path: &[u8], resolved: Resolved, meta: Probe) -> (r: Result<PathType, Error>)
        ensures
            outcome(r) == path_type_outcome(path@, seen(resolved), meta),
    {
        match PathAbs::new(path, resolved) {
            Ok(abs) => PathType::from_abs(abs, meta),
            Err(e) => Err(e),
        }
    }

    /// Classifies an absolute path. `meta` is what the operating system
    /// answered when asked for the metadata of `abs`.
    pub fn from_abs(abs: PathAbs, meta: Probe) -> (r: Result<PathType, Error>)
        ensures
            outcome(r) == classify_abs(abs@, meta),
    {
        match meta {
            Err(io) => Err(Error::new(io, Action::Metadata, abs.into_arc())),
            Ok(FileKind::File) => Ok(PathType::File(PathFile::from_abs_unchecked(abs))),
            Ok(FileKind::Dir) => Ok(PathType::Dir(PathDir::from_abs_unchecked(abs))),
            Ok(_) => Err(Error::invalid_input(abs.into_arc())),
        }
    }

    /// The file that this is. To ask for the file of a directory is a
    /// mistake of the caller.
    pub fn unwrap_file(self) -> (r: PathFile)
        requires
            self@.kind == FileKind::File,
        ensures
            r@ == self@.path,
    {
        match self {
            PathType::File(file) => file,
            PathType::Dir(_) => {
                proof {
                    assert(false);
                }
                vstd::pervasive::unreached()
            },
        }
    }

    /// The directory that this is. To ask for the directory of a file is a
    /// mistake of the caller.
    pub fn unwrap_dir(self) -> (r: PathDir)
        requires
            self@.kind == FileKind::Dir,
        ensures
            r@ == self@.path,
    {
        match self {
            PathType::Dir(dir) => dir,
            PathType::File(_) => {
                proof {
                    assert(false);
                }
                vstd::pervasive::unreached()
            },
        }
    }

    /// Whether this is a directory.
    pub fn is_dir(&self) -> (r: bool)
        ensures
            r == (self@.kind == FileKind::Dir),
    {
        match self {
            PathType::Dir(_) => true,
            PathType::File(_) => false,
        }
    }

    /// Whether this is a file.
    pub fn is_file(&self) -> (r: bool)
        ensures
            r == (self@.kind == FileKind::File),
    {
        match self {
            PathType::File(_) => true,
            PathType::Dir(_) => false,
        }
    }

    /// A file path for tests. Nothing of it is checked.
    pub fn mock_file(path: &[u8]) -> (r: PathType)
        ensures
            r@ == (Typed { kind: FileKind::File, path: path@ }),
    {
        PathType::File(PathFile::mock(path))
    }

    /// A directory path for tests. Nothing of it is checked.
    pub fn mock_dir(path: &[u8]) -> (r: PathType)
        ensures
            r@ == (Typed { kind: FileKind::Dir, path: path@ }),
    {
        PathType::Dir(PathDir::mock(path))
    }

    /// The text of the path.
    pub fn as_path(&self) -> (r: &[u8])
        ensures
            r@ == self@.path,
    {
        match self {
            PathType::File(file) => file.as_path(),
            PathType::Dir(dir) => dir.as_path(),
        }
    }

    /// The path as an absolute path.
    pub fn as_abs(&self) -> (r: &PathAbs)
        ensures
            r@ == self@.path,
    {
        match self {
            PathType::File(file) => file.as_abs(),
            PathType::Dir(dir) => dir.as_abs(),
        }
    }

    /// Gives up the knowledge of the kind.
    pub fn into_abs(self) -> (r: PathAbs)
        ensures
            r@ == self@.path,
    {
        match self {
            PathType::File(file) => file.into_abs(),
            PathType::Dir(dir) => dir.into_abs(),
        }
    }

    /// Gives up every guarantee.
    pub fn into_arc(self) -> (r: PathArc)
        ensures
            r@ == self@.path,
    {
        self.into_abs().into_arc()
    }
}

/// Anything that a directory can hold, classified.
#[derive(Debug, PartialEq, Eq, Hash, PartialOrd, Ord)]
pub enum EntryType {
    File(PathFile),
    Dir(PathDir),
    Symlink(PathSymlink),
    /// Neither file, directory nor link: a device or a fifo, say.
    Other(PathAbs),
}

impl View for EntryType {
    type V = Typed;

    open spec fn view(&self) -> Typed {
        match self {
            EntryType::File(file) => Typed { kind: FileKind::File, path: file@ },
            EntryType::Dir(dir) => Typed { kind: FileKind::Dir, path: dir@ },
            EntryType::Symlink(link) => Typed { kind: FileKind::Symlink, path: link@ },
            EntryType::Other(abs) => Typed { kind: FileKind::Other, path: abs@ },
        }
    }
}

impl Clone for EntryType {
    fn clone(&self) -> (r: Self)
        ensures
            r@ == self@,
    {
        match self {
            EntryType::File(file) => EntryType::File(file.clone()),
            EntryType::Dir(dir) => EntryType::Dir(dir.clone()),
            EntryType::Symlink(link) => EntryType::Symlink(link.clone()),
            EntryType::Other(abs) => EntryType::Other(abs.clone()),
        }
    }
}

/// What comes of classifying the entry `text`, where `probe` is what the
/// operating system answered when asked for the metadata of the entry
/// itself, a link not followed: whatever is there has one of the four
/// kinds.
pub open spec fn classify_entry(text: Seq<u8>, probe: Probe) -> Outcome<Typed> {
    match probe {
        Err(io) => Outcome::Failed { io, action: Action::SymlinkMetadata, path: text },
        Ok(kind) => Outcome::Made(Typed { kind, path: text }),
    }
}

/// What comes of making an entry of `s` and classifying it, where
/// `resolved` and `probe` are the answers that `entry_outcome` takes.
pub open spec fn entry_type_outcome(s: Seq<u8>, resolved: Result<Seq<u8>, IoFailure>, probe: Probe) -> Outcome<
    Typed,
> {
    match entry_outcome(s, resolved, probe) {
        Outcome::Made(path) => classify_entry(path, probe),
        Outcome::Failed { io, action, path } => Outcome::Failed { io, action, path },
    }
}

impl EntryType {
    /// The entry at `path`, classified. `resolved` and `probe` are the
    /// answers that [`PathEntry::new`] takes.
    pub fn new(path: &[u8], resolved: Resolved, probe: Probe) -> (r: Result<EntryType, Error>)
        ensures
            outcome(r) == entry_type_outcome(path@, seen(resolved), probe),
    {
        match PathEntry::new(path, resolved, probe) {
            Ok(entry) => EntryType::from_entry(entry, probe),
            Err(e) => Err(e),
        }
    }

    /// Classifies an entry. `probe` is what the operating system answered
    /// when asked for the metadata of the entry itself, a link not
    /// followed. An entry that is no link has a canonical path.
    pub fn from_entry(entry: PathEntry, probe: Probe) -> (r: Result<EntryType, Error>)
        ensures
            outcome(r) == classify_entry(entry@, probe),
    {
        match probe {
            Err(io) => Err(Error::new(io, Action::SymlinkMetadata, entry.into_arc())),
            Ok(FileKind::Symlink) => Ok(
                EntryType::Symlink(PathSymlink::from_entry_unchecked(entry)),
            ),
            Ok(FileKind::File) => Ok(
                EntryType::File(
                    PathFile::from_abs_unchecked(PathAbs::from_arc_unchecked(entry.into_arc())),
                ),
            ),
            Ok(FileKind::Dir) => Ok(
                EntryType::Dir(
                    PathDir::from_abs_unchecked(PathAbs::from_arc_unchecked(entry.into_arc())),
                ),
            ),
            Ok(FileKind::Other) => Ok(
                EntryType::Other(PathAbs::from_arc_unchecked(entry.into_arc())),
            ),
        }
    }

    /// A file path for tests. Nothing of it is checked.
    pub fn mock_file(path: &[u8]) -> (r: EntryType)
        ensures
            r@ == (Typed { kind: FileKind::File, path: path@ }),
    {
        EntryType::File(PathFile::mock(path))
    }

    /// A directory path for tests. Nothing of it is checked.
    pub fn mock_dir(path: &[u8]) -> (r: EntryType)
        ensures
            r@ == (Typed { kind: FileKind::Dir, path: path@ }),
    {
        EntryType::Dir(PathDir::mock(path))
    }

    /// A link path for tests. Nothing of it is checked.
    pub fn mock_symlink(path: &[u8]) -> (r: EntryType)
        ensures
            r@ == (Typed { kind: FileKind::Symlink, path: path@ }),
    {
        EntryType::Symlink(PathSymlink::mock(path))
    }

    /// A path to a special file for tests. Nothing of it is checked.
    pub fn mock_other(path: &[u8]) -> (r: EntryType)
        ensures
            r@ == (Typed { kind: FileKind::Other, path: path@ }),
    {
        EntryType::Other(PathAbs::mock(path))
    }

    /// The text of the path.
    pub fn as_path(&self) -> (r: &[u8])
        ensures
            r@ == self@.path,
    {
        match self {
            EntryType::File(file) => file.as_path(),
            EntryType::Dir(dir) => dir.as_path(),
            EntryType::Symlink(link) => link.as_path(),
            EntryType::Other(abs) => abs.as_path(),
        }
    }

    /// Gives up the knowledge of the kind.
    pub fn into_entry(self) -> (r: PathEntry)
        ensures
            r@ == self@.path,
    {
        match self {
            EntryType::File(file) => PathEntry::from_arc_unchecked(file.into_arc()),
            EntryType::Dir(dir) => PathEntry::from_arc_unchecked(dir.into_arc()),
            EntryType::Symlink(link) => link.into_entry(),
            EntryType::Other(abs) => PathEntry::from_arc_unchecked(abs.into_arc()),
        }
    }

    /// Gives up every guarantee.
    pub fn into_arc(self) -> (r: PathArc)
        ensures
            r@ == self@.path,
    {
        match self {
            EntryType::File(file) => file.into_arc(),
            EntryType::Dir(dir) => dir.into_arc(),
            EntryType::Symlink(link) => link.into_arc(),
            EntryType::Other(abs) => abs.into_arc(),
        }
    }
}

} // verus!
