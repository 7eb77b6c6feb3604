//! What was observed of the filesystem, and the errors that come of it.

use vstd::prelude::*;
use crate::arc::PathArc;

verus! {

/// What kind of entry a metadata query found.
#[derive(Clone, Copy, Debug, PartialEq, Eq, Hash, Structural)]
pub enum FileKind {
    /// A regular file.
    File,
    /// A directory.
    Dir,
    /// A symbolic link. Only a query that does not follow links finds one.
    Symlink,
    /// Anything else: a device, a fifo, a socket.
    Other,
}

/// The class of a failure.
#[derive(Clone, Copy, Debug, PartialEq, Eq, Hash, Structural)]
pub enum ErrorKind {
    /// Nothing exists at the path.
    NotFound,
    /// Something exists, but not of the kind that was asked for.
    InvalidInput,
    /// Any other failure of the operating system.
    Other,
}

/// A failure as the operating system reported it: its class, and its raw
/// error code where it has one.
#[derive(Clone, Copy, Debug, PartialEq, Eq, Hash, Structural)]
pub struct IoFailure {
    pub kind: ErrorKind,
    pub code: Option<i32>,
}

/// What was being done when an operation failed.
#[derive(Clone, Copy, Debug, PartialEq, Eq, Hash, Structural)]
pub enum Action {
    /// Canonicalizing the path.
    Canonicalizing,
    /// Reading the metadata of what the path leads to.
    Metadata,
    /// Reading the metadata of the entry itself, a link not followed.
    SymlinkMetadata,
    /// Reading the target of a link.
    ReadLink,
    /// Deciding what kind of path this is.
    Resolving,
    /// Renaming the path. The entry is still where it was.
    Renaming,
    /// Removing the path. The entry is still there.
    Removing,
}

/// A failed operation: what the operating system reported, what was being
/// done, and the path it was done to.
#[derive(Debug, PartialEq, Eq)]
pub struct Error {
    pub io: IoFailure,
    pub action: Action,
    pub path: PathArc,
}

/// What the operating system answered when asked for a canonical path.
pub type Resolved = Result<PathArc, IoFailure>;

/// What the operating system answered when asked for the kind of an entry.
pub type Probe = Result<FileKind, IoFailure>;

/// What the operating system answered when asked to change something.
pub type Done = Result<(), IoFailure>;

/// The mathematical value of the result of an operation that can fail.
pub enum Outcome<V> {
    /// The operation gave this value.
    Made(V),
    /// The operation failed.
    Failed { io: IoFailure, action: Action, path: Seq<u8> },
}

/// The value of a result.
pub open spec fn outcome<T: View>(r: Result<T, Error>) -> Outcome<T::V> {
    match r {
        Ok(v) => Outcome::Made(v@),
        Err(e) => Outcome::Failed { io: e.io, action: e.action, path: e.path@ },
    }
}

/// The value of an answer that is a path.
pub open spec fn seen(resolved: Resolved) -> Result<Seq<u8>, IoFailure> {
    match resolved {
        Ok(p) => Ok(p@),
        Err(io) => Err(io),
    }
}

/// The failure of a path that is not of the kind that was asked for.
pub open spec fn wrong_kind() -> IoFailure {
    IoFailure { kind: ErrorKind::InvalidInput, code: None }
}

/// What comes of narrowing the path `text` to the kind `want`, where
/// `probe` is what the operating system answered to the metadata query
/// `query` for `text`: the path where the kinds agree, else a failure.
pub open spec fn refine_outcome(want: FileKind, text: Seq<u8>, probe: Probe, query: Action) -> Outcome<
    Seq<u8>,
> {
    match probe {
        Err(io) => Outcome::Failed { io, action: query, path: text },
        Ok(kind) => if kind == want {
            Outcome::Made(text)
        } else {
            Outcome::Failed { io: wrong_kind(), action: Action::Resolving, path: text }
        },
    }
}

/// What comes of a change of the entry at `text` that yields nothing, where
/// `done` is what the operating system answered to it.
pub open spec fn change_outcome(text: Seq<u8>, done: Done, change: Action) -> Outcome<()> {
    match done {
        Ok(_) => Outcome::Made(()),
        Err(io) => Outcome::Failed { io, action: change, path: text },
    }
}

impl Error {
    /// An error for `path`.
    pub fn new(io: IoFailure, action: Action, path: PathArc) -> (r: Error)
        ensures
            r.io == io,
            r.action == action,
            r.path@ == path@,
    {
        Error { io, action, path }
    }

    /// The error of a path that is not of the kind that was asked for.
    pub fn invalid_input(path: PathArc) -> (r: Error)
        ensures
            r.io == wrong_kind(),
            r.action == Action::Resolving,
            r.path@ == path@,
    {
        Error {
            io: IoFailure { kind: ErrorKind::InvalidInput, code: None },
            action: Action::Resolving,
            path,
        }
    }

    /// The class of the failure.
    pub fn kind(&self) -> (r: ErrorKind)
        ensures
            r == self.io.kind,
    {
        self.io.kind
    }

    /// Whether the operating system refused the change itself, so that the
    /// entry is still where it was. Where a rename fails otherwise, the
    /// entry has moved and the new place was not what was asked for.
    pub fn source_unaffected(&self) -> (r: bool)
        ensures
            r == (self.action == Action::Renaming || self.action == Action::Removing),
    {
        match self.action {
            Action::Renaming => true,
            Action::Removing => true,
            _ => false,
        }
    }
}

} // verus!
