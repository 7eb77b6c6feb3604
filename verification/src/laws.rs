//! What holds of the path kinds whatever the operating system answers.

use vstd::prelude::*;
use crate::abs::abs_outcome;
use crate::dir::{dir_outcome, dir_rename_outcome};
use crate::entry::{entry_outcome, entry_rename_outcome};
use crate::error::{
    Action, ErrorKind, FileKind, IoFailure, Outcome, Probe, refine_outcome, wrong_kind,
};
use crate::file::{file_outcome, file_rename_outcome};
use crate::resolve::parent_outcome;
use crate::symlink::{symlink_outcome, symlink_rename_outcome};
use crate::ty::{Typed, classify_abs, classify_entry};

verus! {

/// Whether the outcome is a failure of the class `kind`.
pub open spec fn failed_as<V>(o: Outcome<V>, kind: ErrorKind) -> bool {
    o is Failed && o->io.kind == kind
}

/// Narrowing succeeds for the kind that was found and for no other: what
/// was found to be of one kind is refused, as invalid input, for each of
/// the others, and the path is handed on unchanged where it is taken.
pub proof fn lemma_refine_by_kind(want: FileKind, found: FileKind, text: Seq<u8>, query: Action)
    ensures
        found == want ==> refine_outcome(want, text, Ok(found), query) == Outcome::Made(text),
        found != want ==> refine_outcome(want, text, Ok(found), query) == (Outcome::<Seq<u8>>::Failed {
            io: wrong_kind(),
            action: Action::Resolving,
            path: text,
        }),
        found != want ==> failed_as(
            refine_outcome(want, text, Ok(found), query),
            ErrorKind::InvalidInput,
        ),
{
}

/// A path that exists as a directory makes an entry, and that entry a
/// directory; as a file, and as a link, it is refused as invalid input.
pub proof fn lemma_directory_entry(s: Seq<u8>, canonical: Seq<u8>)
    ensures
        entry_outcome(s, Ok(canonical), Ok(FileKind::Dir)) is Made,
        ({
            let entry = entry_outcome(s, Ok(canonical), Ok(FileKind::Dir))->Made_0;
            &&& refine_outcome(FileKind::Dir, entry, Ok(FileKind::Dir), Action::SymlinkMetadata)
                == Outcome::Made(entry)
            &&& failed_as(
                refine_outcome(
                    FileKind::File,
                    entry,
                    Ok(FileKind::Dir),
                    Action::SymlinkMetadata,
                ),
                ErrorKind::InvalidInput,
            )
            &&& failed_as(
                refine_outcome(
                    FileKind::Symlink,
                    entry,
                    Ok(FileKind::Dir),
                    Action::SymlinkMetadata,
                ),
                ErrorKind::InvalidInput,
            )
        }),
        dir_outcome(s, Ok(canonical), Ok(FileKind::Dir)) == Outcome::Made(canonical),
        failed_as(file_outcome(s, Ok(canonical), Ok(FileKind::Dir)), ErrorKind::InvalidInput),
        failed_as(symlink_outcome(s, Ok(canonical), Ok(FileKind::Dir)), ErrorKind::InvalidInput),
{
}

/// Where the operating system finds nothing, no path is made: each kind
/// fails with the failure that the operating system reported, whatever the
/// other answers are.
pub proof fn lemma_missing_path(
    s: Seq<u8>,
    io: IoFailure,
    canonical: Seq<u8>,
    resolved: Result<Seq<u8>, IoFailure>,
    probe: Probe,
)
    ensures
        abs_outcome(s, Err(io)) == (Outcome::<Seq<u8>>::Failed {
            io,
            action: Action::Canonicalizing,
            path: s,
        }),
        parent_outcome(s, Err(io)) is Failed && parent_outcome(s, Err(io))->io == io,
        entry_outcome(s, Err(io), probe) is Failed && entry_outcome(s, Err(io), probe)->io == io,
        entry_outcome(s, Ok(canonical), Err(io)) is Failed && entry_outcome(
            s,
            Ok(canonical),
            Err(io),
        )->io == io,
        file_outcome(s, Err(io), probe) is Failed && file_outcome(s, Err(io), probe)->io == io,
        dir_outcome(s, Err(io), probe) is Failed && dir_outcome(s, Err(io), probe)->io == io,
        symlink_outcome(s, Err(io), probe) is Failed && symlink_outcome(s, Err(io), probe)->io
            == io,
        symlink_outcome(s, Ok(canonical), Err(io)) is Failed && symlink_outcome(
            s,
            Ok(canonical),
            Err(io),
        )->io == io,
{
}

/// A rename that the operating system refuses fails with the failure that
/// it reported, names the path that was to be renamed, and says that the
/// entry is still there; what is known of the new place counts for nothing.
pub proof fn lemma_refused_rename(
    from: Seq<u8>,
    to: Seq<u8>,
    io: IoFailure,
    resolved: Result<Seq<u8>, IoFailure>,
    probe: Probe,
)
    ensures
        dir_rename_outcome(from, to, Err(io), resolved, probe) == (Outcome::<Seq<u8>>::Failed {
            io,
            action: Action::Renaming,
            path: from,
        }),
        file_rename_outcome(from, to, Err(io), resolved, probe) == (Outcome::<Seq<u8>>::Failed {
            io,
            action: Action::Renaming,
            path: from,
        }),
        symlink_rename_outcome(from, to, Err(io), resolved, probe) == (Outcome::<Seq<u8>>::Failed {
            io,
            action: Action::Renaming,
            path: from,
        }),
        entry_rename_outcome(from, to, Err(io), resolved, probe) == (Outcome::<Seq<u8>>::Failed {
            io,
            action: Action::Renaming,
            path: from,
        }),
{
}

/// A rename that was done and whose new place is not what was asked for
/// fails otherwise than a refused rename: never as `Action::Renaming`.
pub proof fn lemma_moved_then_failed(
    from: Seq<u8>,
    to: Seq<u8>,
    resolved: Result<Seq<u8>, IoFailure>,
    probe: Probe,
)
    ensures
        dir_rename_outcome(from, to, Ok(()), resolved, probe) is Failed ==> dir_rename_outcome(
            from,
            to,
            Ok(()),
            resolved,
            probe,
        )->action != Action::Renaming,
        file_rename_outcome(from, to, Ok(()), resolved, probe) is Failed ==> file_rename_outcome(
            from,
            to,
            Ok(()),
            resolved,
            probe,
        )->action != Action::Renaming,
        symlink_rename_outcome(from, to, Ok(()), resolved, probe) is Failed
            ==> symlink_rename_outcome(from, to, Ok(()), resolved, probe)->action
            != Action::Renaming,
        entry_rename_outcome(from, to, Ok(()), resolved, probe) is Failed
            ==> entry_rename_outcome(from, to, Ok(()), resolved, probe)->action
            != Action::Renaming,
{
}

/// Whatever exists as an entry has one of the four kinds: classifying an
/// entry fails only where the metadata query fails. An absolute path is
/// classified where it is a file or a directory, and only there.
pub proof fn lemma_classify(text: Seq<u8>, kind: FileKind)
    ensures
        classify_entry(text, Ok(kind)) == Outcome::Made(Typed { kind, path: text }),
        classify_abs(text, Ok(kind)) is Made <==> (kind == FileKind::File || kind
            == FileKind::Dir),
        classify_abs(text, Ok(kind)) is Made ==> classify_abs(text, Ok(kind))->Made_0 == (Typed {
            kind,
            path: text,
        }),
        !(classify_abs(text, Ok(kind)) is Made) ==> failed_as(
            classify_abs(text, Ok(kind)),
            ErrorKind::InvalidInput,
        ),
{
}

} // verus!
