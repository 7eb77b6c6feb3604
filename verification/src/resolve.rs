//! Canonicalizing a path up to, but not including, its last component.
//!
//! The operating system canonicalizes the parent; the file name is put back
//! behind it as it was. So the last component is neither followed, where it
//! is a link, nor even required to exist.
//!
//! A path that ends in `..` or in the root, or is empty, has no file name.
//! It is canonicalized whole. A `.` at the end counts for nothing: the file
//! name of `a/.` is `a`.

use vstd::prelude::*;
use crate::arc::{PathArc, file_name_text, parent_text};
use crate::component::{Component, parts_of};
use crate::error::{Action, Error, Outcome, Resolved, outcome, seen, IoFailure};
use crate::lexical::{
    components, joined, lemma_path_parts_well_formed, lemma_round_trip, parts_text, path_parts,
    render,
};

verus! {

/// The parent and the file name of a path, where it has both.
pub open spec fn split_text(s: Seq<u8>) -> Option<(Seq<u8>, Seq<u8>)> {
    if parent_text(s) is Some && file_name_text(s) is Some {
        Some((parent_text(s)->Some_0, file_name_text(s)->Some_0))
    } else {
        None
    }
}

/// The path that the operating system is asked to canonicalize for `s`: its
/// parent, or `s` itself where it has no file name.
pub open spec fn canonicalize_target_text(s: Seq<u8>) -> Seq<u8> {
    match split_text(s) {
        Some((parent, _)) => parent,
        None => s,
    }
}

/// What comes of canonicalizing the parent of `s`, where `resolved` is what
/// the operating system answered for `canonicalize_target_text(s)`.
pub open spec fn parent_outcome(s: Seq<u8>, resolved: Result<Seq<u8>, IoFailure>) -> Outcome<
    Seq<u8>,
> {
    match resolved {
        Err(io) => Outcome::Failed {
            io,
            action: Action::Canonicalizing,
            path: canonicalize_target_text(s),
        },
        Ok(canonical) => Outcome::Made(
            match split_text(s) {
                Some((_, name)) => joined(canonical, name),
                None => canonical,
            },
        ),
    }
}

/// Splitting loses nothing: the parent extended by the file name has the
/// components of the path that was split.
pub proof fn lemma_split_rejoins(s: Seq<u8>)
    requires
        split_text(s) is Some,
    ensures
        path_parts(joined(split_text(s)->Some_0.0, split_text(s)->Some_0.1)) == path_parts(s),
{
    let ps = path_parts(s);
    lemma_path_parts_well_formed(s);
    lemma_round_trip(ps);
    assert(joined(split_text(s)->Some_0.0, split_text(s)->Some_0.1) == parts_text(ps));
}

/// Splits a path into its parent and its file name. `None` where it has no
/// file name.
pub fn split_file_name(path: &[u8]) -> (r: Option<(PathArc, Vec<u8>)>)
    ensures
        match r {
            Some((parent, name)) => split_text(path@) == Some((parent@, name@)),
            None => split_text(path@) is None,
        },
{
    let mut cs = components(path);
    let ghost ps = parts_of(cs@);
    match cs.pop() {
        Some(Component::Normal(name)) => {
            assert(parts_of(cs@) =~= ps.drop_last());
            Some((PathArc::from_vec(render(&cs)), name))
        },
        _ => None,
    }
}

/// The path that the operating system is to canonicalize before
/// [`canonicalize_parent`] is called for `path`.
pub fn canonicalize_target(path: &[u8]) -> (r: PathArc)
    ensures
        r@ == canonicalize_target_text(path@),
{
    match split_file_name(path) {
        Some((parent, _)) => parent,
        None => PathArc::new(path),
    }
}

/// Canonicalizes `path` but for its last component. `resolved` is what the
/// operating system answered when asked to canonicalize
/// `canonicalize_target(path)`.
pub fn canonicalize_parent(path: &[u8], resolved: Resolved) -> (r: Result<PathArc, Error>)
    ensures
        outcome(r) == parent_outcome(path@, seen(resolved)),
{
    match split_file_name(path) {
        None => match resolved {
            Ok(canonical) => Ok(canonical),
            Err(io) => Err(Error::new(io, Action::Canonicalizing, PathArc::new(path))),
        },
        Some((parent, name)) => match resolved {
            Ok(canonical) => Ok(canonical.join(name.as_slice())),
            Err(io) => Err(Error::new(io, Action::Canonicalizing, parent)),
        },
    }
}

} // verus!
