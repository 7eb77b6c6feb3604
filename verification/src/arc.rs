//! The base path value: a shared, immutable path text with no guarantee
//! beyond being a path.

use std::sync::Arc;
use vstd::prelude::*;
use vstd::slice::slice_to_vec;
use crate::component::{Component, parts_of};
use crate::lexical::{components, joined, parts_text, path_parts, push_bytes, render};

verus! {

/// The path without its last component, where it has one that is not the
/// root or a prefix: the path that the remaining components spell.
pub open spec fn parent_text(s: Seq<u8>) -> Option<Seq<u8>> {
    let ps = path_parts(s);
    if ps.len() == 0 || ps.last() is RootDir || ps.last() is Prefix {
        None
    } else {
        Some(parts_text(ps.drop_last()))
    }
}

/// The name of the last component, where the path ends in a named entry.
pub open spec fn file_name_text(s: Seq<u8>) -> Option<Seq<u8>> {
    let ps = path_parts(s);
    if ps.len() > 0 && ps.last() is Normal {
        Some(ps.last()->Normal_0)
    } else {
        None
    }
}

/// The path with its file name replaced by `name`: where it ends in a named
/// entry, the parent extended by `name`; else the path itself extended by
/// `name`.
pub open spec fn with_file_name_text(s: Seq<u8>, name: Seq<u8>) -> Seq<u8> {
    if file_name_text(s) is Some {
        joined(parent_text(s)->Some_0, name)
    } else {
        joined(s, name)
    }
}

/// Whether two texts are the same, byte for byte.
pub fn bytes_eq(a: &[u8], b: &[u8]) -> (r: bool)
    ensures
        r == (a@ == b@),
{
    if a.len() != b.len() {
        return false;
    }
    let mut i: usize = 0;
    while i < a.len()
        invariant
            a@.len() == b@.len(),
            i <= a@.len(),
            forall|k: int| 0 <= k < i ==> a@[k] == b@[k],
        decreases a.len() - i,
    {
        if a[i] != b[i] {
            return false;
        }
        i += 1;
    }
    assert(a@ =~= b@);
    true
}

/// A path text that can be shared without copying it. Nothing is known of
/// what it names.
#[derive(Debug, PartialEq, Eq, Hash, PartialOrd, Ord)]
pub struct PathArc(Arc<Vec<u8>>);

impl View for PathArc {
    type V = Seq<u8>;

    closed spec fn view(&self) -> Seq<u8> {
        self.0@
    }
}

/// `Arc::clone`: another handle to the same allocation, so to the same
/// value.
#[verifier::external_body]
fn share(text: &Arc<Vec<u8>>) -> (r: Arc<Vec<u8>>)
    ensures
        r == *text,
{
    Arc::clone(text)
}

impl Clone for PathArc {
    fn clone(&self) -> (r: Self)
        ensures
            r@ == self@,
    {
        PathArc(share(&self.0))
    }
}

impl PathArc {
    /// Makes a path of any text.
    pub fn new(path: &[u8]) -> (r: PathArc)
        ensures
            r@ == path@,
    {
        PathArc(Arc::new(slice_to_vec(path)))
    }

    /// Makes a path of a text that the caller gives away.
    pub fn from_vec(path: Vec<u8>) -> (r: PathArc)
        ensures
            r@ == path@,
    {
        PathArc(Arc::new(path))
    }

    /// The text of the path.
    pub fn as_path(&self) -> (r: &[u8])
        ensures
            r@ == self@,
    {
        self.0.as_slice()
    }

    /// Whether both paths have the same text.
    pub fn same(&self, other: &PathArc) -> (r: bool)
        ensures
            r == (self@ == other@),
    {
        bytes_eq(self.as_path(), other.as_path())
    }

    /// The path extended by `path`, or `path` alone where it starts at the
    /// root.
    pub fn join(&self, path: &[u8]) -> (r: PathArc)
        ensures
            r@ == joined(self@, path@),
    {
        let mut buf = slice_to_vec(self.as_path());
        push_bytes(&mut buf, path);
        PathArc::from_vec(buf)
    }

    /// The components of the path.
    pub fn components(&self) -> (r: Vec<Component>)
        ensures
            parts_of(r@) == path_parts(self@),
    {
        components(self.as_path())
    }

    /// The path without its last component.
    pub fn parent(&self) -> (r: Option<PathArc>)
        ensures
            match r {
                Some(parent) => parent_text(self@) == Some(parent@),
                None => parent_text(self@) is None,
            },
    {
        let mut cs = components(self.as_path());
        let ghost ps = parts_of(cs@);
        match cs.pop() {
            None => None,
            Some(Component::RootDir) => None,
            Some(Component::Prefix(_)) => None,
            Some(_) => {
                assert(parts_of(cs@) =~= ps.drop_last());
                Some(PathArc::from_vec(render(&cs)))
            },
        }
    }

    /// The name of the entry that the path ends in.
    pub fn file_name(&self) -> (r: Option<Vec<u8>>)
        ensures
            match r {
                Some(name) => file_name_text(self@) == Some(name@),
                None => file_name_text(self@) is None,
            },
    {
        let mut cs = components(self.as_path());
        match cs.pop() {
            Some(Component::Normal(name)) => Some(name),
            _ => None,
        }
    }

    /// The path with its file name replaced by `name`.
    pub fn with_file_name(&self, name: &[u8]) -> (r: PathArc)
        ensures
            r@ == with_file_name_text(self@, name@),
    {
        let mut cs = components(self.as_path());
        let ghost ps = parts_of(cs@);
        match cs.pop() {
            Some(Component::Normal(_)) => {
                assert(parts_of(cs@) =~= ps.drop_last());
                let mut buf = render(&cs);
                push_bytes(&mut buf, name);
                PathArc::from_vec(buf)
            },
            _ => self.join(name),
        }
    }
}

} // verus!
