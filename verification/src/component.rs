//! The components of a path, and the text each of them stands for.

use vstd::prelude::*;

verus! {

/// The byte that separates the components of a path.
pub const SEP: u8 = 0x2f;

/// The byte of which the names `.` and `..` are made.
pub const DOT: u8 = 0x2e;

/// The mathematical value of a [`Component`].
pub enum Part {
    /// A volume or drive prefix.
    Prefix(Seq<u8>),
    /// The root of the filesystem.
    RootDir,
    /// The current directory, `.`.
    CurDir,
    /// The parent directory, `..`.
    ParentDir,
    /// A named entry.
    Normal(Seq<u8>),
}

/// One component of a path.
#[derive(Debug, PartialEq, Eq, Hash)]
pub enum Component {
    /// A volume or drive prefix. The grammar of [`crate::lexical::components`]
    /// never yields one; it is there for callers that split paths of another
    /// syntax themselves.
    Prefix(Vec<u8>),
    /// The root of the filesystem.
    RootDir,
    /// The current directory, `.`.
    CurDir,
    /// The parent directory, `..`.
    ParentDir,
    /// A named entry.
    Normal(Vec<u8>),
}

impl View for Component {
    type V = Part;

    open spec fn view(&self) -> Part {
        match self {
            Component::Prefix(p) => Part::Prefix(p@),
            Component::RootDir => Part::RootDir,
            Component::CurDir => Part::CurDir,
            Component::ParentDir => Part::ParentDir,
            Component::Normal(n) => Part::Normal(n@),
        }
    }
}

/// The values of a sequence of components, one for one.
pub open spec fn parts_of(cs: Seq<Component>) -> Seq<Part> {
    cs.map_values(|c: Component| c@)
}

/// The text that a component contributes to a path.
pub open spec fn part_text(p: Part) -> Seq<u8> {
    match p {
        Part::Prefix(t) => t,
        Part::RootDir => seq![SEP],
        Part::CurDir => seq![DOT],
        Part::ParentDir => seq![DOT, DOT],
        Part::Normal(t) => t,
    }
}

impl Clone for Component {
    fn clone(&self) -> (r: Self)
        ensures
            r@ == self@,
    {
        match self {
            Component::Prefix(p) => Component::Prefix(p.clone()),
            Component::RootDir => Component::RootDir,
            Component::CurDir => Component::CurDir,
            Component::ParentDir => Component::ParentDir,
            Component::Normal(n) => Component::Normal(n.clone()),
        }
    }
}

impl Component {
    /// The text that this component contributes to a path.
    pub fn to_bytes(&self) -> (r: Vec<u8>)
        ensures
            r@ == part_text(self@),
    {
        match self {
            Component::Prefix(p) => p.clone(),
            Component::RootDir => vec![SEP],
            Component::CurDir => vec![DOT],
            Component::ParentDir => vec![DOT, DOT],
            Component::Normal(n) => n.clone(),
        }
    }
}

} // verus!
