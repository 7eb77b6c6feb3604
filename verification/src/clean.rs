//! Lexical cleaning: resolving `.` and `..` in a path without looking at a
//! filesystem.

use vstd::prelude::*;
use crate::component::{Component, Part, DOT, parts_of};
use crate::lexical::{
    components, is_entry, lemma_parts_text_not_empty, lemma_path_parts_well_formed,
    lemma_round_trip, parts_text, path_parts, render, well_formed,
};

verus! {

/// The stack after one more component has been read.
///
/// `.` is dropped. `..` cancels a named entry on top of the stack, is
/// absorbed by the root, and is kept on an empty stack, on a prefix and on
/// another `..`. Every other component is kept.
pub open spec fn clean_step(stack: Seq<Part>, p: Part) -> Seq<Part> {
    match p {
        Part::CurDir => stack,
        Part::ParentDir => if stack.len() == 0 {
            stack.push(p)
        } else {
            match stack.last() {
                Part::Normal(_) => stack.drop_last(),
                Part::RootDir => stack,
                Part::Prefix(_) => stack.push(p),
                Part::ParentDir => stack.push(p),
                // `.` is never kept, so it is never on top.
                Part::CurDir => stack.push(p),
            }
        },
        _ => stack.push(p),
    }
}

/// The stack after all of `ps` has been read, from the left.
pub open spec fn clean_stack(ps: Seq<Part>) -> Seq<Part>
    decreases ps.len(),
{
    if ps.len() == 0 {
        Seq::empty()
    } else {
        clean_step(clean_stack(ps.drop_last()), ps.last())
    }
}

/// The cleaned form of a sequence of components: what is left on the stack,
/// or the single component `.` where nothing is left.
pub open spec fn cleaned(ps: Seq<Part>) -> Seq<Part> {
    let stack = clean_stack(ps);
    if stack.len() == 0 {
        seq![Part::CurDir]
    } else {
        stack
    }
}

/// The cleaned form of a path.
pub open spec fn clean_text(s: Seq<u8>) -> Seq<u8> {
    parts_text(cleaned(path_parts(s)))
}

/// Whether a stack is one that cleaning leaves: without `.`, and with `..`
/// only at the bottom, on a prefix or on another `..`.
pub open spec fn settled(stack: Seq<Part>) -> bool {
    forall|i: int|
        0 <= i < stack.len() ==> match #[trigger] stack[i] {
            Part::CurDir => false,
            Part::ParentDir => i == 0 || stack[i - 1] is Prefix || stack[i - 1] is ParentDir,
            _ => true,
        }
}

/// Whatever is read, the stack is settled.
pub proof fn lemma_clean_stack_settled(ps: Seq<Part>)
    ensures
        settled(clean_stack(ps)),
    decreases ps.len(),
{
    if ps.len() > 0 {
        lemma_clean_stack_settled(ps.drop_last());
        let before = clean_stack(ps.drop_last());
        let after = clean_stack(ps);
        assert forall|i: int| 0 <= i < after.len() implies match #[trigger] after[i] {
            Part::CurDir => false,
            Part::ParentDir => i == 0 || after[i - 1] is Prefix || after[i - 1] is ParentDir,
            _ => true,
        } by {
            if i < before.len() {
                assert(after[i] == before[i]);
                if i > 0 {
                    assert(after[i - 1] == before[i - 1]);
                }
            }
        }
    }
}

/// Reading a settled stack leaves that stack.
pub proof fn lemma_clean_stack_fixed(stack: Seq<Part>)
    requires
        settled(stack),
    ensures
        clean_stack(stack) == stack,
    decreases stack.len(),
{
    if stack.len() > 0 {
        let init = stack.drop_last();
        assert forall|i: int| 0 <= i < init.len() implies match #[trigger] init[i] {
            Part::CurDir => false,
            Part::ParentDir => i == 0 || init[i - 1] is Prefix || init[i - 1] is ParentDir,
            _ => true,
        } by {
            assert(init[i] == stack[i]);
            if i > 0 {
                assert(init[i - 1] == stack[i - 1]);
            }
        }
        lemma_clean_stack_fixed(init);
        let top = stack.last();
        assert(top == stack[stack.len() - 1]);
        assert(init.push(top) =~= stack);
        if init.len() > 0 {
            assert(init.last() == stack[stack.len() - 2]);
        }
    }
}

/// Cleaning components twice gives what cleaning them once gives, whatever
/// the components are.
pub proof fn lemma_cleaned_idempotent(ps: Seq<Part>)
    ensures
        cleaned(cleaned(ps)) == cleaned(ps),
{
    let stack = clean_stack(ps);
    if stack.len() == 0 {
        let dot = seq![Part::CurDir];
        assert(dot.drop_last() =~= Seq::<Part>::empty());
        assert(clean_stack(dot.drop_last()) =~= Seq::<Part>::empty());
        assert(clean_stack(dot) =~= Seq::<Part>::empty());
    } else {
        lemma_clean_stack_settled(ps);
        lemma_clean_stack_fixed(stack);
    }
}

/// Reading well-formed components leaves a well-formed stack.
pub proof fn lemma_clean_stack_well_formed(ps: Seq<Part>)
    requires
        well_formed(ps),
    ensures
        well_formed(clean_stack(ps)),
    decreases ps.len(),
{
    if ps.len() > 0 {
        let init = ps.drop_last();
        let p = ps.last();
        assert forall|i: int| 0 <= i < init.len() implies is_entry(#[trigger] init[i]) || (i == 0
            && (init[i] is RootDir || init[i] is CurDir)) by {
            assert(init[i] == ps[i]);
        }
        lemma_clean_stack_well_formed(init);
        let before = clean_stack(init);
        let after = clean_stack(ps);
        assert(is_entry(p) || (ps.len() == 1 && (p is RootDir || p is CurDir)));
        if ps.len() == 1 {
            assert(init =~= Seq::<Part>::empty());
            assert(before =~= Seq::<Part>::empty());
        }
        assert forall|i: int| 0 <= i < after.len() implies is_entry(#[trigger] after[i]) || (i == 0
            && (after[i] is RootDir || after[i] is CurDir)) by {
            if i < before.len() {
                assert(after[i] == before[i]);
            }
        }
    }
}

/// The cleaned form of well-formed components is well formed.
pub proof fn lemma_cleaned_well_formed(ps: Seq<Part>)
    requires
        well_formed(ps),
    ensures
        well_formed(cleaned(ps)),
{
    lemma_clean_stack_well_formed(ps);
}

/// A cleaned path is never empty.
pub proof fn lemma_clean_text_not_empty(s: Seq<u8>)
    ensures
        clean_text(s).len() > 0,
{
    lemma_path_parts_well_formed(s);
    lemma_cleaned_well_formed(path_parts(s));
    lemma_parts_text_not_empty(cleaned(path_parts(s)));
}

/// A path of nothing but `.`, the empty path too, cleans to `.`.
pub proof fn lemma_clean_text_of_dots(s: Seq<u8>)
    requires
        forall|i: int| 0 <= i < path_parts(s).len() ==> path_parts(s)[i] is CurDir,
    ensures
        clean_text(s) == seq![DOT],
{
    lemma_stack_of_dots(path_parts(s));
    let dot = seq![Part::CurDir];
    assert(dot.drop_last() =~= Seq::<Part>::empty());
    assert(parts_text(dot.drop_last()) =~= Seq::<u8>::empty());
    assert(parts_text(dot) =~= seq![DOT]);
}

/// Reading nothing but `.` leaves the stack empty.
proof fn lemma_stack_of_dots(ps: Seq<Part>)
    requires
        forall|i: int| 0 <= i < ps.len() ==> ps[i] is CurDir,
    ensures
        clean_stack(ps).len() == 0,
    decreases ps.len(),
{
    if ps.len() > 0 {
        assert(ps.last() is CurDir);
        lemma_stack_of_dots(ps.drop_last());
    }
}

/// A cleaned path splits into the cleaned components of the path it was
/// made from.
pub proof fn lemma_clean_text_parts(s: Seq<u8>)
    ensures
        path_parts(clean_text(s)) == cleaned(path_parts(s)),
{
    lemma_path_parts_well_formed(s);
    lemma_cleaned_well_formed(path_parts(s));
    lemma_round_trip(cleaned(path_parts(s)));
}

/// Cleaning a path twice gives what cleaning it once gives.
pub proof fn lemma_clean_text_idempotent(s: Seq<u8>)
    ensures
        clean_text(clean_text(s)) == clean_text(s),
{
    lemma_clean_text_parts(s);
    lemma_cleaned_idempotent(path_parts(s));
}

/// Whether `..` on top of this component cancels it.
fn is_normal(c: &Component) -> (r: bool)
    ensures
        r == (c@ is Normal),
{
    match c {
        Component::Normal(_) => true,
        _ => false,
    }
}

/// Whether `..` on top of this component is absorbed.
fn is_root(c: &Component) -> (r: bool)
    ensures
        r == (c@ is RootDir),
{
    match c {
        Component::RootDir => true,
        _ => false,
    }
}

/// Cleans a sequence of components.
pub fn clean_components(cs: &[Component]) -> (r: Vec<Component>)
    ensures
        parts_of(r@) == cleaned(parts_of(cs@)),
        cleaned(parts_of(r@)) == parts_of(r@),
{
    proof {
        lemma_cleaned_idempotent(parts_of(cs@));
    }
    let mut stack: Vec<Component> = Vec::new();
    let mut i: usize = 0;
    assert(parts_of(cs@).take(0) =~= Seq::empty());
    assert(parts_of(stack@) =~= Seq::empty());
    while i < cs.len()
        invariant
            i <= cs.len(),
            parts_of(stack@) == clean_stack(parts_of(cs@).take(i as int)),
        decreases cs.len() - i,
    {
        let ghost before = parts_of(stack@);
        proof {
            let ps = parts_of(cs@);
            assert(ps.take(i + 1).drop_last() =~= ps.take(i as int));
            assert(ps.take(i + 1).last() == cs@[i as int]@);
        }
        match &cs[i] {
            Component::CurDir => {},
            Component::ParentDir => {
                let n: usize = stack.len();
                if n == 0 {
                    stack.push(Component::ParentDir);
                    assert(parts_of(stack@) =~= before.push(Part::ParentDir));
                } else if is_normal(&stack[n - 1]) {
                    stack.pop();
                    assert(parts_of(stack@) =~= before.drop_last());
                } else if is_root(&stack[n - 1]) {
                } else {
                    stack.push(Component::ParentDir);
                    assert(parts_of(stack@) =~= before.push(Part::ParentDir));
                }
            },
            c => {
                stack.push(c.clone());
                assert(parts_of(stack@) =~= before.push(c@));
            },
        }
        i += 1;
    }
    assert(parts_of(cs@).take(cs.len() as int) =~= parts_of(cs@));
    if stack.len() == 0 {
        stack.push(Component::CurDir);
        assert(parts_of(stack@) =~= seq![Part::CurDir]);
    }
    stack
}

/// Cleans a path: resolves `.` and `..` in its text. The result names the
/// same entry as long as no component before a `..` is a symbolic link.
pub fn clean_path(path: &[u8]) -> (r: Vec<u8>)
    ensures
        r@ == clean_text(path@),
        r@.len() > 0,
        clean_text(r@) == r@,
{
    proof {
        lemma_clean_text_not_empty(path@);
        lemma_clean_text_idempotent(path@);
    }
    let parsed = components(path);
    let stack = clean_components(parsed.as_slice());
    render(&stack)
}

} // verus!
