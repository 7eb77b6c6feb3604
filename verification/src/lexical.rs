//! Path text and its components: how a path splits into components, and how
//! components are put together into a path. Nothing here looks at a
//! filesystem.

use vstd::prelude::*;
use vstd::slice::{slice_subrange, slice_to_vec};
use crate::component::{Component, Part, DOT, SEP, part_text, parts_of};

verus! {

/// Where the segment that starts at `i` ends: at the first separator at or
/// after `i`, or at the end of the text.
pub open spec fn segment_end(s: Seq<u8>, i: int) -> int
    decreases s.len() - i,
{
    if i < 0 || i >= s.len() || s[i] == SEP {
        i
    } else {
        segment_end(s, i + 1)
    }
}

/// Whether the segment is the name `.`.
pub open spec fn is_dot(seg: Seq<u8>) -> bool {
    seg.len() == 1 && seg[0] == DOT
}

/// Whether the segment is the name `..`.
pub open spec fn is_dot_dot(seg: Seq<u8>) -> bool {
    seg.len() == 2 && seg[0] == DOT && seg[1] == DOT
}

/// What one segment between separators contributes: nothing where it is
/// empty or `.`, the parent directory for `..`, else a named entry.
pub open spec fn segment_parts(seg: Seq<u8>) -> Seq<Part> {
    if seg.len() == 0 || is_dot(seg) {
        Seq::empty()
    } else if is_dot_dot(seg) {
        seq![Part::ParentDir]
    } else {
        seq![Part::Normal(seg)]
    }
}

/// The components of the segments of `s` from index `i` on.
pub open spec fn body_parts(s: Seq<u8>, i: int) -> Seq<Part>
    decreases s.len() + 1 - i,
{
    if i < 0 || i >= s.len() {
        Seq::empty()
    } else {
        let j = segment_end(s, i);
        if i <= j <= s.len() {
            segment_parts(s.subrange(i, j)) + body_parts(s, j + 1)
        } else {
            Seq::empty()
        }
    }
}

/// Whether the path starts at the root.
pub open spec fn has_root(s: Seq<u8>) -> bool {
    s.len() > 0 && s[0] == SEP
}

/// Whether the path starts with the name `.`.
pub open spec fn has_leading_dot(s: Seq<u8>) -> bool {
    s.len() > 0 && s[0] == DOT && (s.len() == 1 || s[1] == SEP)
}

/// What the start of a path contributes: the root, a leading `.`, or nothing.
pub open spec fn head_parts(s: Seq<u8>) -> Seq<Part> {
    if has_root(s) {
        seq![Part::RootDir]
    } else if has_leading_dot(s) {
        seq![Part::CurDir]
    } else {
        Seq::empty()
    }
}

/// The components of a path. Separators split the text into segments;
/// repeated and trailing separators count for nothing; `.` counts only at
/// the very start of a relative path; `..` is kept wherever it stands.
pub open spec fn path_parts(s: Seq<u8>) -> Seq<Part> {
    head_parts(s) + body_parts(s, 0)
}

/// The text of `base` extended by `t`: `t` alone where it starts at the
/// root, else `base` and `t` with exactly one separator between them unless
/// `base` is empty or already ends in one.
pub open spec fn joined(base: Seq<u8>, t: Seq<u8>) -> Seq<u8> {
    if has_root(t) {
        t
    } else if base.len() == 0 || base.last() == SEP {
        base + t
    } else {
        base + seq![SEP] + t
    }
}

/// The path that a sequence of components spells, each joined to what stands
/// before it.
pub open spec fn parts_text(ps: Seq<Part>) -> Seq<u8>
    decreases ps.len(),
{
    if ps.len() == 0 {
        Seq::empty()
    } else {
        joined(parts_text(ps.drop_last()), part_text(ps.last()))
    }
}

/// `segment_end(s, i)` is the one index from `i` on that is a separator or
/// the end, with no separator before it.
pub proof fn lemma_segment_end(s: Seq<u8>, i: int)
    requires
        0 <= i <= s.len(),
    ensures
        i <= segment_end(s, i) <= s.len(),
        segment_end(s, i) < s.len() ==> s[segment_end(s, i)] == SEP,
        forall|k: int| i <= k < segment_end(s, i) ==> s[k] != SEP,
    decreases s.len() - i,
{
    if i < s.len() && s[i] != SEP {
        lemma_segment_end(s, i + 1);
    }
}

/// An index that is a separator or the end, with no separator between `i`
/// and it, is `segment_end(s, i)`.
pub proof fn lemma_segment_end_is(s: Seq<u8>, i: int, j: int)
    requires
        0 <= i <= j <= s.len(),
        j < s.len() ==> s[j] == SEP,
        forall|k: int| i <= k < j ==> s[k] != SEP,
    ensures
        segment_end(s, i) == j,
    decreases j - i,
{
    if i < j {
        lemma_segment_end_is(s, i + 1, j);
    }
}

/// Whether no byte of `t` is a separator.
pub open spec fn no_sep(t: Seq<u8>) -> bool {
    forall|k: int| 0 <= k < t.len() ==> t[k] != SEP
}

/// Whether `t` can be the name of an entry: not empty, not `.` or `..`, and
/// without a separator.
pub open spec fn is_name(t: Seq<u8>) -> bool {
    t.len() > 0 && !is_dot(t) && !is_dot_dot(t) && no_sep(t)
}

/// Whether the component can stand anywhere in a path: `..` or a named
/// entry.
pub open spec fn is_entry(p: Part) -> bool {
    match p {
        Part::ParentDir => true,
        Part::Normal(t) => is_name(t),
        _ => false,
    }
}

/// Whether a sequence of components is one that a path splits into: the
/// root or `.` at most in the first place, and entries everywhere else.
pub open spec fn well_formed(ps: Seq<Part>) -> bool {
    forall|i: int|
        0 <= i < ps.len() ==> is_entry(#[trigger] ps[i]) || (i == 0 && (ps[i] is RootDir
            || ps[i] is CurDir))
}

/// Where no separator stands from `i` on, the text from `i` on is one
/// segment.
proof fn lemma_body_of_last_segment(s: Seq<u8>, i: int)
    requires
        0 <= i <= s.len(),
        forall|k: int| i <= k < s.len() ==> s[k] != SEP,
    ensures
        body_parts(s, i) == segment_parts(s.subrange(i, s.len() as int)),
{
    if i < s.len() {
        lemma_segment_end_is(s, i, s.len() as int);
        assert(body_parts(s, s.len() as int + 1) =~= Seq::<Part>::empty());
        assert(body_parts(s, i) =~= segment_parts(s.subrange(i, s.len() as int)));
    }
}

/// A separator and one more segment behind a text add that segment's
/// components to the text's own.
pub proof fn lemma_body_parts_append(s: Seq<u8>, t: Seq<u8>, i: int)
    requires
        0 <= i <= s.len(),
        no_sep(t),
    ensures
        body_parts(s + seq![SEP] + t, i) == body_parts(s, i) + segment_parts(t),
    decreases s.len() - i,
{
    let u = s + seq![SEP] + t;
    if i == s.len() {
        lemma_segment_end_is(u, i, i);
        lemma_body_of_last_segment(u, i + 1);
        assert(u.subrange(i + 1, u.len() as int) =~= t);
        assert(u.subrange(i, i) =~= Seq::<u8>::empty());
        assert(body_parts(u, i) =~= segment_parts(t));
        assert(body_parts(s, i) + segment_parts(t) =~= segment_parts(t));
    } else {
        lemma_segment_end(s, i);
        let j = segment_end(s, i);
        lemma_segment_end_is(u, i, j);
        assert(u.subrange(i, j) =~= s.subrange(i, j));
        if j < s.len() {
            lemma_body_parts_append(s, t, j + 1);
        } else {
            lemma_body_of_last_segment(u, j + 1);
            assert(u.subrange(j + 1, u.len() as int) =~= t);
            assert(body_parts(s, j + 1) =~= Seq::<Part>::empty());
        }
        assert(body_parts(u, i) =~= body_parts(s, i) + segment_parts(t));
    }
}

/// Every component that the segments of a text give is an entry.
proof fn lemma_body_parts_are_entries(s: Seq<u8>, i: int)
    requires
        0 <= i,
    ensures
        forall|k: int|
            0 <= k < body_parts(s, i).len() ==> is_entry(#[trigger] body_parts(s, i)[k]),
    decreases s.len() + 1 - i,
{
    if i < s.len() {
        lemma_segment_end(s, i);
        let j = segment_end(s, i);
        lemma_body_parts_are_entries(s, j + 1);
        let seg = s.subrange(i, j);
        let first = segment_parts(seg);
        let rest = body_parts(s, j + 1);
        assert(no_sep(seg));
        assert forall|k: int| 0 <= k < body_parts(s, i).len() implies is_entry(
            #[trigger] body_parts(s, i)[k],
        ) by {
            if k < first.len() {
                assert(body_parts(s, i)[k] == first[k]);
            } else {
                assert(body_parts(s, i)[k] == rest[k - first.len()]);
            }
        }
    }
}

/// What a path splits into is well formed.
pub proof fn lemma_path_parts_well_formed(s: Seq<u8>)
    ensures
        well_formed(path_parts(s)),
{
    lemma_body_parts_are_entries(s, 0);
}

/// Well-formed components, not none, spell a path that is not empty.
pub proof fn lemma_parts_text_not_empty(ps: Seq<Part>)
    requires
        well_formed(ps),
        ps.len() > 0,
    ensures
        parts_text(ps).len() > 0,
{
    let p = ps.last();
    assert(is_entry(p) || p is RootDir || p is CurDir);
    assert(part_text(p).len() > 0);
}

/// Splitting undoes spelling: the path that well-formed components spell
/// splits into those components again.
pub proof fn lemma_round_trip(ps: Seq<Part>)
    requires
        well_formed(ps),
    ensures
        path_parts(parts_text(ps)) == ps,
    decreases ps.len(),
{
    if ps.len() == 0 {
        assert(path_parts(parts_text(ps)) =~= ps);
    } else {
        let init = ps.drop_last();
        let p = ps.last();
        let r = parts_text(init);
        let t = part_text(p);
        let whole = parts_text(ps);
        assert(is_entry(p) || (ps.len() == 1 && (p is RootDir || p is CurDir)));
        assert forall|i: int| 0 <= i < init.len() implies is_entry(#[trigger] init[i]) || (i == 0
            && (init[i] is RootDir || init[i] is CurDir)) by {
            assert(init[i] == ps[i]);
        }
        lemma_round_trip(init);
        if init.len() == 0 {
            assert(whole =~= t);
            if is_entry(p) {
                lemma_body_of_last_segment(t, 0);
                assert(t.subrange(0, t.len() as int) =~= t);
                assert(head_parts(t) =~= Seq::<Part>::empty());
            } else if p is RootDir {
                lemma_segment_end_is(t, 0, 0);
                assert(t.subrange(0, 0) =~= Seq::<u8>::empty());
                assert(body_parts(t, 1) =~= Seq::<Part>::empty());
                assert(body_parts(t, 0) =~= Seq::<Part>::empty());
            } else {
                lemma_body_of_last_segment(t, 0);
                assert(t.subrange(0, t.len() as int) =~= t);
            }
            assert(path_parts(whole) =~= ps);
        } else {
            assert(is_entry(p));
            assert(no_sep(t));
            assert(segment_parts(t) =~= seq![p]);
            lemma_parts_text_not_empty(init);
            if r.last() == SEP {
                let r2 = r.drop_last();
                lemma_body_parts_append(r2, t, 0);
                lemma_body_parts_append(r2, Seq::<u8>::empty(), 0);
                assert(r2 + seq![SEP] + Seq::<u8>::empty() =~= r);
                assert(r2 + seq![SEP] + t =~= whole);
                assert(body_parts(r, 0) =~= body_parts(r2, 0));
            } else {
                lemma_body_parts_append(r, t, 0);
            }
            assert(body_parts(whole, 0) == body_parts(r, 0) + seq![p]);
            assert(head_parts(whole) == head_parts(r));
            assert(path_parts(whole) =~= path_parts(r) + seq![p]);
            assert(init + seq![p] =~= ps);
        }
    }
}

/// Splits a path into its components.
pub fn components(path: &[u8]) -> (r: Vec<Component>)
    ensures
        parts_of(r@) == path_parts(path@),
{
    let n: usize = path.len();
    let mut out: Vec<Component> = Vec::new();
    if n > 0 && path[0] == SEP {
        out.push(Component::RootDir);
    } else if n > 0 && path[0] == DOT && (n == 1 || path[1] == SEP) {
        out.push(Component::CurDir);
    }
    assert(parts_of(out@) =~= head_parts(path@));
    let mut i: usize = 0;
    while i < n
        invariant
            n == path@.len(),
            i <= n,
            parts_of(out@) + body_parts(path@, i as int) == path_parts(path@),
        decreases n - i,
    {
        let mut j: usize = i;
        while j < n && path[j] != SEP
            invariant
                n == path@.len(),
                i <= j <= n,
                forall|k: int| i <= k < j ==> path@[k] != SEP,
            decreases n - j,
        {
            j += 1;
        }
        proof {
            lemma_segment_end_is(path@, i as int, j as int);
        }
        let ghost before = parts_of(out@);
        let ghost seg = path@.subrange(i as int, j as int);
        if j - i == 0 || (j - i == 1 && path[i] == DOT) {
        } else if j - i == 2 && path[i] == DOT && path[i + 1] == DOT {
            out.push(Component::ParentDir);
        } else {
            let name = slice_to_vec(slice_subrange(path, i, j));
            out.push(Component::Normal(name));
        }
        assert(parts_of(out@) =~= before + segment_parts(seg));
        assert(body_parts(path@, i as int) == segment_parts(seg) + body_parts(path@, j + 1));
        assert(before + (segment_parts(seg) + body_parts(path@, j + 1)) =~= (before
            + segment_parts(seg)) + body_parts(path@, j + 1));
        if j < n {
            i = j + 1;
        } else {
            i = n;
        }
    }
    assert(parts_of(out@) + body_parts(path@, n as int) =~= parts_of(out@));
    out
}

/// Extends the path in `buf` by `t`, as [`joined`] says.
pub fn push_bytes(buf: &mut Vec<u8>, t: &[u8])
    ensures
        final(buf)@ == joined(old(buf)@, t@),
{
    if t.len() > 0 && t[0] == SEP {
        buf.clear();
    } else if buf.len() > 0 && buf[buf.len() - 1] != SEP {
        buf.push(SEP);
    }
    let ghost start = buf@;
    buf.extend_from_slice(t);
    assert(buf@ =~= start + t@);
    assert(buf@ =~= joined(old(buf)@, t@));
}

/// Puts components together into the path that they spell.
pub fn render(cs: &Vec<Component>) -> (r: Vec<u8>)
    ensures
        r@ == parts_text(parts_of(cs@)),
{
    let mut buf: Vec<u8> = Vec::new();
    let mut i: usize = 0;
    while i < cs.len()
        invariant
            i <= cs.len(),
            buf@ == parts_text(parts_of(cs@).take(i as int)),
        decreases cs.len() - i,
    {
        let text = cs[i].to_bytes();
        push_bytes(&mut buf, text.as_slice());
        proof {
            let ps = parts_of(cs@);
            assert(ps.take(i + 1).drop_last() =~= ps.take(i as int));
            assert(ps.take(i + 1).last() == cs@[i as int]@);
        }
        i += 1;
    }
    assert(parts_of(cs@).take(cs.len() as int) =~= parts_of(cs@));
    buf
}

} // verus!
