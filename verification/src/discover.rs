//! Discovery: sorting what a walk of a directory tree yields into files and
//! directories, without going again through directories that were visited
//! before.

use vstd::prelude::*;
use vstd::seq_lib::{to_multiset_insert, to_multiset_remove};
use crate::abs::PathAbs;
use crate::order::{bytes_le, lemma_text_le_total, lemma_text_le_transitive, sorted, text_le};

verus! {

/// One entry that a walk of a directory tree yields. A walk yields a
/// directory before what it holds, and what a directory holds one level
/// below it.
#[derive(Debug, PartialEq, Eq)]
pub struct WalkEntry {
    /// The canonical path of the entry.
    pub path: PathAbs,
    /// How many levels below the start of the walk the entry stands.
    pub depth: usize,
    /// Whether the entry is a directory.
    pub is_dir: bool,
}

/// The files and directories that a discovery found, each in the order of
/// the walk.
#[derive(Debug, PartialEq, Eq)]
pub struct FoundPaths {
    pub files: Vec<PathAbs>,
    pub dirs: Vec<PathAbs>,
}

/// The texts of a sequence of paths, one for one.
pub open spec fn texts(ps: Seq<PathAbs>) -> Seq<Seq<u8>> {
    ps.map_values(|p: PathAbs| p@)
}

/// Where the walk leaves the directory at level `depth`: the first index
/// from `i` on whose entry is not below that level, or the end.
pub open spec fn subtree_end(walk: Seq<WalkEntry>, i: int, depth: usize) -> int
    decreases walk.len() - i,
{
    if i < 0 || i >= walk.len() || walk[i].depth <= depth {
        i
    } else {
        subtree_end(walk, i + 1, depth)
    }
}

/// Which entry the discovery looks at after entry `i`: the next one, but
/// for a directory that was visited before, whose whole content is passed
/// over.
pub open spec fn step_after(walk: Seq<WalkEntry>, visited: Seq<Seq<u8>>, i: int) -> int {
    if visited.contains(walk[i].path@) && walk[i].is_dir {
        subtree_end(walk, i + 1, walk[i].depth)
    } else {
        i + 1
    }
}

/// The paths that the discovery comes to from entry `i` on and that were
/// not visited before: the directories among them where `dirs` holds, else
/// the others.
pub open spec fn unvisited(walk: Seq<WalkEntry>, visited: Seq<Seq<u8>>, dirs: bool, i: int) -> Seq<
    PathAbs,
>
    decreases walk.len() - i,
{
    if i < 0 || i >= walk.len() {
        Seq::empty()
    } else {
        let here = if !visited.contains(walk[i].path@) && walk[i].is_dir == dirs {
            seq![walk[i].path]
        } else {
            Seq::empty()
        };
        let j = step_after(walk, visited, i);
        if i < j <= walk.len() {
            here + unvisited(walk, visited, dirs, j)
        } else {
            here
        }
    }
}

/// The paths of `ps` whose verdict holds, in their order.
pub open spec fn kept(ps: Seq<PathAbs>, verdicts: Seq<bool>) -> Seq<PathAbs>
    decreases ps.len(),
{
    if ps.len() == 0 || verdicts.len() != ps.len() {
        Seq::empty()
    } else if verdicts.last() {
        kept(ps.drop_last(), verdicts.drop_last()).push(ps.last())
    } else {
        kept(ps.drop_last(), verdicts.drop_last())
    }
}

/// Whether `verdicts` holds, for each path of `ps`, an answer that `filter`
/// can give for it.
pub open spec fn answers_of<F: Fn(&PathAbs) -> bool>(
    filter: &F,
    ps: Seq<PathAbs>,
    verdicts: Seq<bool>,
) -> bool {
    verdicts.len() == ps.len() && forall|k: int|
        0 <= k < ps.len() ==> call_ensures(*filter, (&#[trigger] ps[k],), verdicts[k])
}

/// `subtree_end` stays within the walk.
pub proof fn lemma_subtree_end(walk: Seq<WalkEntry>, i: int, depth: usize)
    requires
        0 <= i <= walk.len(),
    ensures
        i <= subtree_end(walk, i, depth) <= walk.len(),
    decreases walk.len() - i,
{
    if i < walk.len() && walk[i].depth > depth {
        lemma_subtree_end(walk, i + 1, depth);
    }
}

/// Nothing that the discovery finds was visited before.
pub proof fn lemma_unvisited_not_visited(
    walk: Seq<WalkEntry>,
    visited: Seq<Seq<u8>>,
    dirs: bool,
    i: int,
)
    ensures
        forall|k: int|
            0 <= k < unvisited(walk, visited, dirs, i).len() ==> !visited.contains(
                #[trigger] unvisited(walk, visited, dirs, i)[k]@,
            ),
    decreases walk.len() - i,
{
    if 0 <= i < walk.len() {
        let j = step_after(walk, visited, i);
        let all = unvisited(walk, visited, dirs, i);
        if i < j <= walk.len() {
            lemma_unvisited_not_visited(walk, visited, dirs, j);
            let rest = unvisited(walk, visited, dirs, j);
            assert forall|k: int| 0 <= k < all.len() implies !visited.contains(#[trigger] all[k]@) by {
                if all.len() == rest.len() {
                    assert(all[k] == rest[k]);
                } else if k > 0 {
                    assert(all[k] == rest[k - 1]);
                }
            }
        }
    }
}

/// Where nothing was visited before, the discovery comes to every entry of
/// the walk.
pub proof fn lemma_nothing_visited(walk: Seq<WalkEntry>, dirs: bool, i: int)
    requires
        0 <= i,
    ensures
        forall|k: int|
            i <= k < walk.len() && walk[k].is_dir == dirs ==> unvisited(
                walk,
                Seq::empty(),
                dirs,
                i,
            ).contains(#[trigger] walk[k].path),
    decreases walk.len() - i,
{
    let none = Seq::<Seq<u8>>::empty();
    if i < walk.len() {
        lemma_nothing_visited(walk, dirs, i + 1);
        let all = unvisited(walk, none, dirs, i);
        let rest = unvisited(walk, none, dirs, i + 1);
        assert(!none.contains(walk[i].path@));
        assert(step_after(walk, none, i) == i + 1);
        assert forall|k: int| i <= k < walk.len() && walk[k].is_dir == dirs implies all.contains(
            #[trigger] walk[k].path,
        ) by {
            if k == i {
                assert(all[0] == walk[i].path);
            } else {
                assert(rest.contains(walk[k].path));
                let m = choose|m: int| 0 <= m < rest.len() && rest[m] == walk[k].path;
                assert(all[all.len() - rest.len() + m] == rest[m]);
            }
        }
    }
}

/// Whether `p` is one of `ps` whose verdict holds.
pub open spec fn accepted_in(ps: Seq<PathAbs>, verdicts: Seq<bool>, p: PathAbs) -> bool {
    exists|m: int| 0 <= m < ps.len() && m < verdicts.len() && verdicts[m] && #[trigger] ps[m] == p
}

/// What is kept is part of what was there: every kept path is one of `ps`
/// whose verdict holds.
pub proof fn lemma_kept_were_accepted(ps: Seq<PathAbs>, verdicts: Seq<bool>)
    requires
        verdicts.len() == ps.len(),
    ensures
        kept(ps, verdicts).len() <= ps.len(),
        forall|k: int|
            0 <= k < kept(ps, verdicts).len() ==> accepted_in(
                ps,
                verdicts,
                #[trigger] kept(ps, verdicts)[k],
            ),
    decreases ps.len(),
{
    if ps.len() > 0 {
        let init = ps.drop_last();
        let vinit = verdicts.drop_last();
        lemma_kept_were_accepted(init, vinit);
        assert forall|k: int| 0 <= k < kept(ps, verdicts).len() implies accepted_in(
            ps,
            verdicts,
            #[trigger] kept(ps, verdicts)[k],
        ) by {
            if k < kept(init, vinit).len() {
                let p = kept(init, vinit)[k];
                assert(accepted_in(init, vinit, p));
                let m = choose|m: int|
                    0 <= m < init.len() && m < vinit.len() && vinit[m] && #[trigger] init[m] == p;
                assert(verdicts[m] && ps[m] == p);
            } else {
                let m = ps.len() - 1;
                assert(verdicts[m] && ps[m] == kept(ps, verdicts)[k]);
            }
        }
    }
}

/// Where every verdict holds, everything is kept; where none holds, nothing
/// is.
pub proof fn lemma_kept_all_or_none(ps: Seq<PathAbs>, verdicts: Seq<bool>, all: bool)
    requires
        verdicts.len() == ps.len(),
        forall|k: int| 0 <= k < verdicts.len() ==> verdicts[k] == all,
    ensures
        kept(ps, verdicts) == if all {
            ps
        } else {
            Seq::empty()
        },
    decreases ps.len(),
{
    if ps.len() > 0 {
        lemma_kept_all_or_none(ps.drop_last(), verdicts.drop_last(), all);
        if all {
            assert(ps.drop_last().push(ps.last()) =~= ps);
        }
    }
}

/// Whether one of `visited` has the text of `path`.
pub fn was_visited(visited: &[PathAbs], path: &PathAbs) -> (r: bool)
    ensures
        r == texts(visited@).contains(path@),
{
    let mut i: usize = 0;
    while i < visited.len()
        invariant
            i <= visited@.len(),
            forall|k: int| 0 <= k < i ==> texts(visited@)[k] != path@,
        decreases visited.len() - i,
    {
        if visited[i].same(path) {
            assert(texts(visited@)[i as int] == path@);
            return true;
        }
        i += 1;
    }
    false
}

impl FoundPaths {
    /// Nothing found yet.
    pub fn new() -> (r: FoundPaths)
        ensures
            r.files@.len() == 0,
            r.dirs@.len() == 0,
    {
        FoundPaths { files: Vec::new(), dirs: Vec::new() }
    }

    /// Takes in one entry of a walk. Returns whether the walk is to pass
    /// over what the entry holds: it is a directory that was visited
    /// before.
    ///
    /// An entry that was visited before is left out. Another directory is
    /// found. Another file is found where `filter` accepts it: `filter` is
    /// asked of such files alone.
    pub fn visit<F: Fn(&PathAbs) -> bool>(
        &mut self,
        entry: &WalkEntry,
        filter: &F,
        visited: &[PathAbs],
    ) -> (skip: bool)
        requires
            call_requires(*filter, (&entry.path,)),
        ensures
            skip == (texts(visited@).contains(entry.path@) && entry.is_dir),
            texts(visited@).contains(entry.path@) ==> *final(self) == *old(self),
            !texts(visited@).contains(entry.path@) && entry.is_dir ==> {
                &&& texts(final(self).dirs@) == texts(old(self).dirs@).push(entry.path@)
                &&& final(self).files == old(self).files
            },
            !texts(visited@).contains(entry.path@) && !entry.is_dir ==> {
                &&& final(self).dirs == old(self).dirs
                &&& exists|keep: bool|
                    {
                        &&& call_ensures(*filter, (&entry.path,), keep)
                        &&& texts(final(self).files@) == if keep {
                            texts(old(self).files@).push(entry.path@)
                        } else {
                            texts(old(self).files@)
                        }
                    }
            },
    {
        if was_visited(visited, &entry.path) {
            return entry.is_dir;
        }
        if entry.is_dir {
            self.dirs.push(entry.path.clone());
            assert(texts(self.dirs@) =~= texts(old(self).dirs@).push(entry.path@));
        } else {
            let keep = filter(&entry.path);
            if keep {
                self.files.push(entry.path.clone());
                assert(texts(self.files@) =~= texts(old(self).files@).push(entry.path@));
            }
            assert(call_ensures(*filter, (&entry.path,), keep));
        }
        false
    }

    /// Puts the files and the directories in the order of their texts.
    pub fn sort(&mut self)
        ensures
            sorted(texts(final(self).files@)),
            sorted(texts(final(self).dirs@)),
            final(self).files@.to_multiset() == old(self).files@.to_multiset(),
            final(self).dirs@.to_multiset() == old(self).dirs@.to_multiset(),
    {
        sort_paths(&mut self.files);
        sort_paths(&mut self.dirs);
    }
}

/// Puts paths in the order of their texts.
pub fn sort_paths(paths: &mut Vec<PathAbs>)
    ensures
        sorted(texts(final(paths)@)),
        final(paths)@.to_multiset() == old(paths)@.to_multiset(),
{
    let mut i: usize = 0;
    while i < paths.len()
        invariant
            i <= paths@.len(),
            paths@.to_multiset() == old(paths)@.to_multiset(),
            sorted(texts(paths@.take(i as int))),
        decreases paths.len() - i,
    {
        let ghost before = paths@;
        let x = paths.remove(i);
        let ghost without = paths@;
        let mut j: usize = i;
        while j > 0 && !bytes_le(paths[j - 1].as_path(), x.as_path())
            invariant
                j <= i <= paths@.len(),
                paths@ == without,
                forall|k: int| j <= k < i ==> text_le(x@, #[trigger] paths@[k]@),
            decreases j,
        {
            proof {
                lemma_text_le_total(paths@[j - 1]@, x@);
            }
            j -= 1;
        }
        paths.insert(j, x);
        proof {
            to_multiset_remove(before, i as int);
            to_multiset_insert(without, j as int, x);
            assert(before.to_multiset().remove(x).insert(x) =~= before.to_multiset()) by {
                assert(before.to_multiset().count(x) > 0) by {
                    assert(before[i as int] == x);
                    vstd::seq_lib::to_multiset_contains(before, x);
                }
            }
            let old_ts = texts(before.take(i as int));
            let new_ts = texts(paths@.take(i + 1));
            assert forall|p: int, q: int| 0 <= p < q < new_ts.len() implies text_le(
                new_ts[p],
                new_ts[q],
            ) by {
                if q < j {
                    assert(new_ts[p] == old_ts[p] && new_ts[q] == old_ts[q]);
                } else if q == j {
                    assert(new_ts[p] == old_ts[p]);
                    assert(text_le(old_ts[j - 1], x@));
                    if p < j - 1 {
                        assert(text_le(old_ts[p], old_ts[j - 1]));
                        lemma_text_le_transitive(old_ts[p], old_ts[j - 1], x@);
                    }
                } else if p < j {
                    assert(new_ts[p] == old_ts[p] && new_ts[q] == old_ts[q - 1]);
                } else if p == j {
                    assert(new_ts[q] == without[q - 1]@);
                } else {
                    assert(new_ts[p] == old_ts[p - 1] && new_ts[q] == old_ts[q - 1]);
                }
            }
        }
        i += 1;
    }
    assert(paths@.take(paths@.len() as int) =~= paths@);
}

/// Sorts the entries of a walk into files and directories.
///
/// `walk` is what a walk of a directory tree yields, in its order. An entry
/// whose path is among `visited` is left out, and where it is a directory,
/// so is everything below it. Of the other entries, the directories are
/// found, all of them, and the files that `filter` accepts.
pub fn discover_paths<F: Fn(&PathAbs) -> bool>(
    walk: &[WalkEntry],
    filter: &F,
    visited: &[PathAbs],
) -> (found: FoundPaths)
    requires
        forall|i: int| 0 <= i < walk@.len() ==> call_requires(*filter, (&#[trigger] walk@[i].path,)),
    ensures
        texts(found.dirs@) == texts(unvisited(walk@, texts(visited@), true, 0)),
        exists|verdicts: Seq<bool>|
            {
                &&& answers_of(filter, unvisited(walk@, texts(visited@), false, 0), verdicts)
                &&& texts(found.files@) == texts(
                    kept(unvisited(walk@, texts(visited@), false, 0), verdicts),
                )
            },
{
    let mut found = FoundPaths::new();
    let ghost seen = texts(visited@);
    let ghost mut asked: Seq<PathAbs> = Seq::empty();
    let ghost mut verdicts: Seq<bool> = Seq::empty();
    let mut i: usize = 0;
    assert(texts(found.dirs@) =~= Seq::empty());
    assert(texts(found.files@) =~= texts(kept(asked, verdicts)));
    while i < walk.len()
        invariant
            i <= walk@.len(),
            seen == texts(visited@),
            forall|k: int|
                0 <= k < walk@.len() ==> call_requires(*filter, (&#[trigger] walk@[k].path,)),
            texts(found.dirs@) + texts(unvisited(walk@, seen, true, i as int)) == texts(
                unvisited(walk@, seen, true, 0),
            ),
            asked + unvisited(walk@, seen, false, i as int) == unvisited(walk@, seen, false, 0),
            answers_of(filter, asked, verdicts),
            texts(found.files@) == texts(kept(asked, verdicts)),
        decreases walk.len() - i,
    {
        let entry = &walk[i];
        let ghost dirs_before = texts(found.dirs@);
        let ghost files_before = texts(found.files@);
        let ghost asked_before = asked;
        let ghost verdicts_before = verdicts;
        let ghost j = step_after(walk@, seen, i as int);
        proof {
            lemma_subtree_end(walk@, i + 1, entry.depth);
        }
        let skip = found.visit(entry, filter, visited);
        proof {
            let rest_dirs = unvisited(walk@, seen, true, j);
            let rest_files = unvisited(walk@, seen, false, j);
            if !seen.contains(entry.path@) && !entry.is_dir {
                let keep = choose|keep: bool|
                    {
                        &&& call_ensures(*filter, (&entry.path,), keep)
                        &&& texts(found.files@) == if keep {
                            files_before.push(entry.path@)
                        } else {
                            files_before
                        }
                    };
                asked = asked_before.push(entry.path);
                verdicts = verdicts_before.push(keep);
                assert(asked.drop_last() =~= asked_before);
                assert(verdicts.drop_last() =~= verdicts_before);
                assert(texts(kept(asked, verdicts)) =~= if keep {
                    texts(kept(asked_before, verdicts_before)).push(entry.path@)
                } else {
                    texts(kept(asked_before, verdicts_before))
                });
                assert(asked + rest_files =~= asked_before + (seq![entry.path] + rest_files));
                assert(unvisited(walk@, seen, true, i as int) =~= rest_dirs);
            } else if !seen.contains(entry.path@) {
                assert(texts(found.dirs@) + texts(rest_dirs) =~= dirs_before + texts(
                    seq![entry.path] + rest_dirs,
                ));
                assert(unvisited(walk@, seen, false, i as int) =~= rest_files);
            } else {
                assert(unvisited(walk@, seen, true, i as int) =~= rest_dirs);
                assert(unvisited(walk@, seen, false, i as int) =~= rest_files);
            }
        }
        i += 1;
        if skip {
            while i < walk.len() && walk[i].depth > entry.depth
                invariant
                    i <= walk@.len(),
                    subtree_end(walk@, i as int, entry.depth) == j,
                decreases walk.len() - i,
            {
                i += 1;
            }
        }
        assert(i == j);
    }
    proof {
        assert(texts(found.dirs@) + texts(unvisited(walk@, seen, true, i as int)) =~= texts(
            found.dirs@,
        ));
        assert(asked + unvisited(walk@, seen, false, i as int) =~= asked);
    }
    found
}

} // verus!
