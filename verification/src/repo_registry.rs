//! The registry of tracked repositories: a list of repository roots kept
//! sorted by path, each at most once.
use vstd::prelude::*;

use crate::order::{
    lemma_index_order_covers, lemma_str_lt_irreflexive, sort_indices_by_str, stably_sorted_by_str,
    str_lt,
};
use crate::text::{cat, chars_of, owned, str_eq, string_of_range, trim, trimmed};

verus! {

/// A tracked repository root.
#[derive(Debug, Clone)]
pub struct TrackedRepo {
    pub path: String,
}

/// The tracked repositories.
#[derive(Debug, Clone)]
pub struct RepoRegistry {
    pub repos: Vec<TrackedRepo>,
}

pub open spec fn paths_of(v: Seq<TrackedRepo>) -> Seq<Seq<char>> {
    v.map_values(|r: TrackedRepo| r.path@)
}

impl RepoRegistry {
    /// The registry's paths, in order.
    pub open spec fn paths(&self) -> Seq<Seq<char>> {
        paths_of(self.repos@)
    }

    /// Paths in increasing order, none twice.
    pub open spec fn well_formed(&self) -> bool {
        forall|i: int, j: int|
            0 <= i < j < self.paths().len() ==> str_lt(
                #[trigger] self.paths()[i],
                #[trigger] self.paths()[j],
            )
    }

    /// An empty registry.
    pub fn new() -> (res: RepoRegistry)
        ensures
            res.paths().len() == 0,
            res.well_formed(),
    {
        RepoRegistry { repos: Vec::new() }
    }

    /// Tracks the canonical repository root `canonical`. A path already
    /// tracked leaves the registry as it was and answers `false`;
    /// otherwise the path is added, the list sorted by path (stably) and
    /// `true` answered: the registry must then be saved.
    pub fn add_repo(&mut self, canonical: &str) -> (added: bool)
        ensures
            added == !old(self).paths().contains(canonical@),
            !added ==> final(self).paths() == old(self).paths(),
            added ==> exists|idx: Seq<usize>|
                #[trigger] stably_sorted_by_str(old(self).paths().push(canonical@), idx)
                    && final(self).paths() == pick_paths(old(self).paths().push(canonical@), idx),
            final(self).paths().contains(canonical@),
            forall|p: Seq<char>|
                #[trigger] final(self).paths().contains(p) <==> (old(self).paths().contains(p) || p
                    == canonical@),
            old(self).well_formed() ==> final(self).well_formed(),
    {
        let mut i: usize = 0;
        while i < self.repos.len()
            invariant
                i <= self.repos.len(),
                forall|j: int| 0 <= j < i ==> self.repos@[j].path@ != canonical@,
            decreases self.repos.len() - i,
        {
            if str_eq(self.repos[i].path.as_str(), canonical) {
                assert(self.paths()[i as int] == canonical@);
                assert(self.paths().contains(canonical@));
                return false;
            }
            i = i + 1;
        }
        proof {
            if self.paths().contains(canonical@) {
                let k = choose|k: int| 0 <= k < self.paths().len() && self.paths()[k] == canonical@;
                assert(self.repos@[k].path@ == canonical@);
            }
        }
        let ghost grown = self.paths().push(canonical@);
        let mut all: Vec<TrackedRepo> = Vec::new();
        let mut keys: Vec<Vec<char>> = Vec::new();
        let mut j: usize = 0;
        while j < self.repos.len()
            invariant
                j <= self.repos.len(),
                grown == paths_of(self.repos@).push(canonical@),
                paths_of(all@) == paths_of(self.repos@).take(j as int),
                keys@.map_values(|k: Vec<char>| k@) == paths_of(self.repos@).take(j as int),
            decreases self.repos.len() - j,
        {
            let p = self.repos[j].path.clone();
            let k = chars_of(p.as_str());
            let ghost b1 = all@;
            let ghost b2 = keys@;
            all.push(TrackedRepo { path: p });
            keys.push(k);
            assert(paths_of(all@) =~= paths_of(b1).push(self.repos@[j as int].path@));
            assert(keys@.map_values(|k: Vec<char>| k@) =~= b2.map_values(|k: Vec<char>| k@).push(
                self.repos@[j as int].path@,
            ));
            assert(paths_of(self.repos@).take(j + 1) =~= paths_of(self.repos@).take(j as int).push(
                self.repos@[j as int].path@,
            ));
            j = j + 1;
        }
        assert(paths_of(self.repos@).take(j as int) =~= paths_of(self.repos@));
        let ghost b1 = all@;
        let ghost b2 = keys@;
        all.push(TrackedRepo { path: owned(canonical) });
        keys.push(chars_of(canonical));
        assert(paths_of(all@) =~= grown);
        assert(keys@.map_values(|k: Vec<char>| k@) =~= grown);
        let order = sort_indices_by_str(&keys);
        let mut sorted: Vec<TrackedRepo> = Vec::new();
        let mut k: usize = 0;
        while k < order.len()
            invariant
                k <= order.len(),
                paths_of(all@) == grown,
                stably_sorted_by_str(grown, order@),
                paths_of(sorted@) == order@.take(k as int).map_values(|i: usize| grown[i as int]),
            decreases order.len() - k,
        {
            let idx = order[k];
            assert((order@[k as int] as int) < grown.len());
            let p = all[idx].path.clone();
            let ghost before = sorted@;
            sorted.push(TrackedRepo { path: p });
            assert(paths_of(sorted@) =~= paths_of(before).push(grown[idx as int]));
            assert(order@.take(k + 1).map_values(|i: usize| grown[i as int]) =~= order@.take(
                k as int,
            ).map_values(|i: usize| grown[i as int]).push(grown[idx as int]));
            k = k + 1;
        }
        assert(order@.take(k as int) =~= order@);
        let ghost before = old(self).paths();
        self.repos = sorted;
        assert(self.paths() =~= pick_paths(grown, order@));
        proof {
            assert(grown.len() == all@.len());
            assert(grown[grown.len() - 1] == canonical@);
            assert forall|i: int| 0 <= i < before.len() implies #[trigger] grown[i] == before[i] by {}
            if old(self).well_formed() {
                assert forall|i: int, j: int| 0 <= i < grown.len() && 0 <= j < grown.len() && i != j implies
                    grown[i] != grown[j] by {
                    if i < before.len() && j < before.len() {
                        let (a, b) = if i < j { (i, j) } else { (j, i) };
                        assert(str_lt(before[a], before[b]));
                        lemma_str_lt_irreflexive(before[a]);
                    } else if i < before.len() {
                        assert(before.contains(grown[i]));
                    } else if j < before.len() {
                        assert(before.contains(grown[j]));
                    }
                }
            }
            lemma_pick_of_order(grown, order@, old(self).well_formed());
            assert(grown.contains(canonical@));
            assert forall|p: Seq<char>| grown.contains(p) <==> (before.contains(p) || p == canonical@) by {
                if grown.contains(p) {
                    let k = choose|k: int| 0 <= k < grown.len() && grown[k] == p;
                    if k < before.len() {
                        assert(before.contains(p));
                    }
                }
                if before.contains(p) {
                    let k = choose|k: int| 0 <= k < before.len() && before[k] == p;
                    assert(grown[k] == p);
                }
            }
        }
        true
    }

    /// Removes the repository at `index` and gives it back; an index past
    /// the end changes nothing and gives nothing.
    pub fn remove_index(&mut self, index: usize) -> (removed: Option<TrackedRepo>)
        ensures
            index >= old(self).repos@.len() ==> removed is None && final(self).paths() == old(
                self,
            ).paths(),
            index < old(self).repos@.len() ==> removed is Some && removed->0.path@ == old(
                self,
            ).paths()[index as int] && final(self).paths() == old(self).paths().remove(index as int),
            old(self).well_formed() ==> final(self).well_formed(),
    {
        if index >= self.repos.len() {
            return None;
        }
        let r = self.repos.remove(index);
        assert(self.paths() =~= old(self).paths().remove(index as int));
        proof {
            let before = old(self).paths();
            if old(self).well_formed() {
                assert forall|i: int, j: int| 0 <= i < j < self.paths().len() implies str_lt(
                    #[trigger] self.paths()[i],
                    #[trigger] self.paths()[j],
                ) by {
                    let bi = if i < index { i } else { i + 1 };
                    let bj = if j < index { j } else { j + 1 };
                    assert(self.paths()[i] == before[bi] && self.paths()[j] == before[bj]);
                }
            }
        }
        Some(r)
    }
}

/// What a stable sort of `keys` picks holds the keys and nothing else,
/// and, where no key occurs twice, is strictly increasing.
proof fn lemma_pick_of_order(keys: Seq<Seq<char>>, order: Seq<usize>, distinct: bool)
    requires
        stably_sorted_by_str(keys, order),
        keys.len() <= usize::MAX,
        distinct ==> forall|i: int, j: int|
            0 <= i < keys.len() && 0 <= j < keys.len() && i != j ==> keys[i] != keys[j],
    ensures
        forall|p: Seq<char>| #[trigger] pick_paths(keys, order).contains(p) <==> keys.contains(p),
        distinct ==> forall|i: int, j: int|
            0 <= i < j < order.len() ==> str_lt(
                #[trigger] pick_paths(keys, order)[i],
                #[trigger] pick_paths(keys, order)[j],
            ),
{
    let picked = pick_paths(keys, order);
    assert forall|p: Seq<char>| #[trigger] picked.contains(p) <==> keys.contains(p) by {
        if picked.contains(p) {
            let k = choose|k: int| 0 <= k < picked.len() && picked[k] == p;
            assert(keys[order[k] as int] == p);
        }
        if keys.contains(p) {
            let v = choose|v: int| 0 <= v < keys.len() && keys[v] == p;
            lemma_index_order_covers(order, keys.len() as int, v);
            let k = choose|k: int| 0 <= k < keys.len() && order[k] as int == v;
            assert(picked[k] == p);
        }
    }
    if distinct {
        assert forall|i: int, j: int| 0 <= i < j < order.len() implies str_lt(
            #[trigger] picked[i],
            #[trigger] picked[j],
        ) by {
            assert(order[i] != order[j]);
            assert(str_lt(keys[order[i] as int], keys[order[j] as int]) || (keys[order[i] as int]
                == keys[order[j] as int] && order[i] < order[j]));
        }
    }
}

/// The paths of `v` at the positions `idx`, in that order.
pub open spec fn pick_paths(v: Seq<Seq<char>>, idx: Seq<usize>) -> Seq<Seq<char>> {
    idx.map_values(|i: usize| v[i as int])
}

/// `s` without one pair of matching wrapping quotes (`"…"` or `'…'`).
pub open spec fn unquoted(s: Seq<char>) -> Seq<char> {
    if s.len() >= 2 && ((s[0] == '"' && s.last() == '"') || (s[0] == '\'' && s.last() == '\'')) {
        s.subrange(1, s.len() - 1)
    } else {
        s
    }
}

/// A typed path as the user meant it: trimmed, without wrapping quotes.
pub fn normalize_repo_path_input(input: &str) -> (res: String)
    ensures
        res@ == unquoted(trim(input@)),
{
    let t = trimmed(input);
    let v = chars_of(t.as_str());
    let n = v.len();
    if n >= 2 && ((v[0] == '"' && v[n - 1] == '"') || (v[0] == '\'' && v[n - 1] == '\'')) {
        return string_of_range(&v, 1, n - 1);
    }
    t
}

/// The path to resolve for a typed repository path: its normalized form,
/// which must not be empty.
pub fn canonical_repo_path(input: &str) -> (res: Result<String, String>)
    ensures
        match res {
            Ok(p) => p@ == unquoted(trim(input@)) && p@.len() > 0,
            Err(m) => unquoted(trim(input@)).len() == 0 && m@ == "Path cannot be empty"@,
        },
{
    let normalized = normalize_repo_path_input(input);
    if normalized.as_str().unicode_len() == 0 {
        return Err(owned("Path cannot be empty"));
    }
    Ok(normalized)
}

/// Whether a resolved path may be tracked: it must be a directory that
/// holds `.git` (a directory, or a file for a worktree).
pub fn ensure_git_root(is_dir: bool, git_is_dir: bool, git_is_file: bool, display: &str) -> (res:
    Result<(), String>)
    ensures
        !is_dir ==> res is Err && res->Err_0@ == "Path is not a directory: "@ + display@,
        is_dir && (git_is_dir || git_is_file) ==> res is Ok,
        is_dir && !git_is_dir && !git_is_file ==> res is Err && res->Err_0@
            == "Directory is not a git root (.git missing at root): "@ + display@,
{
    if !is_dir {
        return Err(cat("Path is not a directory: ", display));
    }
    if git_is_dir || git_is_file {
        return Ok(());
    }
    Err(cat("Directory is not a git root (.git missing at root): ", display))
}

} // verus!
