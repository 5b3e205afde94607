//! Local and remote branches: which are listed, in which order, and how a
//! remote branch is found and named locally.
use vstd::prelude::*;

use crate::order::{sort_indices_by_str, stably_sorted_by_str};
use crate::text::{
    cat, chars_of, contains, contains_str, ends_with, ends_with_str, find_first, is_blank, owned,
    str_eq, string_of_range, strip_leading_char, trim,
};

verus! {

/// A local branch and whether it is checked out.
#[derive(Debug, Clone)]
pub struct BranchEntry {
    pub name: String,
    pub is_current: bool,
}

/// A remote-tracking branch, named `remote/branch`.
#[derive(Debug, Clone)]
pub struct RemoteBranchEntry {
    pub name: String,
}

/// What the repository reports of one branch: its short name, its full
/// reference, whether it is local, and (for a local one) whether it is HEAD.
#[derive(Debug, Clone)]
pub struct BranchRecord {
    pub name: String,
    pub reference: String,
    pub is_local: bool,
    pub is_head: bool,
}

pub type BranchView = (Seq<char>, bool);

pub open spec fn branches_view(v: Seq<BranchEntry>) -> Seq<BranchView> {
    v.map_values(|b: BranchEntry| (b.name@, b.is_current))
}

pub open spec fn remotes_view(v: Seq<RemoteBranchEntry>) -> Seq<Seq<char>> {
    v.map_values(|b: RemoteBranchEntry| b.name@)
}

pub open spec fn record_view(r: BranchRecord) -> (Seq<char>, Seq<char>, bool, bool) {
    (r.name@, r.reference@, r.is_local, r.is_head)
}

pub open spec fn records_view(v: Seq<BranchRecord>) -> Seq<(Seq<char>, Seq<char>, bool, bool)> {
    v.map_values(|r: BranchRecord| record_view(r))
}

/// The local branches among the records, in their order.
pub open spec fn local_branches(v: Seq<(Seq<char>, Seq<char>, bool, bool)>) -> Seq<BranchView>
    decreases v.len(),
{
    if v.len() == 0 {
        Seq::empty()
    } else if v.last().2 {
        local_branches(v.drop_last()).push((v.last().0, v.last().3))
    } else {
        local_branches(v.drop_last())
    }
}

/// A remote branch is listed unless its name is empty, ends in `/HEAD`
/// or is a symbolic `->` entry.
pub open spec fn listed_remote(name: Seq<char>) -> bool {
    name.len() > 0 && !ends_with(name, "/HEAD"@) && !contains(name, "->"@)
}

pub open spec fn remote_branches(v: Seq<(Seq<char>, Seq<char>, bool, bool)>) -> Seq<Seq<char>>
    decreases v.len(),
{
    if v.len() == 0 {
        Seq::empty()
    } else if listed_remote(v.last().0) {
        remote_branches(v.drop_last()).push(v.last().0)
    } else {
        remote_branches(v.drop_last())
    }
}

pub open spec fn branch_names(v: Seq<BranchView>) -> Seq<Seq<char>> {
    v.map_values(|b: BranchView| b.0)
}

pub open spec fn pick_branches(v: Seq<BranchView>, idx: Seq<usize>) -> Seq<BranchView> {
    idx.map_values(|i: usize| v[i as int])
}

pub open spec fn pick_names(v: Seq<Seq<char>>, idx: Seq<usize>) -> Seq<Seq<char>> {
    idx.map_values(|i: usize| v[i as int])
}

/// The local name of a remote branch: what follows its first `/`, without
/// leading `/`s.
pub open spec fn local_name_of(remote: Seq<char>) -> Seq<char> {
    let after = match crate::text::split_once(remote, "/"@) {
        Some((_, local)) => local,
        None => remote,
    };
    strip_leading_char(after, '/')
}

/// Index of the first record whose name or reference is `wanted`.
pub open spec fn first_match(v: Seq<(Seq<char>, Seq<char>, bool, bool)>, wanted: Seq<char>, i: int) -> bool {
    0 <= i < v.len() && (v[i].0 == wanted || v[i].1 == wanted) && forall|j: int|
        0 <= j < i ==> !(v[j].0 == wanted || v[j].1 == wanted)
}

fn keys_of_names(names: &Vec<String>) -> (res: Vec<Vec<char>>)
    ensures
        res@.map_values(|k: Vec<char>| k@) == names@.map_values(|s: String| s@),
{
    let mut res: Vec<Vec<char>> = Vec::new();
    let mut i: usize = 0;
    while i < names.len()
        invariant
            i <= names.len(),
            res@.map_values(|k: Vec<char>| k@) == names@.take(i as int).map_values(|s: String| s@),
        decreases names.len() - i,
    {
        let k = chars_of(names[i].as_str());
        let ghost before = res@;
        res.push(k);
        assert(res@.map_values(|k: Vec<char>| k@) =~= before.map_values(|k: Vec<char>| k@).push(names@[i as int]@));
        assert(names@.take(i + 1).map_values(|s: String| s@) =~= names@.take(i as int).map_values(|s: String| s@).push(names@[i as int]@));
        i = i + 1;
    }
    assert(names@.take(i as int) =~= names@);
    res
}

/// The local branches of the records, sorted by name (equal names keep
/// their order), each marked when it is HEAD.
pub fn list_local_branches(records: &Vec<BranchRecord>) -> (res: Vec<BranchEntry>)
    ensures
        ({
            let locals = local_branches(records_view(records@));
            exists|idx: Seq<usize>|
                #[trigger] stably_sorted_by_str(branch_names(locals), idx) && branches_view(res@)
                    == pick_branches(locals, idx)
        }),
{
    let ghost all = records_view(records@);
    let mut locals: Vec<BranchEntry> = Vec::new();
    let mut names: Vec<String> = Vec::new();
    let mut i: usize = 0;
    while i < records.len()
        invariant
            i <= records.len(),
            all == records_view(records@),
            branches_view(locals@) == local_branches(all.take(i as int)),
            names@.map_values(|s: String| s@) == branch_names(branches_view(locals@)),
        decreases records.len() - i,
    {
        assert(all.take(i + 1).drop_last() =~= all.take(i as int));
        assert(all.take(i + 1).last() == record_view(records@[i as int]));
        if records[i].is_local {
            let ghost before = locals@;
            let ghost nbefore = names@;
            locals.push(BranchEntry { name: records[i].name.clone(), is_current: records[i].is_head });
            names.push(records[i].name.clone());
            assert(branches_view(locals@) =~= branches_view(before).push(
                (records@[i as int].name@, records@[i as int].is_head),
            ));
            assert(names@.map_values(|s: String| s@) =~= nbefore.map_values(|s: String| s@).push(
                records@[i as int].name@,
            ));
            assert(branch_names(branches_view(locals@)) =~= branch_names(branches_view(before)).push(
                records@[i as int].name@,
            ));
        }
        i = i + 1;
    }
    assert(all.take(i as int) =~= all);
    let keys = keys_of_names(&names);
    let order = sort_indices_by_str(&keys);
    let ghost lv = branches_view(locals@);
    let mut res: Vec<BranchEntry> = Vec::new();
    let mut k: usize = 0;
    while k < order.len()
        invariant
            k <= order.len(),
            lv == branches_view(locals@),
            stably_sorted_by_str(keys@.map_values(|k: Vec<char>| k@), order@),
            keys@.len() == locals@.len(),
            branches_view(res@) == order@.take(k as int).map_values(|i: usize| lv[i as int]),
        decreases order.len() - k,
    {
        let idx = order[k];
        assert((order@[k as int] as int) < keys@.len());
        let e = BranchEntry { name: locals[idx].name.clone(), is_current: locals[idx].is_current };
        let ghost before = res@;
        res.push(e);
        assert(branches_view(res@) =~= branches_view(before).push(lv[idx as int]));
        assert(order@.take(k + 1).map_values(|i: usize| lv[i as int]) =~= order@.take(
            k as int,
        ).map_values(|i: usize| lv[i as int]).push(lv[idx as int]));
        k = k + 1;
    }
    assert(order@.take(k as int) =~= order@);
    assert(keys@.map_values(|k: Vec<char>| k@) =~= branch_names(lv));
    assert(branches_view(res@) =~= pick_branches(lv, order@));
    res
}

fn is_listed_remote(name: &str) -> (res: bool)
    ensures
        res == listed_remote(name@),
{
    !(name.unicode_len() == 0 || ends_with_str(name, "/HEAD") || contains_str(name, "->"))
}

/// The remote branches of the records that are listed (not empty, not
/// `…/HEAD`, not `->` entries), sorted by name.
pub fn list_remote_branches(records: &Vec<BranchRecord>) -> (res: Vec<RemoteBranchEntry>)
    ensures
        ({
            let remotes = remote_branches(records_view(records@));
            exists|idx: Seq<usize>|
                #[trigger] stably_sorted_by_str(remotes, idx) && remotes_view(res@) == pick_names(
                    remotes,
                    idx,
                )
        }),
{
    let ghost all = records_view(records@);
    let mut names: Vec<String> = Vec::new();
    let mut i: usize = 0;
    while i < records.len()
        invariant
            i <= records.len(),
            all == records_view(records@),
            names@.map_values(|s: String| s@) == remote_branches(all.take(i as int)),
        decreases records.len() - i,
    {
        assert(all.take(i + 1).drop_last() =~= all.take(i as int));
        assert(all.take(i + 1).last() == record_view(records@[i as int]));
        if is_listed_remote(records[i].name.as_str()) {
            let ghost nbefore = names@;
            names.push(records[i].name.clone());
            assert(names@.map_values(|s: String| s@) =~= nbefore.map_values(|s: String| s@).push(
                records@[i as int].name@,
            ));
        }
        i = i + 1;
    }
    assert(all.take(i as int) =~= all);
    let ghost nv = names@.map_values(|s: String| s@);
    let keys = keys_of_names(&names);
    let order = sort_indices_by_str(&keys);
    let mut res: Vec<RemoteBranchEntry> = Vec::new();
    let mut k: usize = 0;
    while k < order.len()
        invariant
            k <= order.len(),
            nv == names@.map_values(|s: String| s@),
            keys@.map_values(|k: Vec<char>| k@) == nv,
            stably_sorted_by_str(nv, order@),
            remotes_view(res@) == order@.take(k as int).map_values(|i: usize| nv[i as int]),
        decreases order.len() - k,
    {
        let idx = order[k];
        assert((order@[k as int] as int) < nv.len());
        let ghost before = res@;
        res.push(RemoteBranchEntry { name: names[idx].clone() });
        assert(remotes_view(res@) =~= remotes_view(before).push(nv[idx as int]));
        assert(order@.take(k + 1).map_values(|i: usize| nv[i as int]) =~= order@.take(
            k as int,
        ).map_values(|i: usize| nv[i as int]).push(nv[idx as int]));
        k = k + 1;
    }
    assert(order@.take(k as int) =~= order@);
    assert(remotes_view(res@) =~= pick_names(nv, order@));
    res
}

/// The local branch name that checking out a remote branch creates.
pub fn local_branch_name(remote_name: &str) -> (res: String)
    ensures
        res@ == local_name_of(remote_name@),
{
    let after = match crate::text::split_once_str(remote_name, "/") {
        Some((_, local)) => local,
        None => owned(remote_name),
    };
    crate::text::strip_leading_char_str(after.as_str(), '/')
}

/// The record to check out for `remote_branch` (the first whose name or
/// reference it is) and the local branch name it will have. A blank
/// name and an unknown branch are errors.
pub fn checkout_remote_tracking_branch(records: &Vec<BranchRecord>, remote_branch: &str) -> (res:
    Result<(usize, String), String>)
    ensures
        match res {
            Ok((i, local)) => trim(remote_branch@).len() > 0 && first_match(
                records_view(records@),
                remote_branch@,
                i as int,
            ) && local@ == local_name_of(records@[i as int].name@),
            Err(m) => if trim(remote_branch@).len() == 0 {
                m@ == "Remote branch name cannot be empty"@
            } else {
                (forall|j: int|
                    0 <= j < records@.len() ==> !(records@[j].name@ == remote_branch@
                        || records@[j].reference@ == remote_branch@)) && m@ == "Remote branch not found: "@
                    + remote_branch@
            },
        },
{
    if is_blank(remote_branch) {
        return Err(owned("Remote branch name cannot be empty"));
    }
    let mut i: usize = 0;
    while i < records.len()
        invariant
            i <= records.len(),
            trim(remote_branch@).len() > 0,
            forall|j: int|
                0 <= j < i ==> !(records@[j].name@ == remote_branch@ || records@[j].reference@
                    == remote_branch@),
        decreases records.len() - i,
    {
        if str_eq(records[i].name.as_str(), remote_branch) || str_eq(
            records[i].reference.as_str(),
            remote_branch,
        ) {
            let local = local_branch_name(records[i].name.as_str());
            proof {
                let v = records_view(records@);
                assert forall|j: int| 0 <= j < i implies !(v[j].0 == remote_branch@ || v[j].1 == remote_branch@) by {
                    assert(v[j] == record_view(records@[j]));
                }
                assert(v[i as int] == record_view(records@[i as int]));
            }
            return Ok((i, local));
        }
        i = i + 1;
    }
    Err(cat("Remote branch not found: ", remote_branch))
}

} // verus!
