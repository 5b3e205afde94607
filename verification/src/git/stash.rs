//! The stash list, read from `git stash list --format=%gd␟%gs`, and the
//! files in conflict, read from `git diff --name-only --diff-filter=U`.
use vstd::prelude::*;

use crate::git::history::unit_sep;
use crate::text::{
    is_blank, lemma_filter_map_step, lines, lines_of, split_char, split_on, trim, trimmed, views,
};

verus! {

/// One stash: its reference (`stash@{0}`) and its message.
#[derive(Debug, Clone)]
pub struct StashEntry {
    pub reference: String,
    pub message: String,
}

pub open spec fn stashes_view(v: Seq<StashEntry>) -> Seq<(Seq<char>, Seq<char>)> {
    v.map_values(|s: StashEntry| (s.reference@, s.message@))
}

/// A line `reference␟message`; the reference must not be empty.
pub open spec fn stash_line(line: Seq<char>) -> Option<(Seq<char>, Seq<char>)> {
    let p = split_on(line, unit_sep());
    if p.len() < 2 || trim(p[0]).len() == 0 {
        None
    } else {
        Some((trim(p[0]), trim(p[1])))
    }
}

pub open spec fn stash_list(raw: Seq<char>) -> Seq<(Seq<char>, Seq<char>)> {
    lines(raw).filter_map(|l: Seq<char>| stash_line(l))
}

/// A non-blank line names a path, trimmed.
pub open spec fn path_line(line: Seq<char>) -> Option<Seq<char>> {
    if trim(line).len() == 0 {
        None
    } else {
        Some(trim(line))
    }
}

pub open spec fn path_list(raw: Seq<char>) -> Seq<Seq<char>> {
    lines(raw).filter_map(|l: Seq<char>| path_line(l))
}

fn parse_stash_line(line: &str) -> (res: Option<StashEntry>)
    ensures
        match res {
            Some(s) => stash_line(line@) == Some((s.reference@, s.message@)),
            None => stash_line(line@) is None,
        },
{
    let parts = split_char(line, '\u{1f}');
    assert(views(parts@) == split_on(line@, unit_sep()));
    if parts.len() < 2 {
        return None;
    }
    let reference = trimmed(parts[0].as_str());
    let message = trimmed(parts[1].as_str());
    if reference.as_str().unicode_len() == 0 {
        return None;
    }
    Some(StashEntry { reference, message })
}

/// The stashes of a `git stash list --format=%gd␟%gs` output; lines
/// without a message field or with an empty reference are skipped.
pub fn list_stashes(raw: &str) -> (res: Vec<StashEntry>)
    ensures
        stashes_view(res@) == stash_list(raw@),
{
    let ls = lines_of(raw);
    let ghost lv = lines(raw@);
    let ghost f = |l: Seq<char>| stash_line(l);
    let mut res: Vec<StashEntry> = Vec::new();
    let mut i: usize = 0;
    while i < ls.len()
        invariant
            i <= ls.len(),
            views(ls@) == lv,
            f == (|l: Seq<char>| stash_line(l)),
            stashes_view(res@) == lv.take(i as int).filter_map(f),
        decreases ls.len() - i,
    {
        proof {
            lemma_filter_map_step(lv, f, i as int);
        }
        assert(lv[i as int] == ls@[i as int]@);
        match parse_stash_line(ls[i].as_str()) {
            Some(s) => {
                let ghost before = res@;
                let ghost sv = (s.reference@, s.message@);
                res.push(s);
                assert(stashes_view(res@) =~= stashes_view(before).push(sv));
            },
            None => {},
        }
        i = i + 1;
    }
    assert(lv.take(i as int) =~= lv);
    res
}

/// The paths in conflict: every non-blank line of
/// `git diff --name-only --diff-filter=U`, trimmed.
pub fn unresolved_conflict_files(raw: &str) -> (res: Vec<String>)
    ensures
        views(res@) == path_list(raw@),
{
    let ls = lines_of(raw);
    let ghost lv = lines(raw@);
    let ghost f = |l: Seq<char>| path_line(l);
    let mut res: Vec<String> = Vec::new();
    let mut i: usize = 0;
    while i < ls.len()
        invariant
            i <= ls.len(),
            views(ls@) == lv,
            f == (|l: Seq<char>| path_line(l)),
            views(res@) == lv.take(i as int).filter_map(f),
        decreases ls.len() - i,
    {
        proof {
            lemma_filter_map_step(lv, f, i as int);
        }
        assert(lv[i as int] == ls@[i as int]@);
        if !is_blank(ls[i].as_str()) {
            let t = trimmed(ls[i].as_str());
            let ghost before = res@;
            res.push(t);
            assert(views(res@) =~= views(before).push(t@));
        }
        i = i + 1;
    }
    assert(lv.take(i as int) =~= lv);
    res
}

} // verus!
