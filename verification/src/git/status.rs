//! The working-tree status of a repository, read from
//! `git status --porcelain=1 --branch`.
use vstd::prelude::*;

use crate::text::{
    chars_of, lines, lines_of, owned, parse_usize, parse_usize_exec, push_char, split_char, split_on,
    split_once, split_once_str, starts_with, starts_with_str, string_of_range, strip_leading_char,
    strip_outer_chars, strip_prefix_all, strip_prefix_all_str, strip_trailing_char, trim, trimmed,
    views, occurs_at,
};
use crate::git::output::{lemma_find_is, lemma_find_none};

verus! {

/// One changed path and its two-letter porcelain status.
#[derive(Debug, Clone)]
pub struct FileEntry {
    pub path: String,
    pub status: String,
}

/// Branch, upstream and the changed files of a working tree.
#[derive(Debug, Clone)]
pub struct RepoSnapshot {
    pub branch: String,
    pub tracking: Option<String>,
    pub ahead: usize,
    pub behind: usize,
    pub unstaged: Vec<FileEntry>,
    pub staged: Vec<FileEntry>,
}

/// A changed path with its status, as plain text.
pub type EntryView = (Seq<char>, Seq<char>);

pub open spec fn entry_view(e: FileEntry) -> EntryView {
    (e.path@, e.status@)
}

pub open spec fn entries_view(v: Seq<FileEntry>) -> Seq<EntryView> {
    v.map_values(|e: FileEntry| entry_view(e))
}

pub open spec fn tracking_view(t: Option<String>) -> Option<Seq<char>> {
    match t {
        Some(s) => Some(s@),
        None => None,
    }
}

impl RepoSnapshot {
    /// The snapshot of a repository before anything is known of it.
    pub fn empty() -> (res: RepoSnapshot)
        ensures
            res.branch@.len() == 0,
            res.tracking is None,
            res.ahead == 0,
            res.behind == 0,
            res.unstaged@.len() == 0,
            res.staged@.len() == 0,
    {
        RepoSnapshot {
            branch: String::new(),
            tracking: None,
            ahead: 0,
            behind: 0,
            unstaged: Vec::new(),
            staged: Vec::new(),
        }
    }
}

// ---------------------------------------------------------------------
// Specification of the porcelain format
// ---------------------------------------------------------------------
/// Number of UTF-8 bytes that encode `c`.
pub open spec fn utf8_width(c: char) -> int {
    let u = c as u32;
    if u < 0x80 {
        1
    } else if u < 0x800 {
        2
    } else if u < 0x10000 {
        3
    } else {
        4
    }
}

/// Length of `s` in UTF-8 bytes (`str::len`).
pub open spec fn byte_len(s: Seq<char>) -> int
    decreases s.len(),
{
    if s.len() == 0 {
        0
    } else {
        utf8_width(s[0]) + byte_len(s.drop_first())
    }
}

/// `s.get(n..).unwrap_or("")` for a byte offset `n`.
pub open spec fn byte_tail(s: Seq<char>, n: int) -> Seq<char>
    decreases s.len(),
{
    if n == 0 {
        s
    } else if n < 0 || s.len() == 0 {
        Seq::empty()
    } else {
        byte_tail(s.drop_first(), n - utf8_width(s[0]))
    }
}

/// The values that `ahead N` and `behind N` sections give, later ones winning.
pub open spec fn ahead_behind_sections(secs: Seq<Seq<char>>) -> (nat, nat)
    decreases secs.len(),
{
    if secs.len() == 0 {
        (0, 0)
    } else {
        let prev = ahead_behind_sections(secs.drop_last());
        let item = trim(secs.last());
        let a = if starts_with(item, "ahead "@) {
            match parse_usize(trim(item.skip("ahead "@.len() as int))) {
                Some(n) => n,
                None => 0,
            }
        } else {
            prev.0
        };
        let b = if starts_with(item, "behind "@) {
            match parse_usize(trim(item.skip("behind "@.len() as int))) {
                Some(n) => n,
                None => 0,
            }
        } else {
            prev.1
        };
        (a, b)
    }
}

/// Ahead/behind counts written as `[ahead 1, behind 2]`.
pub open spec fn ahead_behind(part: Seq<char>) -> (nat, nat) {
    let cleaned = strip_trailing_char(strip_leading_char(trim(part), '['), ']');
    ahead_behind_sections(split_on(cleaned, ','))
}

/// Branch, upstream and counts from a `## ` header line.
pub open spec fn branch_header(line: Seq<char>) -> (Seq<char>, Option<Seq<char>>, nat, nat) {
    let body = trim(strip_prefix_all(line, "## "@));
    match split_once(body, "..."@) {
        Some((branch_part, rest)) => match split_once(rest, " "@) {
            Some((tracking, counts)) => {
                let ab = ahead_behind(counts);
                (trim(branch_part), Some(trim(tracking)), ab.0, ab.1)
            },
            None => (trim(branch_part), Some(trim(rest)), 0, 0),
        },
        None => match split_once(body, " "@) {
            Some((branch, counts)) => {
                let ab = ahead_behind(counts);
                (trim(branch), None, ab.0, ab.1)
            },
            None => (body, None, 0, 0),
        },
    }
}

/// The new path of a rename (`old -> new`), or the path itself.
pub open spec fn normalized_path(p: Seq<char>) -> Seq<char> {
    match split_once(p, " -> "@) {
        Some((_, new_path)) => trim(new_path),
        None => p,
    }
}

/// What a file line holds: path, status, staged part, unstaged part.
pub open spec fn file_line(line: Seq<char>) -> Option<(Seq<char>, Seq<char>, bool, bool)> {
    if byte_len(line) < 3 {
        None
    } else {
        let x = if line.len() > 0 {
            line[0]
        } else {
            ' '
        };
        let y = if line.len() > 1 {
            line[1]
        } else {
            ' '
        };
        let path_part = trim(byte_tail(line, 3));
        if path_part.len() == 0 {
            None
        } else {
            let untracked = x == '?' && y == '?';
            Some((normalized_path(path_part), seq![x, y], x != ' ' && x != '?', y != ' ' || untracked))
        }
    }
}

/// The first line is a branch header.
pub open spec fn has_header(ls: Seq<Seq<char>>) -> bool {
    ls.len() > 0 && starts_with(ls[0], "## "@)
}

/// Entries of the lines of `ls` that report a staged (`staged`) or an
/// unstaged change; the header line, when there is one, reports none.
pub open spec fn file_entries(ls: Seq<Seq<char>>, hdr: bool, staged: bool) -> Seq<EntryView>
    decreases ls.len(),
{
    if ls.len() == 0 {
        Seq::empty()
    } else {
        let prev = file_entries(ls.drop_last(), hdr, staged);
        if ls.len() == 1 && hdr {
            prev
        } else {
            match file_line(ls.last()) {
                Some(f) => if (staged && f.2) || (!staged && f.3) {
                    prev.push((f.0, f.1))
                } else {
                    prev
                },
                None => prev,
            }
        }
    }
}

/// Everything `git status --porcelain=1 --branch` output `raw` says.
pub open spec fn status_of(raw: Seq<char>) -> (
    Seq<char>,
    Option<Seq<char>>,
    nat,
    nat,
    Seq<EntryView>,
    Seq<EntryView>,
) {
    let ls = lines(raw);
    let hdr = has_header(ls);
    let h = if hdr {
        branch_header(ls[0])
    } else {
        (Seq::empty(), None, 0, 0)
    };
    (h.0, h.1, h.2, h.3, file_entries(ls, hdr, false), file_entries(ls, hdr, true))
}

// ---------------------------------------------------------------------
// Lemmas
// ---------------------------------------------------------------------
proof fn lemma_byte_len_skip(s: Seq<char>, i: int)
    requires
        0 <= i < s.len(),
    ensures
        byte_len(s.skip(i)) == utf8_width(s[i]) + byte_len(s.skip(i + 1)),
{
    assert(s.skip(i).drop_first() =~= s.skip(i + 1));
}

proof fn lemma_byte_len_nonneg(s: Seq<char>)
    ensures
        byte_len(s) >= 0,
    decreases s.len(),
{
    if s.len() > 0 {
        lemma_byte_len_nonneg(s.drop_first());
    }
}

// ---------------------------------------------------------------------
// Executable parsing
// ---------------------------------------------------------------------
fn utf8_width_exec(c: char) -> (res: usize)
    ensures
        res as int == utf8_width(c),
{
    let u = c as u32;
    if u < 0x80 {
        1
    } else if u < 0x800 {
        2
    } else if u < 0x10000 {
        3
    } else {
        4
    }
}

/// Whether `v` is shorter than three UTF-8 bytes.
fn shorter_than_three_bytes(v: &Vec<char>) -> (res: bool)
    ensures
        res == (byte_len(v@) < 3),
{
    let mut acc: usize = 0;
    let mut i: usize = 0;
    assert(v@.skip(0) =~= v@);
    while i < v.len() && acc < 3
        invariant
            i <= v.len(),
            acc <= 6,
            byte_len(v@) == acc + byte_len(v@.skip(i as int)),
        decreases v.len() - i,
    {
        proof {
            lemma_byte_len_skip(v@, i as int);
        }
        acc = acc + utf8_width_exec(v[i]);
        i = i + 1;
    }
    proof {
        lemma_byte_len_nonneg(v@.skip(i as int));
        if i == v.len() {
            assert(v@.skip(i as int).len() == 0);
        }
    }
    acc < 3
}

/// Start of `v.get(3..)`, when byte offset 3 is a character boundary.
fn byte_offset_three(v: &Vec<char>) -> (res: Option<usize>)
    ensures
        match res {
            Some(i) => i <= v.len() && byte_tail(v@, 3) == v@.skip(i as int),
            None => byte_tail(v@, 3).len() == 0,
        },
{
    let mut n: usize = 3;
    let mut i: usize = 0;
    assert(v@.skip(0) =~= v@);
    while n > 0 && i < v.len()
        invariant
            i <= v.len(),
            n <= 3,
            byte_tail(v@, 3) == byte_tail(v@.skip(i as int), n as int),
        decreases v.len() - i,
    {
        let w = utf8_width_exec(v[i]);
        assert(v@.skip(i as int).drop_first() =~= v@.skip(i + 1));
        if w > n {
            assert(byte_tail(v@.skip(i + 1), n - w) =~= Seq::<char>::empty());
            return None;
        }
        n = n - w;
        i = i + 1;
    }
    if n > 0 {
        assert(v@.skip(i as int).len() == 0);
        return None;
    }
    Some(i)
}

/// Sets the ahead/behind counts from a `[ahead 1, behind 2]` part.
fn parse_ahead_behind(part: &str) -> (res: (usize, usize))
    ensures
        (res.0 as nat, res.1 as nat) == ahead_behind(part@),
{
    let t = trimmed(part);
    let cleaned = strip_outer_chars(t.as_str(), '[', ']');
    let sections = split_char(cleaned.as_str(), ',');
    let ghost secs = split_on(cleaned@, ',');
    let mut ahead: usize = 0;
    let mut behind: usize = 0;
    let mut i: usize = 0;
    while i < sections.len()
        invariant
            i <= sections.len(),
            views(sections@) == secs,
            (ahead as nat, behind as nat) == ahead_behind_sections(secs.take(i as int)),
        decreases sections.len() - i,
    {
        let item = trimmed(sections[i].as_str());
        let ghost prev = secs.take(i as int);
        assert(secs.take(i + 1).drop_last() =~= prev);
        assert(secs.take(i + 1).last() == sections@[i as int]@);
        if starts_with_str(item.as_str(), "ahead ") {
            let v = chars_of(item.as_str());
            let k = chars_of("ahead ").len();
            let rest = string_of_range(&v, k, v.len());
            assert(rest@ =~= item@.skip("ahead "@.len() as int));
            let value = trimmed(rest.as_str());
            ahead = match parse_usize_exec(value.as_str()) {
                Some(n) => n,
                None => 0,
            };
        }
        if starts_with_str(item.as_str(), "behind ") {
            let v = chars_of(item.as_str());
            let k = chars_of("behind ").len();
            let rest = string_of_range(&v, k, v.len());
            assert(rest@ =~= item@.skip("behind "@.len() as int));
            let value = trimmed(rest.as_str());
            behind = match parse_usize_exec(value.as_str()) {
                Some(n) => n,
                None => 0,
            };
        }
        i = i + 1;
    }
    assert(secs.take(i as int) =~= secs);
    (ahead, behind)
}

/// Branch, upstream and counts from a `## ` header line.
fn parse_branch_line(line: &str) -> (res: (String, Option<String>, usize, usize))
    ensures
        (res.0@, tracking_view(res.1), res.2 as nat, res.3 as nat) == branch_header(line@),
{
    let stripped = strip_prefix_all_str(line, "## ");
    let body = trimmed(stripped.as_str());
    match split_once_str(body.as_str(), "...") {
        Some((branch_part, rest)) => match split_once_str(rest.as_str(), " ") {
            Some((tracking, counts)) => {
                let (a, b) = parse_ahead_behind(counts.as_str());
                (trimmed(branch_part.as_str()), Some(trimmed(tracking.as_str())), a, b)
            },
            None => (trimmed(branch_part.as_str()), Some(trimmed(rest.as_str())), 0, 0),
        },
        None => match split_once_str(body.as_str(), " ") {
            Some((branch, counts)) => {
                let (a, b) = parse_ahead_behind(counts.as_str());
                (trimmed(branch.as_str()), None, a, b)
            },
            None => (body, None, 0, 0),
        },
    }
}

/// The path a status line names; for a rename, the new path.
fn normalize_status_path(path: &str) -> (res: String)
    ensures
        res@ == normalized_path(path@),
{
    match split_once_str(path, " -> ") {
        Some((_, new_path)) => trimmed(new_path.as_str()),
        None => owned(path),
    }
}

/// What one file line of the porcelain output holds.
fn parse_file_line(line: &str) -> (res: Option<(String, String, bool, bool)>)
    ensures
        match res {
            Some(f) => file_line(line@) == Some((f.0@, f.1@, f.2, f.3)),
            None => file_line(line@) is None,
        },
{
    let v = chars_of(line);
    if shorter_than_three_bytes(&v) {
        return None;
    }
    let x = if v.len() > 0 {
        v[0]
    } else {
        ' '
    };
    let y = if v.len() > 1 {
        v[1]
    } else {
        ' '
    };
    let tail = match byte_offset_three(&v) {
        Some(i) => {
            assert(v@.subrange(i as int, v@.len() as int) =~= v@.skip(i as int));
            string_of_range(&v, i, v.len())
        },
        None => {
            assert(byte_tail(v@, 3) =~= Seq::<char>::empty());
            String::new()
        },
    };
    let path_part = trimmed(tail.as_str());
    if path_part.as_str().unicode_len() == 0 {
        return None;
    }
    let normalized = normalize_status_path(path_part.as_str());
    let mut status = String::new();
    push_char(&mut status, x);
    push_char(&mut status, y);
    assert(status@ =~= seq![x, y]);
    let untracked = x == '?' && y == '?';
    Some((normalized, status, x != ' ' && x != '?', y != ' ' || untracked))
}

/// The snapshot that `git status --porcelain=1 --branch` output `raw`
/// describes: the branch header and every staged and unstaged change.
pub fn snapshot(raw: &str) -> (res: RepoSnapshot)
    ensures
        (res.branch@, tracking_view(res.tracking), res.ahead as nat, res.behind as nat, entries_view(
            res.unstaged@,
        ), entries_view(res.staged@)) == status_of(raw@),
{
    let ls = lines_of(raw);
    let ghost lv = lines(raw@);
    let mut snap = RepoSnapshot::empty();
    let hdr = ls.len() > 0 && starts_with_str(ls[0].as_str(), "## ");
    assert(hdr == has_header(lv));
    let mut i: usize = 0;
    while i < ls.len()
        invariant
            i <= ls.len(),
            views(ls@) == lv,
            hdr == has_header(lv),
            i == 0 ==> (snap.branch@.len() == 0 && snap.tracking is None && snap.ahead == 0
                && snap.behind == 0),
            i > 0 ==> (snap.branch@, tracking_view(snap.tracking), snap.ahead as nat, snap.behind as nat)
                == (if hdr {
                branch_header(lv[0])
            } else {
                (Seq::<char>::empty(), None, 0nat, 0nat)
            }),
            entries_view(snap.unstaged@) == file_entries(lv.take(i as int), hdr, false),
            entries_view(snap.staged@) == file_entries(lv.take(i as int), hdr, true),
        decreases ls.len() - i,
    {
        let ghost pre = lv.take(i as int);
        assert(lv.take(i + 1).drop_last() =~= pre);
        assert(lv.take(i + 1).last() == ls@[i as int]@);
        if i == 0 && hdr {
            let (b, t, a, bh) = parse_branch_line(ls[0].as_str());
            snap.branch = b;
            snap.tracking = t;
            snap.ahead = a;
            snap.behind = bh;
        } else {
            match parse_file_line(ls[i].as_str()) {
                Some((path, status, has_staged, has_unstaged)) => {
                    if has_staged {
                        let ghost before = snap.staged@;
                        snap.staged.push(FileEntry { path: path.clone(), status: status.clone() });
                        assert(entries_view(snap.staged@) =~= entries_view(before).push(
                            (path@, status@),
                        ));
                    }
                    if has_unstaged {
                        let ghost before = snap.unstaged@;
                        snap.unstaged.push(FileEntry { path, status });
                        assert(entries_view(snap.unstaged@) =~= entries_view(before).push(
                            (path@, status@),
                        ));
                    }
                },
                None => {},
            }
        }
        i = i + 1;
    }
    assert(lv.take(i as int) =~= lv);
    snap
}

/// A header's text: the line without its leading `## `, trimmed.
pub open spec fn header_text(line: Seq<char>) -> Seq<char> {
    trim(strip_prefix_all(line, "## "@))
}

/// The upstream is kept: where a header's text first has `...` at `k`,
/// the branch is the trimmed text before it and the upstream is the
/// trimmed text after it up to its first space `j` (or the end, where it
/// has none, and then no commit is ahead or behind).
pub proof fn law_header_keeps_upstream(line: Seq<char>, k: int, j: int)
    requires
        0 <= k,
        k + 3 <= header_text(line).len(),
        header_text(line)[k] == '.' && header_text(line)[k + 1] == '.' && header_text(line)[k + 2] == '.',
        forall|m: int|
            0 <= m < k ==> !(#[trigger] header_text(line)[m] == '.' && header_text(line)[m + 1] == '.' && header_text(
                line,
            )[m + 2] == '.'),
        0 <= j <= header_text(line).len() - (k + 3),
        forall|m: int| 0 <= m < j ==> #[trigger] header_text(line)[k + 3 + m] != ' ',
        j < header_text(line).len() - (k + 3) ==> header_text(line)[k + 3 + j] == ' ',
    ensures
        branch_header(line).0 == trim(header_text(line).take(k)),
        branch_header(line).1 == Some(trim(header_text(line).skip(k + 3).take(j))),
        j == header_text(line).len() - (k + 3) ==> branch_header(line).2 == 0 && branch_header(line).3 == 0,
        j < header_text(line).len() - (k + 3) ==> (branch_header(line).2, branch_header(line).3) == ahead_behind(
            header_text(line).skip(k + 3).skip(j + 1),
        ),
{
    reveal_strlit("...");
    reveal_strlit(" ");
    let body = header_text(line);
    assert(occurs_at(body, "..."@, k)) by {
        assert(body.subrange(k, k + 3) =~= "..."@);
    }
    assert forall|m: int| 0 <= m < k implies !occurs_at(body, "..."@, m) by {
        if occurs_at(body, "..."@, m) {
            assert(body.subrange(m, m + 3)[0] == body[m]);
            assert(body.subrange(m, m + 3)[1] == body[m + 1]);
            assert(body.subrange(m, m + 3)[2] == body[m + 2]);
        }
    }
    lemma_find_is(body, "..."@, k);
    let rest = body.skip(k + 3);
    assert forall|m: int| 0 <= m < j implies !occurs_at(rest, " "@, m) by {
        if occurs_at(rest, " "@, m) {
            assert(rest.subrange(m, m + 1)[0] == rest[m]);
            assert(rest[m] == body[k + 3 + m]);
        }
    }
    if j < rest.len() {
        assert(occurs_at(rest, " "@, j)) by {
            assert(rest.subrange(j, j + 1) =~= " "@);
        }
        lemma_find_is(rest, " "@, j);
    } else {
        assert forall|m: int| 0 <= m implies !occurs_at(rest, " "@, m) by {
            if occurs_at(rest, " "@, m) {
                assert(rest.subrange(m, m + 1)[0] == rest[m]);
                assert(rest[m] == body[k + 3 + m]);
            }
        }
        lemma_find_none(rest, " "@);
        assert(rest.take(j) =~= rest);
    }
}

/// The same for a whole status answer whose first line is the header: the
/// snapshot's upstream is the header's.
pub proof fn law_snapshot_keeps_upstream(raw: Seq<char>, k: int, j: int)
    requires
        lines(raw).len() > 0,
        starts_with(lines(raw)[0], "## "@),
        0 <= k,
        k + 3 <= header_text(lines(raw)[0]).len(),
        header_text(lines(raw)[0])[k] == '.' && header_text(lines(raw)[0])[k + 1] == '.' && header_text(
            lines(raw)[0],
        )[k + 2] == '.',
        forall|m: int|
            0 <= m < k ==> !(#[trigger] header_text(lines(raw)[0])[m] == '.' && header_text(lines(raw)[0])[m + 1]
                == '.' && header_text(lines(raw)[0])[m + 2] == '.'),
        0 <= j <= header_text(lines(raw)[0]).len() - (k + 3),
        forall|m: int| 0 <= m < j ==> #[trigger] header_text(lines(raw)[0])[k + 3 + m] != ' ',
        j < header_text(lines(raw)[0]).len() - (k + 3) ==> header_text(lines(raw)[0])[k + 3 + j] == ' ',
    ensures
        status_of(raw).0 == trim(header_text(lines(raw)[0]).take(k)),
        status_of(raw).1 == Some(trim(header_text(lines(raw)[0]).skip(k + 3).take(j))),
{
    law_header_keeps_upstream(lines(raw)[0], k, j);
}

/// Digits are their own trimmed text and parse to their value.
proof fn lemma_digits_parse(d: Seq<char>)
    requires
        d.len() > 0,
        crate::text::all_digits(d),
        crate::text::digits_value(d) <= usize::MAX,
    ensures
        trim(d) == d,
        parse_usize(d) == Some(crate::text::digits_value(d)),
{
    assert(crate::text::is_digit(d[0]));
    assert(crate::text::is_digit(d.last()));
    crate::text::lemma_trim_start_stops(d);
    crate::text::lemma_trim_end_stops(d);
}

/// A section `ahead N` sets the ahead count to N and keeps the behind
/// count; a section `behind N` sets the behind count and keeps the ahead
/// count (later sections win).
pub proof fn law_count_sections(secs: Seq<Seq<char>>, item: Seq<char>, d: Seq<char>)
    requires
        d.len() > 0,
        crate::text::all_digits(d),
        crate::text::digits_value(d) <= usize::MAX,
    ensures
        trim(item) == "ahead "@ + d ==> ahead_behind_sections(secs.push(item)) == (
            crate::text::digits_value(d),
            ahead_behind_sections(secs).1,
        ),
        trim(item) == "behind "@ + d ==> ahead_behind_sections(secs.push(item)) == (
            ahead_behind_sections(secs).0,
            crate::text::digits_value(d),
        ),
{
    reveal_strlit("ahead ");
    reveal_strlit("behind ");
    lemma_digits_parse(d);
    assert(secs.push(item).drop_last() =~= secs);
    let t = trim(item);
    if t == "ahead "@ + d {
        assert(t.take(6) =~= "ahead "@);
        assert(t.skip(6) =~= d);
        assert(!starts_with(t, "behind "@)) by {
            assert(t.take(7)[1] == 'h');
        }
    }
    if t == "behind "@ + d {
        assert(t.take(7) =~= "behind "@);
        assert(t.skip(7) =~= d);
        assert(!starts_with(t, "ahead "@)) by {
            assert(t.take(6)[0] == 'b');
        }
    }
}

} // verus!
