//! Commit history, commit details and the incoming/outgoing comparison,
//! read from `git log` and `git show` output.
use vstd::prelude::*;

use crate::text::{
    is_blank, lemma_filter_map_step, lines, lines_of, owned, split_char, split_on, trim, trim_end,
    trimmed, trimmed_end, views,
};

verus! {

/// One commit of a log.
#[derive(Debug, Clone)]
pub struct CommitEntry {
    pub hash: String,
    pub short_hash: String,
    pub summary: String,
    pub author: String,
    pub relative_time: String,
}

/// A commit of an incoming/outgoing list.
#[derive(Debug, Clone)]
pub struct CommitSummaryEntry {
    pub short_hash: String,
    pub summary: String,
}

/// The commits by which the current branch and its upstream differ.
#[derive(Debug, Clone)]
pub struct TrackingCommitSummary {
    pub upstream: String,
    pub outgoing: Vec<CommitSummaryEntry>,
    pub incoming: Vec<CommitSummaryEntry>,
}

/// A path that a commit changed, with its name-status letter(s).
#[derive(Debug, Clone)]
pub struct CommitChangedFile {
    pub status: String,
    pub path: String,
}

/// Metadata, message and changed files of one commit.
#[derive(Debug, Clone)]
pub struct CommitDetails {
    pub hash: String,
    pub author_name: String,
    pub author_email: String,
    pub authored_at: String,
    pub subject: String,
    pub body: String,
    pub files: Vec<CommitChangedFile>,
}

pub type CommitView = (Seq<char>, Seq<char>, Seq<char>, Seq<char>, Seq<char>);

pub open spec fn commit_view(c: CommitEntry) -> CommitView {
    (c.hash@, c.short_hash@, c.summary@, c.author@, c.relative_time@)
}

pub open spec fn commits_view(v: Seq<CommitEntry>) -> Seq<CommitView> {
    v.map_values(|c: CommitEntry| commit_view(c))
}

pub open spec fn summaries_view(v: Seq<CommitSummaryEntry>) -> Seq<(Seq<char>, Seq<char>)> {
    v.map_values(|c: CommitSummaryEntry| (c.short_hash@, c.summary@))
}

pub open spec fn changed_files_view(v: Seq<CommitChangedFile>) -> Seq<(Seq<char>, Seq<char>)> {
    v.map_values(|c: CommitChangedFile| (c.status@, c.path@))
}

/// The unit separator that the log formats put between fields.
pub open spec fn unit_sep() -> char {
    '\u{1f}'
}

/// A log line `hash␟short␟summary␟author␟time`; the two hashes must not be empty.
pub open spec fn commit_line(line: Seq<char>) -> Option<CommitView> {
    let p = split_on(line, unit_sep());
    if p.len() < 5 {
        None
    } else if trim(p[0]).len() == 0 || trim(p[1]).len() == 0 {
        None
    } else {
        Some((trim(p[0]), trim(p[1]), trim(p[2]), trim(p[3]), trim(p[4])))
    }
}

/// The commits of a `git log --pretty=format:%H␟%h␟%s␟%an␟%ar` output.
pub open spec fn commit_list(raw: Seq<char>) -> Seq<CommitView> {
    lines(raw).filter_map(|l: Seq<char>| commit_line(l))
}

/// A line `short␟summary`; the hash must not be empty.
pub open spec fn summary_line(line: Seq<char>) -> Option<(Seq<char>, Seq<char>)> {
    let p = split_on(line, unit_sep());
    if p.len() < 2 || trim(p[0]).len() == 0 {
        None
    } else {
        Some((trim(p[0]), trim(p[1])))
    }
}

pub open spec fn summary_list(raw: Seq<char>) -> Seq<(Seq<char>, Seq<char>)> {
    lines(raw).filter_map(|l: Seq<char>| summary_line(l))
}

/// The trimmed `k`-th piece, or nothing when there are fewer pieces.
pub open spec fn piece_or_empty(p: Seq<Seq<char>>, k: int) -> Seq<char> {
    if k < p.len() {
        trim(p[k])
    } else {
        Seq::empty()
    }
}

/// A `--name-status` line `status<TAB>path[<TAB>new path]`; the new path of
/// a rename or copy wins, and a line without a path gives nothing.
pub open spec fn changed_file_line(line: Seq<char>) -> Option<(Seq<char>, Seq<char>)> {
    if trim(line).len() == 0 {
        None
    } else {
        let p = split_on(line, '\t');
        let first = piece_or_empty(p, 1);
        let second = piece_or_empty(p, 2);
        let path = if second.len() > 0 {
            second
        } else {
            first
        };
        if path.len() == 0 {
            None
        } else {
            Some((trim(p[0]), path))
        }
    }
}

pub open spec fn changed_file_list(raw: Seq<char>) -> Seq<(Seq<char>, Seq<char>)> {
    lines(raw).filter_map(|l: Seq<char>| changed_file_line(l))
}

/// The message of a failed details read without metadata.
pub open spec fn no_metadata_message() -> Seq<char> {
    "No commit metadata found"@
}

pub open spec fn empty_hash_message() -> Seq<char> {
    "Commit hash was empty"@
}

pub open spec fn no_upstream_message() -> Seq<char> {
    "No upstream configured for current branch (publish/push with upstream first)"@
}

/// Parses one log line.
fn parse_commit_line(line: &str) -> (res: Option<CommitEntry>)
    ensures
        match res {
            Some(c) => commit_line(line@) == Some(commit_view(c)),
            None => commit_line(line@) is None,
        },
{
    let parts = split_char(line, '\u{1f}');
    assert(views(parts@) == split_on(line@, unit_sep()));
    if parts.len() < 5 {
        return None;
    }
    let hash = trimmed(parts[0].as_str());
    let short_hash = trimmed(parts[1].as_str());
    let summary = trimmed(parts[2].as_str());
    let author = trimmed(parts[3].as_str());
    let relative_time = trimmed(parts[4].as_str());
    if hash.as_str().unicode_len() == 0 || short_hash.as_str().unicode_len() == 0 {
        return None;
    }
    Some(CommitEntry { hash, short_hash, summary, author, relative_time })
}

/// The commits listed by `git log` with the format
/// `%H␟%h␟%s␟%an␟%ar`: lines with fewer fields or an empty hash are skipped.
pub fn commit_history(raw: &str) -> (res: Vec<CommitEntry>)
    ensures
        commits_view(res@) == commit_list(raw@),
{
    let ls = lines_of(raw);
    let ghost lv = lines(raw@);
    let ghost f = |l: Seq<char>| commit_line(l);
    let mut res: Vec<CommitEntry> = Vec::new();
    let mut i: usize = 0;
    while i < ls.len()
        invariant
            i <= ls.len(),
            views(ls@) == lv,
            f == (|l: Seq<char>| commit_line(l)),
            commits_view(res@) == lv.take(i as int).filter_map(f),
        decreases ls.len() - i,
    {
        proof {
            lemma_filter_map_step(lv, f, i as int);
        }
        assert(lv[i as int] == ls@[i as int]@);
        match parse_commit_line(ls[i].as_str()) {
            Some(c) => {
                let ghost before = res@;
                res.push(c);
                assert(commits_view(res@) =~= commits_view(before).push(commit_view(c)));
            },
            None => {},
        }
        i = i + 1;
    }
    assert(lv.take(i as int) =~= lv);
    res
}

/// The history of one path: the same log format as [`commit_history`].
pub fn file_history(raw: &str) -> (res: Vec<CommitEntry>)
    ensures
        commits_view(res@) == commit_list(raw@),
{
    commit_history(raw)
}

fn parse_summary_line(line: &str) -> (res: Option<CommitSummaryEntry>)
    ensures
        match res {
            Some(c) => summary_line(line@) == Some((c.short_hash@, c.summary@)),
            None => summary_line(line@) is None,
        },
{
    let parts = split_char(line, '\u{1f}');
    assert(views(parts@) == split_on(line@, unit_sep()));
    if parts.len() < 2 {
        return None;
    }
    let short_hash = trimmed(parts[0].as_str());
    let summary = trimmed(parts[1].as_str());
    if short_hash.as_str().unicode_len() == 0 {
        return None;
    }
    Some(CommitSummaryEntry { short_hash, summary })
}

/// The commits of a `git log --pretty=format:%h␟%s` output.
pub fn parse_commit_summaries(raw: &str) -> (res: Vec<CommitSummaryEntry>)
    ensures
        summaries_view(res@) == summary_list(raw@),
{
    let ls = lines_of(raw);
    let ghost lv = lines(raw@);
    let ghost f = |l: Seq<char>| summary_line(l);
    let mut res: Vec<CommitSummaryEntry> = Vec::new();
    let mut i: usize = 0;
    while i < ls.len()
        invariant
            i <= ls.len(),
            views(ls@) == lv,
            f == (|l: Seq<char>| summary_line(l)),
            summaries_view(res@) == lv.take(i as int).filter_map(f),
        decreases ls.len() - i,
    {
        proof {
            lemma_filter_map_step(lv, f, i as int);
        }
        assert(lv[i as int] == ls@[i as int]@);
        match parse_summary_line(ls[i].as_str()) {
            Some(c) => {
                let ghost before = res@;
                let ghost cv = (c.short_hash@, c.summary@);
                res.push(c);
                assert(summaries_view(res@) =~= summaries_view(before).push(cv));
            },
            None => {},
        }
        i = i + 1;
    }
    assert(lv.take(i as int) =~= lv);
    res
}

/// The upstream named by `git rev-parse --abbrev-ref --symbolic-full-name @{u}`;
/// an empty answer means the branch has no upstream.
pub fn tracking_upstream(raw: &str) -> (res: Result<String, String>)
    ensures
        match res {
            Ok(u) => trim(raw@).len() > 0 && u@ == trim(raw@),
            Err(m) => trim(raw@).len() == 0 && m@ == no_upstream_message(),
        },
{
    let upstream = trimmed(raw);
    if upstream.as_str().unicode_len() == 0 {
        return Err(
            owned("No upstream configured for current branch (publish/push with upstream first)"),
        );
    }
    Ok(upstream)
}

/// The comparison with `upstream`, from the `%h␟%s` logs of `@{u}..HEAD`
/// (outgoing) and `HEAD..@{u}` (incoming).
pub fn tracking_commit_summary(upstream: String, outgoing_raw: &str, incoming_raw: &str) -> (res:
    TrackingCommitSummary)
    ensures
        res.upstream@ == upstream@,
        summaries_view(res.outgoing@) == summary_list(outgoing_raw@),
        summaries_view(res.incoming@) == summary_list(incoming_raw@),
{
    TrackingCommitSummary {
        upstream,
        outgoing: parse_commit_summaries(outgoing_raw),
        incoming: parse_commit_summaries(incoming_raw),
    }
}

fn piece_or_empty_exec(parts: &Vec<String>, k: usize) -> (res: String)
    ensures
        res@ == piece_or_empty(views(parts@), k as int),
{
    if k < parts.len() {
        trimmed(parts[k].as_str())
    } else {
        String::new()
    }
}

fn parse_changed_file_line(line: &str) -> (res: Option<CommitChangedFile>)
    ensures
        match res {
            Some(c) => changed_file_line(line@) == Some((c.status@, c.path@)),
            None => changed_file_line(line@) is None,
        },
{
    if is_blank(line) {
        return None;
    }
    let parts = split_char(line, '\t');
    proof {
        crate::text::lemma_split_on_len(line@, '\t');
    }
    let status = trimmed(parts[0].as_str());
    let first = piece_or_empty_exec(&parts, 1);
    let second = piece_or_empty_exec(&parts, 2);
    let path = if second.as_str().unicode_len() > 0 {
        second
    } else {
        first
    };
    if path.as_str().unicode_len() == 0 {
        return None;
    }
    Some(CommitChangedFile { status, path })
}

/// The changed files of a `git show --name-status --format=` output.
pub fn parse_changed_files(raw: &str) -> (res: Vec<CommitChangedFile>)
    ensures
        changed_files_view(res@) == changed_file_list(raw@),
{
    let ls = lines_of(raw);
    let ghost lv = lines(raw@);
    let ghost f = |l: Seq<char>| changed_file_line(l);
    let mut res: Vec<CommitChangedFile> = Vec::new();
    let mut i: usize = 0;
    while i < ls.len()
        invariant
            i <= ls.len(),
            views(ls@) == lv,
            f == (|l: Seq<char>| changed_file_line(l)),
            changed_files_view(res@) == lv.take(i as int).filter_map(f),
        decreases ls.len() - i,
    {
        proof {
            lemma_filter_map_step(lv, f, i as int);
        }
        assert(lv[i as int] == ls@[i as int]@);
        match parse_changed_file_line(ls[i].as_str()) {
            Some(c) => {
                let ghost before = res@;
                let ghost cv = (c.status@, c.path@);
                res.push(c);
                assert(changed_files_view(res@) =~= changed_files_view(before).push(cv));
            },
            None => {},
        }
        i = i + 1;
    }
    assert(lv.take(i as int) =~= lv);
    res
}

/// The details of a commit from its metadata line
/// (`%H␟%an␟%ae␟%ad␟%s`), its body (`%b`) and its `--name-status` list.
/// Missing metadata fields are empty; a missing metadata line or an
/// empty hash is an error.
/// `res` is what the three outputs of `git show` describe: metadata
/// fields from the first line of `metadata_raw`, the body without
/// trailing whitespace, the changed files; or the error for missing
/// metadata or an empty hash.
pub open spec fn details_parsed(metadata_raw: Seq<char>, body: Seq<char>, files_raw: Seq<char>, res: Result<CommitDetails, String>) -> bool {
    match res {
        Ok(d) => {
            let p = split_on(lines(metadata_raw)[0], unit_sep());
            &&& lines(metadata_raw).len() > 0
            &&& piece_or_empty(p, 0).len() > 0
            &&& d.hash@ == piece_or_empty(p, 0)
            &&& d.author_name@ == piece_or_empty(p, 1)
            &&& d.author_email@ == piece_or_empty(p, 2)
            &&& d.authored_at@ == piece_or_empty(p, 3)
            &&& d.subject@ == piece_or_empty(p, 4)
            &&& d.body@ == trim_end(body)
            &&& changed_files_view(d.files@) == changed_file_list(files_raw)
        },
        Err(m) => if lines(metadata_raw).len() == 0 {
            m@ == no_metadata_message()
        } else {
            &&& piece_or_empty(split_on(lines(metadata_raw)[0], unit_sep()), 0).len() == 0
            &&& m@ == empty_hash_message()
        },
    }
}

pub fn commit_details_structured(metadata_raw: &str, body: &str, files_raw: &str) -> (res: Result<
    CommitDetails,
    String,
>)
    ensures
        details_parsed(metadata_raw@, body@, files_raw@, res),
{
    let ls = lines_of(metadata_raw);
    if ls.len() == 0 {
        return Err(owned("No commit metadata found"));
    }
    let parts = split_char(ls[0].as_str(), '\u{1f}');
    assert(views(parts@) == split_on(lines(metadata_raw@)[0], unit_sep()));
    let hash = piece_or_empty_exec(&parts, 0);
    let author_name = piece_or_empty_exec(&parts, 1);
    let author_email = piece_or_empty_exec(&parts, 2);
    let authored_at = piece_or_empty_exec(&parts, 3);
    let subject = piece_or_empty_exec(&parts, 4);
    if hash.as_str().unicode_len() == 0 {
        return Err(owned("Commit hash was empty"));
    }
    let files = parse_changed_files(files_raw);
    Ok(
        CommitDetails {
            hash,
            author_name,
            author_email,
            authored_at,
            subject,
            body: trimmed_end(body),
            files,
        },
    )
}

} // verus!
