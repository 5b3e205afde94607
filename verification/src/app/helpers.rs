//! Text and path helpers of the application: cursor lines, labels,
//! status texts, completion and repository names.
use vstd::prelude::*;

use crate::git::prs::{PullRequestMergeMethod, PullRequestStatusSummary};
use crate::runtime_paths::{path_join, path_join_exec};
use crate::text::{
    cat, chars_of, contains, contains_str, decimal, decimal_string, ends_with, ends_with_str, join,
    join_strings, lines, lines_of, lower, lowercase, opt_string_view, owned, split_once,
    split_once_str, starts_with, starts_with_str, str_eq, string_of, string_of_range,
    strip_trailing_char, trim, trimmed, views,
};

verus! {

// ---------------------------------------------------------------------
// Paths of the standard library
// ---------------------------------------------------------------------
/// What `Path::parent` gives for a path.
pub uninterp spec fn parent_path(p: Seq<char>) -> Option<Seq<char>>;

/// What `Path::file_name` gives for a path.
pub uninterp spec fn file_name_of(p: Seq<char>) -> Option<Seq<char>>;

/// What `str::to_lowercase` gives (Unicode lower case).
pub uninterp spec fn lowercase_of(s: Seq<char>) -> Seq<char>;

/// Calls `Path::parent` on `p`: the path without its last component, if
/// it has one, by the path rules of the platform the client is built for.
/// The result is named, not described.
#[verifier::external_body]
pub(crate) fn path_parent(p: &str) -> (res: Option<String>)
    ensures
        opt_string_view(res) == parent_path(p@),
{
    std::path::Path::new(p).parent().map(|q| q.to_string_lossy().into_owned())
}

/// Calls `Path::file_name` on `p`: its last normal component, if any, by
/// the path rules of the platform the client is built for. The result is
/// named, not described.
#[verifier::external_body]
pub(crate) fn path_file_name(p: &str) -> (res: Option<String>)
    ensures
        opt_string_view(res) == file_name_of(p@),
{
    std::path::Path::new(p).file_name().map(|q| q.to_string_lossy().into_owned())
}

/// Calls `str::to_lowercase` on `s`. The result is named, not described.
#[verifier::external_body]
pub(crate) fn unicode_lowercase(s: &str) -> (res: String)
    ensures
        res@ == lowercase_of(s@),
{
    s.to_lowercase()
}

// ---------------------------------------------------------------------
// Lines of the input text
// ---------------------------------------------------------------------
/// Where the line that holds position `upto` starts: just after the last
/// newline before it, or 0.
pub open spec fn line_start(s: Seq<char>, upto: int) -> int
    decreases upto,
{
    if upto <= 0 {
        0
    } else if s[upto - 1] == '\n' {
        upto
    } else {
        line_start(s, upto - 1)
    }
}

/// Where the line from `idx` ends: at the next newline or at the end.
pub open spec fn line_end(s: Seq<char>, idx: int) -> int
    decreases s.len() - idx,
{
    if idx >= s.len() {
        s.len() as int
    } else if s[idx] == '\n' {
        idx
    } else {
        line_end(s, idx + 1)
    }
}

pub proof fn lemma_line_start_bounds(s: Seq<char>, upto: int)
    requires
        0 <= upto <= s.len(),
    ensures
        0 <= line_start(s, upto) <= upto,
        line_start(s, upto) > 0 ==> s[line_start(s, upto) - 1] == '\n',
        forall|k: int| line_start(s, upto) <= k < upto ==> s[k] != '\n',
    decreases upto,
{
    if upto > 0 && s[upto - 1] != '\n' {
        lemma_line_start_bounds(s, upto - 1);
    }
}

pub proof fn lemma_line_end_bounds(s: Seq<char>, idx: int)
    requires
        0 <= idx <= s.len(),
    ensures
        idx <= line_end(s, idx) <= s.len(),
        line_end(s, idx) < s.len() ==> s[line_end(s, idx)] == '\n',
        forall|k: int| idx <= k < line_end(s, idx) ==> s[k] != '\n',
    decreases s.len() - idx,
{
    if idx < s.len() && s[idx] != '\n' {
        lemma_line_end_bounds(s, idx + 1);
    }
}

/// The start of the line that holds `cursor` (clamped to the text).
pub fn line_start_before_or_at(chars: &Vec<char>, cursor: usize) -> (res: usize)
    ensures
        res == line_start(chars@, if cursor < chars.len() { cursor as int } else { chars.len() as int }),
        res <= chars.len(),
{
    let upto = if cursor < chars.len() {
        cursor
    } else {
        chars.len()
    };
    let mut i = upto;
    while i > 0 && chars[i - 1] != '\n'
        invariant
            i <= upto <= chars.len(),
            line_start(chars@, upto as int) == line_start(chars@, i as int),
        decreases i,
    {
        i = i - 1;
    }
    i
}

/// The end of the line that starts at `start` (clamped to the text).
pub fn line_end_from(chars: &Vec<char>, start: usize) -> (res: usize)
    ensures
        res == line_end(chars@, if start < chars.len() { start as int } else { chars.len() as int }),
        res <= chars.len(),
{
    let mut idx = if start < chars.len() {
        start
    } else {
        chars.len()
    };
    let ghost from = idx;
    while idx < chars.len() && chars[idx] != '\n'
        invariant
            from <= idx <= chars.len(),
            line_end(chars@, from as int) == line_end(chars@, idx as int),
        decreases chars.len() - idx,
    {
        idx = idx + 1;
    }
    idx
}

/// How many line breaks `s` holds.
pub open spec fn newline_count(s: Seq<char>) -> nat
    decreases s.len(),
{
    if s.len() == 0 {
        0
    } else {
        newline_count(s.drop_last()) + if s.last() == '\n' {
            1nat
        } else {
            0nat
        }
    }
}

/// How many characters follow the last line break of `s` (all of them
/// where it has none).
pub open spec fn column_after_last_newline(s: Seq<char>) -> nat
    decreases s.len(),
{
    if s.len() == 0 {
        0
    } else if s.last() == '\n' {
        0
    } else {
        column_after_last_newline(s.drop_last()) + 1
    }
}

proof fn lemma_newline_count_bound(s: Seq<char>)
    ensures
        newline_count(s) <= s.len(),
        column_after_last_newline(s) <= s.len(),
    decreases s.len(),
{
    if s.len() > 0 {
        lemma_newline_count_bound(s.drop_last());
    }
}

/// Where the cursor of a popup's input stands on screen: the line (after
/// `prefix_lines` lines of prefix) and the column, with the cursor
/// clamped to the text.
pub fn popup_cursor_position(prefix_lines: usize, input: &str, cursor: usize) -> (res: (usize, usize))
    requires
        prefix_lines + input@.len() <= usize::MAX,
    ensures
        ({
            let c = if cursor < input@.len() { cursor as int } else { input@.len() as int };
            &&& res.0 == prefix_lines + newline_count(input@.take(c))
            &&& res.1 == column_after_last_newline(input@.take(c))
        }),
{
    let chars = chars_of(input);
    let c = if cursor < chars.len() {
        cursor
    } else {
        chars.len()
    };
    let mut line: usize = prefix_lines;
    let mut col: usize = 0;
    let mut i: usize = 0;
    while i < c
        invariant
            i <= c <= chars.len(),
            chars@ == input@,
            prefix_lines + chars@.len() <= usize::MAX,
            line == prefix_lines + newline_count(chars@.take(i as int)),
            col == column_after_last_newline(chars@.take(i as int)),
        decreases c - i,
    {
        proof {
            lemma_newline_count_bound(chars@.take(i as int));
            assert(chars@.take(i + 1).drop_last() =~= chars@.take(i as int));
            assert(chars@.take(i + 1).last() == chars@[i as int]);
        }
        if chars[i] == '\n' {
            line = line + 1;
            col = 0;
        } else {
            col = col + 1;
        }
        i = i + 1;
    }
    (line, col)
}

/// The first `max_lines` lines of `input`, joined by newlines.
pub open spec fn first_lines(input: Seq<char>, max_lines: nat) -> Seq<char> {
    join(lines(input).take(if max_lines <= lines(input).len() { max_lines as int } else { lines(input).len() as int }), "\n"@)
}

/// Keeps the first `max_lines` lines of `input`.
pub fn truncate_lines(input: &str, max_lines: usize) -> (res: String)
    ensures
        res@ == first_lines(input@, max_lines as nat),
{
    let ls = lines_of(input);
    let n = if max_lines <= ls.len() {
        max_lines
    } else {
        ls.len()
    };
    let mut kept: Vec<String> = Vec::new();
    let mut i: usize = 0;
    while i < n
        invariant
            i <= n <= ls.len(),
            views(kept@) == views(ls@).take(i as int),
        decreases n - i,
    {
        let ghost before = kept@;
        let c = ls[i].clone();
        kept.push(c);
        assert(views(kept@) =~= views(before).push(c@));
        assert(views(ls@).take(i + 1) =~= views(ls@).take(i as int).push(ls@[i as int]@));
        i = i + 1;
    }
    join_strings(&kept, "\n")
}

// ---------------------------------------------------------------------
// Labels and status texts
// ---------------------------------------------------------------------
pub open spec fn merge_method_label(m: PullRequestMergeMethod) -> Seq<char> {
    match m {
        PullRequestMergeMethod::Merge => "merge"@,
        PullRequestMergeMethod::Squash => "squash"@,
        PullRequestMergeMethod::Rebase => "rebase"@,
    }
}

/// How a merge method is named to the user.
pub fn pull_request_merge_method_label(method: PullRequestMergeMethod) -> (res: &'static str)
    ensures
        res@ == merge_method_label(method),
{
    match method {
        PullRequestMergeMethod::Merge => "merge",
        PullRequestMergeMethod::Squash => "squash",
        PullRequestMergeMethod::Rebase => "rebase",
    }
}

pub open spec fn or_unknown(o: Option<Seq<char>>) -> Seq<char> {
    match o {
        Some(s) => s,
        None => "UNKNOWN"@,
    }
}

/// The three lines that describe a pull request's merge readiness.
pub open spec fn pr_status_text(s: PullRequestStatusSummary) -> Seq<char> {
    "Mergeability: "@ + or_unknown(opt_string_view(s.merge_state_status)) + "\nReview decision: "@
        + or_unknown(opt_string_view(s.review_decision)) + "\nChecks: "@ + decimal(s.checks_passing as nat)
        + "/"@ + decimal(s.checks_total as nat) + " passing, "@ + decimal(s.checks_failing as nat)
        + " failing, "@ + decimal(s.checks_pending as nat) + " pending"@
}

fn or_unknown_exec(o: &Option<String>) -> (res: String)
    ensures
        res@ == or_unknown(opt_string_view(*o)),
{
    match o {
        Some(s) => s.clone(),
        None => owned("UNKNOWN"),
    }
}

/// Describes a pull request's merge readiness.
pub fn format_pr_status_summary(summary: &PullRequestStatusSummary) -> (res: String)
    ensures
        res@ == pr_status_text(*summary),
{
    let r = owned("Mergeability: ");
    let r = r.concat(or_unknown_exec(&summary.merge_state_status).as_str());
    let r = r.concat("\nReview decision: ");
    let r = r.concat(or_unknown_exec(&summary.review_decision).as_str());
    let r = r.concat("\nChecks: ");
    let r = r.concat(decimal_string(summary.checks_passing).as_str());
    let r = r.concat("/");
    let r = r.concat(decimal_string(summary.checks_total).as_str());
    let r = r.concat(" passing, ");
    let r = r.concat(decimal_string(summary.checks_failing).as_str());
    let r = r.concat(" failing, ");
    let r = r.concat(decimal_string(summary.checks_pending).as_str());
    r.concat(" pending")
}

pub open spec fn gh_auth_markers() -> Seq<Seq<char>> {
    seq!["not logged"@, "authentication"@, "auth token"@, "401"@, "forbidden"@, "please run gh auth login"@]
}

pub open spec fn gh_repo_markers() -> Seq<Seq<char>> {
    seq!["not a git repository"@, "could not resolve to a repository"@, "no git remotes found"@]
}

pub open spec fn contains_some(s: Seq<char>, needles: Seq<Seq<char>>) -> bool {
    exists|k: int| 0 <= k < needles.len() && contains(s, needles[k])
}

/// What the status line says of a GitHub CLI failure with message `message`.
pub open spec fn gh_error_text(message: Seq<char>) -> Seq<char> {
    let low = lower(message);
    if contains(low, "gh"@) && contains_some(low, gh_auth_markers()) {
        "GitHub CLI auth required: run `gh auth login`, then retry."@
    } else if contains(low, "gh"@) && contains_some(low, gh_repo_markers()) {
        "GitHub CLI could not resolve this repo. Ensure it has a GitHub remote and you have access."@
    } else if contains(low, "gh"@) {
        "GitHub CLI error: "@ + message
    } else {
        message
    }
}

fn contains_one_of(s: &str, needles: &Vec<&str>) -> (res: bool)
    ensures
        res == contains_some(s@, needles@.map_values(|n: &str| n@)),
{
    let ghost nv = needles@.map_values(|n: &str| n@);
    let mut i: usize = 0;
    while i < needles.len()
        invariant
            i <= needles.len(),
            nv == needles@.map_values(|n: &str| n@),
            forall|k: int| 0 <= k < i ==> !contains(s@, nv[k]),
        decreases needles.len() - i,
    {
        assert(nv[i as int] == needles@[i as int]@);
        if contains_str(s, needles[i]) {
            return true;
        }
        i = i + 1;
    }
    false
}

/// The status line for a failed GitHub CLI call whose error reads `message`.
pub fn format_gh_error_for_status(message: &str) -> (res: String)
    ensures
        res@ == gh_error_text(message@),
{
    let low = lowercase(message);
    let l = low.as_str();
    let mentions_gh = contains_str(l, "gh");
    let auth = vec!["not logged", "authentication", "auth token", "401", "forbidden", "please run gh auth login"];
    assert(auth@.map_values(|n: &str| n@) =~= gh_auth_markers());
    if mentions_gh && contains_one_of(l, &auth) {
        return owned("GitHub CLI auth required: run `gh auth login`, then retry.");
    }
    let repo = vec!["not a git repository", "could not resolve to a repository", "no git remotes found"];
    assert(repo@.map_values(|n: &str| n@) =~= gh_repo_markers());
    if mentions_gh && contains_one_of(l, &repo) {
        return owned(
            "GitHub CLI could not resolve this repo. Ensure it has a GitHub remote and you have access.",
        );
    }
    if mentions_gh {
        return cat("GitHub CLI error: ", message);
    }
    owned(message)
}

// ---------------------------------------------------------------------
// Completion
// ---------------------------------------------------------------------
/// The longest start of `p` that `v` starts with.
pub open spec fn shrink_to_prefix(p: Seq<char>, v: Seq<char>) -> Seq<char>
    decreases p.len(),
{
    if p.len() == 0 || starts_with(v, p) {
        p
    } else {
        shrink_to_prefix(p.drop_last(), v)
    }
}

/// The longest common start of all of `vals` (empty for no values).
pub open spec fn common_prefix_of(vals: Seq<Seq<char>>) -> Seq<char>
    decreases vals.len(),
{
    if vals.len() == 0 {
        Seq::empty()
    } else if vals.len() == 1 {
        vals[0]
    } else {
        shrink_to_prefix(common_prefix_of(vals.drop_last()), vals.last())
    }
}

fn shrink_to_prefix_exec(p: &Vec<char>, v: &str) -> (res: Vec<char>)
    ensures
        res@ == shrink_to_prefix(p@, v@),
{
    let mut q = p.clone();
    assert(q@ == p@);
    while q.len() > 0 && !starts_with_str(v, string_of(&q).as_str())
        invariant
            shrink_to_prefix(q@, v@) == shrink_to_prefix(p@, v@),
        decreases q.len(),
    {
        let ghost before = q@;
        q.pop();
        assert(q@ == before.drop_last());
    }
    q
}

/// The longest common start of `values` (`""` for none).
pub fn common_prefix(values: &Vec<String>) -> (res: String)
    ensures
        res@ == common_prefix_of(views(values@)),
{
    if values.len() == 0 {
        return String::new();
    }
    let ghost vs = views(values@);
    let mut prefix = chars_of(values[0].as_str());
    assert(vs.take(1).drop_last().len() == 0);
    assert(common_prefix_of(vs.take(1)) == vs[0]);
    let mut i: usize = 1;
    while i < values.len()
        invariant
            1 <= i <= values.len(),
            vs == views(values@),
            prefix@ == common_prefix_of(vs.take(i as int)),
        decreases values.len() - i,
    {
        assert(vs.take(i + 1).drop_last() =~= vs.take(i as int));
        assert(vs.take(i + 1).last() == values@[i as int]@);
        prefix = shrink_to_prefix_exec(&prefix, values[i].as_str());
        i = i + 1;
    }
    assert(vs.take(i as int) =~= vs);
    string_of(&prefix)
}

// ---------------------------------------------------------------------
// Paths shown to the user
// ---------------------------------------------------------------------
/// A path as the user reads it: on Windows without the `\\?\` (or
/// `\\?\UNC\`) prefix that canonical paths carry.
pub open spec fn display_path(raw: Seq<char>, windows: bool) -> Seq<char> {
    if !windows {
        raw
    } else if starts_with(raw, "\\\\?\\UNC\\"@) {
        "\\\\"@ + raw.skip(8)
    } else if starts_with(raw, "\\\\?\\"@) {
        raw.skip(4)
    } else {
        raw
    }
}

/// `raw` as the user reads it; `windows` says whether this is a Windows build.
pub fn display_path_for_ui(raw: &str, windows: bool) -> (res: String)
    ensures
        res@ == display_path(raw@, windows),
{
    if !windows {
        return owned(raw);
    }
    let v = chars_of(raw);
    if starts_with_str(raw, "\\\\?\\UNC\\") {
        proof {
            reveal_strlit("\\\\?\\UNC\\");
        }
        let rest = string_of_range(&v, 8, v.len());
        assert(rest@ =~= raw@.skip(8));
        return cat("\\\\", rest.as_str());
    }
    if starts_with_str(raw, "\\\\?\\") {
        proof {
            reveal_strlit("\\\\?\\");
        }
        let rest = string_of_range(&v, 4, v.len());
        assert(rest@ =~= raw@.skip(4));
        return rest;
    }
    owned(raw)
}

/// The last segment of `s` split at `/` and `:` that is not empty.
pub open spec fn last_segment(s: Seq<char>) -> Option<Seq<char>>
    decreases s.len(),
{
    if s.len() == 0 {
        None
    } else if s.last() == '/' || s.last() == ':' {
        last_segment(s.drop_last())
    } else {
        Some(segment_tail(s))
    }
}

/// The end of `s` after its last `/` or `:`.
pub open spec fn segment_tail(s: Seq<char>) -> Seq<char>
    decreases s.len(),
{
    if s.len() == 0 {
        s
    } else if s.last() == '/' || s.last() == ':' {
        Seq::empty()
    } else {
        segment_tail(s.drop_last()).push(s.last())
    }
}

/// The repository name in a remote URL: its last path segment without `.git`.
pub open spec fn remote_repo_name(url: Seq<char>) -> Option<Seq<char>> {
    let t = strip_trailing_char(trim(url), '/');
    if t.len() == 0 {
        None
    } else {
        let base = if ends_with(t, ".git"@) { t.take(t.len() - 4) } else { t };
        last_segment(base)
    }
}

fn segment_tail_end(v: &Vec<char>, n: usize) -> (res: usize)
    requires
        n <= v.len(),
    ensures
        res <= n,
        segment_tail(v@.take(n as int)) == v@.subrange(res as int, n as int),
{
    let mut i = n;
    while i > 0 && v[i - 1] != '/' && v[i - 1] != ':'
        invariant
            i <= n <= v.len(),
            segment_tail(v@.take(n as int)) == segment_tail(v@.take(i as int)) + v@.subrange(i as int, n as int),
        decreases i,
    {
        assert(v@.take(i as int).drop_last() =~= v@.take(i - 1));
        assert(segment_tail(v@.take(i as int)) == segment_tail(v@.take(i - 1)).push(v@[i - 1]));
        assert(segment_tail(v@.take(i - 1)).push(v@[i - 1]) + v@.subrange(i as int, n as int) =~= segment_tail(
            v@.take(i - 1),
        ) + v@.subrange(i - 1, n as int));
        i = i - 1;
    }
    if i > 0 {
        assert(v@.take(i as int).last() == v@[i - 1]);
    }
    assert(segment_tail(v@.take(i as int)) =~= Seq::<char>::empty());
    assert(Seq::<char>::empty() + v@.subrange(i as int, n as int) =~= v@.subrange(i as int, n as int));
    i
}

fn strip_trailing_slashes_len(v: &Vec<char>) -> (n: usize)
    ensures
        n <= v.len(),
        strip_trailing_char(v@, '/') == v@.take(n as int),
{
    let mut n = v.len();
    assert(v@.take(n as int) =~= v@);
    while n > 0 && v[n - 1] == '/'
        invariant
            n <= v.len(),
            strip_trailing_char(v@, '/') == strip_trailing_char(v@.take(n as int), '/'),
        decreases n,
    {
        assert(v@.take(n as int).drop_last() =~= v@.take(n - 1));
        n = n - 1;
    }
    if n > 0 {
        assert(v@.take(n as int).last() == v@[n - 1]);
    }
    n
}

fn last_segment_range(v: &Vec<char>, m0: usize) -> (res: Option<(usize, usize)>)
    requires
        m0 <= v.len(),
    ensures
        match res {
            Some((a, b)) => a <= b <= v.len() && last_segment(v@.take(m0 as int)) == Some(v@.subrange(a as int, b as int)),
            None => last_segment(v@.take(m0 as int)) is None,
        },
{
    let mut m = m0;
    while m > 0 && (v[m - 1] == '/' || v[m - 1] == ':')
        invariant
            m <= m0 <= v.len(),
            last_segment(v@.take(m0 as int)) == last_segment(v@.take(m as int)),
        decreases m,
    {
        assert(v@.take(m as int).drop_last() =~= v@.take(m - 1));
        m = m - 1;
    }
    if m == 0 {
        return None;
    }
    assert(v@.take(m as int).last() == v@[m - 1]);
    let start = segment_tail_end(v, m);
    Some((start, m))
}

/// The repository name in the remote URL `url`, if it has one.
pub fn repo_name_from_remote_url(url: &str) -> (res: Option<String>)
    ensures
        opt_string_view(res) == remote_repo_name(url@),
{
    let t = trimmed(url);
    let v = chars_of(t.as_str());
    let n = strip_trailing_slashes_len(&v);
    let ghost stripped = v@.take(n as int);
    if n == 0 {
        return None;
    }
    let head = string_of_range(&v, 0, n);
    assert(head@ =~= stripped);
    let mut m = n;
    if ends_with_str(head.as_str(), ".git") {
        proof {
            reveal_strlit(".git");
        }
        m = n - 4;
    }
    assert(v@.take(m as int) =~= (if ends_with(stripped, ".git"@) { stripped.take(stripped.len() - 4) } else { stripped }));
    match last_segment_range(&v, m) {
        Some((a, b)) => Some(string_of_range(&v, a, b)),
        None => None,
    }
}

/// The `url` of the `[remote "origin"]` section of a git config, turned
/// into a repository name: the first `url =` line of that section decides.
pub open spec fn origin_name_in(ls: Seq<Seq<char>>, in_origin: bool) -> Option<Seq<char>>
    decreases ls.len(),
{
    if ls.len() == 0 {
        None
    } else {
        let t = trim(ls[0]);
        if starts_with(t, "["@) && ends_with(t, "]"@) {
            origin_name_in(ls.drop_first(), t == "[remote \"origin\"]"@)
        } else if in_origin && split_once(t, "="@) is Some && trim(split_once(t, "="@)->Some_0.0) == "url"@ {
            remote_repo_name(trim(split_once(t, "="@)->Some_0.1))
        } else {
            origin_name_in(ls.drop_first(), in_origin)
        }
    }
}

/// The repository name of the `origin` remote in the git config text `content`.
pub fn origin_repo_name(content: &str) -> (res: Option<String>)
    ensures
        opt_string_view(res) == origin_name_in(lines(content@), false),
{
    let ls = lines_of(content);
    let ghost lv = views(ls@);
    let mut in_origin = false;
    let mut i: usize = 0;
    assert(lv.skip(0) =~= lv);
    while i < ls.len()
        invariant
            i <= ls.len(),
            lv == views(ls@),
            lv == lines(content@),
            origin_name_in(lv, false) == origin_name_in(lv.skip(i as int), in_origin),
        decreases ls.len() - i,
    {
        assert(lv.skip(i as int)[0] == ls@[i as int]@);
        assert(lv.skip(i as int).drop_first() =~= lv.skip(i + 1));
        let t = trimmed(ls[i].as_str());
        if starts_with_str(t.as_str(), "[") && ends_with_str(t.as_str(), "]") {
            in_origin = str_eq(t.as_str(), "[remote \"origin\"]");
        } else if in_origin {
            match split_once_str(t.as_str(), "=") {
                Some((key, value)) => {
                    let k = trimmed(key.as_str());
                    if str_eq(k.as_str(), "url") {
                        let val = trimmed(value.as_str());
                        return repo_name_from_remote_url(val.as_str());
                    }
                },
                None => {},
            }
        }
        i = i + 1;
    }
    None
}

/// Where the git config of the repository at `root` is: `.git/config`
/// when `.git` is a directory; when it is a file, `config` under the
/// directory its first `gitdir:` line names (taken from `root` when
/// relative); nothing when that line names nothing.
pub open spec fn config_path_of(root: Seq<char>, git_is_dir: bool, pointer: Option<Seq<char>>) -> Option<Seq<char>> {
    if git_is_dir {
        Some(path_join(path_join(root, ".git"@), "config"@))
    } else {
        match pointer {
            None => None,
            Some(text) => gitdir_config(root, lines(text)),
        }
    }
}

pub open spec fn gitdir_config(root: Seq<char>, ls: Seq<Seq<char>>) -> Option<Seq<char>>
    decreases ls.len(),
{
    if ls.len() == 0 {
        None
    } else {
        let t = trim(ls[0]);
        if starts_with(t, "gitdir:"@) {
            let g = trim(t.skip(7));
            if g.len() == 0 {
                None
            } else {
                Some(path_join(path_join(root, g), "config"@))
            }
        } else {
            gitdir_config(root, ls.drop_first())
        }
    }
}

fn gitdir_config_exec(repo_root: &str, text: &str) -> (res: Option<String>)
    ensures
        opt_string_view(res) == gitdir_config(repo_root@, lines(text@)),
{
    let ls = lines_of(text);
    let ghost lv = views(ls@);
    let mut i: usize = 0;
    assert(lv.skip(0) =~= lv);
    while i < ls.len()
        invariant
            i <= ls.len(),
            lv == views(ls@),
            lv == lines(text@),
            gitdir_config(repo_root@, lv) == gitdir_config(repo_root@, lv.skip(i as int)),
        decreases ls.len() - i,
    {
        let ghost rest = lv.skip(i as int);
        assert(rest[0] == ls@[i as int]@);
        assert(rest.drop_first() =~= lv.skip(i + 1));
        let t = trimmed(ls[i].as_str());
        assert(t@ == trim(rest[0]));
        if starts_with_str(t.as_str(), "gitdir:") {
            proof {
                reveal_strlit("gitdir:");
            }
            assert("gitdir:"@.len() == 7);
            let v = chars_of(t.as_str());
            let tail = string_of_range(&v, 7, v.len());
            assert(tail@ =~= t@.skip(7));
            let g = trimmed(tail.as_str());
            assert(g@ == trim(t@.skip(7)));
            if g.as_str().unicode_len() == 0 {
                return None;
            }
            let dir = path_join_exec(repo_root, g.as_str());
            return Some(path_join_exec(dir.as_str(), "config"));
        }
        i = i + 1;
    }
    None
}

/// The git config of the repository at `repo_root`, given whether its
/// `.git` is a directory and, where it is a file, that file's text.
pub fn git_config_path(repo_root: &str, git_is_dir: bool, pointer: Option<&str>) -> (res: Option<String>)
    ensures
        opt_string_view(res) == config_path_of(repo_root@, git_is_dir, match pointer { Some(p) => Some(p@), None => None }),
{
    if git_is_dir {
        let meta = path_join_exec(repo_root, ".git");
        return Some(path_join_exec(meta.as_str(), "config"));
    }
    match pointer {
        Some(p) => gitdir_config_exec(repo_root, p),
        None => None,
    }
}

/// Where git records the last fetch: `FETCH_HEAD` beside the git config.
pub fn fetch_head_path(config_path: &str) -> (res: Option<String>)
    ensures
        opt_string_view(res) == match parent_path(config_path@) {
            Some(d) => Some(path_join(d, "FETCH_HEAD"@)),
            None => None,
        },
{
    match path_parent(config_path) {
        Some(d) => Some(path_join_exec(d.as_str(), "FETCH_HEAD")),
        None => None,
    }
}

/// The label of a tracked repository: its `origin` name, else the last
/// component of its displayed path, else that path.
pub open spec fn picker_label(raw: Seq<char>, origin: Option<Seq<char>>, windows: bool) -> Seq<char> {
    match origin {
        Some(o) => o,
        None => match file_name_of(display_path(raw, windows)) {
            Some(n) => if n.len() > 0 { n } else { display_path(raw, windows) },
            None => display_path(raw, windows),
        },
    }
}

/// The label under which the repository at `raw_path` is listed, given
/// the name its `origin` remote gives it (if it has one).
pub fn infer_repo_picker_label(raw_path: &str, origin: Option<String>, windows: bool) -> (res: String)
    ensures
        res@ == picker_label(raw_path@, opt_string_view(origin), windows),
{
    match origin {
        Some(o) => o,
        None => {
            let shown = display_path_for_ui(raw_path, windows);
            match path_file_name(shown.as_str()) {
                Some(n) => {
                    if n.as_str().unicode_len() > 0 {
                        n
                    } else {
                        shown
                    }
                },
                None => shown,
            }
        },
    }
}

/// A Windows drive typed alone (`C:`) completes from that drive's root.
pub open spec fn drive_root(raw: Seq<char>, windows: bool) -> Option<Seq<char>> {
    if windows && raw.len() == 2 && is_ascii_letter(raw[0]) && raw[1] == ':' {
        Some(seq![raw[0]] + ":\\"@)
    } else {
        None
    }
}

pub open spec fn is_ascii_letter(c: char) -> bool {
    ('a' <= c && c <= 'z') || ('A' <= c && c <= 'Z')
}

/// The root of the drive that `raw` names on Windows.
pub fn windows_drive_root_from_input(raw: &str, windows: bool) -> (res: Option<String>)
    ensures
        opt_string_view(res) == drive_root(raw@, windows),
{
    if !windows {
        return None;
    }
    let v = chars_of(raw);
    if v.len() == 2 && (('a' <= v[0] && v[0] <= 'z') || ('A' <= v[0] && v[0] <= 'Z')) && v[1] == ':' {
        let mut s = String::new();
        crate::text::push_char(&mut s, v[0]);
        let r = s.concat(":\\");
        assert(r@ =~= seq![raw@[0]] + ":\\"@);
        return Some(r);
    }
    None
}

/// Where completion looks and what it completes: the drive root on
/// Windows; the path itself when it is a directory or ends in a
/// separator; else its parent and last component; else the home
/// directory and all of `raw`.
pub open spec fn completion_base(path: Seq<char>, raw: Seq<char>, path_is_dir: bool, home: Seq<char>, windows: bool) -> (Seq<char>, Seq<char>) {
    match drive_root(raw, windows) {
        Some(r) => (r, Seq::empty()),
        None => if path_is_dir || ends_with(raw, "\\"@) || ends_with(raw, "/"@) {
            (path, Seq::empty())
        } else {
            match parent_path(path) {
                Some(p) => if p.len() > 0 {
                    (p, match file_name_of(path) { Some(n) => n, None => Seq::empty() })
                } else {
                    (home, raw)
                },
                None => (home, raw),
            }
        },
    }
}

/// The directory to list and the start of the name to complete, for the
/// typed path `raw` (as `path`, which `path_is_dir` says is a directory).
pub fn completion_base_and_fragment(path: &str, raw: &str, path_is_dir: bool, home: &str, windows: bool) -> (res: (String, String))
    ensures
        (res.0@, res.1@) == completion_base(path@, raw@, path_is_dir, home@, windows),
{
    match windows_drive_root_from_input(raw, windows) {
        Some(r) => return (r, String::new()),
        None => {},
    }
    if path_is_dir || ends_with_str(raw, "\\") || ends_with_str(raw, "/") {
        return (owned(path), String::new());
    }
    match path_parent(path) {
        Some(p) => {
            if p.as_str().unicode_len() > 0 {
                let frag = match path_file_name(path) {
                    Some(n) => n,
                    None => String::new(),
                };
                (p, frag)
            } else {
                (owned(home), owned(raw))
            }
        },
        None => (owned(home), owned(raw)),
    }
}

} // verus!
