//! What the user is shown of a failed command: secrets are redacted, and a
//! failed commit is explained from its output.
use vstd::prelude::*;

use crate::text::{
    cat, cat3, chars_of, contains, contains_str, find, find_from, is_blank, join, join_strings,
    lines, lines_of, lower, lowercase, occurs_at, owned, string_of, trim, trim_end, trimmed_end,
    views,
};

verus! {

// ---------------------------------------------------------------------
// Specification
// ---------------------------------------------------------------------
/// A character that may belong to a token (`[A-Za-z0-9_-]`).
pub open spec fn is_token_char(c: char) -> bool {
    let u = c as u32;
    (48 <= u <= 57) || (65 <= u <= 90) || (97 <= u <= 122) || c == '_' || c == '-'
}

/// Length of the token at the start of `s`.
pub open spec fn token_len(s: Seq<char>) -> nat
    decreases s.len(),
{
    if s.len() > 0 && is_token_char(s[0]) {
        1 + token_len(s.drop_first())
    } else {
        0
    }
}

/// Every `m` in `s` keeps `m` and has the token after it replaced by `[REDACTED]`.
pub open spec fn redact_marker(s: Seq<char>, m: Seq<char>) -> Seq<char>
    decreases s.len(),
{
    if m.len() == 0 {
        s
    } else {
        match find(s, m) {
            None => s,
            Some(i) => if 0 <= i && i + m.len() <= s.len() {
                let after = s.skip(i + m.len());
                let rest = if token_len(after) <= after.len() {
                    after.skip(token_len(after) as int)
                } else {
                    Seq::empty()
                };
                s.take(i) + m + "[REDACTED]"@ + redact_marker(rest, m)
            } else {
                s
            },
        }
    }
}

/// The token prefixes that GitHub gives its credentials.
pub open spec fn token_markers() -> Seq<Seq<char>> {
    seq!["ghp_"@, "gho_"@, "ghu_"@, "ghs_"@, "ghr_"@, "github_pat_"@]
}

/// `s` with the token after each marker of `ms` redacted, marker by marker.
pub open spec fn redact_markers(s: Seq<char>, ms: Seq<Seq<char>>) -> Seq<char>
    decreases ms.len(),
{
    if ms.len() == 0 {
        s
    } else {
        redact_marker(redact_markers(s, ms.drop_last()), ms.last())
    }
}

/// Labels that mark a line as holding a credential.
pub open spec fn sensitive_labels() -> Seq<Seq<char>> {
    seq!["authorization:"@, "token:"@, "password:"@, "passwd:"@, "secret:"@]
}

pub open spec fn is_sensitive_line(line: Seq<char>) -> bool {
    exists|k: int| 0 <= k < sensitive_labels().len() && contains(lower(line), sensitive_labels()[k])
}

pub open spec fn redacted_line() -> Seq<char> {
    "[REDACTED: sensitive line]"@
}

pub open spec fn sanitize_line(line: Seq<char>) -> Seq<char> {
    if is_sensitive_line(line) {
        redacted_line()
    } else {
        line
    }
}

/// The text with tokens redacted and each line that names a credential
/// replaced, lines joined by `\n`.
pub open spec fn redact(input: Seq<char>) -> Seq<char> {
    let r = redact_markers(input, token_markers());
    join(lines(r).map_values(|l: Seq<char>| sanitize_line(l)), "\n"@)
}

/// The last `max_lines` lines of the redacted text, without trailing
/// whitespace; nothing for blank text or no lines.
pub open spec fn output_tail_of(raw: Seq<char>, max_lines: nat) -> Seq<char> {
    if trim(raw).len() == 0 || max_lines == 0 {
        Seq::empty()
    } else {
        let ls = lines(redact(raw));
        let start = if ls.len() > max_lines {
            ls.len() - max_lines
        } else {
            0
        };
        join(ls.skip(start).map_values(|l: Seq<char>| trim_end(l)), "\n"@)
    }
}

/// Phrases by which git hooks report a refusal.
pub open spec fn hook_needles() -> Seq<Seq<char>> {
    seq!["pre-commit hook"@, "commit-msg hook"@, "hook declined"@, "hook failed"@, "husky - "@]
}

pub open spec fn is_hook_failure(lower_output: Seq<char>) -> bool {
    exists|k: int| 0 <= k < hook_needles().len() && contains(lower_output, hook_needles()[k])
}

/// Phrases by which git reports an unfinished merge.
pub open spec fn merge_needles() -> Seq<Seq<char>> {
    seq!["unmerged files"@, "completing the merge"@, "you have not concluded your merge"@]
}

/// The non-blank of standard error and standard output, in that order, joined by `\n`.
pub open spec fn combined_output(stderr: Seq<char>, stdout: Seq<char>) -> Seq<char> {
    let e = trim(stderr).len() > 0;
    let o = trim(stdout).len() > 0;
    if e && o {
        stderr + "\n"@ + stdout
    } else if e {
        stderr
    } else if o {
        stdout
    } else {
        Seq::empty()
    }
}

/// The message of a failed `git commit` with exit status text `status`.
pub open spec fn commit_failure_message(status: Seq<char>, stdout: Seq<char>, stderr: Seq<char>) -> Seq<char> {
    let combined = combined_output(stderr, stdout);
    let low = lower(combined);
    let tail = output_tail_of(combined, 10);
    if exists|k: int| 0 <= k < merge_needles().len() && contains(low, merge_needles()[k]) {
        "Cannot commit: unresolved merge conflicts detected. Resolve conflicts, stage files, then retry."@
    } else if is_hook_failure(low) {
        if tail.len() == 0 {
            "Commit blocked by git hooks. No hook output was captured."@
        } else {
            "Commit blocked by git hooks. Recent output:\n"@ + tail
        }
    } else if tail.len() == 0 {
        "git commit failed with status "@ + status
    } else {
        "git commit failed with status "@ + status + ". Recent output:\n"@ + tail
    }
}

/// The error of a failed command: program, exit status and redacted standard error.
pub open spec fn command_failure_message(program: Seq<char>, status: Seq<char>, stderr: Seq<char>) -> Seq<char> {
    program + " failed with status "@ + status + ": "@ + redact(stderr)
}

// ---------------------------------------------------------------------
// Lemmas
// ---------------------------------------------------------------------
/// The first occurrence of `p` is at `k`.
pub proof fn lemma_find_is(s: Seq<char>, p: Seq<char>, k: int)
    requires
        occurs_at(s, p, k),
        forall|j: int| 0 <= j < k ==> !occurs_at(s, p, j),
    ensures
        find(s, p) == Some(k),
{
    reveal(find);
    assert(crate::text::contains(s, p));
    let w = choose|i: int| occurs_at(s, p, i) && forall|j: int| 0 <= j < i ==> !occurs_at(s, p, j);
    if w < k {
        assert(!occurs_at(s, p, w));
    } else if w > k {
        assert(!occurs_at(s, p, k));
    }
}

/// `p` does not occur in `s`.
pub proof fn lemma_find_none(s: Seq<char>, p: Seq<char>)
    requires
        forall|j: int| 0 <= j ==> !occurs_at(s, p, j),
    ensures
        find(s, p) is None,
{
    reveal(find);
}

proof fn lemma_occurs_skip(s: Seq<char>, p: Seq<char>, d: int, k: int)
    requires
        0 <= d <= s.len(),
        0 <= k,
    ensures
        occurs_at(s.skip(d), p, k) == occurs_at(s, p, d + k),
{
    if occurs_at(s, p, d + k) {
        assert(s.skip(d).subrange(k, k + p.len()) =~= s.subrange(d + k, d + k + p.len()));
    }
    if occurs_at(s.skip(d), p, k) {
        assert(s.skip(d).subrange(k, k + p.len()) =~= s.subrange(d + k, d + k + p.len()));
    }
}

proof fn lemma_token_len_bound(s: Seq<char>)
    ensures
        token_len(s) <= s.len(),
    decreases s.len(),
{
    if s.len() > 0 && is_token_char(s[0]) {
        lemma_token_len_bound(s.drop_first());
    }
}

// ---------------------------------------------------------------------
// Executable functions
// ---------------------------------------------------------------------
fn is_token_char_exec(c: char) -> (res: bool)
    ensures
        res == is_token_char(c),
{
    let u = c as u32;
    (48 <= u && u <= 57) || (65 <= u && u <= 90) || (97 <= u && u <= 122) || c == '_' || c == '-'
}

/// Appends `v[lo..hi]` to `out`.
fn append_range(out: &mut Vec<char>, v: &Vec<char>, lo: usize, hi: usize)
    requires
        lo <= hi <= v.len(),
    ensures
        final(out)@ == old(out)@ + v@.subrange(lo as int, hi as int),
{
    let ghost out0 = old(out)@;
    let mut j = lo;
    while j < hi
        invariant
            lo <= j <= hi <= v.len(),
            out@ == out0 + v@.subrange(lo as int, j as int),
        decreases hi - j,
    {
        out.push(v[j]);
        assert(out0 + v@.subrange(lo as int, j + 1) =~= (out0 + v@.subrange(lo as int, j as int)).push(v@[j as int]));
        j = j + 1;
    }
}

/// Keeps each `marker` and replaces the token that follows it by `[REDACTED]`.
fn redact_token_after_marker(input: &Vec<char>, marker: &Vec<char>) -> (res: Vec<char>)
    requires
        marker@.len() > 0,
    ensures
        res@ == redact_marker(input@, marker@),
{
    let mut out: Vec<char> = Vec::new();
    let mut idx: usize = 0;
    let redacted = chars_of("[REDACTED]");
    assert(input@.skip(0) =~= input@);
    assert(out@ + redact_marker(input@, marker@) =~= redact_marker(input@, marker@));
    loop
        invariant
            idx <= input.len(),
            marker@.len() > 0,
            redacted@ == "[REDACTED]"@,
            out@ + redact_marker(input@.skip(idx as int), marker@) == redact_marker(input@, marker@),
        decreases input.len() - idx,
    {
        let ghost s = input@.skip(idx as int);
        match find_from(input, idx, marker) {
            Some(start) => {
                proof {
                    assert forall|j: int| 0 <= j < start - idx implies !occurs_at(s, marker@, j) by {
                        lemma_occurs_skip(input@, marker@, idx as int, j);
                    }
                    lemma_occurs_skip(input@, marker@, idx as int, start - idx);
                    lemma_find_is(s, marker@, start - idx);
                }
                let token_start = start + marker.len();
                let mut k = token_start;
                while k < input.len() && is_token_char_exec(input[k])
                    invariant
                        token_start <= k <= input.len(),
                        token_len(input@.skip(token_start as int)) == (k - token_start)
                            + token_len(input@.skip(k as int)),
                    decreases input.len() - k,
                {
                    assert(input@.skip(k as int).drop_first() =~= input@.skip(k + 1));
                    k = k + 1;
                }
                let ghost out0 = out@;
                proof {
                    let after = s.skip(start - idx + marker@.len());
                    assert(after =~= input@.skip(token_start as int));
                    lemma_token_len_bound(after);
                    if k < input.len() {
                        assert(input@.skip(k as int)[0] == input@[k as int]);
                    }
                    assert(token_len(input@.skip(k as int)) == 0);
                    assert(after.skip(token_len(after) as int) =~= input@.skip(k as int));
                    assert(s.take(start - idx) =~= input@.subrange(idx as int, start as int));
                    assert(redact_marker(s, marker@) == input@.subrange(idx as int, start as int)
                        + marker@ + "[REDACTED]"@ + redact_marker(input@.skip(k as int), marker@));
                }
                append_range(&mut out, input, idx, start);
                append_range(&mut out, marker, 0, marker.len());
                append_range(&mut out, &redacted, 0, redacted.len());
                proof {
                    assert(marker@.subrange(0, marker@.len() as int) =~= marker@);
                    assert(redacted@.subrange(0, redacted@.len() as int) =~= redacted@);
                    assert(out@ + redact_marker(input@.skip(k as int), marker@) =~= out0 + redact_marker(s, marker@));
                }
                idx = k;
            },
            None => {
                proof {
                    assert forall|j: int| 0 <= j implies !occurs_at(s, marker@, j) by {
                        lemma_occurs_skip(input@, marker@, idx as int, j);
                    }
                    lemma_find_none(s, marker@);
                    assert(s =~= input@.subrange(idx as int, input@.len() as int));
                }
                append_range(&mut out, input, idx, input.len());
                return out;
            },
        }
    }
}

/// Whether `s` contains one of `needles`.
pub fn contains_any(s: &str, needles: &Vec<&str>) -> (res: bool)
    ensures
        res == exists|k: int| 0 <= k < needles@.len() && contains(s@, needles@[k]@),
{
    let mut i: usize = 0;
    while i < needles.len()
        invariant
            i <= needles.len(),
            forall|k: int| 0 <= k < i ==> !contains(s@, needles@[k]@),
        decreases needles.len() - i,
    {
        if contains_str(s, needles[i]) {
            return true;
        }
        i = i + 1;
    }
    false
}

fn is_sensitive(line: &str) -> (res: bool)
    ensures
        res == is_sensitive_line(line@),
{
    let low = lowercase(line);
    let labels = vec!["authorization:", "token:", "password:", "passwd:", "secret:"];
    assert(labels@.map_values(|s: &str| s@) =~= sensitive_labels());
    let r = contains_any(low.as_str(), &labels);
    assert(r == is_sensitive_line(line@)) by {
        if r {
            let k = choose|k: int| 0 <= k < labels@.len() && contains(low@, labels@[k]@);
            assert(sensitive_labels()[k] == labels@[k]@);
        } else {
            assert forall|k: int| 0 <= k < sensitive_labels().len() implies !contains(
                lower(line@),
                sensitive_labels()[k],
            ) by {
                assert(sensitive_labels()[k] == labels@[k]@);
            }
        }
    }
    r
}

/// The text with every GitHub token redacted and every line that names
/// a credential (`authorization:`, `token:`, `password:`, `passwd:`,
/// `secret:`, in any case) replaced by `[REDACTED: sensitive line]`.
pub fn redact_sensitive_text(input: &str) -> (res: String)
    ensures
        res@ == redact(input@),
{
    let markers = vec!["ghp_", "gho_", "ghu_", "ghs_", "ghr_", "github_pat_"];
    let ghost ms = token_markers();
    assert(markers@.map_values(|s: &str| s@) =~= ms);
    let mut cur = chars_of(input);
    let mut i: usize = 0;
    assert(ms.take(0) =~= Seq::<Seq<char>>::empty());
    while i < markers.len()
        invariant
            i <= markers.len(),
            markers@.len() == ms.len(),
            ms == token_markers(),
            forall|k: int| 0 <= k < ms.len() ==> #[trigger] ms[k] == markers@[k]@,
            cur@ == redact_markers(input@, ms.take(i as int)),
        decreases markers.len() - i,
    {
        let m = chars_of(markers[i]);
        assert(m@ == ms[i as int]);
        proof {
            reveal_strlit("ghp_");
            reveal_strlit("gho_");
            reveal_strlit("ghu_");
            reveal_strlit("ghs_");
            reveal_strlit("ghr_");
            reveal_strlit("github_pat_");
            assert(m@.len() > 0);
        }
        cur = redact_token_after_marker(&cur, &m);
        assert(ms.take(i + 1).drop_last() =~= ms.take(i as int));
        i = i + 1;
    }
    assert(ms.take(i as int) =~= ms);
    let joined = string_of(&cur);
    let ls = lines_of(joined.as_str());
    let ghost lv = lines(cur@);
    let mut out_lines: Vec<String> = Vec::new();
    let mut j: usize = 0;
    while j < ls.len()
        invariant
            j <= ls.len(),
            views(ls@) == lv,
            views(out_lines@) == lv.take(j as int).map_values(|l: Seq<char>| sanitize_line(l)),
        decreases ls.len() - j,
    {
        let line = if is_sensitive(ls[j].as_str()) {
            owned("[REDACTED: sensitive line]")
        } else {
            ls[j].clone()
        };
        let ghost before = out_lines@;
        out_lines.push(line);
        assert(views(out_lines@) =~= views(before).push(sanitize_line(lv[j as int])));
        assert(lv.take(j + 1).map_values(|l: Seq<char>| sanitize_line(l)) =~= lv.take(
            j as int,
        ).map_values(|l: Seq<char>| sanitize_line(l)).push(sanitize_line(lv[j as int])));
        j = j + 1;
    }
    assert(lv.take(j as int) =~= lv);
    join_strings(&out_lines, "\n")
}

/// The last `max_lines` lines of the redacted output, each without
/// trailing whitespace; empty for blank output or `max_lines == 0`.
pub fn output_tail(raw: &str, max_lines: usize) -> (res: String)
    ensures
        res@ == output_tail_of(raw@, max_lines as nat),
{
    if is_blank(raw) || max_lines == 0 {
        return String::new();
    }
    let sanitized = redact_sensitive_text(raw);
    let ls = lines_of(sanitized.as_str());
    let ghost lv = lines(redact(raw@));
    let start = if ls.len() > max_lines {
        ls.len() - max_lines
    } else {
        0
    };
    let mut kept: Vec<String> = Vec::new();
    let mut j = start;
    while j < ls.len()
        invariant
            start <= j <= ls.len(),
            views(ls@) == lv,
            views(kept@) == lv.subrange(start as int, j as int).map_values(|l: Seq<char>| trim_end(l)),
        decreases ls.len() - j,
    {
        let t = trimmed_end(ls[j].as_str());
        let ghost before = kept@;
        kept.push(t);
        assert(views(kept@) =~= views(before).push(trim_end(lv[j as int])));
        assert(lv.subrange(start as int, j + 1).map_values(|l: Seq<char>| trim_end(l)) =~= lv.subrange(
            start as int,
            j as int,
        ).map_values(|l: Seq<char>| trim_end(l)).push(trim_end(lv[j as int])));
        j = j + 1;
    }
    assert(lv.subrange(start as int, j as int) =~= lv.skip(start as int));
    join_strings(&kept, "\n")
}

/// Whether the lower-cased output reports a refusing git hook.
pub fn looks_like_hook_failure(lower_output: &str) -> (res: bool)
    ensures
        res == is_hook_failure(lower_output@),
{
    let needles = vec!["pre-commit hook", "commit-msg hook", "hook declined", "hook failed", "husky - "];
    assert(needles@.map_values(|s: &str| s@) =~= hook_needles());
    let r = contains_any(lower_output, &needles);
    assert(r == is_hook_failure(lower_output@)) by {
        if r {
            let k = choose|k: int| 0 <= k < needles@.len() && contains(lower_output@, needles@[k]@);
            assert(hook_needles()[k] == needles@[k]@);
        } else {
            assert forall|k: int| 0 <= k < hook_needles().len() implies !contains(
                lower_output@,
                hook_needles()[k],
            ) by {
                assert(hook_needles()[k] == needles@[k]@);
            }
        }
    }
    r
}

fn combine_output(stderr: &str, stdout: &str) -> (res: String)
    ensures
        res@ == combined_output(stderr@, stdout@),
{
    let e = !is_blank(stderr);
    let o = !is_blank(stdout);
    if e && o {
        cat3(stderr, "\n", stdout)
    } else if e {
        owned(stderr)
    } else if o {
        owned(stdout)
    } else {
        String::new()
    }
}

/// Explains a failed `git commit` (exit status text `status`): unfinished
/// merges and refusing hooks have their own messages; otherwise the status
/// and the last ten lines of output.
pub fn format_commit_failure(status: &str, stdout: &str, stderr: &str) -> (res: String)
    ensures
        res@ == commit_failure_message(status@, stdout@, stderr@),
{
    let combined = combine_output(stderr, stdout);
    let low = lowercase(combined.as_str());
    let tail = output_tail(combined.as_str(), 10);
    let merge = vec!["unmerged files", "completing the merge", "you have not concluded your merge"];
    assert(merge@.map_values(|s: &str| s@) =~= merge_needles());
    let is_merge = contains_any(low.as_str(), &merge);
    assert(is_merge == exists|k: int| 0 <= k < merge_needles().len() && contains(low@, merge_needles()[k])) by {
        if is_merge {
            let k = choose|k: int| 0 <= k < merge@.len() && contains(low@, merge@[k]@);
            assert(merge_needles()[k] == merge@[k]@);
        } else {
            assert forall|k: int| 0 <= k < merge_needles().len() implies !contains(
                low@,
                merge_needles()[k],
            ) by {
                assert(merge_needles()[k] == merge@[k]@);
            }
        }
    }
    if is_merge {
        return owned(
            "Cannot commit: unresolved merge conflicts detected. Resolve conflicts, stage files, then retry.",
        );
    }
    let tail_empty = tail.as_str().unicode_len() == 0;
    if looks_like_hook_failure(low.as_str()) {
        if tail_empty {
            return owned("Commit blocked by git hooks. No hook output was captured.");
        }
        return cat("Commit blocked by git hooks. Recent output:\n", tail.as_str());
    }
    if tail_empty {
        return cat("git commit failed with status ", status);
    }
    let head = cat3("git commit failed with status ", status, ". Recent output:\n");
    cat(head.as_str(), tail.as_str())
}

/// The error of a failed command: `<program> failed with status <status>: <redacted stderr>`.
pub fn command_failure(program: &str, status: &str, stderr: &str) -> (res: String)
    ensures
        res@ == command_failure_message(program@, status@, stderr@),
{
    let red = redact_sensitive_text(stderr);
    let head = cat3(program, " failed with status ", status);
    cat3(head.as_str(), ": ", red.as_str())
}

} // verus!
