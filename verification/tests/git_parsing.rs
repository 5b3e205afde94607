use gittuit::git::history::{
    commit_details_structured, commit_history, file_history, parse_changed_files,
    parse_commit_summaries, tracking_commit_summary, tracking_upstream,
};
use gittuit::git::output::{
    command_failure, format_commit_failure, looks_like_hook_failure, output_tail,
    redact_sensitive_text,
};
use gittuit::git::stash::{list_stashes, unresolved_conflict_files};
use gittuit::git::status::snapshot;

#[test]
fn snapshot_reads_branch_tracking_and_counts() {
    let raw = "## main...origin/main [ahead 2, behind 1]\n M src/lib.rs\nA  new.txt\n?? scratch.txt\n";
    let snap = snapshot(raw);
    assert_eq!(snap.branch, "main");
    assert_eq!(snap.tracking.as_deref(), Some("origin/main"));
    assert_eq!(snap.ahead, 2);
    assert_eq!(snap.behind, 1);
    let unstaged: Vec<(&str, &str)> =
        snap.unstaged.iter().map(|e| (e.path.as_str(), e.status.as_str())).collect();
    assert_eq!(unstaged, vec![("src/lib.rs", " M"), ("scratch.txt", "??")]);
    let staged: Vec<(&str, &str)> =
        snap.staged.iter().map(|e| (e.path.as_str(), e.status.as_str())).collect();
    assert_eq!(staged, vec![("new.txt", "A ")]);
}

#[test]
fn snapshot_lists_a_path_staged_and_unstaged_and_follows_renames() {
    let raw = "## feature\nMM both.rs\nR  old.rs -> new.rs\n";
    let snap = snapshot(raw);
    assert_eq!(snap.branch, "feature");
    assert_eq!(snap.tracking, None);
    assert_eq!(snap.ahead, 0);
    assert_eq!(snap.staged.len(), 2);
    assert_eq!(snap.staged[0].path, "both.rs");
    assert_eq!(snap.staged[1].path, "new.rs");
    assert_eq!(snap.staged[1].status, "R ");
    assert_eq!(snap.unstaged.len(), 1);
    assert_eq!(snap.unstaged[0].path, "both.rs");
}

#[test]
fn snapshot_of_branch_with_counts_but_no_upstream() {
    let snap = snapshot("## main [ahead 3]\n");
    assert_eq!(snap.branch, "main");
    assert_eq!(snap.tracking, None);
    assert_eq!(snap.ahead, 3);
    assert_eq!(snap.behind, 0);
}

#[test]
fn snapshot_skips_short_lines_and_has_no_header_without_hashes() {
    let snap = snapshot(" M a.rs\nxx\n");
    assert_eq!(snap.branch, "");
    assert_eq!(snap.unstaged.len(), 1);
    assert_eq!(snap.unstaged[0].path, "a.rs");
}

#[test]
fn redaction_hides_tokens_and_sensitive_lines() {
    let out = redact_sensitive_text("push ghp_abc123 done\nAuthorization: Bearer x\nplain");
    assert_eq!(out, "push ghp_[REDACTED] done\n[REDACTED: sensitive line]\nplain");
}

#[test]
fn redaction_keeps_text_without_secrets() {
    assert_eq!(redact_sensitive_text("nothing here"), "nothing here");
}

#[test]
fn output_tail_keeps_the_last_lines_trimmed_at_the_end() {
    assert_eq!(output_tail("a\nb  \nc", 2), "b\nc");
    assert_eq!(output_tail("   ", 5), "");
    assert_eq!(output_tail("a", 0), "");
}

#[test]
fn hook_failures_are_recognized() {
    assert!(looks_like_hook_failure("husky - pre-commit script failed"));
    assert!(looks_like_hook_failure("the commit-msg hook exited"));
    assert!(!looks_like_hook_failure("all good"));
}

#[test]
fn commit_failure_messages() {
    assert_eq!(
        format_commit_failure("1", "", "error: you have unmerged files."),
        "Cannot commit: unresolved merge conflicts detected. Resolve conflicts, stage files, then retry."
    );
    assert_eq!(
        format_commit_failure("1", "lint failed", "pre-commit hook failed"),
        "Commit blocked by git hooks. Recent output:\npre-commit hook failed\nlint failed"
    );
    assert_eq!(format_commit_failure("128", "", "  "), "git commit failed with status 128");
    assert_eq!(
        format_commit_failure("1", "", "nothing to commit"),
        "git commit failed with status 1. Recent output:\nnothing to commit"
    );
}

#[test]
fn command_failure_redacts_stderr() {
    assert_eq!(
        command_failure("gh", "1", "bad token: ghs_zzz"),
        "gh failed with status 1: [REDACTED: sensitive line]"
    );
    assert_eq!(command_failure("git", "2", "ghp_q-1 x"), "git failed with status 2: ghp_[REDACTED] x");
}

#[test]
fn commit_history_parses_unit_separated_fields() {
    let raw = "abc123\u{1f}abc\u{1f} Fix bug \u{1f}Ann\u{1f}2 days ago\n\u{1f}x\u{1f}s\u{1f}a\u{1f}t\nonly\u{1f}two";
    let entries = commit_history(raw);
    assert_eq!(entries.len(), 1);
    assert_eq!(entries[0].hash, "abc123");
    assert_eq!(entries[0].short_hash, "abc");
    assert_eq!(entries[0].summary, "Fix bug");
    assert_eq!(entries[0].author, "Ann");
    assert_eq!(entries[0].relative_time, "2 days ago");
    assert_eq!(file_history(raw).len(), 1);
}

#[test]
fn summaries_and_tracking() {
    let s = parse_commit_summaries("a1\u{1f}first\n\u{1f}skipped\nb2\u{1f} second ");
    let pairs: Vec<(&str, &str)> = s.iter().map(|e| (e.short_hash.as_str(), e.summary.as_str())).collect();
    assert_eq!(pairs, vec![("a1", "first"), ("b2", "second")]);
    let t = tracking_commit_summary("origin/main".to_string(), "a1\u{1f}out", "");
    assert_eq!(t.upstream, "origin/main");
    assert_eq!(t.outgoing.len(), 1);
    assert_eq!(t.incoming.len(), 0);
}

#[test]
fn tracking_upstream_requires_a_name() {
    assert_eq!(tracking_upstream(" origin/dev \n"), Ok("origin/dev".to_string()));
    assert!(tracking_upstream("  ").is_err());
}

#[test]
fn changed_files_prefer_the_rename_target() {
    let files = parse_changed_files("M\tsrc/a.rs\nR100\told.rs\tnew.rs\n\nD\t\n");
    let pairs: Vec<(&str, &str)> = files.iter().map(|f| (f.status.as_str(), f.path.as_str())).collect();
    assert_eq!(pairs, vec![("M", "src/a.rs"), ("R100", "new.rs")]);
}

#[test]
fn commit_details_from_three_outputs() {
    let d = commit_details_structured(
        "h1\u{1f}Ann\u{1f}ann@x.org\u{1f}2024-01-01T00:00:00+00:00\u{1f}Subject",
        "Body text\n\n",
        "A\tf.txt",
    )
    .unwrap();
    assert_eq!(d.hash, "h1");
    assert_eq!(d.author_name, "Ann");
    assert_eq!(d.author_email, "ann@x.org");
    assert_eq!(d.subject, "Subject");
    assert_eq!(d.body, "Body text");
    assert_eq!(d.files.len(), 1);
    assert!(commit_details_structured("", "", "").is_err());
    assert!(commit_details_structured("\u{1f}Ann", "", "").is_err());
}

#[test]
fn stash_list_and_conflicts() {
    let stashes = list_stashes("stash@{0}\u{1f}WIP on main\n\u{1f}nothing\nstash@{1}\u{1f} saved ");
    let pairs: Vec<(&str, &str)> = stashes.iter().map(|s| (s.reference.as_str(), s.message.as_str())).collect();
    assert_eq!(pairs, vec![("stash@{0}", "WIP on main"), ("stash@{1}", "saved")]);
    assert_eq!(unresolved_conflict_files(" a.rs \n\nb.rs"), vec!["a.rs".to_string(), "b.rs".to_string()]);
}
