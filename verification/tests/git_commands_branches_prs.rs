use gittuit::git::branches::{
    checkout_remote_tracking_branch, list_local_branches, list_remote_branches, local_branch_name,
    BranchRecord,
};
use gittuit::git::commands::{
    commit, commit_history_command, discard_file, merge_pull_request, pull_requests_command, push,
    stage_file, status_command, summary_log_command, unstage_file, CommandSpec,
};
use gittuit::git::prs::{
    parse_pull_request_status_summary, pull_request_status_summary, pull_requests, CheckRun, PullRequestEntry, PullRequestFilter,
    PullRequestMergeMethod,
};

fn args(c: &CommandSpec) -> Vec<&str> {
    c.args.iter().map(|a| a.as_str()).collect()
}

#[test]
fn status_and_stage_commands() {
    let s = status_command();
    assert_eq!(s.program, "git");
    assert_eq!(args(&s), vec!["status", "--porcelain=1", "--branch"]);
    let st = stage_file("a b.rs");
    assert_eq!(st.len(), 1);
    assert_eq!(args(&st[0]), vec!["add", "--", "a b.rs"]);
}

#[test]
fn unstage_and_discard_have_fallbacks() {
    let u = unstage_file("x.rs");
    assert_eq!(u.len(), 2);
    assert_eq!(args(&u[0]), vec!["restore", "--staged", "--", "x.rs"]);
    assert_eq!(args(&u[1]), vec!["reset", "HEAD", "--", "x.rs"]);
    let d = discard_file("new.rs", true);
    assert_eq!(d.len(), 1);
    assert_eq!(args(&d[0]), vec!["clean", "-f", "--", "new.rs"]);
    let d2 = discard_file("old.rs", false);
    assert_eq!(args(&d2[0]), vec!["restore", "--worktree", "--", "old.rs"]);
    assert_eq!(args(&d2[1]), vec!["checkout", "--", "old.rs"]);
}

#[test]
fn commit_adds_a_body_only_when_it_is_not_blank() {
    assert_eq!(args(&commit("feat: x", Some("details"))), vec!["commit", "-m", "feat: x", "-m", "details"]);
    assert_eq!(args(&commit("feat: x", Some("   "))), vec!["commit", "-m", "feat: x"]);
    assert_eq!(args(&commit("fix: y", None)), vec!["commit", "-m", "fix: y"]);
}

#[test]
fn push_sets_upstream_on_second_try() {
    let p = push();
    assert_eq!(args(&p[0]), vec!["push"]);
    assert_eq!(args(&p[1]), vec!["push", "-u", "origin", "HEAD"]);
}

#[test]
fn logs_ask_for_at_least_one_commit() {
    let h = commit_history_command(0);
    assert_eq!(
        args(&h),
        vec!["log", "--max-count", "1", "--date=relative", "--pretty=format:%H%x1f%h%x1f%s%x1f%an%x1f%ar"]
    );
    let o = summary_log_command(25, true);
    assert_eq!(args(&o), vec!["log", "--max-count", "25", "--pretty=format:%h%x1f%s", "@{u}..HEAD"]);
    let i = summary_log_command(25, false);
    assert_eq!(args(&i)[4], "HEAD..@{u}");
}

#[test]
fn pull_request_commands() {
    let merged = pull_requests_command(PullRequestFilter::Merged);
    assert_eq!(merged.program, "gh");
    assert_eq!(&args(&merged)[0..4], &["pr", "list", "--state", "merged"]);
    let draft = pull_requests_command(PullRequestFilter::Draft);
    assert_eq!(args(&draft)[3], "open");
    let m = merge_pull_request(42, PullRequestMergeMethod::Squash);
    assert_eq!(args(&m[0]), vec!["pr", "merge", "42", "--squash"]);
}

fn record(name: &str, reference: &str, is_local: bool, is_head: bool) -> BranchRecord {
    BranchRecord { name: name.to_string(), reference: reference.to_string(), is_local, is_head }
}

#[test]
fn local_branches_sorted_with_head_marked() {
    let records = vec![
        record("main", "refs/heads/main", true, true),
        record("origin/main", "refs/remotes/origin/main", false, false),
        record("dev", "refs/heads/dev", true, false),
    ];
    let locals = list_local_branches(&records);
    let names: Vec<(&str, bool)> = locals.iter().map(|b| (b.name.as_str(), b.is_current)).collect();
    assert_eq!(names, vec![("dev", false), ("main", true)]);
}

#[test]
fn remote_branches_skip_head_and_aliases() {
    let records = vec![
        record("origin/zeta", "refs/remotes/origin/zeta", false, false),
        record("origin/HEAD", "refs/remotes/origin/HEAD", false, false),
        record("origin/HEAD -> origin/main", "x", false, false),
        record("", "y", false, false),
        record("origin/alpha", "refs/remotes/origin/alpha", false, false),
    ];
    let remotes = list_remote_branches(&records);
    let names: Vec<&str> = remotes.iter().map(|b| b.name.as_str()).collect();
    assert_eq!(names, vec!["origin/alpha", "origin/zeta"]);
}

#[test]
fn remote_checkout_picks_record_and_local_name() {
    let records = vec![
        record("origin/feature/x", "refs/remotes/origin/feature/x", false, false),
        record("upstream/dev", "refs/remotes/upstream/dev", false, false),
    ];
    assert_eq!(checkout_remote_tracking_branch(&records, "upstream/dev"), Ok((1, "dev".to_string())));
    assert_eq!(
        checkout_remote_tracking_branch(&records, "refs/remotes/origin/feature/x"),
        Ok((0, "feature/x".to_string()))
    );
    assert_eq!(
        checkout_remote_tracking_branch(&records, " "),
        Err("Remote branch name cannot be empty".to_string())
    );
    assert_eq!(
        checkout_remote_tracking_branch(&records, "origin/none"),
        Err("Remote branch not found: origin/none".to_string())
    );
    assert_eq!(local_branch_name("origin//x"), "x");
    assert_eq!(local_branch_name("plain"), "plain");
}

fn pr(number: u64, is_draft: bool) -> PullRequestEntry {
    PullRequestEntry {
        number,
        title: format!("PR {number}"),
        state: "OPEN".to_string(),
        is_draft,
        head_ref_name: "h".to_string(),
        base_ref_name: "main".to_string(),
        author: "me".to_string(),
        url: String::new(),
    }
}

#[test]
fn pull_requests_filtered_and_newest_first() {
    let entries = vec![pr(3, false), pr(9, true), pr(7, false)];
    let open: Vec<u64> = pull_requests(&entries, PullRequestFilter::Open).iter().map(|p| p.number).collect();
    assert_eq!(open, vec![7, 3]);
    let drafts: Vec<u64> = pull_requests(&entries, PullRequestFilter::Draft).iter().map(|p| p.number).collect();
    assert_eq!(drafts, vec![9]);
    let all: Vec<u64> = pull_requests(&entries, PullRequestFilter::Merged).iter().map(|p| p.number).collect();
    assert_eq!(all, vec![9, 7, 3]);
}

fn check(state: Option<&str>, status: Option<&str>, conclusion: Option<&str>) -> CheckRun {
    CheckRun {
        state: state.map(|s| s.to_string()),
        status: status.map(|s| s.to_string()),
        conclusion: conclusion.map(|s| s.to_string()),
    }
}

#[test]
fn status_checks_are_counted_by_state() {
    let checks = vec![
        check(Some("success"), None, None),
        check(None, Some("FAILURE"), None),
        check(None, None, Some("in_progress")),
        check(None, None, None),
        check(Some("SKIPPED"), Some("FAILURE"), None),
    ];
    let s = pull_request_status_summary(Some("CLEAN".to_string()), None, Some(checks));
    assert_eq!(s.merge_state_status.as_deref(), Some("CLEAN"));
    assert_eq!(s.review_decision, None);
    assert_eq!((s.checks_total, s.checks_passing, s.checks_failing, s.checks_pending), (4, 2, 1, 1));
    let none = pull_request_status_summary(None, Some("APPROVED".to_string()), None);
    assert_eq!(none.checks_total, 0);
}

#[test]
fn stated_checks_add_up_to_the_total() {
    let checks = vec![
        check(Some("queued"), None, None),
        check(Some(""), Some("success"), None),
        check(None, None, Some("cancelled")),
        check(None, None, None),
        check(Some("neutral"), None, None),
    ];
    let s = pull_request_status_summary(None, None, Some(checks));
    assert_eq!(s.checks_total, 3);
    assert_eq!((s.checks_passing, s.checks_failing, s.checks_pending), (1, 1, 1));
    assert_eq!(s.checks_passing + s.checks_failing + s.checks_pending, s.checks_total);
}

#[test]
fn status_summary_from_the_raw_answer() {
    let raw = r#"{"mergeStateStatus":"CLEAN","reviewDecision":null,"statusCheckRollup":[{"state":"SUCCESS"},{"status":"COMPLETED","conclusion":"FAILURE"},{"conclusion":"failure"},{"state":""},{}]}"#;
    let s = parse_pull_request_status_summary(raw).unwrap();
    assert_eq!(s.merge_state_status.as_deref(), Some("CLEAN"));
    assert_eq!(s.review_decision, None);
    assert_eq!((s.checks_total, s.checks_passing, s.checks_failing, s.checks_pending), (3, 1, 1, 1));
    let bare = parse_pull_request_status_summary(r#"{"reviewDecision":"APPROVED","statusCheckRollup":5}"#).unwrap();
    assert_eq!(bare.review_decision.as_deref(), Some("APPROVED"));
    assert_eq!(bare.checks_total, 0);
    let list = parse_pull_request_status_summary("[1, 2]").unwrap();
    assert_eq!((list.merge_state_status, list.checks_total), (None, 0));
    let err = parse_pull_request_status_summary("not json").unwrap_err();
    assert!(err.starts_with("Failed to parse `gh pr view` output: expected ident"));
}
