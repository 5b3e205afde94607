use gittuit::app::helpers::{
    common_prefix, completion_base_and_fragment, display_path_for_ui, fetch_head_path,
    format_gh_error_for_status, format_pr_status_summary, git_config_path, infer_repo_picker_label,
    line_end_from, line_start_before_or_at, origin_repo_name, popup_cursor_position,
    pull_request_merge_method_label,
    repo_name_from_remote_url, truncate_lines, windows_drive_root_from_input,
};
use gittuit::app::history::history_entry_label;
use gittuit::git::history::CommitEntry;
use gittuit::git::prs::{PullRequestMergeMethod, PullRequestStatusSummary};

fn strings(v: &[&str]) -> Vec<String> {
    v.iter().map(|s| s.to_string()).collect()
}

#[test]
fn lines_are_cut_after_the_limit() {
    assert_eq!(truncate_lines("a\nb\nc\n", 2), "a\nb");
    assert_eq!(truncate_lines("a\nb", 5), "a\nb");
    assert_eq!(truncate_lines("a", 0), "");
}

#[test]
fn line_bounds_around_a_cursor() {
    let chars: Vec<char> = "ab\ncd\nef".chars().collect();
    assert_eq!(line_start_before_or_at(&chars, 4), 3);
    assert_eq!(line_start_before_or_at(&chars, 2), 0);
    assert_eq!(line_start_before_or_at(&chars, 99), 6);
    assert_eq!(line_end_from(&chars, 3), 5);
    assert_eq!(line_end_from(&chars, 6), 8);
}

#[test]
fn merge_labels_and_status_summary() {
    assert_eq!(pull_request_merge_method_label(PullRequestMergeMethod::Squash), "squash");
    let s = PullRequestStatusSummary {
        merge_state_status: Some("BLOCKED".to_string()),
        review_decision: None,
        checks_total: 5,
        checks_passing: 3,
        checks_failing: 1,
        checks_pending: 1,
    };
    assert_eq!(
        format_pr_status_summary(&s),
        "Mergeability: BLOCKED\nReview decision: UNKNOWN\nChecks: 3/5 passing, 1 failing, 1 pending"
    );
}

#[test]
fn github_cli_errors_are_explained() {
    assert_eq!(
        format_gh_error_for_status("gh failed with status 4: You are not logged into any GitHub hosts"),
        "GitHub CLI auth required: run `gh auth login`, then retry."
    );
    assert_eq!(
        format_gh_error_for_status("gh failed: no git remotes found"),
        "GitHub CLI could not resolve this repo. Ensure it has a GitHub remote and you have access."
    );
    assert_eq!(format_gh_error_for_status("gh failed: timeout"), "GitHub CLI error: gh failed: timeout");
    assert_eq!(format_gh_error_for_status("disk full"), "disk full");
}

#[test]
fn common_prefix_of_names() {
    assert_eq!(common_prefix(&strings(&["project", "progress", "prompt"])), "pro");
    assert_eq!(common_prefix(&strings(&["abc", "xyz"])), "");
    assert_eq!(common_prefix(&strings(&[])), "");
    assert_eq!(common_prefix(&strings(&["same"])), "same");
}

#[test]
fn windows_paths_lose_their_verbatim_prefix() {
    assert_eq!(display_path_for_ui("\\\\?\\C:\\repo", true), "C:\\repo");
    assert_eq!(display_path_for_ui("\\\\?\\UNC\\srv\\share", true), "\\\\srv\\share");
    assert_eq!(display_path_for_ui("\\\\?\\C:\\repo", false), "\\\\?\\C:\\repo");
    assert_eq!(windows_drive_root_from_input("d:", true), Some("d:\\".to_string()));
    assert_eq!(windows_drive_root_from_input("d:", false), None);
}

#[test]
fn remote_urls_name_the_repository() {
    assert_eq!(repo_name_from_remote_url("git@github.com:owner/tool.git"), Some("tool".to_string()));
    assert_eq!(repo_name_from_remote_url("https://github.com/owner/site/"), Some("site".to_string()));
    assert_eq!(repo_name_from_remote_url(" / "), None);
}

#[test]
fn origin_is_read_from_the_config_text() {
    let config = "[core]\n\turl = nope\n[remote \"upstream\"]\n\turl = git@x:a/up.git\n[remote \"origin\"]\n\tfetch = +refs\n\turl = https://h/o/mine.git\n";
    assert_eq!(origin_repo_name(config), Some("mine".to_string()));
    assert_eq!(origin_repo_name("[core]\n"), None);
}

#[test]
fn config_and_fetch_head_locations() {
    assert_eq!(git_config_path("/r", true, None), Some("/r/.git/config".to_string()));
    assert_eq!(git_config_path("/r", false, Some("gitdir: ../main/.git/worktrees/w\n")), Some("/r/../main/.git/worktrees/w/config".to_string()));
    assert_eq!(git_config_path("/r", false, Some("gitdir: /abs/g")), Some("/abs/g/config".to_string()));
    assert_eq!(git_config_path("/r", false, Some("gitdir:   ")), None);
    assert_eq!(git_config_path("/r", false, None), None);
    assert_eq!(fetch_head_path("/r/.git/config"), Some("/r/.git/FETCH_HEAD".to_string()));
}

#[test]
fn picker_labels() {
    assert_eq!(infer_repo_picker_label("/home/u/proj", Some("tool".to_string()), false), "tool");
    assert_eq!(infer_repo_picker_label("/home/u/proj", None, false), "proj");
    assert_eq!(infer_repo_picker_label("/", None, false), "/");
}

#[test]
fn completion_splits_parent_and_fragment() {
    assert_eq!(
        completion_base_and_fragment("/home/u/pro", "/home/u/pro", false, "/home/u", false),
        ("/home/u".to_string(), "pro".to_string())
    );
    assert_eq!(
        completion_base_and_fragment("/home/u/", "/home/u/", false, "/home/u", false),
        ("/home/u/".to_string(), String::new())
    );
    assert_eq!(
        completion_base_and_fragment("pro", "pro", false, "/home/u", false),
        ("/home/u".to_string(), "pro".to_string())
    );
    assert_eq!(completion_base_and_fragment("c:", "c:", false, "/h", true), ("c:\\".to_string(), String::new()));
}

#[test]
fn popup_cursor_lines_and_columns() {
    assert_eq!(popup_cursor_position(2, "ab\ncd", 4), (3, 1));
    assert_eq!(popup_cursor_position(0, "ab\ncd", 0), (0, 0));
    assert_eq!(popup_cursor_position(1, "ab\ncd", 2), (1, 2));
    assert_eq!(popup_cursor_position(1, "ab\ncd", 3), (2, 0));
    assert_eq!(popup_cursor_position(0, "ab\ncd", 99), (1, 2));
    assert_eq!(popup_cursor_position(4, "", 7), (4, 0));
    assert_eq!(popup_cursor_position(0, "\n\n", 2), (2, 0));
}

#[test]
fn history_rows_show_hash_summary_author_and_age() {
    let e = CommitEntry {
        hash: "0123456789abcdef".to_string(),
        short_hash: "0123456".to_string(),
        summary: "Fix the parser".to_string(),
        author: "Ada".to_string(),
        relative_time: "2 days ago".to_string(),
    };
    assert_eq!(history_entry_label(&e), "0123456 Fix the parser (Ada, 2 days ago)");
}
