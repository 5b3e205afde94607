use gittuit::app::jobs::{
    write_failure, write_progress, write_start, CommandRun, Job, OpenOrigin, ReadTarget, WriteAction, WriteProgress,
};
use gittuit::app::keys::{KeyAction, KeyCode, KeyPress};
use gittuit::app::{App, FocusPane, InputMode, Screen};
use gittuit::git::prs::{PullRequestFilter, PullRequestMergeMethod};
use gittuit::git::stash::StashEntry;
use gittuit::repo_registry::RepoRegistry;

fn registry(paths: &[&str]) -> RepoRegistry {
    let mut r = RepoRegistry::new();
    for p in paths {
        r.add_repo(p);
    }
    r
}

fn app_with(paths: &[&str]) -> (App, Vec<Job>) {
    App::new(registry(paths), "/home/u".to_string(), Ok("/cfg/logs/gitTUIt.log".to_string()), false, 1_000)
}

fn opened() -> App {
    let (mut app, _) = app_with(&["/r/one", "/r/two"]);
    app.finish_open_repo(
        "/r/one".to_string(),
        OpenOrigin::Picker,
        Ok("## main...origin/main [ahead 1]\n M a.rs\nA  b.rs\n".to_string()),
        Some(500),
    );
    app
}

fn key(c: char) -> KeyPress {
    KeyPress { code: KeyCode::Char(c), ctrl: false }
}

#[test]
fn new_app_without_repositories() {
    let (app, jobs) = app_with(&[]);
    assert_eq!(app.screen, Screen::RepoPicker);
    assert_eq!(app.status_message, "No repositories added. Press [a] to add a git repo root.");
    assert_eq!(jobs.len(), 2);
    assert!(matches!(&jobs[0], Job::ReadRepoLabels { paths } if paths.is_empty()));
    assert!(matches!(&jobs[1], Job::ListDirectory { dir } if dir == "/home/u"));
}

#[test]
fn a_single_repository_is_opened_at_once() {
    let (app, jobs) = app_with(&["/r/only"]);
    assert_eq!(app.status_message, "");
    assert_eq!(jobs.len(), 3);
    assert!(matches!(&jobs[2], Job::OpenRepo { path, origin: OpenOrigin::Auto } if path == "/r/only"));
    let (many, _) = app_with(&["/r/b", "/r/a"]);
    assert_eq!(many.status_message, "Select a repository and press [Enter] to open.");
}

#[test]
fn opening_reads_the_status() {
    let app = opened();
    assert_eq!(app.screen, Screen::RepoView);
    assert_eq!(app.repo_root.as_deref(), Some("/r/one"));
    assert_eq!(app.status_message, "Opened repository");
    assert_eq!(app.branch_summary(), "main -> origin/main [ahead 1, behind 0]");
    assert_eq!(app.snapshot.unstaged.len(), 1);
    assert_eq!(app.snapshot.staged.len(), 1);
    assert_eq!(app.focus, FocusPane::Unstaged);
    assert_eq!(app.last_fetch_summary(1_500), "Last fetch: 1s ago");
    assert_eq!(app.last_fetch_summary(400), "Last fetch: just now");
}

#[test]
fn failed_auto_open_says_how_to_retry() {
    let (mut app, _) = app_with(&["/r/only"]);
    app.finish_open_repo("/r/only".to_string(), OpenOrigin::Auto, Err("boom".to_string()), None);
    assert_eq!(app.status_message, "Failed to auto-open tracked repository. Use [Enter] to retry.");
    app.finish_open_repo("/r/only".to_string(), OpenOrigin::Picker, Err("boom".to_string()), None);
    assert_eq!(app.status_message, "Error: boom");
}

#[test]
fn staging_needs_an_open_repository() {
    let (mut fresh, _) = app_with(&[]);
    fresh.snapshot = gittuit::git::status::snapshot(" M x.rs\n");
    assert_eq!(fresh.stage_selected().unwrap_err(), "No repository is currently open");
    let mut app = opened();
    match app.stage_selected() {
        Ok(Some(Job::Write { commands, action: WriteAction::Stage { path } })) => {
            assert_eq!(path, "a.rs");
            assert_eq!(commands[0].args, vec!["add".to_string(), "--".to_string(), "a.rs".to_string()]);
        },
        other => panic!("unexpected {:?}", other),
    }
}

#[test]
fn typing_in_a_popup_follows_the_cursor() {
    let (mut app, _) = app_with(&[]);
    app.begin_add_repo_input();
    assert_eq!(app.input_mode, InputMode::AddRepoPath);
    assert_eq!(app.status_message, "Enter repository root path containing .git");
    for c in "abc".chars() {
        app.push_input_char(c);
    }
    app.move_input_cursor_left();
    app.push_input_char('X');
    assert_eq!(app.input_buffer, "abXc");
    assert_eq!(app.input_cursor, 3);
    app.pop_input_char();
    assert_eq!(app.input_buffer, "abc");
    assert_eq!(app.input_cursor, 2);
    app.move_input_cursor_home();
    app.delete_input_char();
    assert_eq!(app.input_buffer, "bc");
    app.move_input_cursor_end();
    assert_eq!(app.input_cursor, 2);
    app.cancel_input();
    assert_eq!(app.input_mode, InputMode::Inactive);
    assert_eq!(app.status_message, "Input cancelled");
}

#[test]
fn adding_a_typed_repository() {
    let (mut app, _) = app_with(&["/r/zz"]);
    app.begin_add_repo_input();
    for c in " '/r/aa' ".chars() {
        app.push_input_char(c);
    }
    match app.submit_input() {
        Ok(Some(Job::AddRepo { input, from_browser })) => {
            assert_eq!(input, "/r/aa");
            assert!(!from_browser);
        },
        other => panic!("unexpected {:?}", other),
    }
    let jobs = app.finish_add_repo(false, Ok("/r/aa".to_string()));
    assert_eq!(jobs.len(), 2);
    assert!(matches!(jobs[0], Job::SaveRegistry));
    assert!(matches!(&jobs[1], Job::ReadRepoLabels { paths } if paths.len() == 2));
    assert_eq!(app.selected_repo, 0);
    assert_eq!(app.status_message, "Added repository /r/aa");
    assert_eq!(app.input_mode, InputMode::Inactive);
    let again = app.finish_add_repo(false, Ok("/r/zz".to_string()));
    assert_eq!(again.len(), 1);
    assert_eq!(app.selected_repo, 1);
}

#[test]
fn an_empty_typed_path_is_refused() {
    let (mut app, _) = app_with(&[]);
    app.begin_add_repo_input();
    app.push_input_char(' ');
    assert_eq!(app.submit_input().unwrap_err(), "Path cannot be empty");
}

#[test]
fn help_popup_scrolls_within_its_text() {
    let (mut app, _) = app_with(&[]);
    app.toggle_help();
    assert!(app.help_visible);
    assert_eq!(app.help_scroll, 0);
    let lines = app.help_line_count();
    assert!(lines > 0);
    app.scroll_help_to_bottom();
    assert_eq!(app.help_scroll, lines - 1);
    app.scroll_help_down(100);
    assert_eq!(app.help_scroll, lines - 1);
    app.scroll_help_up(1000);
    assert_eq!(app.help_scroll, 0);
    app.close_help();
    assert!(!app.help_visible);
}

#[test]
fn keys_depend_on_screen_and_popups() {
    let (mut app, _) = app_with(&[]);
    assert_eq!(app.route_key(key('q')), KeyAction::Quit);
    assert_eq!(app.route_key(key('a')), KeyAction::BeginAddRepo);
    assert_eq!(app.route_key(key('s')), KeyAction::Nothing);
    app.begin_add_repo_input();
    assert_eq!(app.route_key(key('q')), KeyAction::InsertChar('q'));
    assert_eq!(app.route_key(KeyPress { code: KeyCode::Esc, ctrl: false }), KeyAction::CancelInput);
    let repo = opened();
    assert_eq!(repo.route_key(key('s')), KeyAction::StageSelected);
    assert_eq!(repo.route_key(key('3')), KeyAction::SwitchTab(3));
    let mut pr = opened();
    pr.screen = Screen::PullRequestView;
    assert_eq!(pr.route_key(key('R')), KeyAction::BeginMerge(PullRequestMergeMethod::Rebase));
}

#[test]
fn failures_are_reported_as_errors() {
    let (mut app, _) = app_with(&[]);
    app.report_failure("disk full");
    assert_eq!(app.status_message, "Error: disk full");
}

fn entry(name: &str, is_dir: bool) -> gittuit::app::BrowserEntry {
    gittuit::app::BrowserEntry { name: name.to_string(), path: format!("/home/u/{name}"), is_dir, is_git_root: false }
}

#[test]
fn browser_lists_directories_first_ignoring_case() {
    let (mut app, _) = app_with(&[]);
    app.finish_list_directory(Ok(vec![entry("a2", false), entry("B1", false), entry(".cache", true), entry("Zed", true)]));
    let names: Vec<&str> = app.browser_entries.iter().map(|e| e.name.as_str()).collect();
    assert_eq!(names, vec!["Zed", "a2", "B1"]);
    app.finish_list_directory(Err("permission denied".to_string()));
    assert_eq!(app.status_message, "Error: permission denied");
}

#[test]
fn autocomplete_matches_names_in_any_case() {
    let (mut app, _) = app_with(&[]);
    app.begin_add_repo_input();
    let listing = vec![("Projects".to_string(), true), ("notes.txt".to_string(), false)];
    app.finish_autocomplete("/home/u".to_string(), "pro".to_string(), true, Ok(listing));
    assert_eq!(app.input_buffer, "/home/u/Projects/");
    assert_eq!(app.input_cursor, 17);
    assert_eq!(app.status_message, "Autocomplete applied (single match).");
    app.finish_autocomplete("/home/u".to_string(), "zz".to_string(), true, Ok(vec![("a".to_string(), false)]));
    assert_eq!(app.status_message, "No path matches found for autocomplete.");
    app.finish_autocomplete("/nope".to_string(), "x".to_string(), false, Ok(vec![]));
    assert_eq!(app.status_message, "Autocomplete base directory does not exist: /nope");
}

#[test]
fn autocomplete_with_several_matches_lists_them() {
    let (mut app, _) = app_with(&[]);
    app.begin_add_repo_input();
    let listing = vec![("prod".to_string(), true), ("proj".to_string(), true)];
    app.finish_autocomplete("/w".to_string(), "pro".to_string(), true, Ok(listing));
    assert_eq!(app.status_message, "Multiple matches; keep typing to narrow autocomplete: prod, proj");
    assert_eq!(app.input_buffer, "");
}

#[test]
fn write_failures_explain_commits() {
    let commit = WriteAction::Commit { subject: "s".to_string(), body: None };
    assert_eq!(
        write_failure(&commit, "git", "1", "", "hook failed"),
        "Commit blocked by git hooks. Recent output:\nhook failed"
    );
    assert_eq!(write_failure(&WriteAction::Push, "git", "1", "", "rejected"), "git failed with status 1: rejected");
}

#[test]
fn vertical_moves_in_a_commit_body_keep_the_column() {
    let (mut app, _) = app_with(&[]);
    app.input_mode = InputMode::CommitBody;
    app.input_buffer = "abc\nde".to_string();
    app.input_cursor = 6;
    app.move_input_cursor_up();
    assert_eq!(app.input_cursor, 2);
    app.move_input_cursor_down();
    assert_eq!(app.input_cursor, 6);
    app.input_cursor = 99;
    app.move_input_cursor_up();
    assert!(app.input_cursor <= app.input_buffer.chars().count());
}

#[test]
fn fetch_age_is_said_in_the_largest_unit() {
    let mut app = opened();
    app.last_fetch_at = Some(0);
    assert_eq!(app.last_fetch_summary(59_999), "Last fetch: 59s ago");
    assert_eq!(app.last_fetch_summary(120_000), "Last fetch: 2m ago");
    assert_eq!(app.last_fetch_summary(7_200_000), "Last fetch: 2h ago");
    assert_eq!(app.last_fetch_summary(3 * 86_400_000), "Last fetch: 3d ago");
    app.last_fetch_at = None;
    assert_eq!(app.last_fetch_summary(5), "Last fetch: never");
}

#[test]
fn branch_summary_without_repository_or_upstream() {
    let (fresh, _) = app_with(&[]);
    assert_eq!(fresh.branch_summary(), "No repository opened");
    let mut app = opened();
    app.snapshot = gittuit::git::status::snapshot("## topic\n");
    assert_eq!(app.branch_summary(), "topic");
}

#[test]
fn several_repositories_start_on_the_first() {
    let (app, _) = app_with(&["/r/b", "/r/a", "/r/c"]);
    assert_eq!(app.screen, Screen::RepoPicker);
    assert_eq!(app.selected_repo, 0);
    assert!(app.repo_root.is_none());
    assert_eq!(app.input_cursor, 0);
    assert!(app.branch_entries.is_empty());
}

#[test]
fn filter_cycles_without_an_open_repository() {
    let (mut app, _) = app_with(&[]);
    app.screen = Screen::PullRequestView;
    assert_eq!(app.pr_filter, PullRequestFilter::Open);
    assert!(matches!(app.cycle_pull_request_filter(), Ok(None)));
    assert_eq!(app.pr_filter, PullRequestFilter::Draft);
    assert_eq!(app.status_message, "No repository is currently open");
    assert!(matches!(app.cycle_pull_request_filter(), Ok(None)));
    assert!(matches!(app.cycle_pull_request_filter(), Ok(None)));
    assert_eq!(app.pr_filter, PullRequestFilter::Open);
}

#[test]
fn an_added_repository_joins_the_registry_in_order() {
    let (mut app, _) = app_with(&["/r/b", "/r/d"]);
    app.finish_add_repo(false, Ok("/r/c".to_string()));
    let paths: Vec<&str> = app.registry.repos.iter().map(|r| r.path.as_str()).collect();
    assert_eq!(paths, vec!["/r/b", "/r/c", "/r/d"]);
    assert_eq!(app.selected_repo, 1);
    app.finish_add_repo(false, Ok("/r/b".to_string()));
    assert_eq!(app.registry.repos.len(), 3);
    assert_eq!(app.selected_repo, 0);
}

#[test]
fn returning_to_the_picker_forgets_the_repository() {
    let mut app = opened();
    assert_eq!(app.snapshot.ahead, 1);
    app.return_to_picker();
    assert_eq!(app.screen, Screen::RepoPicker);
    assert!(app.repo_root.is_none());
    assert_eq!(app.snapshot.branch, "");
    assert_eq!(app.snapshot.tracking, None);
    assert_eq!((app.snapshot.ahead, app.snapshot.behind), (0, 0));
    assert!(app.snapshot.unstaged.is_empty() && app.snapshot.staged.is_empty());
    assert_eq!(app.pr_filter, PullRequestFilter::Open);
    assert_eq!(app.registry.repos.len(), 2);
}

#[test]
fn typing_then_deleting_restores_the_text() {
    let (mut app, _) = app_with(&[]);
    app.begin_add_repo_input();
    for c in "abc".chars() {
        app.push_input_char(c);
    }
    app.move_input_cursor_left();
    app.push_input_char('X');
    assert_eq!(app.input_buffer, "abXc");
    assert_eq!(app.input_cursor, 3);
    app.pop_input_char();
    assert_eq!(app.input_buffer, "abc");
    assert_eq!(app.input_cursor, 2);
}

fn read_target(job: Option<Job>) -> ReadTarget {
    match job {
        Some(Job::Read { target, .. }) => target,
        other => panic!("expected a read, got {:?}", other),
    }
}

fn stashed() -> App {
    let mut app = opened();
    app.stash_entries = vec![
        StashEntry { reference: "stash@{0}".to_string(), message: "first".to_string() },
        StashEntry { reference: "stash@{1}".to_string(), message: "second".to_string() },
    ];
    app
}

#[test]
fn a_superseded_stash_read_is_ignored() {
    let mut app = stashed();
    let first = read_target(app.load_selected_stash_details().unwrap());
    assert!(matches!(&first, ReadTarget::StashDetails { request_id: 1, reference } if reference == "stash@{0}"));
    app.selected_stash = 1;
    let second = read_target(app.load_selected_stash_details().unwrap());
    assert!(matches!(&second, ReadTarget::StashDetails { request_id: 2, .. }));
    app.finish_read(first, Ok(vec!["patch zero".to_string()]));
    assert_eq!(app.stash_details, "");
    assert_eq!(app.stash_details_for, None);
    assert_eq!(app.status_message, "Loading stash details stash@{1}");
    app.finish_read(second, Ok(vec!["patch one".to_string()]));
    assert_eq!(app.stash_details, "patch one");
    assert_eq!(app.stash_details_for.as_deref(), Some("stash@{1}"));
    assert_eq!(app.stash_details_inflight, None);
    assert_eq!(app.status_message, "Loaded stash details stash@{1}");
}

#[test]
fn leaving_the_view_makes_a_pending_read_stale() {
    let mut app = stashed();
    let pending = read_target(app.load_selected_stash_details().unwrap());
    app.return_to_repo_view();
    assert_eq!(app.stash_details_inflight, None);
    app.finish_read(pending, Err("fatal: gone".to_string()));
    assert_eq!(app.status_message, "Repository view");
    assert_eq!(app.stash_details, "");
}

fn exited(success: bool, stderr: &str) -> CommandRun {
    CommandRun::Exited { success, status: "1".to_string(), stdout: String::new(), stderr: stderr.to_string() }
}

#[test]
fn a_write_tries_its_commands_in_turn() {
    assert!(matches!(write_start(0), WriteProgress::Finished(Err(e)) if e == "Nothing to run"));
    assert!(matches!(write_start(2), WriteProgress::TryNext(0)));
    let push = WriteAction::Push;
    assert!(matches!(write_progress(&push, 2, 0, "git", exited(false, "no")), WriteProgress::TryNext(1)));
    assert!(matches!(write_progress(&push, 2, 0, "git", exited(true, "")), WriteProgress::Finished(Ok(()))));
    assert!(matches!(
        write_progress(&push, 2, 1, "git", exited(false, "rejected")),
        WriteProgress::Finished(Err(e)) if e == "git failed with status 1: rejected"
    ));
    assert!(matches!(
        write_progress(&push, 1, 0, "git", CommandRun::NotStarted("not found".to_string())),
        WriteProgress::Finished(Err(e)) if e == "not found"
    ));
}
