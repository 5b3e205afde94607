//! The outside work that an action asks for, described as plain values.
use vstd::prelude::*;

use crate::git::commands::{
    self, command_view, commands_view, count_arg, gh, git, log_format, merge_flag, CommandSpec,
    CommandView,
};
use crate::git::output::{
    command_failure, command_failure_message, commit_failure_message, format_commit_failure,
};
use crate::git::prs::{PullRequestFilter, PullRequestMergeMethod};
use crate::text::{decimal, owned, trim};

verus! {

/// A change made in the repository with git or the GitHub CLI; what its
/// success means is decided by [`super::App::finish_write`].
#[derive(Debug)]
pub enum WriteAction {
    Stage { path: String },
    Unstage { path: String },
    StageAll { total: usize },
    UnstageAll { total: usize },
    Discard { path: String, untracked: bool },
    Commit { subject: String, body: Option<String> },
    Fetch,
    Pull,
    Push,
    CherryPickContinue,
    CherryPickAbort,
    CheckoutDetached { hash: String, short_hash: String },
    CherryPick { hash: String, short_hash: String },
    StashPush,
    StashApply { reference: String },
    StashPop { reference: String },
    StashDrop { reference: String },
    OpenPr { number: u64 },
    CheckoutPr { number: u64 },
    MergePr { number: u64, method: PullRequestMergeMethod },
    CreatePr,
}

/// A branch change, made through the repository library rather than the CLI.
#[derive(Debug)]
pub enum BranchAction {
    Switch { name: String },
    Create { name: String },
    /// Checks out a local branch that tracks the remote branch `name`.
    CheckoutRemote { name: String },
}

/// What follows a refreshed status once it has been read.
#[derive(Debug)]
pub enum After {
    Nothing,
    /// The incoming/outgoing comparison is read again.
    Tracking,
    /// The stash list is read again.
    Stashes,
    /// The pull requests are read again.
    PullRequests { then: PrThen },
    /// The branch list is read again.
    Branches,
}

/// What is read with git, and where the output goes.
#[derive(Debug)]
pub enum ReadTarget {
    /// The commit history (one output).
    History { message: Option<String> },
    /// A commit's metadata, message and changed files (three outputs),
    /// under the number the request was given.
    CommitDetails { request_id: u64, hash: String, short_hash: String },
    /// The commits that touched a path (one output), under the number the
    /// request was given.
    FileHistory { request_id: u64, hash: String, path: String },
    /// The upstream's name, then outgoing and incoming commits (three outputs).
    Tracking { message: Option<String> },
    /// The stash list (one output).
    Stashes { message: Option<String> },
    /// One stash's patch (one output), under the number the request was
    /// given.
    StashDetails { request_id: u64, reference: String },
    /// The diff of the selected file of the status tab (one output).
    Diff { key: String, path: String, staged: bool },
    /// A file's diff in a commit, shown over the whole screen (one output).
    CommitFileDiff { title: String, hash: String, path: String },
}

/// Where the request to open a repository came from.
#[derive(Debug, Clone, Copy, PartialEq, Eq, Structural)]
pub enum OpenOrigin {
    /// The main menu.
    Picker,
    /// Start-up, with one tracked repository.
    Auto,
    /// The repository browser, which has just added it.
    Browser,
}

/// What the status line says once the pull requests have been read.
#[derive(Debug)]
pub enum PrThen {
    Entered,
    Refreshed,
    Filtered,
    Created,
    Merged { number: u64, method: PullRequestMergeMethod },
}

/// Outside work for the caller to perform; its outcome goes to the
/// `finish_` method named in each variant.
#[derive(Debug)]
#[allow(inconsistent_fields)]
pub enum Job {
    /// Read the git config of each path for its `origin` remote
    /// ([`super::App::finish_repo_labels`]).
    ReadRepoLabels { paths: Vec<String> },
    /// List the directory `dir` ([`super::App::finish_list_directory`]).
    ListDirectory { dir: String },
    /// Load the saved registry ([`super::App::finish_load_registry`]).
    LoadRegistry,
    /// Save the registry as it now is ([`super::App::finish_save_registry`]).
    SaveRegistry,
    /// Resolve the typed path `input` to a repository root
    /// ([`super::App::finish_add_repo`]).
    AddRepo { input: String, from_browser: bool },
    /// List the directory to complete `normalized` in
    /// ([`super::App::finish_autocomplete`]).
    Autocomplete { normalized: String },
    /// Read the status of the repository at `path`
    /// ([`super::App::finish_open_repo`]).
    OpenRepo { path: String, origin: OpenOrigin },
    /// Read the status of the open repository
    /// ([`super::App::finish_refresh`]).
    Refresh { message: String, after: After },
    /// Run `commands` in the open repository: the first that succeeds
    /// completes the work ([`super::App::finish_write`]).
    Write { commands: Vec<CommandSpec>, action: WriteAction },
    /// Change branches ([`super::App::finish_branch`]).
    Branch { action: BranchAction },
    /// Read the branches, local or remote ([`super::App::finish_load_branches`]).
    LoadBranches { local: bool, message: Option<String> },
    /// Run each of `commands` and keep every output
    /// ([`super::App::finish_read`]).
    Read { commands: Vec<CommandSpec>, target: ReadTarget },
    /// Read the pull requests ([`super::App::finish_pull_requests`]).
    LoadPullRequests { filter: PullRequestFilter, then: PrThen },
    /// Read a pull request's status ([`super::App::finish_pr_status`]).
    LoadPrStatus { number: u64 },
}

/// How many commits the history and the incoming/outgoing comparison show.
pub open spec fn history_limit() -> usize {
    50
}

/// How many commits a file's history shows.
pub open spec fn file_history_limit() -> usize {
    80
}

/// The commands of a write, tried in order until one succeeds.
pub open spec fn write_commands(a: WriteAction) -> Seq<CommandView> {
    match a {
        WriteAction::Stage { path } => seq![git(seq!["add"@, "--"@, path@])],
        WriteAction::Unstage { path } => seq![
            git(seq!["restore"@, "--staged"@, "--"@, path@]),
            git(seq!["reset"@, "HEAD"@, "--"@, path@]),
        ],
        WriteAction::StageAll { .. } => seq![git(seq!["add"@, "-A"@, "--"@, "."@])],
        WriteAction::UnstageAll { .. } => seq![
            git(seq!["restore"@, "--staged"@, "."@]),
            git(seq!["reset"@, "HEAD"@, "--"@, "."@]),
        ],
        WriteAction::Discard { path, untracked } => if untracked {
            seq![git(seq!["clean"@, "-f"@, "--"@, path@])]
        } else {
            seq![git(seq!["restore"@, "--worktree"@, "--"@, path@]), git(seq!["checkout"@, "--"@, path@])]
        },
        WriteAction::Commit { subject, body } => seq![
            match body {
                Some(b) if trim(b@).len() > 0 => git(seq!["commit"@, "-m"@, subject@, "-m"@, b@]),
                _ => git(seq!["commit"@, "-m"@, subject@]),
            },
        ],
        WriteAction::Fetch => seq![git(seq!["fetch"@, "--all"@, "--prune"@])],
        WriteAction::Pull => seq![git(seq!["pull"@, "--ff-only"@])],
        WriteAction::Push => seq![git(seq!["push"@]), git(seq!["push"@, "-u"@, "origin"@, "HEAD"@])],
        WriteAction::CherryPickContinue => seq![git(seq!["cherry-pick"@, "--continue"@])],
        WriteAction::CherryPickAbort => seq![git(seq!["cherry-pick"@, "--abort"@])],
        WriteAction::CheckoutDetached { hash, .. } => seq![
            git(seq!["switch"@, "--detach"@, hash@]),
            git(seq!["checkout"@, "--detach"@, hash@]),
        ],
        WriteAction::CherryPick { hash, .. } => seq![git(seq!["cherry-pick"@, hash@])],
        WriteAction::StashPush => seq![git(seq!["stash"@, "push"@, "-u"@])],
        WriteAction::StashApply { reference } => seq![git(seq!["stash"@, "apply"@, reference@])],
        WriteAction::StashPop { reference } => seq![git(seq!["stash"@, "pop"@, reference@])],
        WriteAction::StashDrop { reference } => seq![git(seq!["stash"@, "drop"@, reference@])],
        WriteAction::OpenPr { number } => seq![gh(seq!["pr"@, "view"@, decimal(number as nat), "--web"@])],
        WriteAction::CheckoutPr { number } => seq![gh(seq!["pr"@, "checkout"@, decimal(number as nat)])],
        WriteAction::MergePr { number, method } => seq![
            gh(seq!["pr"@, "merge"@, decimal(number as nat), merge_flag(method)]),
        ],
        WriteAction::CreatePr => Seq::empty(),
    }
}

/// The commands of a read, each run for its output.
pub open spec fn read_commands(t: ReadTarget) -> Seq<CommandView> {
    match t {
        ReadTarget::History { .. } => seq![
            git(seq!["log"@, "--max-count"@, count_arg(history_limit()), "--date=relative"@, log_format()]),
        ],
        ReadTarget::CommitDetails { hash, .. } => seq![
            git(seq!["show"@, "-s"@, "--date=iso-strict"@, "--pretty=format:%H%x1f%an%x1f%ae%x1f%ad%x1f%s"@, hash@]),
            git(seq!["show"@, "-s"@, "--pretty=format:%b"@, hash@]),
            git(seq!["show"@, "--name-status"@, "--format="@, hash@]),
        ],
        ReadTarget::FileHistory { path, .. } => seq![
            git(seq!["log"@, "--max-count"@, count_arg(file_history_limit()), "--date=relative"@, log_format(), "--"@, path@]),
        ],
        ReadTarget::Tracking { .. } => seq![
            git(seq!["rev-parse"@, "--abbrev-ref"@, "--symbolic-full-name"@, "@{u}"@]),
            git(seq!["log"@, "--max-count"@, count_arg(history_limit()), "--pretty=format:%h%x1f%s"@, "@{u}..HEAD"@]),
            git(seq!["log"@, "--max-count"@, count_arg(history_limit()), "--pretty=format:%h%x1f%s"@, "HEAD..@{u}"@]),
        ],
        ReadTarget::Stashes { .. } => seq![git(seq!["stash"@, "list"@, "--format=%gd%x1f%gs"@])],
        ReadTarget::StashDetails { reference, .. } => seq![
            git(seq!["stash"@, "show"@, "--patch"@, "--stat"@, "--color=never"@, reference@]),
        ],
        ReadTarget::Diff { path, staged, .. } => seq![
            if staged {
                git(seq!["diff"@, "--staged"@, "--"@, path@])
            } else {
                git(seq!["diff"@, "--"@, path@])
            },
        ],
        ReadTarget::CommitFileDiff { hash, path, .. } => seq![
            git(seq!["show"@, "--color=never"@, "--format="@, "--patch"@, "--find-renames"@, hash@, "--"@, path@]),
        ],
    }
}

/// A write job that runs `a`'s commands.
pub open spec fn is_write_job(j: Job, a: WriteAction) -> bool {
    j matches Job::Write { commands, action } && action == a && commands_view(commands@) == write_commands(a)
}

/// A read job that runs `t`'s commands.
pub open spec fn is_read_job(j: Job, t: ReadTarget) -> bool {
    j matches Job::Read { commands, target } && target == t && commands_view(commands@) == read_commands(t)
}

/// The job that performs the write `action`.
pub fn write_job(action: WriteAction) -> (j: Job)
    requires
        !(action is CreatePr),
    ensures
        is_write_job(j, action),
{
    let commands = match &action {
        WriteAction::Stage { path } => commands::stage_file(path.as_str()),
        WriteAction::Unstage { path } => commands::unstage_file(path.as_str()),
        WriteAction::StageAll { .. } => commands::stage_all(),
        WriteAction::UnstageAll { .. } => commands::unstage_all(),
        WriteAction::Discard { path, untracked } => commands::discard_file(path.as_str(), *untracked),
        WriteAction::Commit { subject, body } => {
            let b = match body {
                Some(b) => Some(b.as_str()),
                None => None,
            };
            let c = commands::commit(subject.as_str(), b);
            let v = vec![c];
            assert(commands_view(v@) =~= seq![command_view(c)]);
            v
        },
        WriteAction::Fetch => commands::fetch(),
        WriteAction::Pull => commands::pull(),
        WriteAction::Push => commands::push(),
        WriteAction::CherryPickContinue => commands::cherry_pick_continue(),
        WriteAction::CherryPickAbort => commands::cherry_pick_abort(),
        WriteAction::CheckoutDetached { hash, .. } => commands::checkout_detached(hash.as_str()),
        WriteAction::CherryPick { hash, .. } => commands::cherry_pick(hash.as_str()),
        WriteAction::StashPush => commands::stash_push(),
        WriteAction::StashApply { reference } => commands::stash_apply(reference.as_str()),
        WriteAction::StashPop { reference } => commands::stash_pop(reference.as_str()),
        WriteAction::StashDrop { reference } => commands::stash_drop(reference.as_str()),
        WriteAction::OpenPr { number } => commands::open_pr_in_browser(*number),
        WriteAction::CheckoutPr { number } => commands::checkout_pr(*number),
        WriteAction::MergePr { number, method } => commands::merge_pull_request(*number, *method),
        WriteAction::CreatePr => Vec::new(),
    };
    Job::Write { commands, action }
}

/// The job that creates a pull request titled `title` with the text `body`.
pub fn create_pr_job(title: &str, body: &str) -> (j: Job)
    ensures
        j matches Job::Write { commands, action } && action is CreatePr && commands_view(commands@) == seq![
            gh(seq!["pr"@, "create"@, "--title"@, title@, "--body"@, body@]),
        ],
{
    Job::Write { commands: commands::create_pull_request(title, body), action: WriteAction::CreatePr }
}

/// The error that a failed command of the write `action` gives: a commit
/// explains its failure from the command's output; any other command names
/// its program, exit status and redacted error output.
pub fn write_failure(action: &WriteAction, program: &str, status: &str, stdout: &str, stderr: &str) -> (res:
    String)
    ensures
        res@ == if *action is Commit {
            commit_failure_message(status@, stdout@, stderr@)
        } else {
            command_failure_message(program@, status@, stderr@)
        },
{
    match action {
        WriteAction::Commit { .. } => format_commit_failure(status, stdout, stderr),
        _ => command_failure(program, status, stderr),
    }
}

/// The job that performs the read `target`.
pub fn read_job(target: ReadTarget) -> (j: Job)
    ensures
        is_read_job(j, target),
{
    let commands = match &target {
        ReadTarget::History { .. } => {
            let c = commands::commit_history_command(50);
            let v = vec![c];
            assert(commands_view(v@) =~= seq![command_view(c)]);
            v
        },
        ReadTarget::CommitDetails { hash, .. } => {
            let (a, b, c) = commands::commit_details_commands(hash.as_str());
            let v = vec![a, b, c];
            assert(commands_view(v@) =~= seq![command_view(a), command_view(b), command_view(c)]);
            v
        },
        ReadTarget::FileHistory { path, .. } => {
            let c = commands::file_history_command(path.as_str(), 80);
            let v = vec![c];
            assert(commands_view(v@) =~= seq![command_view(c)]);
            v
        },
        ReadTarget::Tracking { .. } => {
            let a = commands::upstream_command();
            let b = commands::summary_log_command(50, true);
            let c = commands::summary_log_command(50, false);
            let v = vec![a, b, c];
            assert(commands_view(v@) =~= seq![command_view(a), command_view(b), command_view(c)]);
            v
        },
        ReadTarget::Stashes { .. } => {
            let c = commands::list_stashes_command();
            let v = vec![c];
            assert(commands_view(v@) =~= seq![command_view(c)]);
            v
        },
        ReadTarget::StashDetails { reference, .. } => {
            let c = commands::stash_show(reference.as_str());
            let v = vec![c];
            assert(commands_view(v@) =~= seq![command_view(c)]);
            v
        },
        ReadTarget::Diff { path, staged, .. } => {
            let c = commands::diff_for_file(path.as_str(), *staged);
            let v = vec![c];
            assert(commands_view(v@) =~= seq![command_view(c)]);
            v
        },
        ReadTarget::CommitFileDiff { hash, path, .. } => {
            let c = commands::commit_file_diff(hash.as_str(), path.as_str());
            let v = vec![c];
            assert(commands_view(v@) =~= seq![command_view(c)]);
            v
        },
    };
    Job::Read { commands, target }
}

/// How one command of a write went: it could not be started (why), or it
/// ran to an exit status with its output.
#[derive(Debug)]
pub enum CommandRun {
    NotStarted(String),
    Exited { success: bool, status: String, stdout: String, stderr: String },
}

/// Where a write stands after one of its commands: finished with its
/// outcome, or to go on with the command at the index.
#[derive(Debug)]
pub enum WriteProgress {
    Finished(Result<(), String>),
    TryNext(usize),
}

/// How a write with `count` commands starts: with the first one, or (with
/// none) as a failure.
pub fn write_start(count: usize) -> (res: WriteProgress)
    ensures
        count == 0 ==> (res matches WriteProgress::Finished(Err(m)) && m@ == "Nothing to run"@),
        count > 0 ==> (res matches WriteProgress::TryNext(i) && i == 0),
{
    if count == 0 {
        WriteProgress::Finished(Err(owned("Nothing to run")))
    } else {
        WriteProgress::TryNext(0)
    }
}

/// Where a write of `count` commands goes after the one at `index`, run as
/// `program`: a success finishes it; a failure moves on to the next command,
/// and the last command's failure is the write's error.
pub fn write_progress(action: &WriteAction, count: usize, index: usize, program: &str, run: CommandRun) -> (res: WriteProgress)
    requires
        index < count,
    ensures
        match run {
            CommandRun::Exited { success: true, .. } => res matches WriteProgress::Finished(Ok(())),
            _ => if index + 1 < count {
                res matches WriteProgress::TryNext(i) && i == index + 1
            } else {
                res matches WriteProgress::Finished(Err(m)) && m@ == match run {
                    CommandRun::NotStarted(e) => e@,
                    CommandRun::Exited { status, stdout, stderr, .. } => if *action is Commit {
                        commit_failure_message(status@, stdout@, stderr@)
                    } else {
                        command_failure_message(program@, status@, stderr@)
                    },
                }
            },
        },
{
    let error = match run {
        CommandRun::Exited { success: true, .. } => {
            return WriteProgress::Finished(Ok(()));
        },
        CommandRun::NotStarted(e) => e,
        CommandRun::Exited { status, stdout, stderr, .. } => write_failure(
            action,
            program,
            status.as_str(),
            stdout.as_str(),
            stderr.as_str(),
        ),
    };
    if index + 1 < count {
        WriteProgress::TryNext(index + 1)
    } else {
        WriteProgress::Finished(Err(error))
    }
}

} // verus!
