//! The git and GitHub CLI invocations behind each repository action.
//!
//! An action is a list of invocations: they are tried in order, the first
//! that succeeds completes the action, and when all fail the last failure
//! is the action's error.
use vstd::prelude::*;

use crate::git::prs::{PullRequestFilter, PullRequestMergeMethod};
use crate::text::{decimal, decimal_string, decimal_string_u64, is_blank, owned, trim, views};

verus! {

/// A program and its arguments, run in the repository root.
#[derive(Debug, Clone)]
pub struct CommandSpec {
    pub program: String,
    pub args: Vec<String>,
}

pub type CommandView = (Seq<char>, Seq<Seq<char>>);

pub open spec fn command_view(c: CommandSpec) -> CommandView {
    (c.program@, views(c.args@))
}

pub open spec fn commands_view(v: Seq<CommandSpec>) -> Seq<CommandView> {
    v.map_values(|c: CommandSpec| command_view(c))
}

pub open spec fn git(args: Seq<Seq<char>>) -> CommandView {
    ("git"@, args)
}

pub open spec fn gh(args: Seq<Seq<char>>) -> CommandView {
    ("gh"@, args)
}

/// `max(n, 1)` in decimal: a log asks for at least one commit.
pub open spec fn count_arg(n: usize) -> Seq<char> {
    decimal(if n < 1 {
        1nat
    } else {
        n as nat
    })
}

/// The pretty format of a full log line.
pub open spec fn log_format() -> Seq<char> {
    "--pretty=format:%H%x1f%h%x1f%s%x1f%an%x1f%ar"@
}

/// The `gh pr list --state` value of a filter: drafts are open requests.
pub open spec fn filter_state(f: PullRequestFilter) -> Seq<char> {
    match f {
        PullRequestFilter::Merged => "merged"@,
        _ => "open"@,
    }
}

pub open spec fn merge_flag(m: PullRequestMergeMethod) -> Seq<char> {
    match m {
        PullRequestMergeMethod::Merge => "--merge"@,
        PullRequestMergeMethod::Squash => "--squash"@,
        PullRequestMergeMethod::Rebase => "--rebase"@,
    }
}

fn strings(v: Vec<&str>) -> (res: Vec<String>)
    ensures
        views(res@) == v@.map_values(|s: &str| s@),
{
    let mut res: Vec<String> = Vec::new();
    let mut i: usize = 0;
    while i < v.len()
        invariant
            i <= v.len(),
            views(res@) == v@.take(i as int).map_values(|s: &str| s@),
        decreases v.len() - i,
    {
        let ghost before = res@;
        res.push(owned(v[i]));
        assert(views(res@) =~= views(before).push(v@[i as int]@));
        assert(v@.take(i + 1).map_values(|s: &str| s@) =~= v@.take(i as int).map_values(
            |s: &str| s@,
        ).push(v@[i as int]@));
        i = i + 1;
    }
    assert(v@.take(i as int) =~= v@);
    res
}

fn git_cmd(args: Vec<&str>) -> (res: CommandSpec)
    ensures
        command_view(res) == git(args@.map_values(|s: &str| s@)),
{
    CommandSpec { program: owned("git"), args: strings(args) }
}

fn gh_cmd(args: Vec<&str>) -> (res: CommandSpec)
    ensures
        command_view(res) == gh(args@.map_values(|s: &str| s@)),
{
    CommandSpec { program: owned("gh"), args: strings(args) }
}

fn one(c: CommandSpec) -> (res: Vec<CommandSpec>)
    ensures
        commands_view(res@) == seq![command_view(c)],
{
    let v = vec![c];
    assert(commands_view(v@) =~= seq![command_view(c)]);
    v
}

fn two(a: CommandSpec, b: CommandSpec) -> (res: Vec<CommandSpec>)
    ensures
        commands_view(res@) == seq![command_view(a), command_view(b)],
{
    let v = vec![a, b];
    assert(commands_view(v@) =~= seq![command_view(a), command_view(b)]);
    v
}

/// `git status --porcelain=1 --branch`, whose output [`crate::git::status::snapshot`] reads.
pub fn status_command() -> (res: CommandSpec)
    ensures
        command_view(res) == git(seq!["status"@, "--porcelain=1"@, "--branch"@]),
{
    let r = git_cmd(vec!["status", "--porcelain=1", "--branch"]);
    assert(seq!["status", "--porcelain=1", "--branch"].map_values(|s: &str| s@) =~= seq![
        "status"@,
        "--porcelain=1"@,
        "--branch"@,
    ]);
    r
}

/// Stages one path: `git add -- <path>`.
pub fn stage_file(path: &str) -> (res: Vec<CommandSpec>)
    ensures
        commands_view(res@) == seq![git(seq!["add"@, "--"@, path@])],
{
    let c = git_cmd(vec!["add", "--", path]);
    assert(seq!["add", "--", path].map_values(|s: &str| s@) =~= seq!["add"@, "--"@, path@]);
    one(c)
}

/// Stages everything: `git add -A -- .`.
pub fn stage_all() -> (res: Vec<CommandSpec>)
    ensures
        commands_view(res@) == seq![git(seq!["add"@, "-A"@, "--"@, "."@])],
{
    let c = git_cmd(vec!["add", "-A", "--", "."]);
    assert(seq!["add", "-A", "--", "."].map_values(|s: &str| s@) =~= seq![
        "add"@,
        "-A"@,
        "--"@,
        "."@,
    ]);
    one(c)
}

/// Unstages one path: `git restore --staged`, else `git reset HEAD`.
pub fn unstage_file(path: &str) -> (res: Vec<CommandSpec>)
    ensures
        commands_view(res@) == seq![
            git(seq!["restore"@, "--staged"@, "--"@, path@]),
            git(seq!["reset"@, "HEAD"@, "--"@, path@]),
        ],
{
    let a = git_cmd(vec!["restore", "--staged", "--", path]);
    let b = git_cmd(vec!["reset", "HEAD", "--", path]);
    assert(seq!["restore", "--staged", "--", path].map_values(|s: &str| s@) =~= seq![
        "restore"@,
        "--staged"@,
        "--"@,
        path@,
    ]);
    assert(seq!["reset", "HEAD", "--", path].map_values(|s: &str| s@) =~= seq![
        "reset"@,
        "HEAD"@,
        "--"@,
        path@,
    ]);
    two(a, b)
}

/// Unstages everything: `git restore --staged .`, else `git reset HEAD -- .`.
pub fn unstage_all() -> (res: Vec<CommandSpec>)
    ensures
        commands_view(res@) == seq![
            git(seq!["restore"@, "--staged"@, "."@]),
            git(seq!["reset"@, "HEAD"@, "--"@, "."@]),
        ],
{
    let a = git_cmd(vec!["restore", "--staged", "."]);
    let b = git_cmd(vec!["reset", "HEAD", "--", "."]);
    assert(seq!["restore", "--staged", "."].map_values(|s: &str| s@) =~= seq![
        "restore"@,
        "--staged"@,
        "."@,
    ]);
    assert(seq!["reset", "HEAD", "--", "."].map_values(|s: &str| s@) =~= seq![
        "reset"@,
        "HEAD"@,
        "--"@,
        "."@,
    ]);
    two(a, b)
}

/// Discards the working-tree changes of a path: an untracked file is
/// removed with `git clean -f`; otherwise `git restore --worktree`, else
/// `git checkout --`.
pub fn discard_file(path: &str, is_untracked: bool) -> (res: Vec<CommandSpec>)
    ensures
        is_untracked ==> commands_view(res@) == seq![git(seq!["clean"@, "-f"@, "--"@, path@])],
        !is_untracked ==> commands_view(res@) == seq![
            git(seq!["restore"@, "--worktree"@, "--"@, path@]),
            git(seq!["checkout"@, "--"@, path@]),
        ],
{
    if is_untracked {
        let c = git_cmd(vec!["clean", "-f", "--", path]);
        assert(seq!["clean", "-f", "--", path].map_values(|s: &str| s@) =~= seq![
            "clean"@,
            "-f"@,
            "--"@,
            path@,
        ]);
        return one(c);
    }
    let a = git_cmd(vec!["restore", "--worktree", "--", path]);
    let b = git_cmd(vec!["checkout", "--", path]);
    assert(seq!["restore", "--worktree", "--", path].map_values(|s: &str| s@) =~= seq![
        "restore"@,
        "--worktree"@,
        "--"@,
        path@,
    ]);
    assert(seq!["checkout", "--", path].map_values(|s: &str| s@) =~= seq![
        "checkout"@,
        "--"@,
        path@,
    ]);
    two(a, b)
}

/// `git commit -m <subject>`, with a second `-m <body>` when a body is given
/// that is not blank.
pub fn commit(subject: &str, body: Option<&str>) -> (res: CommandSpec)
    ensures
        match body {
            Some(b) if trim(b@).len() > 0 => command_view(res) == git(
                seq!["commit"@, "-m"@, subject@, "-m"@, b@],
            ),
            _ => command_view(res) == git(seq!["commit"@, "-m"@, subject@]),
        },
{
    match body {
        Some(b) => {
            if !is_blank(b) {
                let c = git_cmd(vec!["commit", "-m", subject, "-m", b]);
                assert(seq!["commit", "-m", subject, "-m", b].map_values(|s: &str| s@) =~= seq![
                    "commit"@,
                    "-m"@,
                    subject@,
                    "-m"@,
                    b@,
                ]);
                return c;
            }
        },
        None => {},
    }
    let c = git_cmd(vec!["commit", "-m", subject]);
    assert(seq!["commit", "-m", subject].map_values(|s: &str| s@) =~= seq![
        "commit"@,
        "-m"@,
        subject@,
    ]);
    c
}

/// `git diff --name-only --diff-filter=U`, whose output
/// [`crate::git::stash::unresolved_conflict_files`] reads.
pub fn unresolved_conflicts_command() -> (res: CommandSpec)
    ensures
        command_view(res) == git(seq!["diff"@, "--name-only"@, "--diff-filter=U"@]),
{
    let c = git_cmd(vec!["diff", "--name-only", "--diff-filter=U"]);
    assert(seq!["diff", "--name-only", "--diff-filter=U"].map_values(|s: &str| s@) =~= seq![
        "diff"@,
        "--name-only"@,
        "--diff-filter=U"@,
    ]);
    c
}

/// Fetches every remote and prunes: `git fetch --all --prune`.
pub fn fetch() -> (res: Vec<CommandSpec>)
    ensures
        commands_view(res@) == seq![git(seq!["fetch"@, "--all"@, "--prune"@])],
{
    let c = git_cmd(vec!["fetch", "--all", "--prune"]);
    assert(seq!["fetch", "--all", "--prune"].map_values(|s: &str| s@) =~= seq![
        "fetch"@,
        "--all"@,
        "--prune"@,
    ]);
    one(c)
}

/// Fast-forward pull: `git pull --ff-only`.
pub fn pull() -> (res: Vec<CommandSpec>)
    ensures
        commands_view(res@) == seq![git(seq!["pull"@, "--ff-only"@])],
{
    let c = git_cmd(vec!["pull", "--ff-only"]);
    assert(seq!["pull", "--ff-only"].map_values(|s: &str| s@) =~= seq!["pull"@, "--ff-only"@]);
    one(c)
}

/// `git push`, else publish with `git push -u origin HEAD`.
pub fn push() -> (res: Vec<CommandSpec>)
    ensures
        commands_view(res@) == seq![
            git(seq!["push"@]),
            git(seq!["push"@, "-u"@, "origin"@, "HEAD"@]),
        ],
{
    let mut pv: Vec<&str> = Vec::new();
    pv.push("push");
    assert(pv@ =~= seq!["push"]);
    let a = git_cmd(pv);
    let b = git_cmd(vec!["push", "-u", "origin", "HEAD"]);
    assert(seq!["push"].map_values(|s: &str| s@) =~= seq!["push"@]);
    assert(seq!["push", "-u", "origin", "HEAD"].map_values(|s: &str| s@) =~= seq![
        "push"@,
        "-u"@,
        "origin"@,
        "HEAD"@,
    ]);
    two(a, b)
}

/// The diff of one path: staged (`git diff --staged --`) or not (`git diff --`).
pub fn diff_for_file(path: &str, staged: bool) -> (res: CommandSpec)
    ensures
        staged ==> command_view(res) == git(seq!["diff"@, "--staged"@, "--"@, path@]),
        !staged ==> command_view(res) == git(seq!["diff"@, "--"@, path@]),
{
    if staged {
        let c = git_cmd(vec!["diff", "--staged", "--", path]);
        assert(seq!["diff", "--staged", "--", path].map_values(|s: &str| s@) =~= seq![
            "diff"@,
            "--staged"@,
            "--"@,
            path@,
        ]);
        c
    } else {
        let c = git_cmd(vec!["diff", "--", path]);
        assert(seq!["diff", "--", path].map_values(|s: &str| s@) =~= seq!["diff"@, "--"@, path@]);
        c
    }
}

fn count_string(n: usize) -> (res: String)
    ensures
        res@ == count_arg(n),
{
    decimal_string(if n < 1 {
        1
    } else {
        n
    })
}

/// The last `max_count` (at least one) commits:
/// `git log --max-count N --date=relative --pretty=format:%H␟%h␟%s␟%an␟%ar`.
pub fn commit_history_command(max_count: usize) -> (res: CommandSpec)
    ensures
        command_view(res) == git(
            seq!["log"@, "--max-count"@, count_arg(max_count), "--date=relative"@, log_format()],
        ),
{
    let count = count_string(max_count);
    let cs = count.as_str();
    
    let c = git_cmd(
        vec![
            "log",
            "--max-count",
            cs,
            "--date=relative",
            "--pretty=format:%H%x1f%h%x1f%s%x1f%an%x1f%ar",
        ],
    );
    assert(seq![
        "log",
        "--max-count",
        cs,
        "--date=relative",
        "--pretty=format:%H%x1f%h%x1f%s%x1f%an%x1f%ar",
    ].map_values(|s: &str| s@) =~= seq![
        "log"@,
        "--max-count"@,
        count_arg(max_count),
        "--date=relative"@,
        log_format(),
    ]);
    c
}

/// The last `max_count` (at least one) commits that touched `path`.
pub fn file_history_command(path: &str, max_count: usize) -> (res: CommandSpec)
    ensures
        command_view(res) == git(
            seq![
                "log"@,
                "--max-count"@,
                count_arg(max_count),
                "--date=relative"@,
                log_format(),
                "--"@,
                path@,
            ],
        ),
{
    let count = count_string(max_count);
    let cs = count.as_str();
    
    let c = git_cmd(
        vec![
            "log",
            "--max-count",
            cs,
            "--date=relative",
            "--pretty=format:%H%x1f%h%x1f%s%x1f%an%x1f%ar",
            "--",
            path,
        ],
    );
    assert(seq![
        "log",
        "--max-count",
        cs,
        "--date=relative",
        "--pretty=format:%H%x1f%h%x1f%s%x1f%an%x1f%ar",
        "--",
        path,
    ].map_values(|s: &str| s@) =~= seq![
        "log"@,
        "--max-count"@,
        count_arg(max_count),
        "--date=relative"@,
        log_format(),
        "--"@,
        path@,
    ]);
    c
}

/// `git rev-parse --abbrev-ref --symbolic-full-name @{u}`: the upstream.
pub fn upstream_command() -> (res: CommandSpec)
    ensures
        command_view(res) == git(
            seq!["rev-parse"@, "--abbrev-ref"@, "--symbolic-full-name"@, "@{u}"@],
        ),
{
    let c = git_cmd(vec!["rev-parse", "--abbrev-ref", "--symbolic-full-name", "@{u}"]);
    assert(seq!["rev-parse", "--abbrev-ref", "--symbolic-full-name", "@{u}"].map_values(
        |s: &str| s@,
    ) =~= seq!["rev-parse"@, "--abbrev-ref"@, "--symbolic-full-name"@, "@{u}"@]);
    c
}

/// The `%h␟%s` log of `range` (`@{u}..HEAD` outgoing, `HEAD..@{u}` incoming).
pub fn summary_log_command(max_count: usize, outgoing: bool) -> (res: CommandSpec)
    ensures
        command_view(res) == git(
            seq![
                "log"@,
                "--max-count"@,
                count_arg(max_count),
                "--pretty=format:%h%x1f%s"@,
                if outgoing {
                    "@{u}..HEAD"@
                } else {
                    "HEAD..@{u}"@
                },
            ],
        ),
{
    let count = count_string(max_count);
    let cs = count.as_str();
    
    let range = if outgoing {
        "@{u}..HEAD"
    } else {
        "HEAD..@{u}"
    };
    let c = git_cmd(vec!["log", "--max-count", cs, "--pretty=format:%h%x1f%s", range]);
    assert(seq!["log", "--max-count", cs, "--pretty=format:%h%x1f%s", range].map_values(
        |s: &str| s@,
    ) =~= seq![
        "log"@,
        "--max-count"@,
        count_arg(max_count),
        "--pretty=format:%h%x1f%s"@,
        range@,
    ]);
    c
}

/// The three reads behind the details of a commit: its metadata line,
/// its body, and its changed files.
pub fn commit_details_commands(commit_hash: &str) -> (res: (CommandSpec, CommandSpec, CommandSpec))
    ensures
        command_view(res.0) == git(
            seq![
                "show"@,
                "-s"@,
                "--date=iso-strict"@,
                "--pretty=format:%H%x1f%an%x1f%ae%x1f%ad%x1f%s"@,
                commit_hash@,
            ],
        ),
        command_view(res.1) == git(seq!["show"@, "-s"@, "--pretty=format:%b"@, commit_hash@]),
        command_view(res.2) == git(seq!["show"@, "--name-status"@, "--format="@, commit_hash@]),
{
    let a = git_cmd(
        vec![
            "show",
            "-s",
            "--date=iso-strict",
            "--pretty=format:%H%x1f%an%x1f%ae%x1f%ad%x1f%s",
            commit_hash,
        ],
    );
    let b = git_cmd(vec!["show", "-s", "--pretty=format:%b", commit_hash]);
    let c = git_cmd(vec!["show", "--name-status", "--format=", commit_hash]);
    assert(seq![
        "show",
        "-s",
        "--date=iso-strict",
        "--pretty=format:%H%x1f%an%x1f%ae%x1f%ad%x1f%s",
        commit_hash,
    ].map_values(|s: &str| s@) =~= seq![
        "show"@,
        "-s"@,
        "--date=iso-strict"@,
        "--pretty=format:%H%x1f%an%x1f%ae%x1f%ad%x1f%s"@,
        commit_hash@,
    ]);
    assert(seq!["show", "-s", "--pretty=format:%b", commit_hash].map_values(|s: &str| s@) =~= seq![
        "show"@,
        "-s"@,
        "--pretty=format:%b"@,
        commit_hash@,
    ]);
    assert(seq!["show", "--name-status", "--format=", commit_hash].map_values(|s: &str| s@)
        =~= seq!["show"@, "--name-status"@, "--format="@, commit_hash@]);
    (a, b, c)
}

/// The patch of one path in one commit.
pub fn commit_file_diff(commit_hash: &str, path: &str) -> (res: CommandSpec)
    ensures
        command_view(res) == git(
            seq![
                "show"@,
                "--color=never"@,
                "--format="@,
                "--patch"@,
                "--find-renames"@,
                commit_hash@,
                "--"@,
                path@,
            ],
        ),
{
    let c = git_cmd(
        vec![
            "show",
            "--color=never",
            "--format=",
            "--patch",
            "--find-renames",
            commit_hash,
            "--",
            path,
        ],
    );
    assert(seq![
        "show",
        "--color=never",
        "--format=",
        "--patch",
        "--find-renames",
        commit_hash,
        "--",
        path,
    ].map_values(|s: &str| s@) =~= seq![
        "show"@,
        "--color=never"@,
        "--format="@,
        "--patch"@,
        "--find-renames"@,
        commit_hash@,
        "--"@,
        path@,
    ]);
    c
}

/// Detached checkout of a commit: `git switch --detach`, else `git checkout --detach`.
pub fn checkout_detached(commit_hash: &str) -> (res: Vec<CommandSpec>)
    ensures
        commands_view(res@) == seq![
            git(seq!["switch"@, "--detach"@, commit_hash@]),
            git(seq!["checkout"@, "--detach"@, commit_hash@]),
        ],
{
    let a = git_cmd(vec!["switch", "--detach", commit_hash]);
    let b = git_cmd(vec!["checkout", "--detach", commit_hash]);
    assert(seq!["switch", "--detach", commit_hash].map_values(|s: &str| s@) =~= seq![
        "switch"@,
        "--detach"@,
        commit_hash@,
    ]);
    assert(seq!["checkout", "--detach", commit_hash].map_values(|s: &str| s@) =~= seq![
        "checkout"@,
        "--detach"@,
        commit_hash@,
    ]);
    two(a, b)
}

/// `git cherry-pick <commit>`.
pub fn cherry_pick(commit_hash: &str) -> (res: Vec<CommandSpec>)
    ensures
        commands_view(res@) == seq![git(seq!["cherry-pick"@, commit_hash@])],
{
    let c = git_cmd(vec!["cherry-pick", commit_hash]);
    assert(seq!["cherry-pick", commit_hash].map_values(|s: &str| s@) =~= seq![
        "cherry-pick"@,
        commit_hash@,
    ]);
    one(c)
}

/// `git cherry-pick --continue`.
pub fn cherry_pick_continue() -> (res: Vec<CommandSpec>)
    ensures
        commands_view(res@) == seq![git(seq!["cherry-pick"@, "--continue"@])],
{
    let c = git_cmd(vec!["cherry-pick", "--continue"]);
    assert(seq!["cherry-pick", "--continue"].map_values(|s: &str| s@) =~= seq![
        "cherry-pick"@,
        "--continue"@,
    ]);
    one(c)
}

/// `git cherry-pick --abort`.
pub fn cherry_pick_abort() -> (res: Vec<CommandSpec>)
    ensures
        commands_view(res@) == seq![git(seq!["cherry-pick"@, "--abort"@])],
{
    let c = git_cmd(vec!["cherry-pick", "--abort"]);
    assert(seq!["cherry-pick", "--abort"].map_values(|s: &str| s@) =~= seq![
        "cherry-pick"@,
        "--abort"@,
    ]);
    one(c)
}

/// `git stash list --format=%gd%x1f%gs`, read by [`crate::git::stash::list_stashes`].
pub fn list_stashes_command() -> (res: CommandSpec)
    ensures
        command_view(res) == git(seq!["stash"@, "list"@, "--format=%gd%x1f%gs"@]),
{
    let c = git_cmd(vec!["stash", "list", "--format=%gd%x1f%gs"]);
    assert(seq!["stash", "list", "--format=%gd%x1f%gs"].map_values(|s: &str| s@) =~= seq![
        "stash"@,
        "list"@,
        "--format=%gd%x1f%gs"@,
    ]);
    c
}

/// Stashes the changes, untracked files included: `git stash push -u`.
pub fn stash_push() -> (res: Vec<CommandSpec>)
    ensures
        commands_view(res@) == seq![git(seq!["stash"@, "push"@, "-u"@])],
{
    let c = git_cmd(vec!["stash", "push", "-u"]);
    assert(seq!["stash", "push", "-u"].map_values(|s: &str| s@) =~= seq![
        "stash"@,
        "push"@,
        "-u"@,
    ]);
    one(c)
}

fn stash_op(op: &str, reference: &str) -> (res: Vec<CommandSpec>)
    ensures
        commands_view(res@) == seq![git(seq!["stash"@, op@, reference@])],
{
    let c = git_cmd(vec!["stash", op, reference]);
    assert(seq!["stash", op, reference].map_values(|s: &str| s@) =~= seq![
        "stash"@,
        op@,
        reference@,
    ]);
    one(c)
}

/// `git stash apply <reference>`.
pub fn stash_apply(reference: &str) -> (res: Vec<CommandSpec>)
    ensures
        commands_view(res@) == seq![git(seq!["stash"@, "apply"@, reference@])],
{
    stash_op("apply", reference)
}

/// `git stash pop <reference>`.
pub fn stash_pop(reference: &str) -> (res: Vec<CommandSpec>)
    ensures
        commands_view(res@) == seq![git(seq!["stash"@, "pop"@, reference@])],
{
    stash_op("pop", reference)
}

/// `git stash drop <reference>`.
pub fn stash_drop(reference: &str) -> (res: Vec<CommandSpec>)
    ensures
        commands_view(res@) == seq![git(seq!["stash"@, "drop"@, reference@])],
{
    stash_op("drop", reference)
}

/// The patch and stat of a stash, without colour.
pub fn stash_show(reference: &str) -> (res: CommandSpec)
    ensures
        command_view(res) == git(
            seq!["stash"@, "show"@, "--patch"@, "--stat"@, "--color=never"@, reference@],
        ),
{
    let c = git_cmd(vec!["stash", "show", "--patch", "--stat", "--color=never", reference]);
    assert(seq!["stash", "show", "--patch", "--stat", "--color=never", reference].map_values(
        |s: &str| s@,
    ) =~= seq!["stash"@, "show"@, "--patch"@, "--stat"@, "--color=never"@, reference@]);
    c
}

/// `gh pr list` for the filter's state, at most 100, as JSON.
pub fn pull_requests_command(filter: PullRequestFilter) -> (res: CommandSpec)
    ensures
        command_view(res) == gh(
            seq![
                "pr"@,
                "list"@,
                "--state"@,
                filter_state(filter),
                "--limit"@,
                "100"@,
                "--json"@,
                "number,title,state,isDraft,headRefName,baseRefName,url,author"@,
            ],
        ),
        filter == PullRequestFilter::Merged ==> command_view(res).1[3] == "merged"@,
        filter == PullRequestFilter::Open ==> command_view(res).1[3] == "open"@,
        filter == PullRequestFilter::Draft ==> command_view(res).1[3] == "open"@,
{
    let state = match filter {
        PullRequestFilter::Merged => "merged",
        PullRequestFilter::Open | PullRequestFilter::Draft => "open",
    };
    let c = gh_cmd(
        vec![
            "pr",
            "list",
            "--state",
            state,
            "--limit",
            "100",
            "--json",
            "number,title,state,isDraft,headRefName,baseRefName,url,author",
        ],
    );
    assert(seq![
        "pr",
        "list",
        "--state",
        state,
        "--limit",
        "100",
        "--json",
        "number,title,state,isDraft,headRefName,baseRefName,url,author",
    ].map_values(|s: &str| s@) =~= seq![
        "pr"@,
        "list"@,
        "--state"@,
        filter_state(filter),
        "--limit"@,
        "100"@,
        "--json"@,
        "number,title,state,isDraft,headRefName,baseRefName,url,author"@,
    ]);
    c
}

/// Opens a pull request in the browser: `gh pr view N --web`.
pub fn open_pr_in_browser(pr_number: u64) -> (res: Vec<CommandSpec>)
    ensures
        commands_view(res@) == seq![gh(seq!["pr"@, "view"@, decimal(pr_number as nat), "--web"@])],
{
    let n = decimal_string_u64(pr_number);
    let ns = n.as_str();
    let c = gh_cmd(vec!["pr", "view", ns, "--web"]);
    assert(seq!["pr", "view", ns, "--web"].map_values(|s: &str| s@) =~= seq![
        "pr"@,
        "view"@,
        decimal(pr_number as nat),
        "--web"@,
    ]);
    one(c)
}

/// Checks out the branch of a pull request: `gh pr checkout N`.
pub fn checkout_pr(pr_number: u64) -> (res: Vec<CommandSpec>)
    ensures
        commands_view(res@) == seq![gh(seq!["pr"@, "checkout"@, decimal(pr_number as nat)])],
{
    let n = decimal_string_u64(pr_number);
    let ns = n.as_str();
    let c = gh_cmd(vec!["pr", "checkout", ns]);
    assert(seq!["pr", "checkout", ns].map_values(|s: &str| s@) =~= seq![
        "pr"@,
        "checkout"@,
        decimal(pr_number as nat),
    ]);
    one(c)
}

/// Merges a pull request with the given method: `gh pr merge N --merge|--squash|--rebase`.
pub fn merge_pull_request(pr_number: u64, method: PullRequestMergeMethod) -> (res: Vec<
    CommandSpec,
>)
    ensures
        commands_view(res@) == seq![
            gh(seq!["pr"@, "merge"@, decimal(pr_number as nat), merge_flag(method)]),
        ],
{
    let n = decimal_string_u64(pr_number);
    let ns = n.as_str();
    let flag = match method {
        PullRequestMergeMethod::Merge => "--merge",
        PullRequestMergeMethod::Squash => "--squash",
        PullRequestMergeMethod::Rebase => "--rebase",
    };
    let c = gh_cmd(vec!["pr", "merge", ns, flag]);
    assert(seq!["pr", "merge", ns, flag].map_values(|s: &str| s@) =~= seq![
        "pr"@,
        "merge"@,
        decimal(pr_number as nat),
        merge_flag(method),
    ]);
    one(c)
}

/// Creates a pull request: `gh pr create --title T --body B`.
pub fn create_pull_request(title: &str, body: &str) -> (res: Vec<CommandSpec>)
    ensures
        commands_view(res@) == seq![
            gh(seq!["pr"@, "create"@, "--title"@, title@, "--body"@, body@]),
        ],
{
    let c = gh_cmd(vec!["pr", "create", "--title", title, "--body", body]);
    assert(seq!["pr", "create", "--title", title, "--body", body].map_values(|s: &str| s@) =~= seq![
        "pr"@,
        "create"@,
        "--title"@,
        title@,
        "--body"@,
        body@,
    ]);
    one(c)
}

/// `gh pr view N --json mergeStateStatus,reviewDecision,statusCheckRollup`.
pub fn pull_request_status_command(pr_number: u64) -> (res: CommandSpec)
    ensures
        command_view(res) == gh(
            seq![
                "pr"@,
                "view"@,
                decimal(pr_number as nat),
                "--json"@,
                "mergeStateStatus,reviewDecision,statusCheckRollup"@,
            ],
        ),
{
    let n = decimal_string_u64(pr_number);
    let ns = n.as_str();
    let c = gh_cmd(
        vec!["pr", "view", ns, "--json", "mergeStateStatus,reviewDecision,statusCheckRollup"],
    );
    assert(seq![
        "pr",
        "view",
        ns,
        "--json",
        "mergeStateStatus,reviewDecision,statusCheckRollup",
    ].map_values(|s: &str| s@) =~= seq![
        "pr"@,
        "view"@,
        decimal(pr_number as nat),
        "--json"@,
        "mergeStateStatus,reviewDecision,statusCheckRollup"@,
    ]);
    c
}

/// The pull request list asks GitHub for merged pull requests under the
/// Merged filter, and for open ones under both the Open and the Draft
/// filter (drafts are picked out of the open ones afterwards).
pub proof fn law_list_state_of_each_filter()
    ensures
        filter_state(PullRequestFilter::Open) == "open"@,
        filter_state(PullRequestFilter::Draft) == "open"@,
        filter_state(PullRequestFilter::Merged) == "merged"@,
{
}

} // verus!
