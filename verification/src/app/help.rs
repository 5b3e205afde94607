//! The help popup: its title, its lines, and how it scrolls.
use vstd::prelude::*;

use super::{App, FocusPane, Screen};
use crate::text::{join, join_strings, owned, views};

verus! {

/// A titled block of help lines, followed by an empty line.
pub open spec fn section(title: Seq<char>, items: Seq<Seq<char>>) -> Seq<Seq<char>> {
    seq![title] + items + seq![Seq::<char>::empty()]
}

pub open spec fn focus_name(f: FocusPane) -> Seq<char> {
    match f {
        FocusPane::Unstaged => "unstaged"@,
        FocusPane::Staged => "staged"@,
    }
}

/// The sections of help for a screen.
pub open spec fn help_sections(screen: Screen, focus: FocusPane) -> Seq<Seq<char>> {

    section("Global"@, seq!["[?] close help"@, "[q] quit"@, "[r] refresh current view"@, "[L] show log path"@]) + match screen {
        Screen::RepoPicker => section("Main Menu"@, seq!["[j]/[k] move selection"@, "[Enter] open selected repository"@, "[a] add repository path"@, "[f] open repo browser"@, "[d] remove selected repository"@]),
        Screen::RepoBrowser => section("Repo Browser"@, seq!["[j]/[k] move selection"@, "[Enter] open directory / add git repo"@, "[Backspace] go parent directory"@, "[.] toggle hidden dotfiles"@, "[b] back to main menu"@]),
        Screen::BranchPicker => section("Branches"@, seq!["[j]/[k] move selection"@, "[Enter] switch selected branch"@, "[n] create and switch branch"@, "[G] open remote branches"@, "[b] back to status tab"@]) + section("Workspace"@, seq!["[1]-[6] switch workspace tab"@]),
        Screen::RemoteBranchPicker => section("Remote Branches"@, seq!["[j]/[k] move selection"@, "[Enter] checkout tracking/local branch"@, "[g] open local branches"@, "[b] back to status tab"@]) + section("Workspace"@, seq!["[1]-[6] switch workspace tab"@]),
        Screen::HistoryView => section("History"@, seq!["[j]/[k] move selection"@, "[Enter] load commit details"@, "[o] checkout selected commit (detached)"@, "[p] cherry-pick selected commit"@, "[b] back to status tab"@]) + section("Workspace"@, seq!["[1]-[6] switch workspace tab"@]),
        Screen::PullRequestView => section("Pull Requests"@, seq!["[j]/[k] move selection"@, "[Enter]/[o] open PR in browser"@, "[c] checkout PR branch"@, "[m]/[s]/[R] merge/squash/rebase PR"@, "[n] create PR"@, "[f] cycle PR filter"@, "[b] back to status tab"@]) + section("Workspace"@, seq!["[1]-[6] switch workspace tab"@]),
        Screen::TrackingStatusView => section("Incoming/Outgoing"@, seq!["[f]/[l]/[p] fetch/pull/push"@, "[b] back to status tab"@]) + section("Workspace"@, seq!["[1]-[6] switch workspace tab"@]),
        Screen::StashView => section("Stash"@, seq!["[j]/[k] move selection"@, "[Enter] load stash details"@, "[s] stash current changes"@, "[a] apply selected stash"@, "[p] pop selected stash"@, "[d] drop selected stash (confirm)"@, "[b] back to status tab"@]) + section("Workspace"@, seq!["[1]-[6] switch workspace tab"@]),
        Screen::RepoView => section("Status Tab"@, seq!["[Tab] switch pane (current: "@ + focus_name(focus) + ")"@, "[j]/[k] move selection"@, "[b] back to main menu"@]) + section("Pane Actions"@, seq!["[s]/[S] stage selected/all unstaged"@, "[u]/[U] unstage selected/all staged"@, "[x] discard selected unstaged (confirm)"@, "[c] commit staged changes"@]) + section("Repo Actions"@, seq!["[f]/[l]/[p] fetch/pull/push"@, "[v]/[z] cherry-pick continue/abort"@]) + section("Open Tabs"@, seq!["[g]/[G] local/remote branches"@, "[h] history"@, "[i] incoming/outgoing"@, "[t] stash"@, "[P] pull requests"@]) + section("Workspace"@, seq!["[1]-[6] switch workspace tab"@]),
    }
}

/// The lines of the help popup: the sections without the last empty line.
pub open spec fn help_lines_of(screen: Screen, focus: FocusPane) -> Seq<Seq<char>> {
    help_sections(screen, focus).drop_last()
}

pub open spec fn help_title_of(screen: Screen) -> Seq<char> {
    match screen {
        Screen::RepoPicker => "Help: Main Menu"@,
        Screen::RepoBrowser => "Help: Repo Browser"@,
        Screen::BranchPicker => "Help: Local Branches"@,
        Screen::RemoteBranchPicker => "Help: Remote Branches"@,
        Screen::HistoryView => "Help: History"@,
        Screen::PullRequestView => "Help: Pull Requests"@,
        Screen::TrackingStatusView => "Help: Incoming/Outgoing"@,
        Screen::StashView => "Help: Stash"@,
        Screen::RepoView => "Help: Repository"@,
    }
}

fn push_section(lines: &mut Vec<String>, title: &str, items: &Vec<&str>)
    ensures
        views(final(lines)@) == views(old(lines)@) + section(title@, items@.map_values(|s: &str| s@)),
{
    let ghost start = views(lines@);
    lines.push(owned(title));
    let mut i: usize = 0;
    while i < items.len()
        invariant
            i <= items.len(),
            views(lines@) == start + seq![title@] + items@.take(i as int).map_values(|s: &str| s@),
        decreases items.len() - i,
    {
        let ghost before = views(lines@);
        lines.push(owned(items[i]));
        assert(views(lines@) =~= before.push(items@[i as int]@));
        assert(items@.take(i + 1).map_values(|s: &str| s@) =~= items@.take(i as int).map_values(|s: &str| s@).push(items@[i as int]@));
        i = i + 1;
    }
    assert(items@.take(i as int) =~= items@);
    let ghost before = views(lines@);
    lines.push(String::new());
    assert(views(lines@) =~= before.push(Seq::<char>::empty()));
    assert(views(lines@) =~= views(old(lines)@) + section(title@, items@.map_values(|s: &str| s@)));
}

fn push_global(lines: &mut Vec<String>)
    ensures
        views(final(lines)@) == views(old(lines)@) + section("Global"@, seq!["[?] close help"@, "[q] quit"@, "[r] refresh current view"@, "[L] show log path"@]),
{
    let ghost start = views(lines@);
    let items = vec!["[?] close help", "[q] quit", "[r] refresh current view", "[L] show log path"];
    assert(items@.map_values(|s: &str| s@) =~= seq!["[?] close help"@, "[q] quit"@, "[r] refresh current view"@, "[L] show log path"@]);
    push_section(lines, "Global", &items);
    assert(views(lines@) =~= start + section("Global"@, seq!["[?] close help"@, "[q] quit"@, "[r] refresh current view"@, "[L] show log path"@]));
}

fn push_repopicker(lines: &mut Vec<String>)
    ensures
        views(final(lines)@) == views(old(lines)@) + section("Main Menu"@, seq!["[j]/[k] move selection"@, "[Enter] open selected repository"@, "[a] add repository path"@, "[f] open repo browser"@, "[d] remove selected repository"@]),
{
    let ghost start = views(lines@);
    let items = vec!["[j]/[k] move selection", "[Enter] open selected repository", "[a] add repository path", "[f] open repo browser", "[d] remove selected repository"];
    assert(items@.map_values(|s: &str| s@) =~= seq!["[j]/[k] move selection"@, "[Enter] open selected repository"@, "[a] add repository path"@, "[f] open repo browser"@, "[d] remove selected repository"@]);
    push_section(lines, "Main Menu", &items);
    assert(views(lines@) =~= start + section("Main Menu"@, seq!["[j]/[k] move selection"@, "[Enter] open selected repository"@, "[a] add repository path"@, "[f] open repo browser"@, "[d] remove selected repository"@]));
}

fn push_repobrowser(lines: &mut Vec<String>)
    ensures
        views(final(lines)@) == views(old(lines)@) + section("Repo Browser"@, seq!["[j]/[k] move selection"@, "[Enter] open directory / add git repo"@, "[Backspace] go parent directory"@, "[.] toggle hidden dotfiles"@, "[b] back to main menu"@]),
{
    let ghost start = views(lines@);
    let items = vec!["[j]/[k] move selection", "[Enter] open directory / add git repo", "[Backspace] go parent directory", "[.] toggle hidden dotfiles", "[b] back to main menu"];
    assert(items@.map_values(|s: &str| s@) =~= seq!["[j]/[k] move selection"@, "[Enter] open directory / add git repo"@, "[Backspace] go parent directory"@, "[.] toggle hidden dotfiles"@, "[b] back to main menu"@]);
    push_section(lines, "Repo Browser", &items);
    assert(views(lines@) =~= start + section("Repo Browser"@, seq!["[j]/[k] move selection"@, "[Enter] open directory / add git repo"@, "[Backspace] go parent directory"@, "[.] toggle hidden dotfiles"@, "[b] back to main menu"@]));
}

fn push_branchpicker(lines: &mut Vec<String>)
    ensures
        views(final(lines)@) == views(old(lines)@) + section("Branches"@, seq!["[j]/[k] move selection"@, "[Enter] switch selected branch"@, "[n] create and switch branch"@, "[G] open remote branches"@, "[b] back to status tab"@]) + section("Workspace"@, seq!["[1]-[6] switch workspace tab"@]),
{
    let ghost start = views(lines@);
    let items = vec!["[j]/[k] move selection", "[Enter] switch selected branch", "[n] create and switch branch", "[G] open remote branches", "[b] back to status tab"];
    assert(items@.map_values(|s: &str| s@) =~= seq!["[j]/[k] move selection"@, "[Enter] switch selected branch"@, "[n] create and switch branch"@, "[G] open remote branches"@, "[b] back to status tab"@]);
    push_section(lines, "Branches", &items);
    let items = vec!["[1]-[6] switch workspace tab"];
    assert(items@.map_values(|s: &str| s@) =~= seq!["[1]-[6] switch workspace tab"@]);
    push_section(lines, "Workspace", &items);
    assert(views(lines@) =~= start + section("Branches"@, seq!["[j]/[k] move selection"@, "[Enter] switch selected branch"@, "[n] create and switch branch"@, "[G] open remote branches"@, "[b] back to status tab"@]) + section("Workspace"@, seq!["[1]-[6] switch workspace tab"@]));
}

fn push_remotebranchpicker(lines: &mut Vec<String>)
    ensures
        views(final(lines)@) == views(old(lines)@) + section("Remote Branches"@, seq!["[j]/[k] move selection"@, "[Enter] checkout tracking/local branch"@, "[g] open local branches"@, "[b] back to status tab"@]) + section("Workspace"@, seq!["[1]-[6] switch workspace tab"@]),
{
    let ghost start = views(lines@);
    let items = vec!["[j]/[k] move selection", "[Enter] checkout tracking/local branch", "[g] open local branches", "[b] back to status tab"];
    assert(items@.map_values(|s: &str| s@) =~= seq!["[j]/[k] move selection"@, "[Enter] checkout tracking/local branch"@, "[g] open local branches"@, "[b] back to status tab"@]);
    push_section(lines, "Remote Branches", &items);
    let items = vec!["[1]-[6] switch workspace tab"];
    assert(items@.map_values(|s: &str| s@) =~= seq!["[1]-[6] switch workspace tab"@]);
    push_section(lines, "Workspace", &items);
    assert(views(lines@) =~= start + section("Remote Branches"@, seq!["[j]/[k] move selection"@, "[Enter] checkout tracking/local branch"@, "[g] open local branches"@, "[b] back to status tab"@]) + section("Workspace"@, seq!["[1]-[6] switch workspace tab"@]));
}

fn push_historyview(lines: &mut Vec<String>)
    ensures
        views(final(lines)@) == views(old(lines)@) + section("History"@, seq!["[j]/[k] move selection"@, "[Enter] load commit details"@, "[o] checkout selected commit (detached)"@, "[p] cherry-pick selected commit"@, "[b] back to status tab"@]) + section("Workspace"@, seq!["[1]-[6] switch workspace tab"@]),
{
    let ghost start = views(lines@);
    let items = vec!["[j]/[k] move selection", "[Enter] load commit details", "[o] checkout selected commit (detached)", "[p] cherry-pick selected commit", "[b] back to status tab"];
    assert(items@.map_values(|s: &str| s@) =~= seq!["[j]/[k] move selection"@, "[Enter] load commit details"@, "[o] checkout selected commit (detached)"@, "[p] cherry-pick selected commit"@, "[b] back to status tab"@]);
    push_section(lines, "History", &items);
    let items = vec!["[1]-[6] switch workspace tab"];
    assert(items@.map_values(|s: &str| s@) =~= seq!["[1]-[6] switch workspace tab"@]);
    push_section(lines, "Workspace", &items);
    assert(views(lines@) =~= start + section("History"@, seq!["[j]/[k] move selection"@, "[Enter] load commit details"@, "[o] checkout selected commit (detached)"@, "[p] cherry-pick selected commit"@, "[b] back to status tab"@]) + section("Workspace"@, seq!["[1]-[6] switch workspace tab"@]));
}

fn push_pullrequestview(lines: &mut Vec<String>)
    ensures
        views(final(lines)@) == views(old(lines)@) + section("Pull Requests"@, seq!["[j]/[k] move selection"@, "[Enter]/[o] open PR in browser"@, "[c] checkout PR branch"@, "[m]/[s]/[R] merge/squash/rebase PR"@, "[n] create PR"@, "[f] cycle PR filter"@, "[b] back to status tab"@]) + section("Workspace"@, seq!["[1]-[6] switch workspace tab"@]),
{
    let ghost start = views(lines@);
    let items = vec!["[j]/[k] move selection", "[Enter]/[o] open PR in browser", "[c] checkout PR branch", "[m]/[s]/[R] merge/squash/rebase PR", "[n] create PR", "[f] cycle PR filter", "[b] back to status tab"];
    assert(items@.map_values(|s: &str| s@) =~= seq!["[j]/[k] move selection"@, "[Enter]/[o] open PR in browser"@, "[c] checkout PR branch"@, "[m]/[s]/[R] merge/squash/rebase PR"@, "[n] create PR"@, "[f] cycle PR filter"@, "[b] back to status tab"@]);
    push_section(lines, "Pull Requests", &items);
    let items = vec!["[1]-[6] switch workspace tab"];
    assert(items@.map_values(|s: &str| s@) =~= seq!["[1]-[6] switch workspace tab"@]);
    push_section(lines, "Workspace", &items);
    assert(views(lines@) =~= start + section("Pull Requests"@, seq!["[j]/[k] move selection"@, "[Enter]/[o] open PR in browser"@, "[c] checkout PR branch"@, "[m]/[s]/[R] merge/squash/rebase PR"@, "[n] create PR"@, "[f] cycle PR filter"@, "[b] back to status tab"@]) + section("Workspace"@, seq!["[1]-[6] switch workspace tab"@]));
}

fn push_trackingstatusview(lines: &mut Vec<String>)
    ensures
        views(final(lines)@) == views(old(lines)@) + section("Incoming/Outgoing"@, seq!["[f]/[l]/[p] fetch/pull/push"@, "[b] back to status tab"@]) + section("Workspace"@, seq!["[1]-[6] switch workspace tab"@]),
{
    let ghost start = views(lines@);
    let items = vec!["[f]/[l]/[p] fetch/pull/push", "[b] back to status tab"];
    assert(items@.map_values(|s: &str| s@) =~= seq!["[f]/[l]/[p] fetch/pull/push"@, "[b] back to status tab"@]);
    push_section(lines, "Incoming/Outgoing", &items);
    let items = vec!["[1]-[6] switch workspace tab"];
    assert(items@.map_values(|s: &str| s@) =~= seq!["[1]-[6] switch workspace tab"@]);
    push_section(lines, "Workspace", &items);
    assert(views(lines@) =~= start + section("Incoming/Outgoing"@, seq!["[f]/[l]/[p] fetch/pull/push"@, "[b] back to status tab"@]) + section("Workspace"@, seq!["[1]-[6] switch workspace tab"@]));
}

fn push_stashview(lines: &mut Vec<String>)
    ensures
        views(final(lines)@) == views(old(lines)@) + section("Stash"@, seq!["[j]/[k] move selection"@, "[Enter] load stash details"@, "[s] stash current changes"@, "[a] apply selected stash"@, "[p] pop selected stash"@, "[d] drop selected stash (confirm)"@, "[b] back to status tab"@]) + section("Workspace"@, seq!["[1]-[6] switch workspace tab"@]),
{
    let ghost start = views(lines@);
    let items = vec!["[j]/[k] move selection", "[Enter] load stash details", "[s] stash current changes", "[a] apply selected stash", "[p] pop selected stash", "[d] drop selected stash (confirm)", "[b] back to status tab"];
    assert(items@.map_values(|s: &str| s@) =~= seq!["[j]/[k] move selection"@, "[Enter] load stash details"@, "[s] stash current changes"@, "[a] apply selected stash"@, "[p] pop selected stash"@, "[d] drop selected stash (confirm)"@, "[b] back to status tab"@]);
    push_section(lines, "Stash", &items);
    let items = vec!["[1]-[6] switch workspace tab"];
    assert(items@.map_values(|s: &str| s@) =~= seq!["[1]-[6] switch workspace tab"@]);
    push_section(lines, "Workspace", &items);
    assert(views(lines@) =~= start + section("Stash"@, seq!["[j]/[k] move selection"@, "[Enter] load stash details"@, "[s] stash current changes"@, "[a] apply selected stash"@, "[p] pop selected stash"@, "[d] drop selected stash (confirm)"@, "[b] back to status tab"@]) + section("Workspace"@, seq!["[1]-[6] switch workspace tab"@]));
}

fn push_repo_view_rest(lines: &mut Vec<String>)
    ensures
        views(final(lines)@) == views(old(lines)@) + section("Pane Actions"@, seq!["[s]/[S] stage selected/all unstaged"@, "[u]/[U] unstage selected/all staged"@, "[x] discard selected unstaged (confirm)"@, "[c] commit staged changes"@]) + section("Repo Actions"@, seq!["[f]/[l]/[p] fetch/pull/push"@, "[v]/[z] cherry-pick continue/abort"@]) + section("Open Tabs"@, seq!["[g]/[G] local/remote branches"@, "[h] history"@, "[i] incoming/outgoing"@, "[t] stash"@, "[P] pull requests"@]) + section("Workspace"@, seq!["[1]-[6] switch workspace tab"@]),
{
    let ghost start = views(lines@);
    let items = vec!["[s]/[S] stage selected/all unstaged", "[u]/[U] unstage selected/all staged", "[x] discard selected unstaged (confirm)", "[c] commit staged changes"];
    assert(items@.map_values(|s: &str| s@) =~= seq!["[s]/[S] stage selected/all unstaged"@, "[u]/[U] unstage selected/all staged"@, "[x] discard selected unstaged (confirm)"@, "[c] commit staged changes"@]);
    push_section(lines, "Pane Actions", &items);
    let items = vec!["[f]/[l]/[p] fetch/pull/push", "[v]/[z] cherry-pick continue/abort"];
    assert(items@.map_values(|s: &str| s@) =~= seq!["[f]/[l]/[p] fetch/pull/push"@, "[v]/[z] cherry-pick continue/abort"@]);
    push_section(lines, "Repo Actions", &items);
    let items = vec!["[g]/[G] local/remote branches", "[h] history", "[i] incoming/outgoing", "[t] stash", "[P] pull requests"];
    assert(items@.map_values(|s: &str| s@) =~= seq!["[g]/[G] local/remote branches"@, "[h] history"@, "[i] incoming/outgoing"@, "[t] stash"@, "[P] pull requests"@]);
    push_section(lines, "Open Tabs", &items);
    let items = vec!["[1]-[6] switch workspace tab"];
    assert(items@.map_values(|s: &str| s@) =~= seq!["[1]-[6] switch workspace tab"@]);
    push_section(lines, "Workspace", &items);
    assert(views(lines@) =~= start + section("Pane Actions"@, seq!["[s]/[S] stage selected/all unstaged"@, "[u]/[U] unstage selected/all staged"@, "[x] discard selected unstaged (confirm)"@, "[c] commit staged changes"@]) + section("Repo Actions"@, seq!["[f]/[l]/[p] fetch/pull/push"@, "[v]/[z] cherry-pick continue/abort"@]) + section("Open Tabs"@, seq!["[g]/[G] local/remote branches"@, "[h] history"@, "[i] incoming/outgoing"@, "[t] stash"@, "[P] pull requests"@]) + section("Workspace"@, seq!["[1]-[6] switch workspace tab"@]));
}

fn push_status_tab(lines: &mut Vec<String>, focus: FocusPane)
    ensures
        views(final(lines)@) == views(old(lines)@) + section("Status Tab"@, seq!["[Tab] switch pane (current: "@ + focus_name(focus) + ")"@, "[j]/[k] move selection"@, "[b] back to main menu"@]),
{
    let ghost start = views(lines@);
    let name = match focus {
        FocusPane::Unstaged => "unstaged",
        FocusPane::Staged => "staged",
    };
    lines.push(owned("Status Tab"));
    lines.push(crate::text::cat3("[Tab] switch pane (current: ", name, ")"));
    lines.push(owned("[j]/[k] move selection"));
    lines.push(owned("[b] back to main menu"));
    lines.push(String::new());
    assert(views(lines@) =~= start + section("Status Tab"@, seq!["[Tab] switch pane (current: "@ + focus_name(focus) + ")"@, "[j]/[k] move selection"@, "[b] back to main menu"@]));
}

impl App {
    /// The title of the help popup for the current screen.
    pub fn help_popup_title(&self) -> (res: &'static str)
        ensures
            res@ == help_title_of(self.screen),
    {
        match self.screen {
            Screen::RepoPicker => "Help: Main Menu",
            Screen::RepoBrowser => "Help: Repo Browser",
            Screen::BranchPicker => "Help: Local Branches",
            Screen::RemoteBranchPicker => "Help: Remote Branches",
            Screen::HistoryView => "Help: History",
            Screen::PullRequestView => "Help: Pull Requests",
            Screen::TrackingStatusView => "Help: Incoming/Outgoing",
            Screen::StashView => "Help: Stash",
            Screen::RepoView => "Help: Repository",
        }
    }

    /// The lines of help for the current screen.
    pub fn help_lines(&self) -> (res: Vec<String>)
        ensures
            views(res@) == help_lines_of(self.screen, self.focus),
    {
        let mut lines: Vec<String> = Vec::new();
        push_global(&mut lines);
        match self.screen {

            Screen::RepoPicker => push_repopicker(&mut lines),
            Screen::RepoBrowser => push_repobrowser(&mut lines),
            Screen::BranchPicker => push_branchpicker(&mut lines),
            Screen::RemoteBranchPicker => push_remotebranchpicker(&mut lines),
            Screen::HistoryView => push_historyview(&mut lines),
            Screen::PullRequestView => push_pullrequestview(&mut lines),
            Screen::TrackingStatusView => push_trackingstatusview(&mut lines),
            Screen::StashView => push_stashview(&mut lines),
            Screen::RepoView => {
                push_status_tab(&mut lines, self.focus);
                push_repo_view_rest(&mut lines);
            },
        }
        assert(views(lines@) =~= help_sections(self.screen, self.focus));
        let ghost full = views(lines@);
        lines.pop();
        assert(views(lines@) =~= full.drop_last());
        lines
    }

    /// The help text, its lines joined by newlines.
    pub fn help_popup_body(&self) -> (res: String)
        ensures
            res@ == join(help_lines_of(self.screen, self.focus), "\n"@),
    {
        join_strings(&self.help_lines(), "\n")
    }

    /// How many lines of help there are.
    pub fn help_line_count(&self) -> (res: usize)
        ensures
            res == help_lines_of(self.screen, self.focus).len(),
    {
        self.help_lines().len()
    }

    /// Scrolls down `amount` lines, not past the last line.
    pub fn scroll_help_down(&mut self, amount: usize)
        ensures
            *final(self) == (App { help_scroll: final(self).help_scroll, ..*old(self) }),
            final(self).help_scroll == vstd::math::min(
                vstd::math::min(old(self).help_scroll + amount, usize::MAX as int),
                vstd::math::max(help_lines_of(old(self).screen, old(self).focus).len() - 1, 0),
            ),
    {
        let count = self.help_line_count();
        let max_scroll = count.saturating_sub(1);
        let next = self.help_scroll.saturating_add(amount);
        self.help_scroll = if next < max_scroll {
            next
        } else {
            max_scroll
        };
    }

    /// Scrolls up `amount` lines, not past the first.
    pub fn scroll_help_up(&mut self, amount: usize)
        ensures
            *final(self) == (App { help_scroll: final(self).help_scroll, ..*old(self) }),
            final(self).help_scroll == vstd::math::max(old(self).help_scroll - amount, 0),
    {
        self.help_scroll = self.help_scroll.saturating_sub(amount);
    }

    /// Scrolls to the first line.
    pub fn scroll_help_to_top(&mut self)
        ensures
            *final(self) == (App { help_scroll: 0, ..*old(self) }),
    {
        self.help_scroll = 0;
    }

    /// Scrolls to the last line.
    pub fn scroll_help_to_bottom(&mut self)
        ensures
            *final(self) == (App { help_scroll: final(self).help_scroll, ..*old(self) }),
            final(self).help_scroll == vstd::math::max(help_lines_of(old(self).screen, old(self).focus).len() - 1, 0),
    {
        self.help_scroll = self.help_line_count().saturating_sub(1);
    }
}

} // verus!
