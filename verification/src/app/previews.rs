//! The preview pane: what it shows for the selection of each screen.
use vstd::prelude::*;

use super::helpers::{display_path, display_path_for_ui, format_pr_status_summary, pr_status_text};
use super::history::{at_most, history_preview};
use super::pull_requests::filter_label;
use super::{App, Screen};
use crate::git::history::CommitSummaryEntry;
use crate::text::{cat, cat3, decimal, decimal_string, decimal_string_u64, join, join_strings, owned, str_eq, views};

verus! {

fn pr_keys_str() -> (res: &'static str)
    ensures
        res@ == pr_keys(),
{
    "[o]/[Enter] open in browser | [c] checkout PR branch | [m]/[s]/[R] merge/squash/rebase | [n] create PR | [f] change filter"
}

pub open spec fn pr_keys() -> Seq<char> {
    "[o]/[Enter] open in browser | [c] checkout PR branch | [m]/[s]/[R] merge/squash/rebase | [n] create PR | [f] change filter"@
}

pub open spec fn pr_preview(a: App) -> Seq<char> {
    if a.selected_pr >= a.pull_requests@.len() {
        "No pull requests in '"@ + filter_label(a.pr_filter) + "' filter.\n\n"@ + pr_keys()
    } else {
        let pr = a.pull_requests@[a.selected_pr as int];
        let status = if a.pr_status_for == Some(pr.number) {
            match a.pr_status_summary {
                Some(s) => pr_status_text(s),
                None => "PR status summary unavailable"@,
            }
        } else {
            "Loading PR status summary..."@
        };
        "PR #"@ + decimal(pr.number as nat) + (if pr.is_draft { " (draft)"@ } else { ""@ }) + " ["@ + pr.state@ + "]\n"@
            + pr.title@ + "\n\nAuthor: "@ + pr.author@ + "\nBranch: "@ + pr.head_ref_name@ + " -> "@ + pr.base_ref_name@
            + "\nURL: "@ + pr.url@ + "\n"@ + status + "\n\n"@ + pr_keys()
    }
}

pub open spec fn summary_lines(v: Seq<CommitSummaryEntry>) -> Seq<char> {
    if v.len() == 0 {
        "  (none)"@
    } else {
        join(Seq::new(at_most(v.len() as int, 20) as nat, |i: int| "  "@ + v[i].short_hash@ + " "@ + v[i].summary@), "\n"@)
    }
}

pub open spec fn tracking_preview(a: App) -> Seq<char> {
    match a.tracking_summary {
        None => "Tracking comparison unavailable.\nEnsure the current branch has an upstream."@,
        Some(s) => "Upstream: "@ + s.upstream@ + "\n\nOutgoing ("@ + decimal(s.outgoing@.len()) + "):\n"@ + summary_lines(s.outgoing@)
            + "\n\nIncoming ("@ + decimal(s.incoming@.len()) + "):\n"@ + summary_lines(s.incoming@)
            + "\n\n[f] fetch  [l] pull  [p] push"@,
    }
}

pub open spec fn stash_preview(a: App) -> Seq<char> {
    if a.selected_stash >= a.stash_entries@.len() {
        "No stash entries.\nPress [s] to stash current changes from this view."@
    } else {
        let e = a.stash_entries@[a.selected_stash as int];
        if a.stash_details_for matches Some(f) && f@ == e.reference@ && a.stash_details@.len() > 0 {
            a.stash_details@
        } else {
            e.reference@ + "\n"@ + e.message@ + "\n\n[Enter] details | [a] apply | [p] pop | [d] drop | [s] stash current changes"@
        }
    }
}

pub open spec fn hidden_word(shown: bool) -> Seq<char> {
    if shown {
        "shown"@
    } else {
        "hidden"@
    }
}

pub open spec fn browser_preview(a: App) -> Seq<char> {
    if a.selected_browser >= a.browser_entries@.len() {
        "Current directory:\n"@ + a.browser_dir@ + "\n\nNo entries.\n\nHidden entries: "@ + hidden_word(a.show_hidden_browser_entries)
            + " (toggle with [.])"@
    } else {
        let e = a.browser_entries@[a.selected_browser as int];
        "Current directory:\n"@ + a.browser_dir@ + "\n\nSelected: "@ + e.path@ + "\n"@ + (if e.is_dir {
            "Type: directory"@
        } else {
            "Type: file (ignored for repo add)"@
        }) + (if e.is_git_root {
            "\nThis directory is a git root (.git found).\nPress [Enter] to add and open this repository."@
        } else if e.is_dir {
            "\nPress [Enter] to enter this directory."@
        } else {
            ""@
        }) + "\n\nHidden entries: "@ + hidden_word(a.show_hidden_browser_entries) + " (toggle with [.])"@
    }
}

/// What the preview pane shows.
pub open spec fn preview_of(a: App) -> Seq<char> {
    match a.screen {
        Screen::RepoPicker => if a.selected_repo < a.registry.repos@.len() {
            "Selected repository:\n"@ + display_path(a.registry.repos@[a.selected_repo as int].path@, a.windows)
                + "\n\n[Enter] open | [a] add path | [f] browse folders | [d] remove"@
        } else {
            "No repositories tracked.\nPress [a] to type a path or [f] to browse directories."@
        },
        Screen::RepoBrowser => browser_preview(a),
        Screen::BranchPicker => if a.selected_branch < a.branch_entries@.len() {
            let b = a.branch_entries@[a.selected_branch as int];
            "Selected branch:\n"@ + b.name@ + (if b.is_current { " (current)"@ } else { ""@ })
                + "\n\n[Enter] switch | [n] new branch | [b] back"@
        } else {
            "No local branches found.\nPress [b] to return."@
        },
        Screen::RemoteBranchPicker => if a.selected_remote_branch < a.remote_branch_entries@.len() {
            "Selected remote branch:\n"@ + a.remote_branch_entries@[a.selected_remote_branch as int].name@
                + "\n\n[Enter] checkout tracking branch | [b] back"@
        } else {
            "No remote branches found.\nRun [f] fetch in repo view, then retry."@
        },
        Screen::HistoryView => history_preview(a),
        Screen::PullRequestView => pr_preview(a),
        Screen::TrackingStatusView => tracking_preview(a),
        Screen::StashView => stash_preview(a),
        Screen::RepoView => a.repo_preview_text@,
    }
}

fn summary_lines_exec(v: &Vec<CommitSummaryEntry>) -> (res: String)
    ensures
        res@ == summary_lines(v@),
{
    if v.len() == 0 {
        return owned("  (none)");
    }
    let n = if v.len() < 20 {
        v.len()
    } else {
        20
    };
    let mut lines: Vec<String> = Vec::new();
    let mut i: usize = 0;
    while i < n
        invariant
            i <= n <= v.len(),
            n == at_most(v@.len() as int, 20),
            views(lines@) == Seq::new(i as nat, |k: int| "  "@ + v@[k].short_hash@ + " "@ + v@[k].summary@),
        decreases n - i,
    {
        let l = cat3("  ", v[i].short_hash.as_str(), " ");
        let l = l.concat(v[i].summary.as_str());
        let ghost before = views(lines@);
        lines.push(l);
        assert(views(lines@) =~= before.push(l@));
        assert(views(lines@) =~= Seq::new((i + 1) as nat, |k: int| "  "@ + v@[k].short_hash@ + " "@ + v@[k].summary@));
        i = i + 1;
    }
    join_strings(&lines, "\n")
}

impl App {
    /// What the pull request tab's preview shows.
    pub fn pull_request_preview_text(&self) -> (res: String)
        ensures
            res@ == pr_preview(*self),
    {
        if self.selected_pr >= self.pull_requests.len() {
            let r = cat3("No pull requests in '", self.pull_request_filter_label(), "' filter.\n\n");
            return r.concat(pr_keys_str());
        }
        let pr = &self.pull_requests[self.selected_pr];
        let status = match self.pr_status_for {
            Some(n) if n == pr.number => match &self.pr_status_summary {
                Some(s) => format_pr_status_summary(s),
                None => owned("PR status summary unavailable"),
            },
            _ => owned("Loading PR status summary..."),
        };
        let draft = if pr.is_draft {
            " (draft)"
        } else {
            ""
        };
        let r = cat3("PR #", decimal_string_u64(pr.number).as_str(), draft);
        let r = cat3(r.as_str(), " [", pr.state.as_str());
        let r = cat3(r.as_str(), "]\n", pr.title.as_str());
        let r = cat3(r.as_str(), "\n\nAuthor: ", pr.author.as_str());
        let r = cat3(r.as_str(), "\nBranch: ", pr.head_ref_name.as_str());
        let r = cat3(r.as_str(), " -> ", pr.base_ref_name.as_str());
        let r = cat3(r.as_str(), "\nURL: ", pr.url.as_str());
        let r = cat3(r.as_str(), "\n", status.as_str());
        let r = r.concat("\n\n");
        r.concat(pr_keys_str())
    }

    /// What the incoming/outgoing tab's preview shows.
    pub fn tracking_status_preview_text(&self) -> (res: String)
        ensures
            res@ == tracking_preview(*self),
    {
        match &self.tracking_summary {
            None => owned("Tracking comparison unavailable.\nEnsure the current branch has an upstream."),
            Some(s) => {
                let r = cat3("Upstream: ", s.upstream.as_str(), "\n\nOutgoing (");
                let r = cat3(r.as_str(), decimal_string(s.outgoing.len()).as_str(), "):\n");
                let r = r.concat(summary_lines_exec(&s.outgoing).as_str());
                let r = cat3(r.as_str(), "\n\nIncoming (", decimal_string(s.incoming.len()).as_str());
                let r = r.concat("):\n");
                let r = r.concat(summary_lines_exec(&s.incoming).as_str());
                r.concat("\n\n[f] fetch  [l] pull  [p] push")
            },
        }
    }

    /// What the stash tab's preview shows.
    pub fn stash_preview_text(&self) -> (res: String)
        ensures
            res@ == stash_preview(*self),
    {
        if self.selected_stash >= self.stash_entries.len() {
            return owned("No stash entries.\nPress [s] to stash current changes from this view.");
        }
        let e = &self.stash_entries[self.selected_stash];
        let loaded = match &self.stash_details_for {
            Some(f) => str_eq(f.as_str(), e.reference.as_str()),
            None => false,
        };
        if loaded && self.stash_details.as_str().unicode_len() > 0 {
            return self.stash_details.clone();
        }
        let r = cat3(e.reference.as_str(), "\n", e.message.as_str());
        r.concat("\n\n[Enter] details | [a] apply | [p] pop | [d] drop | [s] stash current changes")
    }

    fn browser_preview_text(&self) -> (res: String)
        ensures
            res@ == browser_preview(*self),
    {
        let hidden = if self.show_hidden_browser_entries {
            "shown"
        } else {
            "hidden"
        };
        if self.selected_browser >= self.browser_entries.len() {
            let r = cat3("Current directory:\n", self.browser_dir.as_str(), "\n\nNo entries.\n\nHidden entries: ");
            return cat3(r.as_str(), hidden, " (toggle with [.])");
        }
        let e = &self.browser_entries[self.selected_browser];
        let r = cat3("Current directory:\n", self.browser_dir.as_str(), "\n\nSelected: ");
        let r = cat3(r.as_str(), e.path.as_str(), "\n");
        let r = r.concat(
            if e.is_dir {
                "Type: directory"
            } else {
                "Type: file (ignored for repo add)"
            },
        );
        let r = r.concat(
            if e.is_git_root {
                "\nThis directory is a git root (.git found).\nPress [Enter] to add and open this repository."
            } else if e.is_dir {
                "\nPress [Enter] to enter this directory."
            } else {
                ""
            },
        );
        let r = cat3(r.as_str(), "\n\nHidden entries: ", hidden);
        r.concat(" (toggle with [.])")
    }

    /// What the preview pane shows for the current screen.
    pub fn preview_text(&self) -> (res: String)
        ensures
            res@ == preview_of(*self),
    {
        match self.screen {
            Screen::RepoPicker => {
                if self.selected_repo < self.registry.repos.len() {
                    let shown = display_path_for_ui(self.registry.repos[self.selected_repo].path.as_str(), self.windows);
                    cat3(
                        "Selected repository:\n",
                        shown.as_str(),
                        "\n\n[Enter] open | [a] add path | [f] browse folders | [d] remove",
                    )
                } else {
                    owned("No repositories tracked.\nPress [a] to type a path or [f] to browse directories.")
                }
            },
            Screen::RepoBrowser => self.browser_preview_text(),
            Screen::BranchPicker => {
                if self.selected_branch < self.branch_entries.len() {
                    let b = &self.branch_entries[self.selected_branch];
                    let marker = if b.is_current {
                        " (current)"
                    } else {
                        ""
                    };
                    let r = cat3("Selected branch:\n", b.name.as_str(), marker);
                    r.concat("\n\n[Enter] switch | [n] new branch | [b] back")
                } else {
                    owned("No local branches found.\nPress [b] to return.")
                }
            },
            Screen::RemoteBranchPicker => {
                if self.selected_remote_branch < self.remote_branch_entries.len() {
                    cat3(
                        "Selected remote branch:\n",
                        self.remote_branch_entries[self.selected_remote_branch].name.as_str(),
                        "\n\n[Enter] checkout tracking branch | [b] back",
                    )
                } else {
                    owned("No remote branches found.\nRun [f] fetch in repo view, then retry.")
                }
            },
            Screen::HistoryView => self.history_preview_text(),
            Screen::PullRequestView => self.pull_request_preview_text(),
            Screen::TrackingStatusView => self.tracking_status_preview_text(),
            Screen::StashView => self.stash_preview_text(),
            Screen::RepoView => self.repo_preview_text.clone(),
        }
    }
}

} // verus!
