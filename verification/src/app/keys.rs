//! Which action a key press stands for, given what the screen shows.
use vstd::prelude::*;

use super::{App, InputMode, Screen};
use crate::git::prs::PullRequestMergeMethod;

verus! {

/// The keys the client reads.
#[derive(Debug, Clone, Copy, PartialEq, Eq, Structural)]
pub enum KeyCode {
    Char(char),
    Enter,
    Esc,
    Backspace,
    Delete,
    Left,
    Right,
    Up,
    Down,
    Home,
    End,
    PageUp,
    PageDown,
    Tab,
    F(u8),
    Other,
}

/// A key press, with whether Control was held.
#[derive(Debug, Clone, Copy, PartialEq, Eq, Structural)]
pub struct KeyPress {
    pub code: KeyCode,
    pub ctrl: bool,
}

/// What a key press asks for; each names the method of [`App`] that does it.
#[derive(Debug, Clone, Copy, PartialEq, Eq, Structural)]
pub enum KeyAction {
    Nothing,
    Quit,
    ConfirmDiscard,
    ConfirmMerge,
    ConfirmStashDrop,
    CancelInput,
    SubmitInput,
    InsertChar(char),
    PopChar,
    DeleteChar,
    CursorLeft,
    CursorRight,
    CursorUp,
    CursorDown,
    CursorHome,
    CursorEnd,
    Autocomplete,
    CloseHelp,
    HelpDown(usize),
    HelpUp(usize),
    HelpTop,
    HelpBottom,
    CloseDiff,
    DiffDown,
    DiffUp,
    DiffPageDown(usize),
    DiffPageUp(usize),
    DiffHome,
    DiffEnd,
    DiffNextHunk,
    DiffPrevHunk,
    SwitchTab(u8),
    ToggleHelp,
    ShowLogPath,
    Refresh,
    MoveNext,
    MovePrev,
    CycleFocus,
    HistoryFocusLeft,
    HistoryFocusRight,
    BrowserGoParent,
    Activate,
    BeginAddRepo,
    EnterRepoBrowser,
    ToggleHidden,
    RemoveRepo,
    ReturnToPicker,
    ReturnToRepoView,
    EnterBranchPicker,
    EnterRemoteBranchPicker,
    EnterHistory,
    EnterTracking,
    EnterStash,
    EnterPullRequests,
    BeginNewBranch,
    BeginCreatePr,
    CheckoutCommit,
    CherryPickCommit,
    OpenFileHistory,
    OpenPrInBrowser,
    StashChanges,
    ApplyStash,
    PopStash,
    BeginDropStash,
    CheckoutPr,
    BeginMerge(PullRequestMergeMethod),
    CyclePrFilter,
    StageSelected,
    StageAll,
    UnstageSelected,
    UnstageAll,
    DiscardSelected,
    BeginCommit,
    Fetch,
    Pull,
    Push,
    ContinueCherryPick,
    AbortCherryPick,
}

/// The action of `key` in input mode `mode`, with the help popup shown
/// or not, a full-screen diff shown or not, on `screen`.
pub open spec fn key_action(mode: InputMode, help: bool, diff_shown: bool, screen: Screen, key: KeyPress) -> KeyAction {
    if mode != InputMode::Inactive {
        if mode == InputMode::ConfirmDiscard || mode == InputMode::ConfirmPullRequestMerge || mode == InputMode::ConfirmStashDrop {
            if key.code == KeyCode::Char('y') || key.code == KeyCode::Char('Y') {
                if mode == InputMode::ConfirmDiscard { KeyAction::ConfirmDiscard } else if mode == InputMode::ConfirmPullRequestMerge { KeyAction::ConfirmMerge } else { KeyAction::ConfirmStashDrop }
            } else if key.code == KeyCode::Char('n') || key.code == KeyCode::Char('N') || key.code == KeyCode::Esc {
                KeyAction::CancelInput
            } else {
                KeyAction::Nothing
            }
        } else {
            if key.code == KeyCode::Esc {
                KeyAction::CancelInput
            } else if key.code == KeyCode::Enter && mode == InputMode::CommitBody && key.ctrl {
                KeyAction::SubmitInput
            } else if key.code == KeyCode::Enter && mode == InputMode::CommitBody {
                KeyAction::InsertChar('\n')
            } else if key.code == KeyCode::F(2) && mode == InputMode::CommitBody {
                KeyAction::SubmitInput
            } else if key.code == KeyCode::Char('s') && mode == InputMode::CommitBody && key.ctrl {
                KeyAction::SubmitInput
            } else if key.code == KeyCode::Enter {
                KeyAction::SubmitInput
            } else if key.code == KeyCode::Backspace {
                KeyAction::PopChar
            } else if key.code == KeyCode::Delete {
                KeyAction::DeleteChar
            } else if key.code == KeyCode::Left {
                KeyAction::CursorLeft
            } else if key.code == KeyCode::Right {
                KeyAction::CursorRight
            } else if key.code == KeyCode::Up && mode == InputMode::CommitBody {
                KeyAction::CursorUp
            } else if key.code == KeyCode::Down && mode == InputMode::CommitBody {
                KeyAction::CursorDown
            } else if key.code == KeyCode::Home {
                KeyAction::CursorHome
            } else if key.code == KeyCode::End {
                KeyAction::CursorEnd
            } else if key.code == KeyCode::Tab {
                KeyAction::Autocomplete
            } else {
                match key.code {
                    KeyCode::Char(ch) => KeyAction::InsertChar(ch),
                    _ => KeyAction::Nothing,
                }
            }
        }
    } else if help {
        if key.code == KeyCode::Char('?') || key.code == KeyCode::Esc {
            KeyAction::CloseHelp
        } else if key.code == KeyCode::Down || key.code == KeyCode::Char('j') {
            KeyAction::HelpDown(1)
        } else if key.code == KeyCode::Up || key.code == KeyCode::Char('k') {
            KeyAction::HelpUp(1)
        } else if key.code == KeyCode::PageDown {
            KeyAction::HelpDown(8)
        } else if key.code == KeyCode::PageUp {
            KeyAction::HelpUp(8)
        } else if key.code == KeyCode::Home {
            KeyAction::HelpTop
        } else if key.code == KeyCode::End {
            KeyAction::HelpBottom
        } else {
            KeyAction::Nothing
        }
    } else if diff_shown {
        if key.code == KeyCode::Esc {
            KeyAction::CloseDiff
        } else if key.code == KeyCode::Down || key.code == KeyCode::Char('j') {
            KeyAction::DiffDown
        } else if key.code == KeyCode::Up || key.code == KeyCode::Char('k') {
            KeyAction::DiffUp
        } else if key.code == KeyCode::PageDown {
            KeyAction::DiffPageDown(20)
        } else if key.code == KeyCode::PageUp {
            KeyAction::DiffPageUp(20)
        } else if key.code == KeyCode::Home {
            KeyAction::DiffHome
        } else if key.code == KeyCode::End {
            KeyAction::DiffEnd
        } else if key.code == KeyCode::Char('n') {
            KeyAction::DiffNextHunk
        } else if key.code == KeyCode::Char('p') {
            KeyAction::DiffPrevHunk
        } else {
            KeyAction::Nothing
        }
    } else {
        if key.code == KeyCode::Char('q') {
            KeyAction::Quit
        } else if key.code == KeyCode::Char('1') {
            KeyAction::SwitchTab(1)
        } else if key.code == KeyCode::Char('2') {
            KeyAction::SwitchTab(2)
        } else if key.code == KeyCode::Char('3') {
            KeyAction::SwitchTab(3)
        } else if key.code == KeyCode::Char('4') {
            KeyAction::SwitchTab(4)
        } else if key.code == KeyCode::Char('5') {
            KeyAction::SwitchTab(5)
        } else if key.code == KeyCode::Char('6') {
            KeyAction::SwitchTab(6)
        } else if key.code == KeyCode::Char('?') {
            KeyAction::ToggleHelp
        } else if key.code == KeyCode::Char('L') {
            KeyAction::ShowLogPath
        } else if key.code == KeyCode::Char('r') {
            KeyAction::Refresh
        } else if key.code == KeyCode::Down {
            KeyAction::MoveNext
        } else if key.code == KeyCode::Char('j') {
            KeyAction::MoveNext
        } else if key.code == KeyCode::Up {
            KeyAction::MovePrev
        } else if key.code == KeyCode::Char('k') {
            KeyAction::MovePrev
        } else if key.code == KeyCode::Tab {
            KeyAction::CycleFocus
        } else if key.code == KeyCode::Left && screen == Screen::HistoryView {
            KeyAction::HistoryFocusLeft
        } else if key.code == KeyCode::Right && screen == Screen::HistoryView {
            KeyAction::HistoryFocusRight
        } else if key.code == KeyCode::Backspace && screen == Screen::RepoBrowser {
            KeyAction::BrowserGoParent
        } else if key.code == KeyCode::Enter {
            KeyAction::Activate
        } else if key.code == KeyCode::Char('a') && screen == Screen::RepoPicker {
            KeyAction::BeginAddRepo
        } else if key.code == KeyCode::Char('f') && screen == Screen::RepoPicker {
            KeyAction::EnterRepoBrowser
        } else if key.code == KeyCode::Char('.') && screen == Screen::RepoBrowser {
            KeyAction::ToggleHidden
        } else if key.code == KeyCode::Char('d') && screen == Screen::RepoPicker {
            KeyAction::RemoveRepo
        } else if key.code == KeyCode::Char('b') && screen == Screen::RepoBrowser {
            KeyAction::ReturnToPicker
        } else if key.code == KeyCode::Char('b') && screen == Screen::RepoView {
            KeyAction::ReturnToPicker
        } else if key.code == KeyCode::Char('b') && screen == Screen::BranchPicker {
            KeyAction::ReturnToRepoView
        } else if key.code == KeyCode::Char('b') && screen == Screen::RemoteBranchPicker {
            KeyAction::ReturnToRepoView
        } else if key.code == KeyCode::Char('b') && screen == Screen::HistoryView {
            KeyAction::ReturnToRepoView
        } else if key.code == KeyCode::Char('b') && screen == Screen::PullRequestView {
            KeyAction::ReturnToRepoView
        } else if key.code == KeyCode::Char('b') && screen == Screen::TrackingStatusView {
            KeyAction::ReturnToRepoView
        } else if key.code == KeyCode::Char('b') && screen == Screen::StashView {
            KeyAction::ReturnToRepoView
        } else if key.code == KeyCode::Char('g') && screen == Screen::RepoView {
            KeyAction::EnterBranchPicker
        } else if key.code == KeyCode::Char('G') && screen == Screen::RepoView {
            KeyAction::EnterRemoteBranchPicker
        } else if key.code == KeyCode::Char('G') && screen == Screen::BranchPicker {
            KeyAction::EnterRemoteBranchPicker
        } else if key.code == KeyCode::Char('g') && screen == Screen::RemoteBranchPicker {
            KeyAction::EnterBranchPicker
        } else if key.code == KeyCode::Char('h') && screen == Screen::RepoView {
            KeyAction::EnterHistory
        } else if key.code == KeyCode::Char('i') && screen == Screen::RepoView {
            KeyAction::EnterTracking
        } else if key.code == KeyCode::Char('t') && screen == Screen::RepoView {
            KeyAction::EnterStash
        } else if key.code == KeyCode::Char('P') && screen == Screen::RepoView {
            KeyAction::EnterPullRequests
        } else if key.code == KeyCode::Char('n') && screen == Screen::BranchPicker {
            KeyAction::BeginNewBranch
        } else if key.code == KeyCode::Char('n') && screen == Screen::PullRequestView {
            KeyAction::BeginCreatePr
        } else if key.code == KeyCode::Char('o') && screen == Screen::HistoryView {
            KeyAction::CheckoutCommit
        } else if key.code == KeyCode::Char('p') && screen == Screen::HistoryView {
            KeyAction::CherryPickCommit
        } else if key.code == KeyCode::Char('h') && screen == Screen::HistoryView {
            KeyAction::OpenFileHistory
        } else if key.code == KeyCode::Char('o') && screen == Screen::PullRequestView {
            KeyAction::OpenPrInBrowser
        } else if key.code == KeyCode::Char('s') && screen == Screen::StashView {
            KeyAction::StashChanges
        } else if key.code == KeyCode::Char('a') && screen == Screen::StashView {
            KeyAction::ApplyStash
        } else if key.code == KeyCode::Char('p') && screen == Screen::StashView {
            KeyAction::PopStash
        } else if key.code == KeyCode::Char('d') && screen == Screen::StashView {
            KeyAction::BeginDropStash
        } else if key.code == KeyCode::Char('c') && screen == Screen::PullRequestView {
            KeyAction::CheckoutPr
        } else if key.code == KeyCode::Char('m') && screen == Screen::PullRequestView {
            KeyAction::BeginMerge(PullRequestMergeMethod::Merge)
        } else if key.code == KeyCode::Char('s') && screen == Screen::PullRequestView {
            KeyAction::BeginMerge(PullRequestMergeMethod::Squash)
        } else if key.code == KeyCode::Char('R') && screen == Screen::PullRequestView {
            KeyAction::BeginMerge(PullRequestMergeMethod::Rebase)
        } else if key.code == KeyCode::Char('f') && screen == Screen::PullRequestView {
            KeyAction::CyclePrFilter
        } else if key.code == KeyCode::Char('s') && screen == Screen::RepoView {
            KeyAction::StageSelected
        } else if key.code == KeyCode::Char('S') && screen == Screen::RepoView {
            KeyAction::StageAll
        } else if key.code == KeyCode::Char('u') && screen == Screen::RepoView {
            KeyAction::UnstageSelected
        } else if key.code == KeyCode::Char('U') && screen == Screen::RepoView {
            KeyAction::UnstageAll
        } else if key.code == KeyCode::Char('x') && screen == Screen::RepoView {
            KeyAction::DiscardSelected
        } else if key.code == KeyCode::Char('c') && screen == Screen::RepoView {
            KeyAction::BeginCommit
        } else if key.code == KeyCode::Char('f') && screen == Screen::RepoView {
            KeyAction::Fetch
        } else if key.code == KeyCode::Char('f') && screen == Screen::TrackingStatusView {
            KeyAction::Fetch
        } else if key.code == KeyCode::Char('l') && screen == Screen::RepoView {
            KeyAction::Pull
        } else if key.code == KeyCode::Char('l') && screen == Screen::TrackingStatusView {
            KeyAction::Pull
        } else if key.code == KeyCode::Char('p') && screen == Screen::RepoView {
            KeyAction::Push
        } else if key.code == KeyCode::Char('p') && screen == Screen::TrackingStatusView {
            KeyAction::Push
        } else if key.code == KeyCode::Char('v') && screen == Screen::RepoView {
            KeyAction::ContinueCherryPick
        } else if key.code == KeyCode::Char('z') && screen == Screen::RepoView {
            KeyAction::AbortCherryPick
        } else {
            KeyAction::Nothing
        }
    }
}

impl App {
    /// The action that `key` stands for now.
    pub fn route_key(&self, key: KeyPress) -> (res: KeyAction)
        ensures
            res == key_action(self.input_mode, self.help_visible, self.fullscreen_diff is Some, self.screen, key),
    {
        let mode = self.input_mode;
        let help = self.help_visible;
        let diff_shown = self.fullscreen_diff.is_some();
        let screen = self.screen;
        if mode != InputMode::Inactive {
            if mode == InputMode::ConfirmDiscard || mode == InputMode::ConfirmPullRequestMerge || mode == InputMode::ConfirmStashDrop {
                if key.code == KeyCode::Char('y') || key.code == KeyCode::Char('Y') {
                    if mode == InputMode::ConfirmDiscard { KeyAction::ConfirmDiscard } else if mode == InputMode::ConfirmPullRequestMerge { KeyAction::ConfirmMerge } else { KeyAction::ConfirmStashDrop }
                } else if key.code == KeyCode::Char('n') || key.code == KeyCode::Char('N') || key.code == KeyCode::Esc {
                    KeyAction::CancelInput
                } else {
                    KeyAction::Nothing
                }
            } else {
                if key.code == KeyCode::Esc {
                    KeyAction::CancelInput
                } else if key.code == KeyCode::Enter && mode == InputMode::CommitBody && key.ctrl {
                    KeyAction::SubmitInput
                } else if key.code == KeyCode::Enter && mode == InputMode::CommitBody {
                    KeyAction::InsertChar('\n')
                } else if key.code == KeyCode::F(2) && mode == InputMode::CommitBody {
                    KeyAction::SubmitInput
                } else if key.code == KeyCode::Char('s') && mode == InputMode::CommitBody && key.ctrl {
                    KeyAction::SubmitInput
                } else if key.code == KeyCode::Enter {
                    KeyAction::SubmitInput
                } else if key.code == KeyCode::Backspace {
                    KeyAction::PopChar
                } else if key.code == KeyCode::Delete {
                    KeyAction::DeleteChar
                } else if key.code == KeyCode::Left {
                    KeyAction::CursorLeft
                } else if key.code == KeyCode::Right {
                    KeyAction::CursorRight
                } else if key.code == KeyCode::Up && mode == InputMode::CommitBody {
                    KeyAction::CursorUp
                } else if key.code == KeyCode::Down && mode == InputMode::CommitBody {
                    KeyAction::CursorDown
                } else if key.code == KeyCode::Home {
                    KeyAction::CursorHome
                } else if key.code == KeyCode::End {
                    KeyAction::CursorEnd
                } else if key.code == KeyCode::Tab {
                    KeyAction::Autocomplete
                } else {
                    match key.code {
                        KeyCode::Char(ch) => KeyAction::InsertChar(ch),
                        _ => KeyAction::Nothing,
                    }
                }
            }
        } else if help {
            if key.code == KeyCode::Char('?') || key.code == KeyCode::Esc {
                KeyAction::CloseHelp
            } else if key.code == KeyCode::Down || key.code == KeyCode::Char('j') {
                KeyAction::HelpDown(1)
            } else if key.code == KeyCode::Up || key.code == KeyCode::Char('k') {
                KeyAction::HelpUp(1)
            } else if key.code == KeyCode::PageDown {
                KeyAction::HelpDown(8)
            } else if key.code == KeyCode::PageUp {
                KeyAction::HelpUp(8)
            } else if key.code == KeyCode::Home {
                KeyAction::HelpTop
            } else if key.code == KeyCode::End {
                KeyAction::HelpBottom
            } else {
                KeyAction::Nothing
            }
        } else if diff_shown {
            if key.code == KeyCode::Esc {
                KeyAction::CloseDiff
            } else if key.code == KeyCode::Down || key.code == KeyCode::Char('j') {
                KeyAction::DiffDown
            } else if key.code == KeyCode::Up || key.code == KeyCode::Char('k') {
                KeyAction::DiffUp
            } else if key.code == KeyCode::PageDown {
                KeyAction::DiffPageDown(20)
            } else if key.code == KeyCode::PageUp {
                KeyAction::DiffPageUp(20)
            } else if key.code == KeyCode::Home {
                KeyAction::DiffHome
            } else if key.code == KeyCode::End {
                KeyAction::DiffEnd
            } else if key.code == KeyCode::Char('n') {
                KeyAction::DiffNextHunk
            } else if key.code == KeyCode::Char('p') {
                KeyAction::DiffPrevHunk
            } else {
                KeyAction::Nothing
            }
        } else {
            if key.code == KeyCode::Char('q') {
                KeyAction::Quit
            } else if key.code == KeyCode::Char('1') {
                KeyAction::SwitchTab(1)
            } else if key.code == KeyCode::Char('2') {
                KeyAction::SwitchTab(2)
            } else if key.code == KeyCode::Char('3') {
                KeyAction::SwitchTab(3)
            } else if key.code == KeyCode::Char('4') {
                KeyAction::SwitchTab(4)
            } else if key.code == KeyCode::Char('5') {
                KeyAction::SwitchTab(5)
            } else if key.code == KeyCode::Char('6') {
                KeyAction::SwitchTab(6)
            } else if key.code == KeyCode::Char('?') {
                KeyAction::ToggleHelp
            } else if key.code == KeyCode::Char('L') {
                KeyAction::ShowLogPath
            } else if key.code == KeyCode::Char('r') {
                KeyAction::Refresh
            } else if key.code == KeyCode::Down {
                KeyAction::MoveNext
            } else if key.code == KeyCode::Char('j') {
                KeyAction::MoveNext
            } else if key.code == KeyCode::Up {
                KeyAction::MovePrev
            } else if key.code == KeyCode::Char('k') {
                KeyAction::MovePrev
            } else if key.code == KeyCode::Tab {
                KeyAction::CycleFocus
            } else if key.code == KeyCode::Left && screen == Screen::HistoryView {
                KeyAction::HistoryFocusLeft
            } else if key.code == KeyCode::Right && screen == Screen::HistoryView {
                KeyAction::HistoryFocusRight
            } else if key.code == KeyCode::Backspace && screen == Screen::RepoBrowser {
                KeyAction::BrowserGoParent
            } else if key.code == KeyCode::Enter {
                KeyAction::Activate
            } else if key.code == KeyCode::Char('a') && screen == Screen::RepoPicker {
                KeyAction::BeginAddRepo
            } else if key.code == KeyCode::Char('f') && screen == Screen::RepoPicker {
                KeyAction::EnterRepoBrowser
            } else if key.code == KeyCode::Char('.') && screen == Screen::RepoBrowser {
                KeyAction::ToggleHidden
            } else if key.code == KeyCode::Char('d') && screen == Screen::RepoPicker {
                KeyAction::RemoveRepo
            } else if key.code == KeyCode::Char('b') && screen == Screen::RepoBrowser {
                KeyAction::ReturnToPicker
            } else if key.code == KeyCode::Char('b') && screen == Screen::RepoView {
                KeyAction::ReturnToPicker
            } else if key.code == KeyCode::Char('b') && screen == Screen::BranchPicker {
                KeyAction::ReturnToRepoView
            } else if key.code == KeyCode::Char('b') && screen == Screen::RemoteBranchPicker {
                KeyAction::ReturnToRepoView
            } else if key.code == KeyCode::Char('b') && screen == Screen::HistoryView {
                KeyAction::ReturnToRepoView
            } else if key.code == KeyCode::Char('b') && screen == Screen::PullRequestView {
                KeyAction::ReturnToRepoView
            } else if key.code == KeyCode::Char('b') && screen == Screen::TrackingStatusView {
                KeyAction::ReturnToRepoView
            } else if key.code == KeyCode::Char('b') && screen == Screen::StashView {
                KeyAction::ReturnToRepoView
            } else if key.code == KeyCode::Char('g') && screen == Screen::RepoView {
                KeyAction::EnterBranchPicker
            } else if key.code == KeyCode::Char('G') && screen == Screen::RepoView {
                KeyAction::EnterRemoteBranchPicker
            } else if key.code == KeyCode::Char('G') && screen == Screen::BranchPicker {
                KeyAction::EnterRemoteBranchPicker
            } else if key.code == KeyCode::Char('g') && screen == Screen::RemoteBranchPicker {
                KeyAction::EnterBranchPicker
            } else if key.code == KeyCode::Char('h') && screen == Screen::RepoView {
                KeyAction::EnterHistory
            } else if key.code == KeyCode::Char('i') && screen == Screen::RepoView {
                KeyAction::EnterTracking
            } else if key.code == KeyCode::Char('t') && screen == Screen::RepoView {
                KeyAction::EnterStash
            } else if key.code == KeyCode::Char('P') && screen == Screen::RepoView {
                KeyAction::EnterPullRequests
            } else if key.code == KeyCode::Char('n') && screen == Screen::BranchPicker {
                KeyAction::BeginNewBranch
            } else if key.code == KeyCode::Char('n') && screen == Screen::PullRequestView {
                KeyAction::BeginCreatePr
            } else if key.code == KeyCode::Char('o') && screen == Screen::HistoryView {
                KeyAction::CheckoutCommit
            } else if key.code == KeyCode::Char('p') && screen == Screen::HistoryView {
                KeyAction::CherryPickCommit
            } else if key.code == KeyCode::Char('h') && screen == Screen::HistoryView {
                KeyAction::OpenFileHistory
            } else if key.code == KeyCode::Char('o') && screen == Screen::PullRequestView {
                KeyAction::OpenPrInBrowser
            } else if key.code == KeyCode::Char('s') && screen == Screen::StashView {
                KeyAction::StashChanges
            } else if key.code == KeyCode::Char('a') && screen == Screen::StashView {
                KeyAction::ApplyStash
            } else if key.code == KeyCode::Char('p') && screen == Screen::StashView {
                KeyAction::PopStash
            } else if key.code == KeyCode::Char('d') && screen == Screen::StashView {
                KeyAction::BeginDropStash
            } else if key.code == KeyCode::Char('c') && screen == Screen::PullRequestView {
                KeyAction::CheckoutPr
            } else if key.code == KeyCode::Char('m') && screen == Screen::PullRequestView {
                KeyAction::BeginMerge(PullRequestMergeMethod::Merge)
            } else if key.code == KeyCode::Char('s') && screen == Screen::PullRequestView {
                KeyAction::BeginMerge(PullRequestMergeMethod::Squash)
            } else if key.code == KeyCode::Char('R') && screen == Screen::PullRequestView {
                KeyAction::BeginMerge(PullRequestMergeMethod::Rebase)
            } else if key.code == KeyCode::Char('f') && screen == Screen::PullRequestView {
                KeyAction::CyclePrFilter
            } else if key.code == KeyCode::Char('s') && screen == Screen::RepoView {
                KeyAction::StageSelected
            } else if key.code == KeyCode::Char('S') && screen == Screen::RepoView {
                KeyAction::StageAll
            } else if key.code == KeyCode::Char('u') && screen == Screen::RepoView {
                KeyAction::UnstageSelected
            } else if key.code == KeyCode::Char('U') && screen == Screen::RepoView {
                KeyAction::UnstageAll
            } else if key.code == KeyCode::Char('x') && screen == Screen::RepoView {
                KeyAction::DiscardSelected
            } else if key.code == KeyCode::Char('c') && screen == Screen::RepoView {
                KeyAction::BeginCommit
            } else if key.code == KeyCode::Char('f') && screen == Screen::RepoView {
                KeyAction::Fetch
            } else if key.code == KeyCode::Char('f') && screen == Screen::TrackingStatusView {
                KeyAction::Fetch
            } else if key.code == KeyCode::Char('l') && screen == Screen::RepoView {
                KeyAction::Pull
            } else if key.code == KeyCode::Char('l') && screen == Screen::TrackingStatusView {
                KeyAction::Pull
            } else if key.code == KeyCode::Char('p') && screen == Screen::RepoView {
                KeyAction::Push
            } else if key.code == KeyCode::Char('p') && screen == Screen::TrackingStatusView {
                KeyAction::Push
            } else if key.code == KeyCode::Char('v') && screen == Screen::RepoView {
                KeyAction::ContinueCherryPick
            } else if key.code == KeyCode::Char('z') && screen == Screen::RepoView {
                KeyAction::AbortCherryPick
            } else {
                KeyAction::Nothing
            }
        }
    }
}

} // verus!
