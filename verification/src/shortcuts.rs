//! Keyboard shortcuts of the browser and what they do to its state.

use vstd::prelude::*;
use crate::app_state::AppState;

verus! {

/// Keys that have a shortcut.
#[derive(Debug, Clone, Copy, PartialEq, Eq, Structural)]
pub enum ShortcutKey {
    O,
    Q,
    F5,
    F,
    ArrowUp,
    ArrowDown,
    PageUp,
    PageDown,
    Home,
    End,
    Num1,
    Num2,
    Num3,
    D,
    T,
    R,
    B,
    Space,
    Enter,
}

/// What a shortcut asks for.
#[derive(Debug, Clone, Copy, PartialEq, Eq, Structural)]
pub enum AppAction {
    OpenRepository,
    Quit,
    Refresh,
    FocusSearch,
    /// Move the selection by this many listed commits.
    Navigate(i32),
    FirstCommit,
    LastCommit,
    ViewGraph,
    ViewList,
    ViewTree,
    ToggleDiffView,
    ToggleFileTree,
    ToggleBranchView,
    QuickDiff,
    ViewCommitDetails,
}

/// The action of a key pressed with Ctrl (`ctrl`) or with no modifier:
/// opening, quitting, searching and toggling the branch view are Ctrl
/// shortcuts, refreshing is F5 or Ctrl+R, Space shows a quick diff and
/// Enter the commit details; navigation (plain keys) and the view and diff
/// shortcuts (Ctrl) act only when a repository is open, as does
/// refreshing.
pub open spec fn action_of(key: ShortcutKey, ctrl: bool, has_repository: bool) -> Option<AppAction> {
    match (key, ctrl) {
        (ShortcutKey::O, true) => Some(AppAction::OpenRepository),
        (ShortcutKey::Q, true) => Some(AppAction::Quit),
        (ShortcutKey::F, true) => Some(AppAction::FocusSearch),
        (ShortcutKey::F5, false) => if has_repository { Some(AppAction::Refresh) } else { None },
        (ShortcutKey::ArrowUp, false) => if has_repository { Some(AppAction::Navigate(-1i32)) } else { None },
        (ShortcutKey::ArrowDown, false) => if has_repository { Some(AppAction::Navigate(1i32)) } else { None },
        (ShortcutKey::PageUp, false) => if has_repository { Some(AppAction::Navigate(-10i32)) } else { None },
        (ShortcutKey::PageDown, false) => if has_repository { Some(AppAction::Navigate(10i32)) } else { None },
        (ShortcutKey::Home, false) => if has_repository { Some(AppAction::FirstCommit) } else { None },
        (ShortcutKey::End, false) => if has_repository { Some(AppAction::LastCommit) } else { None },
        (ShortcutKey::Num1, true) => if has_repository { Some(AppAction::ViewGraph) } else { None },
        (ShortcutKey::Num2, true) => if has_repository { Some(AppAction::ViewList) } else { None },
        (ShortcutKey::Num3, true) => if has_repository { Some(AppAction::ViewTree) } else { None },
        (ShortcutKey::D, true) => if has_repository { Some(AppAction::ToggleDiffView) } else { None },
        (ShortcutKey::T, true) => if has_repository { Some(AppAction::ToggleFileTree) } else { None },
        (ShortcutKey::R, true) => if has_repository { Some(AppAction::Refresh) } else { None },
        (ShortcutKey::B, true) => Some(AppAction::ToggleBranchView),
        (ShortcutKey::Space, false) => Some(AppAction::QuickDiff),
        (ShortcutKey::Enter, false) => Some(AppAction::ViewCommitDetails),
        _ => None,
    }
}

/// The action of a key (see [`action_of`]).
pub fn shortcut_action(key: ShortcutKey, ctrl: bool, has_repository: bool) -> (r: Option<AppAction>)
    ensures
        r == action_of(key, ctrl, has_repository),
{
    match (key, ctrl) {
        (ShortcutKey::O, true) => Some(AppAction::OpenRepository),
        (ShortcutKey::Q, true) => Some(AppAction::Quit),
        (ShortcutKey::F, true) => Some(AppAction::FocusSearch),
        (ShortcutKey::F5, false) => if has_repository { Some(AppAction::Refresh) } else { None },
        (ShortcutKey::ArrowUp, false) => if has_repository { Some(AppAction::Navigate(-1)) } else { None },
        (ShortcutKey::ArrowDown, false) => if has_repository { Some(AppAction::Navigate(1)) } else { None },
        (ShortcutKey::PageUp, false) => if has_repository { Some(AppAction::Navigate(-10)) } else { None },
        (ShortcutKey::PageDown, false) => if has_repository { Some(AppAction::Navigate(10)) } else { None },
        (ShortcutKey::Home, false) => if has_repository { Some(AppAction::FirstCommit) } else { None },
        (ShortcutKey::End, false) => if has_repository { Some(AppAction::LastCommit) } else { None },
        (ShortcutKey::Num1, true) => if has_repository { Some(AppAction::ViewGraph) } else { None },
        (ShortcutKey::Num2, true) => if has_repository { Some(AppAction::ViewList) } else { None },
        (ShortcutKey::Num3, true) => if has_repository { Some(AppAction::ViewTree) } else { None },
        (ShortcutKey::D, true) => if has_repository { Some(AppAction::ToggleDiffView) } else { None },
        (ShortcutKey::T, true) => if has_repository { Some(AppAction::ToggleFileTree) } else { None },
        (ShortcutKey::R, true) => if has_repository { Some(AppAction::Refresh) } else { None },
        (ShortcutKey::B, true) => Some(AppAction::ToggleBranchView),
        (ShortcutKey::Space, false) => Some(AppAction::QuickDiff),
        (ShortcutKey::Enter, false) => Some(AppAction::ViewCommitDetails),
        _ => None,
    }
}

/// Whether an action changes the browser state (the others belong to the
/// window: dialogs, quitting, view modes).
pub open spec fn acts_on_state(a: AppAction) -> bool {
    a is Refresh || a is FocusSearch || a is Navigate || a is FirstCommit || a is LastCommit
}

impl AppState {
    /// Carries out what an action does to the state: refreshing streams the
    /// history anew, searching focuses the search box, navigation moves the
    /// selection; the other actions leave the state as it is.
    pub fn apply_action(&mut self, action: AppAction) -> (handled: bool)
        requires
            old(self).wf(),
        ensures
            final(self).wf(),
            handled == acts_on_state(action),
            !acts_on_state(action) ==> *final(self) == *old(self),
            action is FocusSearch ==> *final(self) == (AppState { focus_search: true, ..*old(self) }),
    {
        match action {
            AppAction::Refresh => {
                self.start_streaming_commits();
                true
            },
            AppAction::FocusSearch => {
                self.focus_search = true;
                true
            },
            AppAction::Navigate(d) => {
                self.navigate_commits(d);
                true
            },
            AppAction::FirstCommit => {
                self.navigate_to_first_commit();
                true
            },
            AppAction::LastCommit => {
                self.navigate_to_last_commit();
                true
            },
            _ => false,
        }
    }
}

} // verus!
