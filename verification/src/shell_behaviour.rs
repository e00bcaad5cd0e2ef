//! The shell-behaviour run: tree navigation, handoff activation, the
//! overflow menus, the mode tabs, Recovery and Settings, and the external
//! change conflict, one phase each, in this order.

use vstd::prelude::*;
use crate::transport::{run_result_spec, validate_run_result, walk, DriverResult, PhaseKind, PhaseMachine};

verus! {

/// The marker the run's final result must carry.
pub const MARKER: &'static str = "RFC044_SHELL_BEHAVIOUR_MARKER";

/// The result stage the terminal phase's final result must carry.
pub const TERMINAL_STAGE: &'static str = "conflict_banner_focus_kept";

#[derive(Debug, Clone, Copy, PartialEq, Eq, Structural)]
pub enum ShellBehaviourPhase {
    /// The Recovery screen shown at launch takes focus on its heading.
    RecoveryEntry,
    /// Leaving Recovery restores focus to the shell.
    RecoveryExit,
    DownUp,
    ExpandEnter,
    CollapseAscend,
    HomeEnd,
    NonOpenable,
    /// Enter on a tree row opens the document and the editor takes focus.
    EnterOpens,
    /// A search result opens its document and the editor takes focus.
    SearchResultOpens,
    /// The app menu's New File focuses the editor.
    NewFileFocuses,
    /// A tree Enter after New File still focuses the editor.
    TreeEnterAfterNewFile,
    /// In Form mode, dismissing search restores focus to its trigger.
    FormSearchRestores,
    /// A mouse open of the app menu leaves focus on the trigger.
    AppMenuMouseOpen,
    /// The app menu's trigger and in-menu keys.
    AppMenuKeys,
    /// Escape restores focus to the app menu's trigger.
    AppMenuEscape,
    /// Focus leaving the app menu closes it without restoring.
    AppMenuFocusLeave,
    /// The editor-tools menu's trigger and in-menu keys.
    ToolsMenuKeys,
    /// Escape restores focus to the editor-tools trigger.
    ToolsMenuEscape,
    /// Focus leaving the editor-tools menu closes it without restoring.
    ToolsMenuFocusLeave,
    /// Arrow keys on the mode tablist move focus only.
    TabsArrowsFocusOnly,
    /// Activating the Text tab selects it and focuses the editor.
    TabsClickActivates,
    /// Focus entering the editor closes the menu, and stays.
    MenuClosesIntoEditor,
    /// That close released shell authority.
    AuthorityReleasedAfterEditorFocus,
    /// Entering Settings focuses its heading.
    SettingsEntry,
    /// Leaving Settings restores focus to its trigger.
    SettingsExitRestored,
    /// The open document is edited; the file then changes on disk.
    ConflictDirtied,
    /// The conflict banner appears without taking focus; the last phase.
    ConflictBannerFocusKept,
}

/// Each phase's name.
pub open spec fn phase_name(p: ShellBehaviourPhase) -> Seq<char> {
    match p {
        ShellBehaviourPhase::RecoveryEntry => "recovery_entry"@,
        ShellBehaviourPhase::RecoveryExit => "recovery_exit"@,
        ShellBehaviourPhase::DownUp => "down_up"@,
        ShellBehaviourPhase::ExpandEnter => "expand_enter"@,
        ShellBehaviourPhase::CollapseAscend => "collapse_ascend"@,
        ShellBehaviourPhase::HomeEnd => "home_end"@,
        ShellBehaviourPhase::NonOpenable => "non_openable"@,
        ShellBehaviourPhase::EnterOpens => "enter_opens"@,
        ShellBehaviourPhase::SearchResultOpens => "search_result_opens"@,
        ShellBehaviourPhase::NewFileFocuses => "new_file_focuses"@,
        ShellBehaviourPhase::TreeEnterAfterNewFile => "tree_enter_after_new_file"@,
        ShellBehaviourPhase::FormSearchRestores => "form_search_restores"@,
        ShellBehaviourPhase::AppMenuMouseOpen => "app_menu_mouse_open"@,
        ShellBehaviourPhase::AppMenuKeys => "app_menu_keys"@,
        ShellBehaviourPhase::AppMenuEscape => "app_menu_escape"@,
        ShellBehaviourPhase::AppMenuFocusLeave => "app_menu_focus_leave"@,
        ShellBehaviourPhase::ToolsMenuKeys => "tools_menu_keys"@,
        ShellBehaviourPhase::ToolsMenuEscape => "tools_menu_escape"@,
        ShellBehaviourPhase::ToolsMenuFocusLeave => "tools_menu_focus_leave"@,
        ShellBehaviourPhase::TabsArrowsFocusOnly => "tabs_arrows_focus_only"@,
        ShellBehaviourPhase::TabsClickActivates => "tabs_click_activates"@,
        ShellBehaviourPhase::MenuClosesIntoEditor => "menu_closes_into_editor"@,
        ShellBehaviourPhase::AuthorityReleasedAfterEditorFocus => "authority_released_after_editor_focus"@,
        ShellBehaviourPhase::SettingsEntry => "settings_entry"@,
        ShellBehaviourPhase::SettingsExitRestored => "settings_exit_restored"@,
        ShellBehaviourPhase::ConflictDirtied => "conflict_dirtied"@,
        ShellBehaviourPhase::ConflictBannerFocusKept => "conflict_banner_focus_kept"@,
    }
}

/// Each phase's successor; none after the last.
pub open spec fn phase_successor(p: ShellBehaviourPhase) -> Option<ShellBehaviourPhase> {
    match p {
        ShellBehaviourPhase::RecoveryEntry => Some(ShellBehaviourPhase::RecoveryExit),
        ShellBehaviourPhase::RecoveryExit => Some(ShellBehaviourPhase::DownUp),
        ShellBehaviourPhase::DownUp => Some(ShellBehaviourPhase::ExpandEnter),
        ShellBehaviourPhase::ExpandEnter => Some(ShellBehaviourPhase::CollapseAscend),
        ShellBehaviourPhase::CollapseAscend => Some(ShellBehaviourPhase::HomeEnd),
        ShellBehaviourPhase::HomeEnd => Some(ShellBehaviourPhase::NonOpenable),
        ShellBehaviourPhase::NonOpenable => Some(ShellBehaviourPhase::EnterOpens),
        ShellBehaviourPhase::EnterOpens => Some(ShellBehaviourPhase::SearchResultOpens),
        ShellBehaviourPhase::SearchResultOpens => Some(ShellBehaviourPhase::NewFileFocuses),
        ShellBehaviourPhase::NewFileFocuses => Some(ShellBehaviourPhase::TreeEnterAfterNewFile),
        ShellBehaviourPhase::TreeEnterAfterNewFile => Some(ShellBehaviourPhase::FormSearchRestores),
        ShellBehaviourPhase::FormSearchRestores => Some(ShellBehaviourPhase::AppMenuMouseOpen),
        ShellBehaviourPhase::AppMenuMouseOpen => Some(ShellBehaviourPhase::AppMenuKeys),
        ShellBehaviourPhase::AppMenuKeys => Some(ShellBehaviourPhase::AppMenuEscape),
        ShellBehaviourPhase::AppMenuEscape => Some(ShellBehaviourPhase::AppMenuFocusLeave),
        ShellBehaviourPhase::AppMenuFocusLeave => Some(ShellBehaviourPhase::ToolsMenuKeys),
        ShellBehaviourPhase::ToolsMenuKeys => Some(ShellBehaviourPhase::ToolsMenuEscape),
        ShellBehaviourPhase::ToolsMenuEscape => Some(ShellBehaviourPhase::ToolsMenuFocusLeave),
        ShellBehaviourPhase::ToolsMenuFocusLeave => Some(ShellBehaviourPhase::TabsArrowsFocusOnly),
        ShellBehaviourPhase::TabsArrowsFocusOnly => Some(ShellBehaviourPhase::TabsClickActivates),
        ShellBehaviourPhase::TabsClickActivates => Some(ShellBehaviourPhase::MenuClosesIntoEditor),
        ShellBehaviourPhase::MenuClosesIntoEditor => Some(ShellBehaviourPhase::AuthorityReleasedAfterEditorFocus),
        ShellBehaviourPhase::AuthorityReleasedAfterEditorFocus => Some(ShellBehaviourPhase::SettingsEntry),
        ShellBehaviourPhase::SettingsEntry => Some(ShellBehaviourPhase::SettingsExitRestored),
        ShellBehaviourPhase::SettingsExitRestored => Some(ShellBehaviourPhase::ConflictDirtied),
        ShellBehaviourPhase::ConflictDirtied => Some(ShellBehaviourPhase::ConflictBannerFocusKept),
        ShellBehaviourPhase::ConflictBannerFocusKept => None,
    }
}

/// The milestone each phase's progress report carries.
pub open spec fn phase_milestone(p: ShellBehaviourPhase) -> Seq<char> {
    match p {
        ShellBehaviourPhase::RecoveryEntry => "recovery_heading_focused"@,
        ShellBehaviourPhase::RecoveryExit => "recovery_exit_restored_logo"@,
        ShellBehaviourPhase::DownUp => "down_up_moved"@,
        ShellBehaviourPhase::ExpandEnter => "expand_entered"@,
        ShellBehaviourPhase::CollapseAscend => "collapse_ascended"@,
        ShellBehaviourPhase::HomeEnd => "home_end_reached"@,
        ShellBehaviourPhase::NonOpenable => "non_openable_reachable"@,
        ShellBehaviourPhase::EnterOpens => "enter_opened_editor_focused"@,
        ShellBehaviourPhase::SearchResultOpens => "search_result_editor_focused"@,
        ShellBehaviourPhase::NewFileFocuses => "new_file_editor_focused"@,
        ShellBehaviourPhase::TreeEnterAfterNewFile => "tree_enter_refocused_after_new_file"@,
        ShellBehaviourPhase::FormSearchRestores => "form_search_restored_to_trigger"@,
        ShellBehaviourPhase::AppMenuMouseOpen => "app_menu_mouse_open_kept_focus"@,
        ShellBehaviourPhase::AppMenuKeys => "app_menu_keys_verified"@,
        ShellBehaviourPhase::AppMenuEscape => "app_menu_escape_restored"@,
        ShellBehaviourPhase::AppMenuFocusLeave => "app_menu_focus_leave_kept"@,
        ShellBehaviourPhase::ToolsMenuKeys => "tools_menu_keys_verified"@,
        ShellBehaviourPhase::ToolsMenuEscape => "tools_menu_escape_restored"@,
        ShellBehaviourPhase::ToolsMenuFocusLeave => "tools_menu_focus_leave_kept"@,
        ShellBehaviourPhase::TabsArrowsFocusOnly => "tabs_arrows_moved_focus_only"@,
        ShellBehaviourPhase::TabsClickActivates => "tabs_click_focused_editor"@,
        ShellBehaviourPhase::MenuClosesIntoEditor => "menu_closed_into_editor_kept"@,
        ShellBehaviourPhase::AuthorityReleasedAfterEditorFocus => "authority_released_editor_refocused"@,
        ShellBehaviourPhase::SettingsEntry => "settings_heading_focused"@,
        ShellBehaviourPhase::SettingsExitRestored => "settings_exit_restored_trigger"@,
        ShellBehaviourPhase::ConflictDirtied => "conflict_document_dirtied"@,
        ShellBehaviourPhase::ConflictBannerFocusKept => "conflict_banner_focus_kept"@,
    }
}

impl PhaseKind for ShellBehaviourPhase {
    open spec fn name_spec(self) -> Seq<char> {
        phase_name(self)
    }

    open spec fn successor(self) -> Option<Self> {
        phase_successor(self)
    }

    open spec fn milestone_spec(self) -> Seq<char> {
        phase_milestone(self)
    }

    open spec fn first_spec() -> Self {
        ShellBehaviourPhase::RecoveryEntry
    }

    fn as_str(self) -> (s: &'static str) {
        match self {
            ShellBehaviourPhase::RecoveryEntry => "recovery_entry",
            ShellBehaviourPhase::RecoveryExit => "recovery_exit",
            ShellBehaviourPhase::DownUp => "down_up",
            ShellBehaviourPhase::ExpandEnter => "expand_enter",
            ShellBehaviourPhase::CollapseAscend => "collapse_ascend",
            ShellBehaviourPhase::HomeEnd => "home_end",
            ShellBehaviourPhase::NonOpenable => "non_openable",
            ShellBehaviourPhase::EnterOpens => "enter_opens",
            ShellBehaviourPhase::SearchResultOpens => "search_result_opens",
            ShellBehaviourPhase::NewFileFocuses => "new_file_focuses",
            ShellBehaviourPhase::TreeEnterAfterNewFile => "tree_enter_after_new_file",
            ShellBehaviourPhase::FormSearchRestores => "form_search_restores",
            ShellBehaviourPhase::AppMenuMouseOpen => "app_menu_mouse_open",
            ShellBehaviourPhase::AppMenuKeys => "app_menu_keys",
            ShellBehaviourPhase::AppMenuEscape => "app_menu_escape",
            ShellBehaviourPhase::AppMenuFocusLeave => "app_menu_focus_leave",
            ShellBehaviourPhase::ToolsMenuKeys => "tools_menu_keys",
            ShellBehaviourPhase::ToolsMenuEscape => "tools_menu_escape",
            ShellBehaviourPhase::ToolsMenuFocusLeave => "tools_menu_focus_leave",
            ShellBehaviourPhase::TabsArrowsFocusOnly => "tabs_arrows_focus_only",
            ShellBehaviourPhase::TabsClickActivates => "tabs_click_activates",
            ShellBehaviourPhase::MenuClosesIntoEditor => "menu_closes_into_editor",
            ShellBehaviourPhase::AuthorityReleasedAfterEditorFocus => "authority_released_after_editor_focus",
            ShellBehaviourPhase::SettingsEntry => "settings_entry",
            ShellBehaviourPhase::SettingsExitRestored => "settings_exit_restored",
            ShellBehaviourPhase::ConflictDirtied => "conflict_dirtied",
            ShellBehaviourPhase::ConflictBannerFocusKept => TERMINAL_STAGE,
        }
    }

    fn next(self) -> (n: Option<Self>) {
        match self {
            ShellBehaviourPhase::RecoveryEntry => Some(ShellBehaviourPhase::RecoveryExit),
            ShellBehaviourPhase::RecoveryExit => Some(ShellBehaviourPhase::DownUp),
            ShellBehaviourPhase::DownUp => Some(ShellBehaviourPhase::ExpandEnter),
            ShellBehaviourPhase::ExpandEnter => Some(ShellBehaviourPhase::CollapseAscend),
            ShellBehaviourPhase::CollapseAscend => Some(ShellBehaviourPhase::HomeEnd),
            ShellBehaviourPhase::HomeEnd => Some(ShellBehaviourPhase::NonOpenable),
            ShellBehaviourPhase::NonOpenable => Some(ShellBehaviourPhase::EnterOpens),
            ShellBehaviourPhase::EnterOpens => Some(ShellBehaviourPhase::SearchResultOpens),
            ShellBehaviourPhase::SearchResultOpens => Some(ShellBehaviourPhase::NewFileFocuses),
            ShellBehaviourPhase::NewFileFocuses => Some(ShellBehaviourPhase::TreeEnterAfterNewFile),
            ShellBehaviourPhase::TreeEnterAfterNewFile => Some(ShellBehaviourPhase::FormSearchRestores),
            ShellBehaviourPhase::FormSearchRestores => Some(ShellBehaviourPhase::AppMenuMouseOpen),
            ShellBehaviourPhase::AppMenuMouseOpen => Some(ShellBehaviourPhase::AppMenuKeys),
            ShellBehaviourPhase::AppMenuKeys => Some(ShellBehaviourPhase::AppMenuEscape),
            ShellBehaviourPhase::AppMenuEscape => Some(ShellBehaviourPhase::AppMenuFocusLeave),
            ShellBehaviourPhase::AppMenuFocusLeave => Some(ShellBehaviourPhase::ToolsMenuKeys),
            ShellBehaviourPhase::ToolsMenuKeys => Some(ShellBehaviourPhase::ToolsMenuEscape),
            ShellBehaviourPhase::ToolsMenuEscape => Some(ShellBehaviourPhase::ToolsMenuFocusLeave),
            ShellBehaviourPhase::ToolsMenuFocusLeave => Some(ShellBehaviourPhase::TabsArrowsFocusOnly),
            ShellBehaviourPhase::TabsArrowsFocusOnly => Some(ShellBehaviourPhase::TabsClickActivates),
            ShellBehaviourPhase::TabsClickActivates => Some(ShellBehaviourPhase::MenuClosesIntoEditor),
            ShellBehaviourPhase::MenuClosesIntoEditor => Some(ShellBehaviourPhase::AuthorityReleasedAfterEditorFocus),
            ShellBehaviourPhase::AuthorityReleasedAfterEditorFocus => Some(ShellBehaviourPhase::SettingsEntry),
            ShellBehaviourPhase::SettingsEntry => Some(ShellBehaviourPhase::SettingsExitRestored),
            ShellBehaviourPhase::SettingsExitRestored => Some(ShellBehaviourPhase::ConflictDirtied),
            ShellBehaviourPhase::ConflictDirtied => Some(ShellBehaviourPhase::ConflictBannerFocusKept),
            ShellBehaviourPhase::ConflictBannerFocusKept => None,
        }
    }

    fn expected_milestone(self) -> (m: &'static str) {
        match self {
            ShellBehaviourPhase::RecoveryEntry => "recovery_heading_focused",
            ShellBehaviourPhase::RecoveryExit => "recovery_exit_restored_logo",
            ShellBehaviourPhase::DownUp => "down_up_moved",
            ShellBehaviourPhase::ExpandEnter => "expand_entered",
            ShellBehaviourPhase::CollapseAscend => "collapse_ascended",
            ShellBehaviourPhase::HomeEnd => "home_end_reached",
            ShellBehaviourPhase::NonOpenable => "non_openable_reachable",
            ShellBehaviourPhase::EnterOpens => "enter_opened_editor_focused",
            ShellBehaviourPhase::SearchResultOpens => "search_result_editor_focused",
            ShellBehaviourPhase::NewFileFocuses => "new_file_editor_focused",
            ShellBehaviourPhase::TreeEnterAfterNewFile => "tree_enter_refocused_after_new_file",
            ShellBehaviourPhase::FormSearchRestores => "form_search_restored_to_trigger",
            ShellBehaviourPhase::AppMenuMouseOpen => "app_menu_mouse_open_kept_focus",
            ShellBehaviourPhase::AppMenuKeys => "app_menu_keys_verified",
            ShellBehaviourPhase::AppMenuEscape => "app_menu_escape_restored",
            ShellBehaviourPhase::AppMenuFocusLeave => "app_menu_focus_leave_kept",
            ShellBehaviourPhase::ToolsMenuKeys => "tools_menu_keys_verified",
            ShellBehaviourPhase::ToolsMenuEscape => "tools_menu_escape_restored",
            ShellBehaviourPhase::ToolsMenuFocusLeave => "tools_menu_focus_leave_kept",
            ShellBehaviourPhase::TabsArrowsFocusOnly => "tabs_arrows_moved_focus_only",
            ShellBehaviourPhase::TabsClickActivates => "tabs_click_focused_editor",
            ShellBehaviourPhase::MenuClosesIntoEditor => "menu_closed_into_editor_kept",
            ShellBehaviourPhase::AuthorityReleasedAfterEditorFocus => "authority_released_editor_refocused",
            ShellBehaviourPhase::SettingsEntry => "settings_heading_focused",
            ShellBehaviourPhase::SettingsExitRestored => "settings_exit_restored_trigger",
            ShellBehaviourPhase::ConflictDirtied => "conflict_document_dirtied",
            ShellBehaviourPhase::ConflictBannerFocusKept => "conflict_banner_focus_kept",
        }
    }

    fn first() -> (p: Self) {
        ShellBehaviourPhase::RecoveryEntry
    }
}

/// Every phase, in the order `next` walks them.
pub open spec fn all_phases() -> Seq<ShellBehaviourPhase> {
    seq![
        ShellBehaviourPhase::RecoveryEntry,
        ShellBehaviourPhase::RecoveryExit,
        ShellBehaviourPhase::DownUp,
        ShellBehaviourPhase::ExpandEnter,
        ShellBehaviourPhase::CollapseAscend,
        ShellBehaviourPhase::HomeEnd,
        ShellBehaviourPhase::NonOpenable,
        ShellBehaviourPhase::EnterOpens,
        ShellBehaviourPhase::SearchResultOpens,
        ShellBehaviourPhase::NewFileFocuses,
        ShellBehaviourPhase::TreeEnterAfterNewFile,
        ShellBehaviourPhase::FormSearchRestores,
        ShellBehaviourPhase::AppMenuMouseOpen,
        ShellBehaviourPhase::AppMenuKeys,
        ShellBehaviourPhase::AppMenuEscape,
        ShellBehaviourPhase::AppMenuFocusLeave,
        ShellBehaviourPhase::ToolsMenuKeys,
        ShellBehaviourPhase::ToolsMenuEscape,
        ShellBehaviourPhase::ToolsMenuFocusLeave,
        ShellBehaviourPhase::TabsArrowsFocusOnly,
        ShellBehaviourPhase::TabsClickActivates,
        ShellBehaviourPhase::MenuClosesIntoEditor,
        ShellBehaviourPhase::AuthorityReleasedAfterEditorFocus,
        ShellBehaviourPhase::SettingsEntry,
        ShellBehaviourPhase::SettingsExitRestored,
        ShellBehaviourPhase::ConflictDirtied,
        ShellBehaviourPhase::ConflictBannerFocusKept,
    ]
}

/// The milestones of a successful run, in order.
pub open spec fn expected_milestones_spec() -> Seq<Seq<char>> {
    all_phases().map_values(|p: ShellBehaviourPhase| phase_milestone(p))
}

/// The milestones of a successful run, in order.
pub fn expected_milestones() -> (m: [&'static str; 27])
    ensures
        m@.map_values(|s: &str| s@) == expected_milestones_spec(),
{
    let m = [
        "recovery_heading_focused",
        "recovery_exit_restored_logo",
        "down_up_moved",
        "expand_entered",
        "collapse_ascended",
        "home_end_reached",
        "non_openable_reachable",
        "enter_opened_editor_focused",
        "search_result_editor_focused",
        "new_file_editor_focused",
        "tree_enter_refocused_after_new_file",
        "form_search_restored_to_trigger",
        "app_menu_mouse_open_kept_focus",
        "app_menu_keys_verified",
        "app_menu_escape_restored",
        "app_menu_focus_leave_kept",
        "tools_menu_keys_verified",
        "tools_menu_escape_restored",
        "tools_menu_focus_leave_kept",
        "tabs_arrows_moved_focus_only",
        "tabs_click_focused_editor",
        "menu_closed_into_editor_kept",
        "authority_released_editor_refocused",
        "settings_heading_focused",
        "settings_exit_restored_trigger",
        "conflict_document_dirtied",
        "conflict_banner_focus_kept",
    ];
    assert(m@.map_values(|s: &str| s@) =~= expected_milestones_spec());
    m
}

/// Walking `next` from the first phase visits every phase, in table order,
/// and then stops.
pub proof fn lemma_walk_visits_every_phase()
    ensures
        forall|k: int| 0 <= k < 27 ==> walk(ShellBehaviourPhase::RecoveryEntry, k as nat) == Some(#[trigger] all_phases()[k]),
        walk(ShellBehaviourPhase::RecoveryEntry, 27) is None,
        forall|p: ShellBehaviourPhase| #[trigger] all_phases().contains(p),
{
    assert(walk(ShellBehaviourPhase::RecoveryEntry, 0) == Some(all_phases()[0]));
    assert(walk(ShellBehaviourPhase::RecoveryEntry, 1) == Some(all_phases()[1]));
    assert(walk(ShellBehaviourPhase::RecoveryEntry, 2) == Some(all_phases()[2]));
    assert(walk(ShellBehaviourPhase::RecoveryEntry, 3) == Some(all_phases()[3]));
    assert(walk(ShellBehaviourPhase::RecoveryEntry, 4) == Some(all_phases()[4]));
    assert(walk(ShellBehaviourPhase::RecoveryEntry, 5) == Some(all_phases()[5]));
    assert(walk(ShellBehaviourPhase::RecoveryEntry, 6) == Some(all_phases()[6]));
    assert(walk(ShellBehaviourPhase::RecoveryEntry, 7) == Some(all_phases()[7]));
    assert(walk(ShellBehaviourPhase::RecoveryEntry, 8) == Some(all_phases()[8]));
    assert(walk(ShellBehaviourPhase::RecoveryEntry, 9) == Some(all_phases()[9]));
    assert(walk(ShellBehaviourPhase::RecoveryEntry, 10) == Some(all_phases()[10]));
    assert(walk(ShellBehaviourPhase::RecoveryEntry, 11) == Some(all_phases()[11]));
    assert(walk(ShellBehaviourPhase::RecoveryEntry, 12) == Some(all_phases()[12]));
    assert(walk(ShellBehaviourPhase::RecoveryEntry, 13) == Some(all_phases()[13]));
    assert(walk(ShellBehaviourPhase::RecoveryEntry, 14) == Some(all_phases()[14]));
    assert(walk(ShellBehaviourPhase::RecoveryEntry, 15) == Some(all_phases()[15]));
    assert(walk(ShellBehaviourPhase::RecoveryEntry, 16) == Some(all_phases()[16]));
    assert(walk(ShellBehaviourPhase::RecoveryEntry, 17) == Some(all_phases()[17]));
    assert(walk(ShellBehaviourPhase::RecoveryEntry, 18) == Some(all_phases()[18]));
    assert(walk(ShellBehaviourPhase::RecoveryEntry, 19) == Some(all_phases()[19]));
    assert(walk(ShellBehaviourPhase::RecoveryEntry, 20) == Some(all_phases()[20]));
    assert(walk(ShellBehaviourPhase::RecoveryEntry, 21) == Some(all_phases()[21]));
    assert(walk(ShellBehaviourPhase::RecoveryEntry, 22) == Some(all_phases()[22]));
    assert(walk(ShellBehaviourPhase::RecoveryEntry, 23) == Some(all_phases()[23]));
    assert(walk(ShellBehaviourPhase::RecoveryEntry, 24) == Some(all_phases()[24]));
    assert(walk(ShellBehaviourPhase::RecoveryEntry, 25) == Some(all_phases()[25]));
    assert(walk(ShellBehaviourPhase::RecoveryEntry, 26) == Some(all_phases()[26]));
    assert(walk(ShellBehaviourPhase::RecoveryEntry, 27) is None);
    assert forall|p: ShellBehaviourPhase| #[trigger] all_phases().contains(p) by {
        match p {
            ShellBehaviourPhase::RecoveryEntry => assert(all_phases()[0] == p),
            ShellBehaviourPhase::RecoveryExit => assert(all_phases()[1] == p),
            ShellBehaviourPhase::DownUp => assert(all_phases()[2] == p),
            ShellBehaviourPhase::ExpandEnter => assert(all_phases()[3] == p),
            ShellBehaviourPhase::CollapseAscend => assert(all_phases()[4] == p),
            ShellBehaviourPhase::HomeEnd => assert(all_phases()[5] == p),
            ShellBehaviourPhase::NonOpenable => assert(all_phases()[6] == p),
            ShellBehaviourPhase::EnterOpens => assert(all_phases()[7] == p),
            ShellBehaviourPhase::SearchResultOpens => assert(all_phases()[8] == p),
            ShellBehaviourPhase::NewFileFocuses => assert(all_phases()[9] == p),
            ShellBehaviourPhase::TreeEnterAfterNewFile => assert(all_phases()[10] == p),
            ShellBehaviourPhase::FormSearchRestores => assert(all_phases()[11] == p),
            ShellBehaviourPhase::AppMenuMouseOpen => assert(all_phases()[12] == p),
            ShellBehaviourPhase::AppMenuKeys => assert(all_phases()[13] == p),
            ShellBehaviourPhase::AppMenuEscape => assert(all_phases()[14] == p),
            ShellBehaviourPhase::AppMenuFocusLeave => assert(all_phases()[15] == p),
            ShellBehaviourPhase::ToolsMenuKeys => assert(all_phases()[16] == p),
            ShellBehaviourPhase::ToolsMenuEscape => assert(all_phases()[17] == p),
            ShellBehaviourPhase::ToolsMenuFocusLeave => assert(all_phases()[18] == p),
            ShellBehaviourPhase::TabsArrowsFocusOnly => assert(all_phases()[19] == p),
            ShellBehaviourPhase::TabsClickActivates => assert(all_phases()[20] == p),
            ShellBehaviourPhase::MenuClosesIntoEditor => assert(all_phases()[21] == p),
            ShellBehaviourPhase::AuthorityReleasedAfterEditorFocus => assert(all_phases()[22] == p),
            ShellBehaviourPhase::SettingsEntry => assert(all_phases()[23] == p),
            ShellBehaviourPhase::SettingsExitRestored => assert(all_phases()[24] == p),
            ShellBehaviourPhase::ConflictDirtied => assert(all_phases()[25] == p),
            ShellBehaviourPhase::ConflictBannerFocusKept => assert(all_phases()[26] == p),
        }
    }
}

/// The judgement of the run's final result.
pub open spec fn result_spec(result: DriverResult) -> Result<(), Seq<char>> {
    run_result_spec(result, TERMINAL_STAGE@, MARKER@, "shell-behaviour"@, expected_milestones_spec())
}

/// Checks the run's final result: success at the terminal stage, with the
/// marker, no error toast, and every milestone in order.
pub fn validate_shell_behaviour_result(result: &DriverResult) -> (r: Result<(), String>)
    ensures
        match result_spec(*result) {
            Ok(u) => r == Ok::<(), String>(u),
            Err(m) => r matches Err(e) && e@ == m,
        },
{
    let expected = expected_milestones();
    validate_run_result(result, TERMINAL_STAGE, MARKER, "shell-behaviour", &expected)
}

/// This run's phase machine.
pub type ShellBehaviourMachine = PhaseMachine<ShellBehaviourPhase>;

/// The shell-behaviour run's result, recorded once, and the file its conflict phase changes.
#[derive(Debug, Default)]
pub struct ShellBehaviourTerminal {
    recorded: bool,
    /// The document the conflict phase's on-disk write targets.
    conflict_file: Option<String>,
}

impl ShellBehaviourTerminal {
    /// Whether a successful result was recorded.
    pub closed spec fn recorded_spec(&self) -> bool {
        self.recorded
    }

    pub fn with_conflict_file(conflict_file: String) -> (t: Self)
        ensures
            !t.recorded_spec(),
            t.conflict_file_spec() == Some(conflict_file),
    {
        ShellBehaviourTerminal { recorded: false, conflict_file: Some(conflict_file) }
    }

    /// Records the run's result: only a result that passes the run's
    /// checks, and only the first one.
    pub fn accept(&mut self, result: &DriverResult) -> (r: Result<(), String>)
        ensures
            result_spec(*result) matches Err(m) ==> (r matches Err(e) && e@ == m)
                && final(self).recorded_spec() == old(self).recorded_spec(),
            result_spec(*result) is Ok && old(self).recorded_spec() ==> (r matches Err(e) && e@
                == "shell-behaviour terminal result was already recorded"@) && final(self).recorded_spec(),
            result_spec(*result) is Ok && !old(self).recorded_spec() ==> r is Ok
                && final(self).recorded_spec(),
    {
        validate_shell_behaviour_result(result)?;
        if self.recorded {
            return Err("shell-behaviour terminal result was already recorded".to_owned());
        }
        self.recorded = true;
        Ok(())
    }

    /// Whether the run succeeded: a valid result was recorded.
    pub fn succeeded(&self) -> (b: bool)
        ensures
            b == self.recorded_spec(),
    {
        self.recorded
    }

    /// The document the conflict phase's on-disk write targets, if one was
    /// prepared.
    pub fn conflict_file(&self) -> (f: Option<String>)
        ensures
            f == self.conflict_file_spec(),
    {
        self.conflict_file.clone()
    }

    pub closed spec fn conflict_file_spec(&self) -> Option<String> {
        self.conflict_file
    }
}

/// The autosave debounce seeded for this run: one day, so the conflict
/// phase's edit is not saved before the file changes on disk. Not
/// `u64::MAX`: the debounce is added to the current time.
pub const CONFLICT_AUTOSAVE_DEBOUNCE_MS: u64 = 86_400_000;

/// The on-disk write that makes the conflict happens after exactly this
/// phase reports progress, and before the next is requested.
pub fn writes_conflict_after(phase: ShellBehaviourPhase) -> (w: bool)
    ensures
        w == (phase == ShellBehaviourPhase::ConflictDirtied),
{
    match phase {
        ShellBehaviourPhase::ConflictDirtied => true,
        _ => false,
    }
}

} // verus!
