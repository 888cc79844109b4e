//! Settings: the tabs, and what the settings pages ask the application to do.

use vstd::prelude::*;

use crate::dialogs::auth_user::ManageAuthUsersAction;

verus! {

/// Settings tab identifiers (each also opens as a dialog of its own).
#[derive(Debug, Clone, Copy, PartialEq, Eq, Hash, Structural)]
pub enum SettingsTab {
    General,
    Appearance,
    Terminal,
    Users,
}

impl Default for SettingsTab {
    fn default() -> (t: SettingsTab)
        ensures
            t == SettingsTab::General,
    {
        SettingsTab::General
    }
}

impl SettingsTab {
    /// Every tab, in the order of the tab bar.
    pub fn all() -> (tabs: [SettingsTab; 4])
        ensures
            tabs@ == seq![
                SettingsTab::General,
                SettingsTab::Appearance,
                SettingsTab::Terminal,
                SettingsTab::Users,
            ],
    {
        let tabs = [SettingsTab::General, SettingsTab::Appearance, SettingsTab::Terminal, SettingsTab::Users];
        assert(tabs@ =~= seq![
            SettingsTab::General,
            SettingsTab::Appearance,
            SettingsTab::Terminal,
            SettingsTab::Users,
        ]);
        tabs
    }
}

/// The tab the settings body shows: the one it was opened on, else the one last
/// chosen in the tab bar.
pub open spec fn shown_tab_spec(forced: Option<SettingsTab>, remembered: SettingsTab) -> SettingsTab {
    match forced {
        Some(t) => t,
        None => remembered,
    }
}

pub fn shown_tab(forced: Option<SettingsTab>, remembered: SettingsTab) -> (t: SettingsTab)
    ensures
        t == shown_tab_spec(forced, remembered),
{
    match forced {
        Some(t) => t,
        None => remembered,
    }
}

/// What the settings pages ask the application to do.
#[derive(Debug)]
pub struct SettingsUiAction {
    pub auth_users: ManageAuthUsersAction,
    pub request_new_profile: bool,
    pub request_edit_profile: Option<String>,
    pub delete_profile_id: Option<String>,
    pub set_default_profile_id: Option<String>,
}

/// Nothing is asked.
pub open spec fn is_empty_settings_action(a: SettingsUiAction) -> bool {
    &&& !a.auth_users.new
    &&& a.auth_users.edit_id is None
    &&& a.auth_users.delete_id is None
    &&& !a.request_new_profile
    &&& a.request_edit_profile is None
    &&& a.delete_profile_id is None
    &&& a.set_default_profile_id is None
}

impl Default for SettingsUiAction {
    fn default() -> (a: SettingsUiAction)
        ensures
            is_empty_settings_action(a),
    {
        SettingsUiAction {
            auth_users: ManageAuthUsersAction::default(),
            request_new_profile: false,
            request_edit_profile: None,
            delete_profile_id: None,
            set_default_profile_id: None,
        }
    }
}

} // verus!
