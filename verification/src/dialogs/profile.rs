//! Terminal profile create/edit dialog.

use vstd::prelude::*;

use crate::dialogs::FooterAction;
use crate::text::{is_blank, is_blank_chars, trim, trim_chars};

verus! {

/// A terminal profile: what the dialog reads and writes of it.
#[derive(Clone, Debug)]
pub struct TerminalProfile {
    pub id: String,
    pub name: String,
    pub is_default: bool,
}

pub enum ProfileDialogOutcome {
    Nothing,
    Saved(TerminalProfile),
}

/// Create / edit a terminal profile.
#[derive(Debug)]
pub struct ProfileDialog {
    pub open: bool,
    /// The profile being edited.
    pub draft: TerminalProfile,
    pub is_new: bool,
    /// Keyboard focus goes to the name field once after opening.
    pub request_name_focus: bool,
    pub last_saved_id: Option<String>,
}

impl ProfileDialog {
    /// Opens the dialog for a new profile, starting from the default profile
    /// settings with an empty name, not marked as default.
    pub fn open_new(&mut self, default_profile: TerminalProfile)
        ensures
            final(self).open,
            final(self).is_new,
            final(self).request_name_focus,
            final(self).last_saved_id is None,
            final(self).draft.id == default_profile.id,
            final(self).draft.name@.len() == 0,
            !final(self).draft.is_default,
    {
        let mut draft = default_profile;
        draft.is_default = false;
        draft.name = String::new();
        *self = ProfileDialog {
            open: true,
            draft,
            is_new: true,
            request_name_focus: true,
            last_saved_id: None,
        };
    }

    pub fn open_edit(&mut self, profile: &TerminalProfile)
        ensures
            final(self).open,
            !final(self).is_new,
            final(self).request_name_focus,
            final(self).last_saved_id is None,
            final(self).draft.id == profile.id,
            final(self).draft.name == profile.name,
            final(self).draft.is_default == profile.is_default,
    {
        *self = ProfileDialog {
            open: true,
            draft: TerminalProfile {
                id: profile.id.clone(),
                name: profile.name.clone(),
                is_default: profile.is_default,
            },
            is_new: false,
            request_name_focus: true,
            last_saved_id: None,
        };
    }

    pub fn close(&mut self)
        ensures
            *final(self) == (ProfileDialog { open: false, ..*old(self) }),
    {
        self.open = false;
    }

    /// Whether the draft can be saved: it has a name.
    pub fn can_save(&self) -> (b: bool)
        ensures
            b == !is_blank_chars(self.draft.name@),
    {
        !is_blank(self.draft.name.as_str())
    }

    /// Saves the draft (its name trimmed), remembers its id and closes the dialog.
    /// Saving is offered only while the draft has a name.
    pub fn save(&mut self) -> (saved: TerminalProfile)
        requires
            !is_blank_chars(old(self).draft.name@),
        ensures
            saved.id == old(self).draft.id,
            saved.name@ == trim_chars(old(self).draft.name@),
            saved.is_default == old(self).draft.is_default,
            final(self).draft == saved,
            !final(self).open,
            final(self).last_saved_id == Some(saved.id),
            final(self).is_new == old(self).is_new,
            final(self).request_name_focus == old(self).request_name_focus,
    {
        self.draft.name = trim(self.draft.name.as_str());
        let saved = TerminalProfile {
            id: self.draft.id.clone(),
            name: self.draft.name.clone(),
            is_default: self.draft.is_default,
        };
        self.open = false;
        self.last_saved_id = Some(saved.id.clone());
        saved
    }

    /// Ends a frame of the dialog. A closed dialog yields nothing and stays as it is.
    /// Otherwise Save (offered only while the draft has a name) saves the draft as
    /// [`ProfileDialog::save`] does; Cancel or a closed window closes the dialog.
    pub fn finish_frame(&mut self, footer: FooterAction, window_closed: bool) -> (o: ProfileDialogOutcome)
        ensures
            !old(self).open ==> o is Nothing && *final(self) == *old(self),
            old(self).open ==> match o {
                ProfileDialogOutcome::Saved(p) => {
                    &&& footer == FooterAction::Save
                    &&& !is_blank_chars(old(self).draft.name@)
                    &&& p.id == old(self).draft.id
                    &&& p.name@ == trim_chars(old(self).draft.name@)
                    &&& p.is_default == old(self).draft.is_default
                    &&& final(self).draft == p
                    &&& !final(self).open
                    &&& final(self).last_saved_id == Some(p.id)
                    &&& final(self).is_new == old(self).is_new
                    &&& final(self).request_name_focus == old(self).request_name_focus
                },
                ProfileDialogOutcome::Nothing => {
                    &&& !(footer == FooterAction::Save && !is_blank_chars(old(self).draft.name@))
                    &&& *final(self) == (ProfileDialog {
                        open: !window_closed && footer != FooterAction::Cancel,
                        ..*old(self)
                    })
                },
            },
    {
        if !self.open {
            return ProfileDialogOutcome::Nothing;
        }
        if footer == FooterAction::Save && self.can_save() {
            let p = self.save();
            return ProfileDialogOutcome::Saved(p);
        }
        if window_closed || footer == FooterAction::Cancel {
            self.open = false;
        }
        ProfileDialogOutcome::Nothing
    }
}

} // verus!
