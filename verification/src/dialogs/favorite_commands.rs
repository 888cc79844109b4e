//! Favorite command create/edit dialog and the manage list dialog.

use vstd::prelude::*;

use crate::dialogs::FooterAction;
use crate::text::{is_blank, is_blank_chars, trim, trim_chars};

verus! {

/// A command saved for quick input.
#[derive(Clone, Debug)]
pub struct FavoriteCommand {
    pub id: String,
    pub name: String,
    pub command: String,
    pub auto_execute: bool,
    pub sort_order: i64,
}

/// Outcome of the favorite-command editor for one frame.
pub enum FavoriteCommandOutcome {
    Nothing,
    /// The edited command, saved.
    Saved(FavoriteCommand),
    /// A new command to create with these values.
    SavedNew { name: String, command: String, auto_execute: bool },
}

/// Create / edit a favorite command. The fields are edited by the form in place.
#[derive(Debug)]
pub struct FavoriteCommandDialog {
    pub open: bool,
    /// The id of the command being edited (none for a new command).
    pub edit_id: Option<String>,
    pub name: String,
    pub command: String,
    pub auto_execute: bool,
    /// Keyboard focus goes to the name field once after opening.
    pub request_name_focus: bool,
    pub sort_order: i64,
}

impl FavoriteCommandDialog {
    /// A closed dialog with every field empty.
    pub fn new() -> (d: FavoriteCommandDialog)
        ensures
            !d.open,
            d.edit_id is None,
            d.name@.len() == 0,
            d.command@.len() == 0,
            !d.auto_execute,
            !d.request_name_focus,
            d.sort_order == 0,
    {
        FavoriteCommandDialog {
            open: false,
            edit_id: None,
            name: String::new(),
            command: String::new(),
            auto_execute: false,
            request_name_focus: false,
            sort_order: 0,
        }
    }

    pub fn open_new(&mut self)
        ensures
            final(self).open,
            final(self).edit_id is None,
            final(self).name@.len() == 0,
            final(self).command@.len() == 0,
            !final(self).auto_execute,
            final(self).request_name_focus,
            final(self).sort_order == 0,
    {
        *self = FavoriteCommandDialog::new();
        self.open = true;
        self.request_name_focus = true;
    }

    pub fn open_edit(&mut self, cmd: &FavoriteCommand)
        ensures
            final(self).open,
            final(self).edit_id == Some(cmd.id),
            final(self).name == cmd.name,
            final(self).command == cmd.command,
            final(self).auto_execute == cmd.auto_execute,
            final(self).request_name_focus,
            final(self).sort_order == cmd.sort_order,
    {
        *self = FavoriteCommandDialog {
            open: true,
            edit_id: Some(cmd.id.clone()),
            name: cmd.name.clone(),
            command: cmd.command.clone(),
            auto_execute: cmd.auto_execute,
            request_name_focus: true,
            sort_order: cmd.sort_order,
        };
    }

    pub fn close(&mut self)
        ensures
            *final(self) == (FavoriteCommandDialog { open: false, ..*old(self) }),
    {
        self.open = false;
    }

    /// Whether the form can be saved: a name and a command.
    pub fn can_save(&self) -> (b: bool)
        ensures
            b == (!is_blank_chars(self.name@) && !is_blank_chars(self.command@)),
    {
        !is_blank(self.name.as_str()) && !is_blank(self.command.as_str())
    }

    /// The edited command as the form saves it (the name trimmed, the rest as
    /// entered); none for a new command.
    pub fn edited_command(&self) -> (r: Option<FavoriteCommand>)
        ensures
            match r {
                Some(c) => {
                    &&& self.edit_id is Some
                    &&& c.id == self.edit_id->0
                    &&& c.name@ == trim_chars(self.name@)
                    &&& c.command == self.command
                    &&& c.auto_execute == self.auto_execute
                    &&& c.sort_order == self.sort_order
                },
                None => self.edit_id is None,
            },
    {
        match &self.edit_id {
            Some(id) => Some(
                FavoriteCommand {
                    id: id.clone(),
                    name: trim(self.name.as_str()),
                    command: self.command.clone(),
                    auto_execute: self.auto_execute,
                    sort_order: self.sort_order,
                },
            ),
            None => None,
        }
    }
}

impl FavoriteCommandDialog {
    /// Ends a frame of the open dialog: Save (offered only while the form can be
    /// saved) yields the edited command, or the values of a new one (the name
    /// trimmed); a save, a cancel or a closed window closes the dialog.
    pub fn finish_frame(&mut self, footer: FooterAction, window_closed: bool) -> (o: FavoriteCommandOutcome)
        ensures
            ({
                let saving = footer == FooterAction::Save && !is_blank_chars(old(self).name@)
                    && !is_blank_chars(old(self).command@);
                &&& *final(self) == (FavoriteCommandDialog {
                    open: old(self).open && !window_closed && footer != FooterAction::Cancel && !saving,
                    ..*old(self)
                })
                &&& if !saving {
                    o is Nothing
                } else {
                    match old(self).edit_id {
                        Some(id) => o matches FavoriteCommandOutcome::Saved(c) && c.id == id && c.name@
                            == trim_chars(old(self).name@) && c.command == old(self).command
                            && c.auto_execute == old(self).auto_execute && c.sort_order == old(
                            self,
                        ).sort_order,
                        None => o matches FavoriteCommandOutcome::SavedNew { name, command, auto_execute }
                            && name@ == trim_chars(old(self).name@) && command == old(self).command
                            && auto_execute == old(self).auto_execute,
                    }
                }
            }),
    {
        let saving = footer == FooterAction::Save && self.can_save();
        let outcome = if !saving {
            FavoriteCommandOutcome::Nothing
        } else {
            match self.edited_command() {
                Some(c) => FavoriteCommandOutcome::Saved(c),
                None => FavoriteCommandOutcome::SavedNew {
                    name: trim(self.name.as_str()),
                    command: self.command.clone(),
                    auto_execute: self.auto_execute,
                },
            }
        };
        if window_closed || footer == FooterAction::Cancel || saving {
            self.open = false;
        }
        outcome
    }
}

impl Default for FavoriteCommandDialog {
    fn default() -> (d: FavoriteCommandDialog)
        ensures
            !d.open,
            d.edit_id is None,
            d.name@.len() == 0,
            d.command@.len() == 0,
    {
        FavoriteCommandDialog::new()
    }
}

/// Actions from the manage-commands dialog.
#[derive(Debug)]
pub struct ManageCommandsAction {
    pub new: bool,
    pub edit_id: Option<String>,
    pub delete_id: Option<String>,
}

/// List / manage all favorite commands in a centered dialog.
#[derive(Debug)]
pub struct ManageFavoriteCommandsDialog {
    pub open: bool,
}

impl ManageFavoriteCommandsDialog {
    pub fn open(&mut self)
        ensures
            final(self).open,
    {
        self.open = true;
    }
}


impl Default for ManageCommandsAction {
    fn default() -> (a: ManageCommandsAction)
        ensures
            !a.new,
            a.edit_id is None,
            a.delete_id is None,
    {
        ManageCommandsAction { new: false, edit_id: None, delete_id: None }
    }
}

impl Default for ManageFavoriteCommandsDialog {
    fn default() -> (d: ManageFavoriteCommandsDialog)
        ensures
            !d.open,
    {
        ManageFavoriteCommandsDialog { open: false }
    }
}

} // verus!
