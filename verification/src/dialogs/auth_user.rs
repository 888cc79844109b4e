//! Auth user (SSH identity) create/edit dialog.

use vstd::prelude::*;

use crate::dialogs::uuid_text::{is_uuid_v4_text, uuid_v4_text_from_bytes, uuid_v4_text_of};
use crate::dialogs::FooterAction;
use crate::text::{is_blank, is_blank_chars, trim, trim_chars};

verus! {

/// How an auth user authenticates.
#[derive(Clone, Copy, PartialEq, Eq, Debug, Structural)]
pub enum AuthMethod {
    Password,
    PrivateKey,
}

/// A saved SSH identity.
#[derive(Clone, Debug)]
pub struct AuthUser {
    pub id: String,
    pub name: String,
    pub username: String,
    pub auth_method: AuthMethod,
    pub password: Option<String>,
    pub private_key: Option<String>,
    pub key_passphrase: Option<String>,
}

/// Create / edit an SSH auth user. The text fields are edited by the form in place.
#[derive(Debug)]
pub struct AuthUserDialog {
    pub open: bool,
    /// The id of the user being edited (none for a new user).
    pub edit_id: Option<String>,
    pub name: String,
    pub username: String,
    pub auth_method: AuthMethod,
    pub password: String,
    pub private_key: String,
    pub key_passphrase: String,
    /// Keyboard focus goes to the name field once after opening.
    pub request_name_focus: bool,
    /// When set by parent after save-from-new, connection form can select this id.
    pub last_saved_id: Option<String>,
}

/// The characters of an optional text.
pub open spec fn opt_view(s: Option<String>) -> Option<Seq<char>> {
    match s {
        Some(x) => Some(x@),
        None => None,
    }
}

/// A dialog with every field empty.
pub open spec fn is_blank_dialog(d: AuthUserDialog) -> bool {
    &&& d.edit_id is None
    &&& d.name@.len() == 0
    &&& d.username@.len() == 0
    &&& d.auth_method == AuthMethod::Password
    &&& d.password@.len() == 0
    &&& d.private_key@.len() == 0
    &&& d.key_passphrase@.len() == 0
    &&& d.last_saved_id is None
}

/// The form can be saved: a name, a username, and a password or private key.
pub open spec fn auth_can_save_spec(d: AuthUserDialog) -> bool {
    &&& !is_blank_chars(d.name@)
    &&& !is_blank_chars(d.username@)
    &&& match d.auth_method {
        AuthMethod::Password => d.password@.len() > 0,
        AuthMethod::PrivateKey => !is_blank_chars(d.private_key@),
    }
}

/// The user the form saves under id `id`: trimmed name and username; only the
/// secret of the chosen method; an empty passphrase counts as none.
pub open spec fn saved_user_spec(d: AuthUserDialog, id: Seq<char>, u: AuthUser) -> bool {
    &&& u.id@ == id
    &&& u.name@ == trim_chars(d.name@)
    &&& u.username@ == trim_chars(d.username@)
    &&& u.auth_method == d.auth_method
    &&& match d.auth_method {
        AuthMethod::Password => {
            &&& opt_view(u.password) == Some(d.password@)
            &&& u.private_key is None
            &&& u.key_passphrase is None
        },
        AuthMethod::PrivateKey => {
            &&& u.password is None
            &&& opt_view(u.private_key) == Some(d.private_key@)
            &&& opt_view(u.key_passphrase) == if d.key_passphrase@.len() == 0 {
                None::<Seq<char>>
            } else {
                Some(d.key_passphrase@)
            }
        },
    }
}

fn empty_text() -> (s: String)
    ensures
        s@.len() == 0,
{
    String::new()
}

fn text_or_empty(s: &Option<String>) -> (r: String)
    ensures
        r@ == match *s {
            Some(x) => x@,
            None => Seq::<char>::empty(),
        },
{
    match s {
        Some(x) => x.clone(),
        None => String::new(),
    }
}

impl AuthUserDialog {
    /// A closed dialog with every field empty.
    pub fn new() -> (d: AuthUserDialog)
        ensures
            !d.open,
            !d.request_name_focus,
            is_blank_dialog(d),
    {
        AuthUserDialog {
            open: false,
            edit_id: None,
            name: empty_text(),
            username: empty_text(),
            auth_method: AuthMethod::Password,
            password: empty_text(),
            private_key: empty_text(),
            key_passphrase: empty_text(),
            request_name_focus: false,
            last_saved_id: None,
        }
    }

    pub fn open_new(&mut self)
        ensures
            final(self).open,
            final(self).request_name_focus,
            is_blank_dialog(*final(self)),
            final(self).edit_id is None,
    {
        *self = AuthUserDialog::new();
        self.open = true;
        self.request_name_focus = true;
    }

    pub fn open_edit(&mut self, user: &AuthUser)
        ensures
            final(self).open,
            final(self).request_name_focus,
            opt_view(final(self).edit_id) == Some(user.id@),
            final(self).name@ == user.name@,
            final(self).username@ == user.username@,
            final(self).auth_method == user.auth_method,
            final(self).password@ == match user.password {
                Some(x) => x@,
                None => Seq::<char>::empty(),
            },
            final(self).private_key@ == match user.private_key {
                Some(x) => x@,
                None => Seq::<char>::empty(),
            },
            final(self).key_passphrase@ == match user.key_passphrase {
                Some(x) => x@,
                None => Seq::<char>::empty(),
            },
            final(self).last_saved_id is None,
    {
        *self = AuthUserDialog {
            open: true,
            edit_id: Some(user.id.clone()),
            name: user.name.clone(),
            username: user.username.clone(),
            auth_method: user.auth_method,
            password: text_or_empty(&user.password),
            private_key: text_or_empty(&user.private_key),
            key_passphrase: text_or_empty(&user.key_passphrase),
            request_name_focus: true,
            last_saved_id: None,
        };
    }

    pub fn close(&mut self)
        ensures
            *final(self) == (AuthUserDialog { open: false, ..*old(self) }),
    {
        self.open = false;
    }

    /// Whether an existing user is being edited.
    pub fn is_editing(&self) -> (b: bool)
        ensures
            b == (self.edit_id is Some),
    {
        self.edit_id.is_some()
    }

    /// Whether the form can be saved.
    pub fn can_save(&self) -> (b: bool)
        ensures
            b == auth_can_save_spec(*self),
    {
        let method_ok = match self.auth_method {
            AuthMethod::Password => self.password.as_str().unicode_len() > 0,
            AuthMethod::PrivateKey => !is_blank(self.private_key.as_str()),
        };
        !is_blank(self.name.as_str()) && !is_blank(self.username.as_str()) && method_ok
    }

    /// The user that the form describes, under id `id`.
    pub fn saved_user(&self, id: String) -> (u: AuthUser)
        ensures
            saved_user_spec(*self, id@, u),
    {
        match self.auth_method {
            AuthMethod::Password => AuthUser {
                id,
                name: trim(self.name.as_str()),
                username: trim(self.username.as_str()),
                auth_method: AuthMethod::Password,
                password: Some(self.password.clone()),
                private_key: None,
                key_passphrase: None,
            },
            AuthMethod::PrivateKey => AuthUser {
                id,
                name: trim(self.name.as_str()),
                username: trim(self.username.as_str()),
                auth_method: AuthMethod::PrivateKey,
                password: None,
                private_key: Some(self.private_key.clone()),
                key_passphrase: if self.key_passphrase.as_str().unicode_len() == 0 {
                    None
                } else {
                    Some(self.key_passphrase.clone())
                },
            },
        }
    }

    /// Ends a frame of the open dialog: a save (offered only while the form can be
    /// saved) yields the user — kept id when editing, otherwise a new random UUID made
    /// from `random_bytes`, which the caller draws afresh — and remembers its id; a
    /// save, a cancel or a closed window closes the dialog. A closed dialog yields
    /// nothing and stays as it is.
    pub fn finish_frame(&mut self, footer: FooterAction, window_closed: bool, random_bytes: [u8; 16]) -> (saved: Option<
        AuthUser,
    >)
        ensures
            !old(self).open ==> saved is None && *final(self) == *old(self),
            match saved {
                Some(u) => {
                    &&& old(self).open
                    &&& footer == FooterAction::Save
                    &&& auth_can_save_spec(*old(self))
                    &&& saved_user_spec(*old(self), u.id@, u)
                    &&& match old(self).edit_id {
                        Some(id) => u.id@ == id@,
                        None => u.id@ == uuid_v4_text_of(random_bytes@) && is_uuid_v4_text(u.id@),
                    }
                    &&& opt_view(final(self).last_saved_id) == Some(u.id@)
                },
                None => !(old(self).open && footer == FooterAction::Save && auth_can_save_spec(
                    *old(self),
                )) && final(self).last_saved_id == old(self).last_saved_id,
            },
            final(self).open == (old(self).open && !window_closed && footer == FooterAction::Idle
                || old(self).open && !window_closed && footer == FooterAction::Save
                && !auth_can_save_spec(*old(self))),
            *final(self) == (AuthUserDialog {
                open: final(self).open,
                last_saved_id: final(self).last_saved_id,
                ..*old(self)
            }),
    {
        if !self.open {
            return None;
        }
        let mut saved = None;
        let mut close_requested = false;
        match footer {
            FooterAction::Cancel => {
                close_requested = true;
            },
            FooterAction::Save => {
                if self.can_save() {
                    let id = match &self.edit_id {
                        Some(id) => id.clone(),
                        None => uuid_v4_text_from_bytes(random_bytes),
                    };
                    saved = Some(self.saved_user(id));
                    close_requested = true;
                }
            },
            FooterAction::Idle => {},
        }
        if window_closed || close_requested {
            self.open = false;
        }
        if let Some(u) = &saved {
            self.last_saved_id = Some(u.id.clone());
        }
        saved
    }
}

impl Default for AuthUserDialog {
    fn default() -> (d: AuthUserDialog)
        ensures
            !d.open,
            is_blank_dialog(d),
    {
        AuthUserDialog::new()
    }
}

/// Actions from the Users settings page / standalone dialog.
#[derive(Debug, Clone)]
pub struct ManageAuthUsersAction {
    pub new: bool,
    pub edit_id: Option<String>,
    pub delete_id: Option<String>,
}

impl Default for ManageAuthUsersAction {
    fn default() -> (a: ManageAuthUsersAction)
        ensures
            !a.new,
            a.edit_id is None,
            a.delete_id is None,
    {
        ManageAuthUsersAction { new: false, edit_id: None, delete_id: None }
    }
}

} // verus!
