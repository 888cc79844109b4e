//! What a connection form saves: the fields of the new or edited connection, as the
//! form's text fields give them.

use vstd::prelude::*;

use crate::dialogs::auth_user::AuthUser;
use crate::text::{is_blank, is_blank_chars, parse_unsigned, parse_unsigned_str, str_eq, trim, trim_chars};

verus! {

/// The connection-type part of a saved connection.
pub enum DraftKind {
    /// A local shell (`None`: the default shell) started in `working_dir` (`None`: the
    /// default directory).
    Local { shell: Option<String>, working_dir: Option<String> },
    /// An SSH connection as `username`, with the auth user or the password that the
    /// form gives.
    Ssh {
        host: String,
        port: u16,
        username: String,
        auth_user_id: Option<String>,
        password: Option<String>,
    },
    /// A serial port at a baud rate.
    Serial { port: String, baud: u32 },
    /// A BLE device.
    Ble { device: String },
}

/// A connection as a form saves it.
pub struct ConnectionDraft {
    pub name: String,
    pub kind: DraftKind,
    /// The id of the edited connection (none for a new one).
    pub edit_id: Option<String>,
    /// Terminal profile (`None`: the app default).
    pub profile_id: Option<String>,
    /// Environment variables, each name once.
    pub env_vars: Vec<(String, String)>,
}

/// The port the SSH field gives: its number when it parses as a `u16`, else 22.
pub open spec fn ssh_port_of(field: Seq<char>) -> u16 {
    match parse_unsigned(field, u16::MAX as nat) {
        Some(v) => v as u16,
        None => 22,
    }
}

/// The baud rate the serial field gives: its number when it parses as a `u32`, else
/// 115200.
pub open spec fn serial_baud_of(field: Seq<char>) -> u32 {
    match parse_unsigned(field, u32::MAX as nat) {
        Some(v) => v as u32,
        None => 115200,
    }
}

/// The local shell the field gives: none when empty.
pub open spec fn shell_of(field: Seq<char>) -> Option<Seq<char>> {
    if field.len() == 0 {
        None
    } else {
        Some(field)
    }
}

/// The working directory the field gives: trimmed, none when blank.
pub open spec fn working_dir_of(field: Seq<char>) -> Option<Seq<char>> {
    if is_blank_chars(field) {
        None
    } else {
        Some(trim_chars(field))
    }
}

/// The characters of an optional text.
pub open spec fn opt_seq(o: Option<String>) -> Option<Seq<char>> {
    match o {
        Some(s) => Some(s@),
        None => None,
    }
}

pub fn ssh_port_from_field(field: &str) -> (p: u16)
    ensures
        p == ssh_port_of(field@),
{
    match parse_unsigned_str(field, 65535) {
        Some(v) => v as u16,
        None => 22,
    }
}

pub fn serial_baud_from_field(field: &str) -> (b: u32)
    ensures
        b == serial_baud_of(field@),
{
    match parse_unsigned_str(field, 4294967295) {
        Some(v) => v as u32,
        None => 115200,
    }
}

pub fn shell_from_field(field: &str) -> (s: Option<String>)
    ensures
        opt_seq(s) == shell_of(field@),
{
    if field.unicode_len() == 0 {
        None
    } else {
        Some(String::from_str(field))
    }
}

pub fn working_dir_from_field(field: &str) -> (w: Option<String>)
    ensures
        opt_seq(w) == working_dir_of(field@),
{
    if is_blank(field) {
        None
    } else {
        Some(trim(field))
    }
}

/// The profile the form keeps: none for no selection or an empty id.
pub open spec fn profile_of(selected: Option<Seq<char>>) -> Option<Seq<char>> {
    match selected {
        Some(id) => if id.len() == 0 {
            None
        } else {
            Some(id)
        },
        None => None,
    }
}

pub fn profile_from_selection(selected: &Option<String>) -> (p: Option<String>)
    ensures
        opt_seq(p) == profile_of(opt_seq(*selected)),
{
    match selected {
        Some(id) => if id.unicode_len() == 0 {
            None
        } else {
            Some(String::from_str(id.as_str()))
        },
        None => None,
    }
}

/// The user name of the first auth user with id `id`, else `root`.
pub open spec fn username_for(users: Seq<AuthUser>, id: Seq<char>) -> Seq<char>
    decreases users.len(),
{
    if users.len() == 0 {
        "root"@
    } else if users[0].id@ == id {
        users[0].username@
    } else {
        username_for(users.drop_first(), id)
    }
}

pub fn username_for_user_id(users: &[AuthUser], id: &str) -> (u: String)
    ensures
        u@ == username_for(users@, id@),
{
    let mut k: usize = 0;
    assert(users@.skip(0) =~= users@);
    while k < users.len()
        invariant
            k <= users@.len(),
            username_for(users@, id@) == username_for(users@.skip(k as int), id@),
        decreases users@.len() - k,
    {
        proof {
            assert(users@.skip(k as int)[0] == users@[k as int]);
            assert(users@.skip(k as int).drop_first() =~= users@.skip(k + 1));
        }
        if str_eq(users[k].id.as_str(), id) {
            return String::from_str(users[k].username.as_str());
        }
        k = k + 1;
    }
    proof {
        assert(users@.skip(k as int).len() == 0);
    }
    String::from_str("root")
}

} // verus!
