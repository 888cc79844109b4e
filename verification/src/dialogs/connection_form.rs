//! New / edit connection form.

use vstd::prelude::*;

use crate::dialogs::auth_user::AuthUser;
use crate::dialogs::draft::{
    opt_seq, profile_from_selection, profile_of, serial_baud_from_field, serial_baud_of,
    shell_from_field, shell_of, ssh_port_from_field, ssh_port_of, username_for, username_for_user_id,
    working_dir_from_field, working_dir_of, ConnectionDraft, DraftKind,
};
use crate::dialogs::env_vars::{
    distinct_names, env_map_to_rows, env_rows_to_map, list_map, rows_map, rows_view, sorted_by_name,
};
use crate::dialogs::{
    available_types_spec, supported_conn_type, supported_type, BleScanEvent, FooterAction, PlatformSupport,
    ble_permission_message, ble_permission_text,
};
use crate::session::{ConnectionType, SavedConnection};
use crate::text::{decimal, decimal_string, is_blank, is_blank_chars, opt_chars};

verus! {

/// Outcome of painting the connection form for one frame.
pub enum ConnectionFormOutcome {
    Nothing,
    Cancelled,
    Saved(ConnectionDraft),
}

/// What the form saves (`users`: the saved auth users): the name as typed; for a local
/// shell the shell (none when empty) and the trimmed working directory (none when
/// blank); for SSH the host, the port (22 when it does not parse), the user name of
/// the selected auth user (`root` when there is none with that id) and the auth user's
/// id, no password; for serial the port and the baud rate (115200 when it does not
/// parse); for BLE the device; the edited id; the profile (none when empty); and the
/// variable map of the rows.
pub open spec fn form_draft_ok(d: NewConnectionDialog, users: Seq<AuthUser>, r: ConnectionDraft) -> bool {
    &&& r.name@ == d.name@
    &&& r.edit_id == d.edit_id
    &&& opt_seq(r.profile_id) == profile_of(opt_seq(d.selected_profile_id))
    &&& distinct_names(rows_view(r.env_vars@))
    &&& list_map(rows_view(r.env_vars@)) == rows_map(rows_view(d.env_rows@))
    &&& match d.conn_type {
        ConnectionType::Local => r.kind matches DraftKind::Local { shell, working_dir } && opt_seq(shell)
            == shell_of(d.shell@) && opt_seq(working_dir) == working_dir_of(d.working_dir@),
        ConnectionType::Ssh => {
            let auth_id = text_or_empty(d.selected_auth_user_id);
            r.kind matches DraftKind::Ssh { host, port, username, auth_user_id, password } && host@
                == d.ssh_host@ && port == ssh_port_of(d.ssh_port@) && username@ == username_for(
                users,
                auth_id,
            ) && opt_seq(auth_user_id) == Some(auth_id) && password is None
        },
        ConnectionType::Serial => r.kind matches DraftKind::Serial { port, baud } && port@
            == d.serial_port@ && baud == serial_baud_of(d.serial_baud@),
        ConnectionType::Ble => r.kind matches DraftKind::Ble { device } && device@ == d.ble_device@,
    }
}

/// New / edit connection form state. The fields are edited by the form in place.
#[derive(Debug)]
pub struct NewConnectionDialog {
    pub open: bool,
    /// Request keyboard focus on the name field once after open.
    pub request_name_focus: bool,
    /// When set, form edits an existing connection (preserves id on save).
    pub edit_id: Option<String>,
    pub name: String,
    pub conn_type: ConnectionType,
    pub shell: String,
    pub working_dir: String,
    pub ssh_host: String,
    pub ssh_port: String,
    /// Selected auth user id (required for SSH).
    pub selected_auth_user_id: Option<String>,
    /// Set when user picks "New user…" in the SSH combo.
    pub request_new_auth_user: bool,
    /// Terminal profile id (`None` = app default).
    pub selected_profile_id: Option<String>,
    /// Set when user picks "New profile…" in the profile combo.
    pub request_new_profile: bool,
    /// Per-connection environment variables (editable rows).
    pub env_rows: Vec<(String, String)>,
    pub serial_port: String,
    pub serial_baud: String,
    /// Serial devices found: (path, label).
    pub serial_devices: Vec<(String, String)>,
    pub ble_device: String,
    pub ble_devices: Vec<String>,
    pub ble_scanning: bool,
    pub ble_scan_error: Option<String>,
}

/// A closed, empty form whose variable rows are the local defaults.
pub open spec fn is_fresh_form(d: NewConnectionDialog, local_env: Seq<(String, String)>) -> bool {
    &&& !d.open
    &&& !d.request_name_focus
    &&& d.shell@.len() == 0
    &&& d.working_dir@.len() == 0
    &&& blank_form_fields(d, local_env)
}

/// A new connection of the default type with the variables `local_env` (sorted by
/// name), and every other field empty or at its default (port 22, 115200 baud), no
/// selection, request, device list or scan.
pub open spec fn blank_form_fields(d: NewConnectionDialog, local_env: Seq<(String, String)>) -> bool {
    &&& d.edit_id is None
    &&& d.name@.len() == 0
    &&& d.conn_type == ConnectionType::Local
    &&& d.ssh_host@.len() == 0
    &&& d.ssh_port@ == "22"@
    &&& d.selected_auth_user_id is None
    &&& !d.request_new_auth_user
    &&& d.selected_profile_id is None
    &&& !d.request_new_profile
    &&& rows_view(d.env_rows@).to_multiset() == rows_view(local_env).to_multiset()
    &&& sorted_by_name(rows_view(d.env_rows@))
    &&& d.serial_port@.len() == 0
    &&& d.serial_baud@ == "115200"@
    &&& d.serial_devices@.len() == 0
    &&& d.ble_device@.len() == 0
    &&& d.ble_devices@.len() == 0
    &&& !d.ble_scanning
    &&& d.ble_scan_error is None
}

/// The characters of an optional text, or nothing.
pub open spec fn text_or_empty(s: Option<String>) -> Seq<char> {
    match s {
        Some(x) => x@,
        None => Seq::empty(),
    }
}

/// The form can be saved: a name, and what the connection type needs (an SSH host
/// and auth user, a serial port, a BLE device).
pub open spec fn can_create_spec(d: NewConnectionDialog) -> bool {
    !is_blank_chars(d.name@) && match d.conn_type {
        ConnectionType::Ssh => !is_blank_chars(d.ssh_host@) && d.selected_auth_user_id is Some,
        ConnectionType::Serial => !is_blank_chars(d.serial_port@),
        ConnectionType::Ble => !is_blank_chars(d.ble_device@),
        ConnectionType::Local => true,
    }
}

fn owned_or_empty(s: &Option<String>) -> (r: String)
    ensures
        r@ == text_or_empty(*s),
{
    match s {
        Some(x) => x.clone(),
        None => String::new(),
    }
}

impl NewConnectionDialog {
    /// A closed, empty form; its variable rows are the local defaults `local_env`.
    pub fn new(local_env: &[(String, String)]) -> (d: NewConnectionDialog)
        ensures
            is_fresh_form(d, local_env@),
    {
        let d = NewConnectionDialog {
            open: false,
            request_name_focus: false,
            edit_id: None,
            name: String::new(),
            conn_type: ConnectionType::Local,
            shell: String::new(),
            working_dir: String::new(),
            ssh_host: String::new(),
            ssh_port: String::from_str("22"),
            selected_auth_user_id: None,
            request_new_auth_user: false,
            selected_profile_id: None,
            request_new_profile: false,
            env_rows: env_map_to_rows(local_env),
            serial_port: String::new(),
            serial_baud: String::from_str("115200"),
            serial_devices: Vec::new(),
            ble_device: String::new(),
            ble_devices: Vec::new(),
            ble_scanning: false,
            ble_scan_error: None,
        };
        d
    }

    /// Opens a new-connection form, pre-filled with the local defaults: the system
    /// shell, the home directory and the default variables.
    pub fn open_new(&mut self, default_shell: String, home_dir: String, local_env: &[(String, String)])
        ensures
            final(self).open,
            final(self).request_name_focus,
            final(self).edit_id is None,
            final(self).shell == default_shell,
            final(self).working_dir == home_dir,
            blank_form_fields(*final(self), local_env@),
    {
        *self = NewConnectionDialog::new(local_env);
        self.open = true;
        self.request_name_focus = true;
        self.shell = default_shell;
        self.working_dir = home_dir;
    }

    /// Opens the form to edit `conn`, filled from its values.
    pub fn open_edit(&mut self, conn: &SavedConnection)
        ensures
            final(self).open,
            final(self).request_name_focus,
            final(self).edit_id == Some(conn.id),
            final(self).name == conn.name,
            final(self).conn_type == conn.conn_type,
            final(self).shell@ == text_or_empty(conn.shell),
            final(self).working_dir@ == text_or_empty(conn.working_dir),
            final(self).ssh_host@ == text_or_empty(conn.ssh_host),
            final(self).ssh_port@ == match conn.ssh_port {
                Some(p) => decimal(p as nat),
                None => "22"@,
            },
            final(self).selected_auth_user_id == conn.auth_user_id,
            final(self).selected_profile_id == conn.profile_id,
            rows_view(final(self).env_rows@).to_multiset() == rows_view(conn.env_vars@).to_multiset(),
            sorted_by_name(rows_view(final(self).env_rows@)),
            final(self).serial_port@ == text_or_empty(conn.serial_port),
            final(self).serial_baud@ == match conn.serial_baud {
                Some(b) => decimal(b as nat),
                None => "115200"@,
            },
            final(self).ble_device@ == text_or_empty(conn.ble_device),
            !final(self).request_new_auth_user,
            !final(self).request_new_profile,
            final(self).serial_devices@.len() == 0,
            final(self).ble_devices@.len() == 0,
            !final(self).ble_scanning,
            final(self).ble_scan_error is None,
    {
        let env_rows = env_map_to_rows(conn.env_vars.as_slice());
        *self = NewConnectionDialog::new(conn.env_vars.as_slice());
        self.open = true;
        self.request_name_focus = true;
        self.edit_id = Some(conn.id.clone());
        self.name = conn.name.clone();
        self.conn_type = conn.conn_type;
        self.shell = owned_or_empty(&conn.shell);
        self.working_dir = owned_or_empty(&conn.working_dir);
        self.ssh_host = owned_or_empty(&conn.ssh_host);
        self.ssh_port = match conn.ssh_port {
            Some(p) => decimal_string(p as u64),
            None => String::from_str("22"),
        };
        self.selected_auth_user_id = conn.auth_user_id.clone();
        self.selected_profile_id = conn.profile_id.clone();
        self.env_rows = env_rows;
        self.serial_port = owned_or_empty(&conn.serial_port);
        self.serial_baud = match conn.serial_baud {
            Some(b) => decimal_string(b as u64),
            None => String::from_str("115200"),
        };
        self.ble_device = owned_or_empty(&conn.ble_device);
    }

    pub fn is_editing(&self) -> (b: bool)
        ensures
            b == (self.edit_id is Some),
    {
        self.edit_id.is_some()
    }

    /// Closes the form and resets every field (`local_env` gives the default rows).
    pub fn close(&mut self, local_env: &[(String, String)])
        ensures
            is_fresh_form(*final(self), local_env@),
    {
        *self = NewConnectionDialog::new(local_env);
    }

    /// Makes sure the connection type is one the platform supports, else switches to
    /// the first one offered.
    pub fn ensure_conn_type_supported(&mut self, support: PlatformSupport)
        ensures
            *final(self) == (NewConnectionDialog {
                conn_type: supported_type(old(self).conn_type, available_types_spec(support)),
                ..*old(self)
            }),
    {
        self.conn_type = supported_conn_type(self.conn_type, support);
    }

    /// Selects an auth user after creating one from the nested dialog.
    pub fn select_auth_user(&mut self, id: String)
        ensures
            *final(self) == (NewConnectionDialog {
                selected_auth_user_id: Some(id),
                conn_type: ConnectionType::Ssh,
                ..*old(self)
            }),
    {
        self.selected_auth_user_id = Some(id);
        self.conn_type = ConnectionType::Ssh;
    }

    /// Selects a terminal profile after creating one from the nested dialog.
    pub fn select_profile(&mut self, id: String)
        ensures
            *final(self) == (NewConnectionDialog { selected_profile_id: Some(id), ..*old(self) }),
    {
        self.selected_profile_id = Some(id);
    }

    /// Takes the serial devices just enumerated; an empty port takes the first device.
    pub fn refresh_serial_devices(&mut self, devices: Vec<(String, String)>)
        ensures
            *final(self) == (NewConnectionDialog {
                serial_devices: devices,
                serial_port: final(self).serial_port,
                ..*old(self)
            }),
            final(self).serial_port@ == if old(self).serial_port@.len() == 0 && devices@.len() > 0 {
                devices@[0].0@
            } else {
                old(self).serial_port@
            },
    {
        self.serial_devices = devices;
        if self.serial_port.as_str().unicode_len() == 0 && self.serial_devices.len() > 0 {
            self.serial_port = self.serial_devices[0].0.clone();
        }
    }

    /// A request to scan for BLE devices: refused while a scan runs; without
    /// Bluetooth access (the platform asks for it) the form says so and no scan
    /// starts; otherwise the last error is cleared and the form counts as scanning.
    /// Returns whether a scan starts.
    pub fn start_ble_scan(&mut self, bluetooth_access: bool) -> (started: bool)
        ensures
            started == (!old(self).ble_scanning && bluetooth_access),
            *final(self) == (if old(self).ble_scanning {
                *old(self)
            } else if !bluetooth_access {
                NewConnectionDialog { ble_scan_error: final(self).ble_scan_error, ..*old(self) }
            } else {
                NewConnectionDialog { ble_scanning: true, ble_scan_error: None, ..*old(self) }
            }),
            !old(self).ble_scanning && !bluetooth_access ==> opt_chars(final(self).ble_scan_error)
                == Some(ble_permission_text()),
    {
        if self.ble_scanning {
            return false;
        }
        if !bluetooth_access {
            self.ble_scan_error = Some(ble_permission_message());
            return false;
        }
        self.ble_scan_error = None;
        self.ble_scanning = true;
        true
    }

    /// Takes what a poll of the running BLE scan found.
    pub fn poll_ble_scan(&mut self, event: BleScanEvent)
        ensures
            *final(self) == (NewConnectionDialog {
                ble_scanning: final(self).ble_scanning,
                ble_devices: final(self).ble_devices,
                ble_scan_error: final(self).ble_scan_error,
                ble_device: final(self).ble_device,
                ..*old(self)
            }),
            match event {
                BleScanEvent::Pending => *final(self) == *old(self),
                BleScanEvent::Finished(Ok(devices)) => {
                    &&& !final(self).ble_scanning
                    &&& final(self).ble_devices == devices
                    &&& final(self).ble_scan_error is None
                    &&& final(self).ble_device@ == if old(self).ble_device@.len() == 0 && devices@.len() > 0 {
                        devices@[0]@
                    } else {
                        old(self).ble_device@
                    }
                },
                BleScanEvent::Finished(Err(e)) => {
                    &&& !final(self).ble_scanning
                    &&& final(self).ble_scan_error is Some
                    &&& final(self).ble_scan_error->0@ == "BLE \u{626b}\u{63cf}\u{5931}\u{8d25}\u{ff1a}"@ + e@
                    &&& final(self).ble_devices == old(self).ble_devices
                    &&& final(self).ble_device == old(self).ble_device
                },
                BleScanEvent::Disconnected => {
                    &&& !final(self).ble_scanning
                    &&& final(self).ble_scan_error is Some
                    &&& final(self).ble_scan_error->0@ == "BLE \u{626b}\u{63cf}\u{7ebf}\u{7a0b}\u{610f}\u{5916}\u{9000}\u{51fa}\u{ff0c}\u{8bf7}\u{91cd}\u{8bd5}\u{3002}"@
                    &&& final(self).ble_devices == old(self).ble_devices
                    &&& final(self).ble_device == old(self).ble_device
                },
            },
    {
        match event {
            BleScanEvent::Pending => {},
            BleScanEvent::Finished(Ok(devices)) => {
                self.ble_scanning = false;
                self.ble_devices = devices;
                self.ble_scan_error = None;
                if self.ble_device.as_str().unicode_len() == 0 && self.ble_devices.len() > 0 {
                    self.ble_device = self.ble_devices[0].clone();
                }
            },
            BleScanEvent::Finished(Err(e)) => {
                self.ble_scanning = false;
                let mut msg = String::from_str("BLE \u{626b}\u{63cf}\u{5931}\u{8d25}\u{ff1a}");
                msg.append(e.as_str());
                self.ble_scan_error = Some(msg);
            },
            BleScanEvent::Disconnected => {
                self.ble_scanning = false;
                self.ble_scan_error = Some(
                    String::from_str(
                        "BLE \u{626b}\u{63cf}\u{7ebf}\u{7a0b}\u{610f}\u{5916}\u{9000}\u{51fa}\u{ff0c}\u{8bf7}\u{91cd}\u{8bd5}\u{3002}",
                    ),
                );
            },
        }
    }

    /// Whether the form can be saved.
    pub fn can_create(&self) -> (b: bool)
        ensures
            b == can_create_spec(*self),
    {
        if is_blank(self.name.as_str()) {
            return false;
        }
        match self.conn_type {
            ConnectionType::Ssh => !is_blank(self.ssh_host.as_str()) && self.selected_auth_user_id.is_some(),
            ConnectionType::Serial => !is_blank(self.serial_port.as_str()),
            ConnectionType::Ble => !is_blank(self.ble_device.as_str()),
            ConnectionType::Local => true,
        }
    }

    /// After the user picked another connection type: the scan error goes; a new
    /// connection gets the default variables of its type (none for serial and BLE).
    pub fn conn_type_changed(
        &mut self,
        previous: ConnectionType,
        local_env: &[(String, String)],
        ssh_env: &[(String, String)],
    )
        ensures
            old(self).conn_type == previous ==> *final(self) == *old(self),
            old(self).conn_type != previous ==> {
                &&& *final(self) == (NewConnectionDialog {
                    ble_scan_error: None,
                    env_rows: final(self).env_rows,
                    ..*old(self)
                })
                &&& if old(self).edit_id is Some {
                    final(self).env_rows == old(self).env_rows
                } else {
                    &&& sorted_by_name(rows_view(final(self).env_rows@))
                    &&& rows_view(final(self).env_rows@).to_multiset() == match old(self).conn_type {
                        ConnectionType::Local => rows_view(local_env@).to_multiset(),
                        ConnectionType::Ssh => rows_view(ssh_env@).to_multiset(),
                        _ => vstd::multiset::Multiset::empty(),
                    }
                }
            },
    {
        if self.conn_type == previous {
            return;
        }
        self.ble_scan_error = None;
        if self.edit_id.is_none() {
            self.env_rows = match self.conn_type {
                ConnectionType::Local => env_map_to_rows(local_env),
                ConnectionType::Ssh => env_map_to_rows(ssh_env),
                _ => {
                    let rows: Vec<(String, String)> = Vec::new();
                    proof {
                        assert(rows_view(rows@) =~= Seq::empty());
                        rows_view(rows@).to_multiset_ensures();
                        assert(rows_view(rows@).to_multiset() =~= vstd::multiset::Multiset::empty());
                    }
                    rows
                },
            };
        }
    }

    /// The connection the form saves (see [`form_draft_ok`]); the edited id moves into
    /// it.
    pub fn save_draft(&mut self, users: &[AuthUser]) -> (r: ConnectionDraft)
        ensures
            form_draft_ok(*old(self), users@, r),
            final(self).edit_id is None,
    {
        let kind = match self.conn_type {
            ConnectionType::Local => DraftKind::Local {
                shell: shell_from_field(self.shell.as_str()),
                working_dir: working_dir_from_field(self.working_dir.as_str()),
            },
            ConnectionType::Ssh => {
                let auth_id = owned_or_empty(&self.selected_auth_user_id);
                let username = username_for_user_id(users, auth_id.as_str());
                DraftKind::Ssh {
                    host: String::from_str(self.ssh_host.as_str()),
                    port: ssh_port_from_field(self.ssh_port.as_str()),
                    username,
                    auth_user_id: Some(auth_id),
                    password: None,
                }
            },
            ConnectionType::Serial => DraftKind::Serial {
                port: String::from_str(self.serial_port.as_str()),
                baud: serial_baud_from_field(self.serial_baud.as_str()),
            },
            ConnectionType::Ble => DraftKind::Ble { device: String::from_str(self.ble_device.as_str()) },
        };
        let edit_id = self.edit_id.take();
        ConnectionDraft {
            name: String::from_str(self.name.as_str()),
            kind,
            edit_id,
            profile_id: profile_from_selection(&self.selected_profile_id),
            env_vars: env_rows_to_map(self.env_rows.as_slice()),
        }
    }

    /// What the footer's button of this frame does: Cancel cancels; Save, which is
    /// offered only while the form can be created (see [`can_create_spec`]), saves the
    /// draft (see [`form_draft_ok`]); otherwise nothing happens.
    pub fn footer_outcome(&mut self, footer: FooterAction, users: &[AuthUser]) -> (o: ConnectionFormOutcome)
        ensures
            match footer {
                FooterAction::Idle => o is Nothing && *final(self) == *old(self),
                FooterAction::Cancel => o is Cancelled && *final(self) == *old(self),
                FooterAction::Save => if can_create_spec(*old(self)) {
                    o matches ConnectionFormOutcome::Saved(r) && form_draft_ok(*old(self), users@, r)
                        && final(self).edit_id is None
                } else {
                    o is Nothing && *final(self) == *old(self)
                },
            },
    {
        match footer {
            FooterAction::Idle => ConnectionFormOutcome::Nothing,
            FooterAction::Cancel => ConnectionFormOutcome::Cancelled,
            FooterAction::Save => {
                if self.can_create() {
                    ConnectionFormOutcome::Saved(self.save_draft(users))
                } else {
                    ConnectionFormOutcome::Nothing
                }
            },
        }
    }
}

} // verus!
