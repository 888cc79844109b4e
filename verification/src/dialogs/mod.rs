//! Dialog state: connection forms, auth users, favorite commands, terminal profiles
//! and local terminal settings.

pub mod auth_user;
pub mod connection_form;
pub mod draft;
pub mod env_vars;
pub mod favorite_commands;
pub mod profile;
pub mod uuid_text;

use vstd::prelude::*;

use crate::session::{find_connection, first_conn_index, ConnectionType, SavedConnection};
use crate::dialogs::draft::{
    opt_seq, serial_baud_from_field, serial_baud_of, shell_from_field, shell_of, ssh_port_from_field,
    ssh_port_of, working_dir_from_field, working_dir_of, ConnectionDraft, DraftKind,
};
use crate::text::{decimal, decimal_string, is_blank, is_blank_chars, opt_chars};

verus! {

/// Which connection types the platform offers besides SSH.
#[derive(Clone, Copy, PartialEq, Eq, Debug, Structural)]
pub struct PlatformSupport {
    pub local_terminal: bool,
    pub serial: bool,
    pub ble: bool,
}

/// The connection types offered, in menu order: local, SSH (always), serial, BLE.
pub open spec fn available_types_spec(support: PlatformSupport) -> Seq<ConnectionType> {
    (if support.local_terminal {
        seq![ConnectionType::Local]
    } else {
        Seq::empty()
    }) + seq![ConnectionType::Ssh] + (if support.serial {
        seq![ConnectionType::Serial]
    } else {
        Seq::empty()
    }) + (if support.ble {
        seq![ConnectionType::Ble]
    } else {
        Seq::empty()
    })
}

/// The connection types the platform supports, in menu order.
pub fn available_types(support: PlatformSupport) -> (types: Vec<ConnectionType>)
    ensures
        types@ == available_types_spec(support),
{
    let mut types = Vec::new();
    if support.local_terminal {
        types.push(ConnectionType::Local);
    }
    types.push(ConnectionType::Ssh);
    if support.serial {
        types.push(ConnectionType::Serial);
    }
    if support.ble {
        types.push(ConnectionType::Ble);
    }
    assert(types@ =~= available_types_spec(support));
    types
}

/// The connection type to keep: the current one if supported, else the first offered.
pub open spec fn supported_type(current: ConnectionType, types: Seq<ConnectionType>) -> ConnectionType {
    if types.len() == 0 || types.contains(current) {
        current
    } else {
        types[0]
    }
}

/// The supported connection type closest to `current`.
pub fn supported_conn_type(current: ConnectionType, support: PlatformSupport) -> (t: ConnectionType)
    ensures
        t == supported_type(current, available_types_spec(support)),
{
    let types = available_types(support);
    let mut i: usize = 0;
    while i < types.len()
        invariant
            types@ == available_types_spec(support),
            i <= types@.len(),
            forall|k: int| 0 <= k < i ==> types@[k] != current,
        decreases types@.len() - i,
    {
        if types[i] == current {
            assert(types@.contains(current));
            return current;
        }
        i = i + 1;
    }
    types[0]
}

/// Shown when a BLE scan needs the Bluetooth permission first.
pub open spec fn ble_permission_text() -> Seq<char> {
    "\u{9700}\u{8981}\u{6388}\u{4e88}\u{9644}\u{8fd1}\u{8bbe}\u{5907}/\u{84dd}\u{7259}\u{6743}\u{9650}\u{540e}\u{624d}\u{80fd}\u{626b}\u{63cf}\u{3002}\u{8bf7}\u{540c}\u{610f}\u{6743}\u{9650}\u{5f39}\u{7a97}\u{540e}\u{518d}\u{70b9}\u{4e00}\u{6b21}\u{626b}\u{63cf}\u{3002}"@
}

/// The message shown when a BLE scan needs the Bluetooth permission first.
pub fn ble_permission_message() -> (s: String)
    ensures
        s@ == ble_permission_text(),
{
    String::from_str("\u{9700}\u{8981}\u{6388}\u{4e88}\u{9644}\u{8fd1}\u{8bbe}\u{5907}/\u{84dd}\u{7259}\u{6743}\u{9650}\u{540e}\u{624d}\u{80fd}\u{626b}\u{63cf}\u{3002}\u{8bf7}\u{540c}\u{610f}\u{6743}\u{9650}\u{5f39}\u{7a97}\u{540e}\u{518d}\u{70b9}\u{4e00}\u{6b21}\u{626b}\u{63cf}\u{3002}")
}

/// What a poll of a running BLE scan found.
pub enum BleScanEvent {
    /// No result yet.
    Pending,
    /// The scan finished with these device names, or failed with this message.
    Finished(Result<Vec<String>, String>),
    /// The scan worker went away without an answer.
    Disconnected,
}

/// What the footer buttons of a form asked for in one frame.
#[derive(Clone, Copy, PartialEq, Eq, Debug, Structural)]
pub enum FooterAction {
    Idle,
    Cancel,
    Save,
}

/// Outcome of painting the connection form for one frame.
pub enum ConnectionFormOutcome {
    Nothing,
    Cancelled,
    Saved(ConnectionDraft),
}

/// The dialog can be saved: a name, and what the connection type needs (an SSH host,
/// a serial port, a BLE device).
pub open spec fn dialog_can_create_spec(d: NewConnectionDialog) -> bool {
    !is_blank_chars(d.name@) && match d.conn_type {
        ConnectionType::Ssh => !is_blank_chars(d.ssh_host@),
        ConnectionType::Serial => !is_blank_chars(d.serial_port@),
        ConnectionType::Ble => !is_blank_chars(d.ble_device@),
        ConnectionType::Local => true,
    }
}

/// What the dialog saves: as the connection form does (see
/// `connection_form::form_draft_ok`), except that SSH takes the typed user name and
/// the password (none when empty), and the dialog sets no profile and no variables.
pub open spec fn dialog_draft_ok(d: NewConnectionDialog, r: ConnectionDraft) -> bool {
    &&& r.name@ == d.name@
    &&& r.edit_id == d.edit_id
    &&& r.profile_id is None
    &&& r.env_vars@.len() == 0
    &&& match d.conn_type {
        ConnectionType::Local => r.kind matches DraftKind::Local { shell, working_dir } && opt_seq(shell)
            == shell_of(d.shell@) && opt_seq(working_dir) == working_dir_of(d.working_dir@),
        ConnectionType::Ssh => r.kind matches DraftKind::Ssh { host, port, username, auth_user_id, password }
            && host@ == d.ssh_host@ && port == ssh_port_of(d.ssh_port@) && username@ == d.ssh_user@
            && auth_user_id is None && opt_seq(password) == (if d.ssh_password@.len() == 0 {
            None
        } else {
            Some(d.ssh_password@)
        }),
        ConnectionType::Serial => r.kind matches DraftKind::Serial { port, baud } && port@
            == d.serial_port@ && baud == serial_baud_of(d.serial_baud@),
        ConnectionType::Ble => r.kind matches DraftKind::Ble { device } && device@ == d.ble_device@,
    }
}

/// New / edit connection dialog with inline SSH credentials. The fields are edited
/// by the form in place.
#[derive(Debug)]
pub struct NewConnectionDialog {
    pub open: bool,
    /// Request keyboard focus on the name field once after open.
    pub request_name_focus: bool,
    /// When set, form edits an existing connection (preserves id on save).
    pub edit_id: Option<String>,
    pub name: String,
    pub conn_type: ConnectionType,
    pub shell: String,
    pub working_dir: String,
    pub ssh_host: String,
    pub ssh_port: String,
    pub ssh_user: String,
    pub ssh_password: String,
    pub serial_port: String,
    pub serial_baud: String,
    /// Serial devices found: (path, label).
    pub serial_devices: Vec<(String, String)>,
    pub ble_device: String,
    pub ble_devices: Vec<String>,
    pub ble_scanning: bool,
    pub ble_scan_error: Option<String>,
}

/// A closed, empty dialog.
pub open spec fn is_fresh_dialog(d: NewConnectionDialog) -> bool {
    &&& !d.open
    &&& !d.request_name_focus
    &&& d.shell@.len() == 0
    &&& d.working_dir@.len() == 0
    &&& blank_connection_fields(d)
}

/// A new connection of the default type, with every other field empty or at its
/// default (port 22, 115200 baud) and no device lists or scan.
pub open spec fn blank_connection_fields(d: NewConnectionDialog) -> bool {
    &&& d.edit_id is None
    &&& d.name@.len() == 0
    &&& d.conn_type == ConnectionType::Local
    &&& d.ssh_host@.len() == 0
    &&& d.ssh_port@ == "22"@
    &&& d.ssh_user@.len() == 0
    &&& d.ssh_password@.len() == 0
    &&& d.serial_port@.len() == 0
    &&& d.serial_baud@ == "115200"@
    &&& d.serial_devices@.len() == 0
    &&& d.ble_device@.len() == 0
    &&& d.ble_devices@.len() == 0
    &&& !d.ble_scanning
    &&& d.ble_scan_error is None
}

/// The characters of an optional text, or nothing.
pub open spec fn or_empty(s: Option<String>) -> Seq<char> {
    match s {
        Some(x) => x@,
        None => Seq::empty(),
    }
}

fn copy_or_empty(s: &Option<String>) -> (r: String)
    ensures
        r@ == or_empty(*s),
{
    match s {
        Some(x) => x.clone(),
        None => String::new(),
    }
}

impl Default for NewConnectionDialog {
    fn default() -> (d: NewConnectionDialog)
        ensures
            is_fresh_dialog(d),
    {
        NewConnectionDialog {
            open: false,
            request_name_focus: false,
            edit_id: None,
            name: String::new(),
            conn_type: ConnectionType::Local,
            shell: String::new(),
            working_dir: String::new(),
            ssh_host: String::new(),
            ssh_port: String::from_str("22"),
            ssh_user: String::new(),
            ssh_password: String::new(),
            serial_port: String::new(),
            serial_baud: String::from_str("115200"),
            serial_devices: Vec::new(),
            ble_device: String::new(),
            ble_devices: Vec::new(),
            ble_scanning: false,
            ble_scan_error: None,
        }
    }
}

impl NewConnectionDialog {
    /// Whether the dialog can be saved.
    pub fn can_create(&self) -> (b: bool)
        ensures
            b == dialog_can_create_spec(*self),
    {
        if is_blank(self.name.as_str()) {
            return false;
        }
        match self.conn_type {
            ConnectionType::Ssh => !is_blank(self.ssh_host.as_str()),
            ConnectionType::Serial => !is_blank(self.serial_port.as_str()),
            ConnectionType::Ble => !is_blank(self.ble_device.as_str()),
            ConnectionType::Local => true,
        }
    }

    /// What the buttons of this frame do: Create (enabled only when the dialog can be
    /// saved) saves the draft, else Cancel cancels, else nothing happens.
    pub fn button_outcome(&mut self, cancel_clicked: bool, create_clicked: bool) -> (o: ConnectionFormOutcome)
        ensures
            if create_clicked && dialog_can_create_spec(*old(self)) {
                o matches ConnectionFormOutcome::Saved(r) && dialog_draft_ok(*old(self), r)
                    && final(self).edit_id is None
            } else {
                *final(self) == *old(self) && if cancel_clicked {
                    o is Cancelled
                } else {
                    o is Nothing
                }
            },
    {
        if create_clicked && self.can_create() {
            return ConnectionFormOutcome::Saved(self.save_draft());
        }
        if cancel_clicked {
            ConnectionFormOutcome::Cancelled
        } else {
            ConnectionFormOutcome::Nothing
        }
    }

    /// The connection the dialog saves (see [`dialog_draft_ok`]); the edited id moves
    /// into it.
    pub fn save_draft(&mut self) -> (r: ConnectionDraft)
        ensures
            dialog_draft_ok(*old(self), r),
            final(self).edit_id is None,
    {
        let kind = match self.conn_type {
            ConnectionType::Local => DraftKind::Local {
                shell: shell_from_field(self.shell.as_str()),
                working_dir: working_dir_from_field(self.working_dir.as_str()),
            },
            ConnectionType::Ssh => DraftKind::Ssh {
                host: String::from_str(self.ssh_host.as_str()),
                port: ssh_port_from_field(self.ssh_port.as_str()),
                username: String::from_str(self.ssh_user.as_str()),
                auth_user_id: None,
                password: if self.ssh_password.unicode_len() == 0 {
                    None
                } else {
                    Some(String::from_str(self.ssh_password.as_str()))
                },
            },
            ConnectionType::Serial => DraftKind::Serial {
                port: String::from_str(self.serial_port.as_str()),
                baud: serial_baud_from_field(self.serial_baud.as_str()),
            },
            ConnectionType::Ble => DraftKind::Ble { device: String::from_str(self.ble_device.as_str()) },
        };
        let edit_id = self.edit_id.take();
        ConnectionDraft {
            name: String::from_str(self.name.as_str()),
            kind,
            edit_id,
            profile_id: None,
            env_vars: Vec::new(),
        }
    }

    /// Opens a new-connection dialog pre-filled with the system shell and home directory.
    pub fn open_new(&mut self, default_shell: String, home_dir: String)
        ensures
            final(self).open,
            final(self).request_name_focus,
            final(self).edit_id is None,
            final(self).shell == default_shell,
            final(self).working_dir == home_dir,
            blank_connection_fields(*final(self)),
    {
        *self = NewConnectionDialog::default();
        self.open = true;
        self.request_name_focus = true;
        self.shell = default_shell;
        self.working_dir = home_dir;
    }

    /// Opens the dialog to edit `conn`, filled from its values.
    pub fn open_edit(&mut self, conn: &SavedConnection)
        ensures
            final(self).open,
            final(self).request_name_focus,
            final(self).edit_id == Some(conn.id),
            final(self).name == conn.name,
            final(self).conn_type == conn.conn_type,
            final(self).shell@ == or_empty(conn.shell),
            final(self).working_dir@ == or_empty(conn.working_dir),
            final(self).ssh_host@ == or_empty(conn.ssh_host),
            final(self).ssh_port@ == match conn.ssh_port {
                Some(p) => decimal(p as nat),
                None => "22"@,
            },
            final(self).ssh_user@ == or_empty(conn.ssh_user),
            final(self).ssh_password@ == or_empty(conn.ssh_password),
            final(self).serial_port@ == or_empty(conn.serial_port),
            final(self).serial_baud@ == match conn.serial_baud {
                Some(b) => decimal(b as nat),
                None => "115200"@,
            },
            final(self).ble_device@ == or_empty(conn.ble_device),
            final(self).serial_devices@.len() == 0,
            final(self).ble_devices@.len() == 0,
            !final(self).ble_scanning,
            final(self).ble_scan_error is None,
    {
        *self = NewConnectionDialog::default();
        self.open = true;
        self.request_name_focus = true;
        self.edit_id = Some(conn.id.clone());
        self.name = conn.name.clone();
        self.conn_type = conn.conn_type;
        self.shell = copy_or_empty(&conn.shell);
        self.working_dir = copy_or_empty(&conn.working_dir);
        self.ssh_host = copy_or_empty(&conn.ssh_host);
        self.ssh_port = match conn.ssh_port {
            Some(p) => decimal_string(p as u64),
            None => String::from_str("22"),
        };
        self.ssh_user = copy_or_empty(&conn.ssh_user);
        self.ssh_password = copy_or_empty(&conn.ssh_password);
        self.serial_port = copy_or_empty(&conn.serial_port);
        self.serial_baud = match conn.serial_baud {
            Some(b) => decimal_string(b as u64),
            None => String::from_str("115200"),
        };
        self.ble_device = copy_or_empty(&conn.ble_device);
    }

    pub fn is_editing(&self) -> (b: bool)
        ensures
            b == (self.edit_id is Some),
    {
        self.edit_id.is_some()
    }

    /// Closes the dialog and resets every field.
    pub fn close(&mut self)
        ensures
            is_fresh_dialog(*final(self)),
    {
        *self = NewConnectionDialog::default();
    }

    /// Makes sure the connection type is one the platform supports, else switches to
    /// the first one offered.
    pub fn ensure_conn_type_supported(&mut self, support: PlatformSupport)
        ensures
            *final(self) == (NewConnectionDialog {
                conn_type: supported_type(old(self).conn_type, available_types_spec(support)),
                ..*old(self)
            }),
    {
        self.conn_type = supported_conn_type(self.conn_type, support);
    }

    /// Takes the serial devices just enumerated; an empty port takes the first device.
    pub fn refresh_serial_devices(&mut self, devices: Vec<(String, String)>)
        ensures
            *final(self) == (NewConnectionDialog {
                serial_devices: devices,
                serial_port: final(self).serial_port,
                ..*old(self)
            }),
            final(self).serial_port@ == if old(self).serial_port@.len() == 0 && devices@.len() > 0 {
                devices@[0].0@
            } else {
                old(self).serial_port@
            },
    {
        self.serial_devices = devices;
        if self.serial_port.as_str().unicode_len() == 0 && self.serial_devices.len() > 0 {
            self.serial_port = self.serial_devices[0].0.clone();
        }
    }

    /// A request to scan for BLE devices: refused while a scan runs; without
    /// Bluetooth access (the platform asks for it) the dialog says so and no scan
    /// starts; otherwise the last error is cleared and the dialog counts as scanning.
    /// Returns whether a scan starts.
    pub fn start_ble_scan(&mut self, bluetooth_access: bool) -> (started: bool)
        ensures
            started == (!old(self).ble_scanning && bluetooth_access),
            *final(self) == (if old(self).ble_scanning {
                *old(self)
            } else if !bluetooth_access {
                NewConnectionDialog { ble_scan_error: final(self).ble_scan_error, ..*old(self) }
            } else {
                NewConnectionDialog { ble_scanning: true, ble_scan_error: None, ..*old(self) }
            }),
            !old(self).ble_scanning && !bluetooth_access ==> opt_chars(final(self).ble_scan_error)
                == Some(ble_permission_text()),
    {
        if self.ble_scanning {
            return false;
        }
        if !bluetooth_access {
            self.ble_scan_error = Some(ble_permission_message());
            return false;
        }
        self.ble_scan_error = None;
        self.ble_scanning = true;
        true
    }

    /// Takes what a poll of the running BLE scan found.
    pub fn poll_ble_scan(&mut self, event: BleScanEvent)
        ensures
            *final(self) == (NewConnectionDialog {
                ble_scanning: final(self).ble_scanning,
                ble_devices: final(self).ble_devices,
                ble_scan_error: final(self).ble_scan_error,
                ble_device: final(self).ble_device,
                ..*old(self)
            }),
            match event {
                BleScanEvent::Pending => *final(self) == *old(self),
                BleScanEvent::Finished(Ok(devices)) => {
                    &&& !final(self).ble_scanning
                    &&& final(self).ble_devices == devices
                    &&& final(self).ble_scan_error is None
                    &&& final(self).ble_device@ == if old(self).ble_device@.len() == 0 && devices@.len() > 0 {
                        devices@[0]@
                    } else {
                        old(self).ble_device@
                    }
                },
                BleScanEvent::Finished(Err(e)) => {
                    &&& !final(self).ble_scanning
                    &&& final(self).ble_scan_error is Some
                    &&& final(self).ble_scan_error->0@ == "BLE \u{626b}\u{63cf}\u{5931}\u{8d25}\u{ff1a}"@ + e@
                    &&& final(self).ble_devices == old(self).ble_devices
                    &&& final(self).ble_device == old(self).ble_device
                },
                BleScanEvent::Disconnected => {
                    &&& !final(self).ble_scanning
                    &&& final(self).ble_scan_error is Some
                    &&& final(self).ble_scan_error->0@ == "BLE \u{626b}\u{63cf}\u{7ebf}\u{7a0b}\u{610f}\u{5916}\u{9000}\u{51fa}\u{ff0c}\u{8bf7}\u{91cd}\u{8bd5}\u{3002}"@
                    &&& final(self).ble_devices == old(self).ble_devices
                    &&& final(self).ble_device == old(self).ble_device
                },
            },
    {
        match event {
            BleScanEvent::Pending => {},
            BleScanEvent::Finished(Ok(devices)) => {
                self.ble_scanning = false;
                self.ble_devices = devices;
                self.ble_scan_error = None;
                if self.ble_device.as_str().unicode_len() == 0 && self.ble_devices.len() > 0 {
                    self.ble_device = self.ble_devices[0].clone();
                }
            },
            BleScanEvent::Finished(Err(e)) => {
                self.ble_scanning = false;
                let mut msg = String::from_str("BLE \u{626b}\u{63cf}\u{5931}\u{8d25}\u{ff1a}");
                msg.append(e.as_str());
                self.ble_scan_error = Some(msg);
            },
            BleScanEvent::Disconnected => {
                self.ble_scanning = false;
                self.ble_scan_error = Some(
                    String::from_str(
                        "BLE \u{626b}\u{63cf}\u{7ebf}\u{7a0b}\u{610f}\u{5916}\u{9000}\u{51fa}\u{ff0c}\u{8bf7}\u{91cd}\u{8bd5}\u{3002}",
                    ),
                );
            },
        }
    }
}

/// Runtime settings for an active local terminal (shell, cwd, saved profile).
#[derive(Debug)]
pub struct LocalTerminalSettingsDialog {
    pub open: bool,
    /// The workspace session to reconnect after applying (none from the home screen).
    pub session_id: Option<String>,
    /// The saved local profile being edited (none = custom).
    pub profile_id: Option<String>,
    pub shell: String,
    pub working_dir: String,
}

/// What applying the local terminal settings asks for: the saved connection to
/// update (by its row), or a new local connection named `Local Terminal`, with the
/// shell and working directory to store.
#[derive(Clone, Debug)]
pub struct LocalTerminalSettingsApply {
    /// When set, reconnect this workspace session after saving.
    pub session_id: Option<String>,
    /// The row of the saved connection to update; none for a new local connection.
    pub base: Option<usize>,
    /// The shell to store (none: the default shell).
    pub shell: Option<String>,
    /// The working directory to store (none: the default directory).
    pub working_dir: Option<String>,
}

/// A closed dialog with every field empty.
pub open spec fn is_closed_settings(d: LocalTerminalSettingsDialog) -> bool {
    &&& !d.open
    &&& d.session_id is None
    &&& d.profile_id is None
    &&& d.shell@.len() == 0
    &&& d.working_dir@.len() == 0
}

impl Default for LocalTerminalSettingsDialog {
    fn default() -> (d: LocalTerminalSettingsDialog)
        ensures
            is_closed_settings(d),
    {
        LocalTerminalSettingsDialog {
            open: false,
            session_id: None,
            profile_id: None,
            shell: String::new(),
            working_dir: String::new(),
        }
    }
}

/// The characters of an optional borrowed text.
pub open spec fn opt_text(s: Option<&str>) -> Option<Seq<char>> {
    match s {
        Some(x) => Some(x@),
        None => None,
    }
}

/// The shell and working directory the fields show for a saved connection id: those
/// of the first saved connection with that id, else the given values (the default
/// shell and no directory when absent).
pub open spec fn filled_fields(
    conns: Seq<SavedConnection>,
    saved_conn_id: Option<Seq<char>>,
    shell: Option<Seq<char>>,
    working_dir: Option<Seq<char>>,
    default_shell: Seq<char>,
) -> (Seq<char>, Seq<char>) {
    let i = first_conn_index(conns, saved_conn_id, false);
    if saved_conn_id is Some && i >= 0 {
        (or_empty(conns[i].shell), or_empty(conns[i].working_dir))
    } else {
        (
            match shell {
                Some(s) => s,
                None => default_shell,
            },
            match working_dir {
                Some(w) => w,
                None => Seq::empty(),
            },
        )
    }
}

fn owned(s: &str) -> (r: String)
    ensures
        r@ == s@,
{
    String::from_str(s)
}

impl LocalTerminalSettingsDialog {
    /// Opens the dialog for an active local terminal session.
    pub fn open_for(
        &mut self,
        session_id: &str,
        saved_conn_id: Option<&str>,
        shell: Option<&str>,
        working_dir: Option<&str>,
        connections: &[SavedConnection],
        default_shell: &str,
    )
        ensures
            final(self).open,
            opt_chars(final(self).session_id) == Some(session_id@),
            opt_chars(final(self).profile_id) == opt_text(saved_conn_id),
            (final(self).shell@, final(self).working_dir@) == filled_fields(
                connections@,
                opt_text(saved_conn_id),
                opt_text(shell),
                opt_text(working_dir),
                default_shell@,
            ),
    {
        self.open = true;
        self.session_id = Some(owned(session_id));
        self.fill_fields(saved_conn_id, shell, working_dir, connections, default_shell);
    }

    /// Home screen: edit the default local terminal without an active session — the
    /// given default local connection, else the first local one, else the system shell.
    pub fn open_for_home(
        &mut self,
        connections: &[SavedConnection],
        default_local_id: Option<&str>,
        default_shell: &str,
    )
        ensures
            final(self).open,
            final(self).session_id is None,
            match default_local_id {
                Some(id) => {
                    &&& opt_chars(final(self).profile_id) == Some(id@)
                    &&& (final(self).shell@, final(self).working_dir@) == filled_fields(
                        connections@,
                        Some(id@),
                        None,
                        None,
                        default_shell@,
                    )
                },
                None => {
                    let i = first_conn_index(connections@, None, true);
                    if i >= 0 {
                        &&& opt_chars(final(self).profile_id) == Some(connections@[i].id@)
                        &&& (final(self).shell@, final(self).working_dir@) == filled_fields(
                            connections@,
                            Some(connections@[i].id@),
                            None,
                            None,
                            default_shell@,
                        )
                    } else {
                        &&& final(self).profile_id is None
                        &&& final(self).shell@ == default_shell@
                        &&& final(self).working_dir@.len() == 0
                    }
                },
            },
    {
        self.open = true;
        self.session_id = None;
        match default_local_id {
            Some(id) => {
                self.fill_fields(Some(id), None, None, connections, default_shell);
            },
            None => {
                match find_connection(connections, None, true) {
                    Some(i) => {
                        let id = connections[i].id.as_str();
                        self.fill_fields(Some(id), None, None, connections, default_shell);
                    },
                    None => {
                        self.profile_id = None;
                        self.shell = owned(default_shell);
                        self.working_dir = String::new();
                    },
                }
            },
        }
    }

    fn fill_fields(
        &mut self,
        saved_conn_id: Option<&str>,
        shell: Option<&str>,
        working_dir: Option<&str>,
        connections: &[SavedConnection],
        default_shell: &str,
    )
        ensures
            final(self).open == old(self).open,
            final(self).session_id == old(self).session_id,
            opt_chars(final(self).profile_id) == opt_text(saved_conn_id),
            (final(self).shell@, final(self).working_dir@) == filled_fields(
                connections@,
                opt_text(saved_conn_id),
                opt_text(shell),
                opt_text(working_dir),
                default_shell@,
            ),
    {
        self.profile_id = match saved_conn_id {
            Some(s) => Some(owned(s)),
            None => None,
        };
        if let Some(id) = saved_conn_id {
            if let Some(i) = find_connection(connections, Some(id), false) {
                self.shell = copy_or_empty(&connections[i].shell);
                self.working_dir = copy_or_empty(&connections[i].working_dir);
                return;
            }
        }
        self.shell = match shell {
            Some(s) => owned(s),
            None => owned(default_shell),
        };
        self.working_dir = match working_dir {
            Some(w) => owned(w),
            None => String::new(),
        };
    }

    /// Apply: the settings to store (the shell and directory trimmed, none when blank)
    /// on the saved connection with the chosen profile's id (any connection type), or
    /// on a new local connection when there is none; the dialog then closes and
    /// resets.
    pub fn apply(&mut self, connections: &[SavedConnection]) -> (a: LocalTerminalSettingsApply)
        ensures
            a.session_id == old(self).session_id,
            opt_seq(a.shell) == working_dir_of(old(self).shell@),
            opt_seq(a.working_dir) == working_dir_of(old(self).working_dir@),
            ({
                let i = first_conn_index(connections@, opt_chars(old(self).profile_id), false);
                a.base == if old(self).profile_id is Some && i >= 0 {
                    Some(i as usize)
                } else {
                    None::<usize>
                }
            }),
            is_closed_settings(*final(self)),
    {
        let shell = working_dir_from_field(self.shell.as_str());
        let working_dir = working_dir_from_field(self.working_dir.as_str());
        let base = match &self.profile_id {
            Some(id) => find_connection(connections, Some(id.as_str()), false),
            None => None,
        };
        let session_id = self.session_id.take();
        *self = LocalTerminalSettingsDialog::default();
        LocalTerminalSettingsApply { session_id, base, shell, working_dir }
    }

    /// Cancel: the dialog closes and resets.
    pub fn cancel(&mut self)
        ensures
            is_closed_settings(*final(self)),
    {
        *self = LocalTerminalSettingsDialog::default();
    }

    /// Picks the saved local profile `id`: its shell and working directory fill the
    /// fields. Nothing happens when no local connection has that id.
    pub fn load_profile(&mut self, id: &str, connections: &[SavedConnection])
        ensures
            ({
                let i = first_conn_index(connections@, Some(id@), true);
                if i >= 0 {
                    &&& opt_chars(final(self).profile_id) == Some(id@)
                    &&& final(self).shell@ == or_empty(connections@[i].shell)
                    &&& final(self).working_dir@ == or_empty(connections@[i].working_dir)
                } else {
                    &&& final(self).profile_id == old(self).profile_id
                    &&& final(self).shell == old(self).shell
                    &&& final(self).working_dir == old(self).working_dir
                }
            }),
            final(self).open == old(self).open,
            final(self).session_id == old(self).session_id,
    {
        if let Some(i) = find_connection(connections, Some(id), true) {
            self.profile_id = Some(owned(id));
            self.shell = copy_or_empty(&connections[i].shell);
            self.working_dir = copy_or_empty(&connections[i].working_dir);
        }
    }
}

} // verus!
