//! Saved connections list of the function pane: the detail line under each name.

use vstd::prelude::*;

use crate::conn_order::{passes, sort_rows, sorted_rows, ConnOrder};
use crate::session::{ConnectionType, SavedConnection};
use crate::text::{decimal, push_decimal};

verus! {

/// The characters of an optional text, or `default` when it is absent.
pub open spec fn text_or(s: Option<String>, default: Seq<char>) -> Seq<char> {
    match s {
        Some(x) => x@,
        None => default,
    }
}

/// The key details of a connection:
/// SSH `user@host:port`, serial `port @ baud baud` (or just the port), BLE the device,
/// local `shell · working dir`; absent values are shown by their defaults.
pub open spec fn connection_detail_spec(conn: SavedConnection) -> Seq<char> {
    match conn.conn_type {
        ConnectionType::Ssh => text_or(conn.ssh_user, "root"@) + "@"@ + text_or(conn.ssh_host, "?"@)
            + ":"@ + decimal(
            match conn.ssh_port {
                Some(p) => p as nat,
                None => 22,
            },
        ),
        ConnectionType::Serial => match conn.serial_baud {
            Some(baud) => text_or(conn.serial_port, "?"@) + " @ "@ + decimal(baud as nat) + " baud"@,
            None => text_or(conn.serial_port, "?"@),
        },
        ConnectionType::Ble => text_or(conn.ble_device, "?"@),
        ConnectionType::Local => text_or(conn.shell, "default"@) + " \u{b7} "@ + text_or(
            conn.working_dir,
            "~"@,
        ),
    }
}

fn append_or(out: &mut String, s: &Option<String>, default: &str)
    ensures
        final(out)@ == old(out)@ + text_or(*s, default@),
{
    match s {
        Some(x) => out.append(x.as_str()),
        None => out.append(default),
    }
}

/// Appends the key details of a connection to `out`.
pub fn push_connection_detail(out: &mut String, conn: &SavedConnection)
    ensures
        final(out)@ == old(out)@ + connection_detail_spec(*conn),
{
    let ghost start = out@;
    match conn.conn_type {
        ConnectionType::Ssh => {
            append_or(out, &conn.ssh_user, "root");
            out.append("@");
            append_or(out, &conn.ssh_host, "?");
            out.append(":");
            let port: u16 = match conn.ssh_port {
                Some(p) => p,
                None => 22,
            };
            push_decimal(out, port as u64);
            assert(out@ =~= start + connection_detail_spec(*conn));
        },
        ConnectionType::Serial => {
            append_or(out, &conn.serial_port, "?");
            if let Some(baud) = conn.serial_baud {
                out.append(" @ ");
                push_decimal(out, baud as u64);
                out.append(" baud");
            }
            assert(out@ =~= start + connection_detail_spec(*conn));
        },
        ConnectionType::Ble => {
            append_or(out, &conn.ble_device, "?");
        },
        ConnectionType::Local => {
            append_or(out, &conn.shell, "default");
            out.append(" \u{b7} ");
            append_or(out, &conn.working_dir, "~");
            assert(out@ =~= start + connection_detail_spec(*conn));
        },
    }
}

/// The detail line of a saved connection in the sidebar list.
pub fn conn_subtitle(conn: &SavedConnection) -> (s: String)
    ensures
        s@ == connection_detail_spec(*conn),
{
    let mut s = String::new();
    push_connection_detail(&mut s, conn);
    assert(s@ =~= connection_detail_spec(*conn));
    s
}

/// The rows of the connection list under the type filter `filter`: every saved
/// connection of that type (all without a filter), favorites first, then the most
/// recently connected (never connected last), then by name, then as saved. The
/// result holds row indices.
pub fn listed_connections(conns: &[SavedConnection], filter: Option<ConnectionType>) -> (r: Vec<usize>)
    ensures
        sorted_rows(ConnOrder::Listing, conns@, r@),
        forall|i: usize| #[trigger] r@.contains(i) <==> (i < conns@.len() && passes(filter, conns@[i as int])),
{
    sort_rows(ConnOrder::Listing, conns, filter)
}

} // verus!
