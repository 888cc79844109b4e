//! Home page — the sidebar's requests, the recent connections and the subtitle of a
//! saved connection card.

use vstd::prelude::*;

use crate::connection_display::{connection_type_label, connection_type_label_spec};
use crate::function_pane::connections::{connection_detail_spec, push_connection_detail};
use crate::conn_order::{conn_before, sort_rows, sorted_rows, ConnOrder};
use crate::session::SavedConnection;

verus! {

/// Connection subtitle: the type label, then the key details (see
/// [`connection_detail_spec`]), separated by `  ·  `.
pub open spec fn conn_subtitle_spec(conn: SavedConnection) -> Seq<char> {
    connection_type_label_spec(conn.conn_type) + "  \u{b7}  "@ + connection_detail_spec(conn)
}

/// Builds the connection subtitle, combining the connection type and its key details.
pub fn conn_subtitle(conn: &SavedConnection) -> (s: String)
    ensures
        s@ == conn_subtitle_spec(*conn),
{
    let mut s = String::new();
    s.append(connection_type_label(conn.conn_type));
    s.append("  \u{b7}  ");
    push_connection_detail(&mut s, conn);
    assert(s@ =~= conn_subtitle_spec(*conn));
    s
}

/// At most this many connections are listed as recent.
pub const MAX_RECENT_CONNECTIONS: usize = 20;

/// The smaller of two counts.
pub open spec fn min_count(a: nat, b: nat) -> nat {
    if a < b {
        a
    } else {
        b
    }
}

/// The recent connections: the first [`MAX_RECENT_CONNECTIONS`] rows of `conns` in the
/// recent order (most recently connected first, a connection never made counting as
/// the earliest, then by name, then as saved). The result holds row indices.
pub fn recent_connections(conns: &[SavedConnection]) -> (r: Vec<usize>)
    ensures
        sorted_rows(ConnOrder::Recent, conns@, r@),
        r@.len() == min_count(conns@.len(), MAX_RECENT_CONNECTIONS as nat),
        forall|k: usize, a: int|
            k < conns@.len() && !r@.contains(k) && 0 <= a < r@.len() ==> #[trigger] conn_before(
                ConnOrder::Recent,
                conns@,
                r@[a],
                k,
            ),
{
    let mut r = sort_rows(ConnOrder::Recent, conns, None);
    let ghost all = r@;
    proof {
        assert forall|k: usize| k < conns@.len() implies all.contains(k) by {
            assert(all.contains(k) <==> (k < conns@.len() && crate::conn_order::passes(None, conns@[k as int])));
        }
    }
    if r.len() > MAX_RECENT_CONNECTIONS {
        r.truncate(MAX_RECENT_CONNECTIONS);
    }
    proof {
        assert(r@ =~= all.take(r@.len() as int));
        assert forall|k: usize, a: int|
            k < conns@.len() && !r@.contains(k) && 0 <= a < r@.len() implies #[trigger] conn_before(
            ConnOrder::Recent,
            conns@,
            r@[a],
            k,
        ) by {
            assert(all.contains(k));
            let j = choose|j: int| 0 <= j < all.len() && all[j] == k;
            if j < r@.len() {
                assert(r@[j] == k);
                assert(r@.contains(k));
            }
            assert(r@[a] == all[a]);
        }
    }
    r
}


/// Where the home sidebar's navigation asks to go.
#[derive(Clone, Copy, PartialEq, Eq, Debug, Structural)]
pub enum HomeSidebarAction {
    /// Nowhere.
    Idle,
    Home,
    Settings,
}

/// What the session rows of the home sidebar ask for.
#[derive(Debug)]
pub struct SessionRowAction {
    pub select_session: Option<String>,
    pub close_session: Option<String>,
    pub new_window_session: Option<String>,
}

/// What the home sidebar asks for in a frame.
#[derive(Debug)]
pub struct HomeSidebarResult {
    pub nav: HomeSidebarAction,
    pub sessions: SessionRowAction,
}

/// The navigation request of a frame: Settings when it was clicked, else Home when it
/// was clicked, else nothing.
pub fn sidebar_nav(home_clicked: bool, settings_clicked: bool) -> (a: HomeSidebarAction)
    ensures
        a == (if settings_clicked {
            HomeSidebarAction::Settings
        } else if home_clicked {
            HomeSidebarAction::Home
        } else {
            HomeSidebarAction::Idle
        }),
{
    let mut nav = HomeSidebarAction::Idle;
    if home_clicked {
        nav = HomeSidebarAction::Home;
    }
    if settings_clicked {
        nav = HomeSidebarAction::Settings;
    }
    nav
}

} // verus!
