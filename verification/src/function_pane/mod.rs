//! Left function pane — responsive dock/overlay state and which sidebar tabs show.

pub mod connections;
pub mod files_view;
pub mod monitor_view;
pub mod pages;

use vstd::prelude::*;

use crate::function_pane::pages::FunctionPage;

use crate::session::{
    find_session, first_session_with_id, lemma_first_session_with_id, session_id_of, position_of_session, ConnectionType,
    WorkspaceSession,
};

verus! {

/// Width above which the layout counts as wide, in pixels.
pub const WIDE_THRESHOLD: u32 = 720;

/// Default width of the docked function pane, in pixels.
pub const DOCK_WIDTH: u32 = 200;

/// Width of the floating overlay function pane, in pixels.
pub const OVERLAY_WIDTH: u32 = 260;

/// Responsive function pane state (dock / overlay).
#[derive(Clone, Debug)]
pub struct FunctionPane {
    pub wide: bool,
    docked_open: bool,
    overlay_open: bool,
}

/// Model of the function pane: wide layout, docked sidebar open, overlay open.
pub struct FunctionPaneView {
    pub wide: bool,
    pub docked_open: bool,
    pub overlay_open: bool,
}

impl View for FunctionPane {
    type V = FunctionPaneView;

    closed spec fn view(&self) -> FunctionPaneView {
        FunctionPaneView { wide: self.wide, docked_open: self.docked_open, overlay_open: self.overlay_open }
    }
}

/// The docked sidebar shows: wide layout with the dock open.
pub open spec fn docked_visible_spec(p: FunctionPaneView) -> bool {
    p.wide && p.docked_open
}

/// The overlay shows: narrow layout with the overlay open.
pub open spec fn overlay_visible_spec(p: FunctionPaneView) -> bool {
    !p.wide && p.overlay_open
}

/// A click on the hamburger: toggles the dock when wide, the overlay when narrow.
pub open spec fn hamburger_click_spec(p: FunctionPaneView) -> FunctionPaneView {
    if p.wide {
        FunctionPaneView { wide: p.wide, docked_open: !p.docked_open, overlay_open: p.overlay_open }
    } else {
        FunctionPaneView { wide: p.wide, docked_open: p.docked_open, overlay_open: !p.overlay_open }
    }
}

impl FunctionPane {
    pub fn new() -> (p: FunctionPane)
        ensures
            p@ == (FunctionPaneView { wide: false, docked_open: true, overlay_open: false }),
    {
        FunctionPane { wide: false, docked_open: true, overlay_open: false }
    }

    /// Follows the available width (in whole pixels, rounded up); turning wide closes
    /// the overlay.
    pub fn sync_width(&mut self, width: u32)
        ensures
            final(self)@ == (FunctionPaneView {
                wide: width > WIDE_THRESHOLD,
                docked_open: old(self)@.docked_open,
                overlay_open: if width > WIDE_THRESHOLD && !old(self)@.wide {
                    false
                } else {
                    old(self)@.overlay_open
                },
            }),
    {
        let now_wide = width > WIDE_THRESHOLD;
        if now_wide && !self.wide {
            self.overlay_open = false;
        }
        self.wide = now_wide;
    }

    pub fn docked_visible(&self) -> (b: bool)
        ensures
            b == docked_visible_spec(self@),
    {
        self.wide && self.docked_open
    }

    /// Whether the layout is wide.
    pub fn is_wide(&self) -> (b: bool)
        ensures
            b == self@.wide,
    {
        self.wide
    }

    /// Whether the docked sidebar is open (independent of wide layout).
    pub fn docked_open(&self) -> (b: bool)
        ensures
            b == self@.docked_open,
    {
        self.docked_open
    }

    /// Toggles docked sidebar visibility. No-op when not in wide layout.
    pub fn toggle_docked_sidebar(&mut self)
        ensures
            final(self)@ == (if old(self)@.wide {
                FunctionPaneView { wide: true, docked_open: !old(self)@.docked_open, overlay_open: old(self)@.overlay_open }
            } else {
                old(self)@
            }),
    {
        if self.wide {
            self.docked_open = !self.docked_open;
        }
    }

    pub fn overlay_visible(&self) -> (b: bool)
        ensures
            b == overlay_visible_spec(self@),
    {
        !self.wide && self.overlay_open
    }

    /// The content header always offers the hamburger button.
    pub fn show_content_hamburger(&self) -> (b: bool)
        ensures
            b,
    {
        true
    }

    pub fn hamburger_click(&mut self)
        ensures
            final(self)@ == hamburger_click_spec(old(self)@),
    {
        if self.wide {
            self.docked_open = !self.docked_open;
        } else {
            self.overlay_open = !self.overlay_open;
        }
    }

    /// Opens the overlay; no-op in wide layout.
    pub fn open_overlay(&mut self)
        ensures
            final(self)@ == (FunctionPaneView {
                wide: old(self)@.wide,
                docked_open: old(self)@.docked_open,
                overlay_open: if old(self)@.wide {
                    old(self)@.overlay_open
                } else {
                    true
                },
            }),
    {
        if !self.wide {
            self.overlay_open = true;
        }
    }

    pub fn close_overlay(&mut self)
        ensures
            final(self)@ == (FunctionPaneView {
                wide: old(self)@.wide,
                docked_open: old(self)@.docked_open,
                overlay_open: false,
            }),
    {
        self.overlay_open = false;
    }
}

impl Default for FunctionPane {
    fn default() -> (p: FunctionPane)
        ensures
            p@ == (FunctionPaneView { wide: false, docked_open: true, overlay_open: false }),
    {
        FunctionPane::new()
    }
}

/// The docked sidebar and the overlay never show at the same time.
pub proof fn law_dock_and_overlay_exclusive(p: FunctionPaneView)
    ensures
        !(docked_visible_spec(p) && overlay_visible_spec(p)),
{
}

/// Two hamburger clicks give back the state from before.
pub proof fn law_hamburger_click_twice(p: FunctionPaneView)
    ensures
        hamburger_click_spec(hamburger_click_spec(p)) == p,
{
}

/// Split buttons are on when the dock shows and at least two sessions are open.
pub fn split_enabled(pane: &FunctionPane, session_count: usize) -> (b: bool)
    ensures
        b == (docked_visible_spec(pane@) && session_count >= 2),
{
    pane.docked_visible() && session_count >= 2
}

/// Sidebar / pane drag to split — allowed with one session (insert at edge).
pub fn drag_split_enabled(pane: &FunctionPane, session_count: usize) -> (b: bool)
    ensures
        b == (docked_visible_spec(pane@) && session_count >= 1),
{
    pane.docked_visible() && session_count >= 1
}

/// The Files tab shows: wide layout and the focused session (the first session with
/// that id) is a terminal.
pub open spec fn files_tab_visible_spec(
    p: FunctionPaneView,
    sessions: Seq<WorkspaceSession>,
    focused: Option<Seq<char>>,
) -> bool {
    p.wide && match focused {
        Some(id) => match find_session(sessions, id) {
            Some(s) => s is Terminal,
            None => false,
        },
        None => false,
    }
}

/// The Monitor tab shows: wide layout and the focused session is an SSH terminal.
pub open spec fn monitor_tab_visible_spec(
    p: FunctionPaneView,
    sessions: Seq<WorkspaceSession>,
    focused: Option<Seq<char>>,
) -> bool {
    p.wide && match focused {
        Some(id) => match find_session(sessions, id) {
            Some(WorkspaceSession::Terminal(t)) => t.conn_type == ConnectionType::Ssh,
            _ => false,
        },
        None => false,
    }
}

/// The characters of an optional id.
pub open spec fn opt_str_view(s: Option<&str>) -> Option<Seq<char>> {
    match s {
        Some(x) => Some(x@),
        None => None,
    }
}

/// Whether the Files tab should be shown.
pub fn files_tab_visible(
    pane: &FunctionPane,
    sessions: &[WorkspaceSession],
    focused_session_id: Option<&str>,
) -> (b: bool)
    ensures
        b == files_tab_visible_spec(pane@, sessions@, opt_str_view(focused_session_id)),
{
    if !pane.wide {
        return false;
    }
    let id = match focused_session_id {
        Some(id) => id,
        None => {
            return false;
        },
    };
    proof {
        lemma_first_session_with_id(sessions@, id@);
    }
    match position_of_session(sessions, id) {
        Some(i) => sessions[i].is_terminal(),
        None => false,
    }
}

/// Whether the Monitor tab should be shown (SSH terminal focused, wide layout).
pub fn monitor_tab_visible(
    pane: &FunctionPane,
    sessions: &[WorkspaceSession],
    focused_session_id: Option<&str>,
) -> (b: bool)
    ensures
        b == monitor_tab_visible_spec(pane@, sessions@, opt_str_view(focused_session_id)),
{
    if !pane.wide {
        return false;
    }
    let id = match focused_session_id {
        Some(id) => id,
        None => {
            return false;
        },
    };
    proof {
        lemma_first_session_with_id(sessions@, id@);
    }
    match position_of_session(sessions, id) {
        Some(i) => match &sessions[i] {
            WorkspaceSession::Terminal(t) => t.conn_type == ConnectionType::Ssh,
            WorkspaceSession::FileManager(_) => false,
        },
        None => false,
    }
}

/// The first session with id `id` is the one at `k`.
proof fn lemma_first_is(sessions: Seq<WorkspaceSession>, id: Seq<char>, k: int)
    requires
        0 <= k < sessions.len(),
        session_id_of(sessions[k]) == id,
        forall|j: int| 0 <= j < k ==> session_id_of(#[trigger] sessions[j]) != id,
    ensures
        first_session_with_id(sessions, id) == k,
{
    lemma_first_session_with_id(sessions, id);
    let f = first_session_with_id(sessions, id);
    if f != k {
        if f >= 0 && f < k {
            assert(session_id_of(sessions[f]) != id);
        } else {
            assert(session_id_of(sessions[k]) != id);
        }
    }
}

/// The Monitor tab is for SSH terminals only. With the focus on `id`, whose first
/// session is the one at `k`, the tab shows exactly when the layout is wide and that
/// session is a terminal whose connection is SSH: a focused local, serial or BLE
/// terminal, or a file manager, never shows it.
pub proof fn law_monitor_tab_only_for_ssh(
    p: FunctionPaneView,
    sessions: Seq<WorkspaceSession>,
    id: Seq<char>,
    k: int,
)
    requires
        0 <= k < sessions.len(),
        session_id_of(sessions[k]) == id,
        forall|j: int| 0 <= j < k ==> session_id_of(#[trigger] sessions[j]) != id,
    ensures
        monitor_tab_visible_spec(p, sessions, Some(id)) <==> (p.wide && match sessions[k] {
            WorkspaceSession::Terminal(t) => t.conn_type == ConnectionType::Ssh,
            WorkspaceSession::FileManager(_) => false,
        }),
        (sessions[k] matches WorkspaceSession::Terminal(t) && t.conn_type != ConnectionType::Ssh)
            ==> !monitor_tab_visible_spec(p, sessions, Some(id)),
{
    lemma_first_is(sessions, id, k);
}

/// Where the Monitor tab shows, the layout is wide and some session with the focused
/// id is an SSH terminal; without a focus, or with a focus that no session has, it
/// does not show.
pub proof fn law_monitor_tab_needs_focused_ssh_terminal(
    p: FunctionPaneView,
    sessions: Seq<WorkspaceSession>,
    focused: Option<Seq<char>>,
)
    ensures
        monitor_tab_visible_spec(p, sessions, focused) ==> (p.wide && match focused {
            Some(id) => exists|k: int|
                0 <= k < sessions.len() && session_id_of(#[trigger] sessions[k]) == id && match sessions[k] {
                    WorkspaceSession::Terminal(t) => t.conn_type == ConnectionType::Ssh,
                    WorkspaceSession::FileManager(_) => false,
                },
            None => false,
        }),
{
    if let Some(id) = focused {
        lemma_first_session_with_id(sessions, id);
        let f = first_session_with_id(sessions, id);
        if f >= 0 {
            assert(session_id_of(sessions[f]) == id);
        }
    }
}

/// The Monitor tab only shows where the Files tab does.
pub proof fn law_monitor_tab_implies_files_tab(
    p: FunctionPaneView,
    sessions: Seq<WorkspaceSession>,
    focused: Option<Seq<char>>,
)
    ensures
        monitor_tab_visible_spec(p, sessions, focused) ==> files_tab_visible_spec(p, sessions, focused),
{
}

/// The sidebar tabs, in order: Active, Connections, Commands, then Files and Monitor
/// where they show.
pub open spec fn sidebar_tabs_spec(show_files: bool, show_monitor: bool) -> Seq<FunctionPage> {
    let base = seq![FunctionPage::Active, FunctionPage::Connections, FunctionPage::Commands];
    let with_files = if show_files {
        base.push(FunctionPage::Files)
    } else {
        base
    };
    if show_monitor {
        with_files.push(FunctionPage::Monitor)
    } else {
        with_files
    }
}

/// The page the sidebar shows: a Files or Monitor page whose tab is hidden falls back
/// to the active sessions.
pub open spec fn settled_page_spec(page: FunctionPage, show_files: bool, show_monitor: bool) -> FunctionPage {
    if (page == FunctionPage::Files && !show_files) || (page == FunctionPage::Monitor && !show_monitor) {
        FunctionPage::Active
    } else {
        page
    }
}

/// Settles the sidebar page for a frame and gives the tabs to show (see
/// [`sidebar_tabs_spec`] and [`settled_page_spec`]).
pub fn settle_sidebar_page(
    pane: &FunctionPane,
    page: &mut FunctionPage,
    sessions: &[WorkspaceSession],
    focused_session_id: Option<&str>,
) -> (tabs: Vec<FunctionPage>)
    ensures
        ({
            let focused = opt_str_view(focused_session_id);
            let show_files = files_tab_visible_spec(pane@, sessions@, focused);
            let show_monitor = monitor_tab_visible_spec(pane@, sessions@, focused);
            &&& *final(page) == settled_page_spec(*old(page), show_files, show_monitor)
            &&& tabs@ == sidebar_tabs_spec(show_files, show_monitor)
        }),
{
    let show_files = files_tab_visible(pane, sessions, focused_session_id);
    let show_monitor = monitor_tab_visible(pane, sessions, focused_session_id);
    if *page == FunctionPage::Files && !show_files {
        *page = FunctionPage::Active;
    }
    if *page == FunctionPage::Monitor && !show_monitor {
        *page = FunctionPage::Active;
    }
    let mut tabs: Vec<FunctionPage> = Vec::new();
    tabs.push(FunctionPage::Active);
    tabs.push(FunctionPage::Connections);
    tabs.push(FunctionPage::Commands);
    if show_files {
        tabs.push(FunctionPage::Files);
    }
    if show_monitor {
        tabs.push(FunctionPage::Monitor);
    }
    assert(tabs@ =~= sidebar_tabs_spec(show_files, show_monitor));
    tabs
}

/// The settled page is always one of the tabs shown.
pub proof fn law_settled_page_is_a_tab(page: FunctionPage, show_files: bool, show_monitor: bool)
    ensures
        sidebar_tabs_spec(show_files, show_monitor).contains(settled_page_spec(page, show_files, show_monitor)),
{
    let tabs = sidebar_tabs_spec(show_files, show_monitor);
    let p = settled_page_spec(page, show_files, show_monitor);
    match p {
        FunctionPage::Active => assert(tabs[0] == p),
        FunctionPage::Connections => assert(tabs[1] == p),
        FunctionPage::Commands => assert(tabs[2] == p),
        FunctionPage::Files => assert(tabs[3] == p),
        FunctionPage::Monitor => assert(tabs[tabs.len() - 1] == p),
    }
}

} // verus!
