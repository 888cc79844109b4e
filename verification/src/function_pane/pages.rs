//! Sidebar tab identifiers for the function pane.

use vstd::prelude::*;

verus! {

/// Sidebar tab identifiers.
#[derive(Clone, Copy, PartialEq, Eq, Debug, Structural)]
pub enum FunctionPage {
    /// Active sessions in the workspace.
    Active,
    /// All saved connections.
    Connections,
    /// Favorite commands for quick input.
    Commands,
    /// Single-column files for the focused terminal (wide layout only).
    Files,
    /// One-minute remote performance charts (SSH, wide layout).
    Monitor,
}

impl Default for FunctionPage {
    fn default() -> (p: FunctionPage)
        ensures
            p == FunctionPage::Active,
    {
        FunctionPage::Active
    }
}

/// Tab index of each page.
pub open spec fn tab_id_of(page: FunctionPage) -> nat {
    match page {
        FunctionPage::Active => 0,
        FunctionPage::Connections => 1,
        FunctionPage::Commands => 2,
        FunctionPage::Files => 3,
        FunctionPage::Monitor => 4,
    }
}

/// Page of a tab index; unknown indices fall back to the active page.
pub open spec fn page_of_tab_id(id: nat) -> FunctionPage {
    if id == 1 {
        FunctionPage::Connections
    } else if id == 2 {
        FunctionPage::Commands
    } else if id == 3 {
        FunctionPage::Files
    } else if id == 4 {
        FunctionPage::Monitor
    } else {
        FunctionPage::Active
    }
}

impl FunctionPage {
    pub fn as_tab_id(self) -> (id: usize)
        ensures
            id == tab_id_of(self),
    {
        match self {
            FunctionPage::Active => 0,
            FunctionPage::Connections => 1,
            FunctionPage::Commands => 2,
            FunctionPage::Files => 3,
            FunctionPage::Monitor => 4,
        }
    }

    pub fn from_tab_id(id: usize) -> (page: FunctionPage)
        ensures
            page == page_of_tab_id(id as nat),
    {
        match id {
            1 => FunctionPage::Connections,
            2 => FunctionPage::Commands,
            3 => FunctionPage::Files,
            4 => FunctionPage::Monitor,
            _ => FunctionPage::Active,
        }
    }
}

/// Reading a page back from its tab index gives the same page.
pub proof fn law_tab_id_round_trip(page: FunctionPage)
    ensures
        page_of_tab_id(tab_id_of(page)) == page,
{
}

} // verus!
