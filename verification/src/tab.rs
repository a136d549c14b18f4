//! The navigation tabs and the text field that has the keyboard.

use vstd::prelude::*;

verus! {

/// A navigation tab.
#[derive(Debug, Clone, Copy, PartialEq, Eq, Structural)]
pub enum TabItem {
    Dashboard,
    Peers,
    Devices,
    OpLog,
    DbQuery,
    LogViewer,
    Help,
}

/// How many tabs there are.
pub const TAB_COUNT: usize = 7;

/// The tab at a position in the tab bar; past the end it is the help tab.
pub open spec fn tab_at(index: int) -> TabItem {
    if index == 0 {
        TabItem::Dashboard
    } else if index == 1 {
        TabItem::Peers
    } else if index == 2 {
        TabItem::Devices
    } else if index == 3 {
        TabItem::OpLog
    } else if index == 4 {
        TabItem::DbQuery
    } else if index == 5 {
        TabItem::LogViewer
    } else {
        TabItem::Help
    }
}

impl TabItem {
    /// The position of the tab in the tab bar.
    pub open spec fn position(self) -> int {
        match self {
            TabItem::Dashboard => 0,
            TabItem::Peers => 1,
            TabItem::Devices => 2,
            TabItem::OpLog => 3,
            TabItem::DbQuery => 4,
            TabItem::LogViewer => 5,
            TabItem::Help => 6,
        }
    }

    /// The tab at a position in the tab bar; past the end it is the help tab.
    pub fn from_index(index: usize) -> (tab: Self)
        ensures
            tab == tab_at(index as int),
    {
        match index {
            0 => TabItem::Dashboard,
            1 => TabItem::Peers,
            2 => TabItem::Devices,
            3 => TabItem::OpLog,
            4 => TabItem::DbQuery,
            5 => TabItem::LogViewer,
            _ => TabItem::Help,
        }
    }

    /// The position of the tab in the tab bar.
    pub fn index(self) -> (index: usize)
        ensures
            index == self.position(),
    {
        match self {
            TabItem::Dashboard => 0,
            TabItem::Peers => 1,
            TabItem::Devices => 2,
            TabItem::OpLog => 3,
            TabItem::DbQuery => 4,
            TabItem::LogViewer => 5,
            TabItem::Help => 6,
        }
    }
}

/// Which text field, if any, takes the characters that are typed.
#[derive(Debug, Clone, Copy, PartialEq, Eq, Structural)]
pub enum InputMode {
    Normal,
    EditingQuery,
    EditingAddPeer,
    EditingPairDevice,
    EditingAuthorizeDevice,
}

/// Every tab is found again at its own position, and every position of the tab
/// bar holds the tab that names it.
pub proof fn law_tab_positions(tab: TabItem, index: int)
    ensures
        0 <= tab.position() < TAB_COUNT,
        tab_at(tab.position()) == tab,
        0 <= index < TAB_COUNT ==> tab_at(index).position() == index,
        index >= TAB_COUNT ==> tab_at(index) == TabItem::Help,
{
}

} // verus!
