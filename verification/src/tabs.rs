use vstd::prelude::*;
use crate::effects::{DraggedWorkspaceTab, EntityId};
use crate::model::MultiWorkspaceView;
use crate::multi_workspace::MultiWorkspace;

verus! {

/// Where a tab stands relative to the active tab.
#[derive(Clone, Copy, Debug, PartialEq, Eq, Structural)]
pub enum TabOrder {
    Less,
    Equal,
    Greater,
}

/// The place of a tab in the tab bar, which decides its borders.
#[derive(Clone, Copy, Debug, PartialEq, Eq, Structural)]
pub enum TabPosition {
    First,
    Middle(TabOrder),
    Last,
}

/// How one workspace tab is drawn.
#[derive(Clone, Copy, Debug, PartialEq, Eq, Structural)]
pub struct WorkspaceTab {
    pub index: usize,
    pub workspace: EntityId,
    pub is_active: bool,
    pub position: TabPosition,
    /// Whether the tab has a close button (only when there is more than one tab).
    pub closable: bool,
}

/// Which border of a tab marks where a dragged tab would land.
#[derive(Clone, Copy, Debug, PartialEq, Eq, Structural)]
pub enum DropIndicator {
    BorderLeft,
    BorderRight,
    NoBorder,
}

/// What the window shows.
#[derive(Clone, Copy, Debug, PartialEq, Eq, Structural)]
pub struct WindowLayout {
    /// A tab bar over the workspaces.
    pub show_workspace_tabs: bool,
    /// The sidebar, with its resize handle, at the left.
    pub show_sidebar: bool,
    /// The window's left edge tiles against the sidebar.
    pub tiling_left: bool,
}

pub open spec fn tab_order_spec(index: int, active: int) -> TabOrder {
    if index < active {
        TabOrder::Less
    } else if index == active {
        TabOrder::Equal
    } else {
        TabOrder::Greater
    }
}

pub open spec fn tab_position_spec(index: int, total_count: int, active: int) -> TabPosition {
    if index == 0 {
        TabPosition::First
    } else if index == total_count - 1 {
        TabPosition::Last
    } else {
        TabPosition::Middle(tab_order_spec(index, active))
    }
}

pub open spec fn workspace_tab_spec(view: MultiWorkspaceView, index: int) -> WorkspaceTab {
    WorkspaceTab {
        index: index as usize,
        workspace: view.workspaces[index],
        is_active: index == view.active,
        position: tab_position_spec(index, view.workspaces.len() as int, view.active),
        closable: view.workspaces.len() > 1,
    }
}

pub open spec fn drop_indicator_spec(index: int, dragged_index: int) -> DropIndicator {
    if index < dragged_index {
        DropIndicator::BorderLeft
    } else if index > dragged_index {
        DropIndicator::BorderRight
    } else {
        DropIndicator::NoBorder
    }
}

/// The place of the tab at `index` among `total_count` tabs when the tab at
/// `active` is the active one.
pub fn tab_position(index: usize, total_count: usize, active: usize) -> (r: TabPosition)
    requires
        index < total_count,
    ensures
        r == tab_position_spec(index as int, total_count as int, active as int),
{
    if index == 0 {
        TabPosition::First
    } else if index == total_count - 1 {
        TabPosition::Last
    } else {
        let order = if index < active {
            TabOrder::Less
        } else if index == active {
            TabOrder::Equal
        } else {
            TabOrder::Greater
        };
        TabPosition::Middle(order)
    }
}

/// The border that the tab at `index` shows while `dragged` is over it: the
/// left one when the dragged tab comes from further right, the right one when
/// it comes from further left.
pub fn drop_indicator(index: usize, dragged: &DraggedWorkspaceTab) -> (r: DropIndicator)
    ensures
        r == drop_indicator_spec(index as int, dragged.index as int),
{
    if index < dragged.index {
        DropIndicator::BorderLeft
    } else if index > dragged.index {
        DropIndicator::BorderRight
    } else {
        DropIndicator::NoBorder
    }
}

impl MultiWorkspace {
    /// How the tab of the workspace at `index` is drawn.
    pub fn workspace_tab(&self, index: usize) -> (r: WorkspaceTab)
        requires
            index < self@.workspaces.len(),
        ensures
            r == workspace_tab_spec(self@, index as int),
            r.index == index,
            r.workspace == self@.workspaces[index as int],
            r.is_active == (index == self@.active),
            r.closable == (self@.workspaces.len() > 1),
    {
        let workspaces = self.workspaces();
        let active = self.active_workspace_index();
        WorkspaceTab {
            index,
            workspace: workspaces[index],
            is_active: index == active,
            position: tab_position(index, workspaces.len(), active),
            closable: workspaces.len() > 1,
        }
    }

    /// The tabs of all workspaces, in order.
    pub fn workspace_tabs(&self) -> (r: Vec<WorkspaceTab>)
        ensures
            r@.len() == self@.workspaces.len(),
            forall|i: int| 0 <= i < r@.len() ==> #[trigger] r@[i] == workspace_tab_spec(self@, i),
            forall|i: int|
                0 <= i < r@.len() ==> (#[trigger] r@[i]).closable == (self@.workspaces.len() > 1),
    {
        let count = self.workspaces().len();
        let mut tabs: Vec<WorkspaceTab> = Vec::new();
        let mut i: usize = 0;
        while i < count
            invariant
                count == self@.workspaces.len(),
                i <= count,
                tabs@.len() == i,
                forall|j: int| 0 <= j < i ==> #[trigger] tabs@[j] == workspace_tab_spec(self@, j),
            decreases count - i,
        {
            tabs.push(self.workspace_tab(i));
            i = i + 1;
        }
        tabs
    }

    /// What the window shows when the multi-workspace feature is or is not `enabled`.
    pub fn layout(&self, enabled: bool) -> (r: WindowLayout)
        ensures
            r.show_workspace_tabs == (enabled && self@.workspaces.len() > 1),
            r.show_sidebar == (enabled && self@.sidebar_shown()),
            r.tiling_left == (enabled && self@.sidebar_open),
    {
        WindowLayout {
            show_workspace_tabs: enabled && self.workspaces().len() > 1,
            show_sidebar: enabled && self.sidebar_open(),
            tiling_left: enabled && self.is_sidebar_open(),
        }
    }
}

} // verus!
