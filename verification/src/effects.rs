use vstd::prelude::*;

verus! {

/// Identifies an entity of the host UI (a workspace or a sidebar) by the
/// number that the UI framework assigns to it; two handles are equal exactly
/// when their ids are equal.
pub type EntityId = u64;

/// What a registered sidebar asks of the window that holds it.
#[derive(Clone, Copy, Debug, PartialEq, Eq, Structural)]
pub enum SidebarEvent {
    Open,
    Close,
}

/// Work that a state change of a [`crate::multi_workspace::MultiWorkspace`]
/// hands to the host, in the order in which the host is to perform it.
#[derive(Clone, Copy, Debug, PartialEq, Eq, Structural)]
pub enum Effect {
    /// Re-render the window.
    Notify,
    /// Persist the window state: which workspace is active and whether the
    /// sidebar is open.
    Serialize { active_workspace: EntityId, sidebar_open: bool },
    /// Move keyboard focus into the active workspace (a zoomed dock panel if
    /// there is one, see [`crate::focus::focus_target`], else its active pane).
    FocusActiveWorkspace,
    /// Move keyboard focus to the active pane of the active workspace.
    FocusActivePane,
    /// Move keyboard focus to the registered sidebar.
    FocusSidebar,
    /// Tell one workspace whether the window's sidebar is open.
    SetWorkspaceSidebarOpen { workspace: EntityId, open: bool },
    /// Build a new workspace for a new local project, with the application
    /// state of the workspace `template`, and report it back through
    /// `MultiWorkspace::add_created_workspace`.
    CreateWorkspace { template: EntityId },
}

/// The payload of a drag on the sidebar's resize handle.
#[derive(Clone, Copy, Debug, PartialEq, Eq)]
pub struct DraggedSidebar;

/// The payload of a drag on a workspace tab.
#[derive(Clone, Debug)]
pub struct DraggedWorkspaceTab {
    pub workspace: EntityId,
    pub index: usize,
    pub name: String,
}

/// The answer of a workspace that was asked to close so that a project can
/// replace it.
#[derive(Clone, Copy, Debug, PartialEq, Eq, Structural)]
pub enum CloseAnswer {
    /// The workspace agreed to be closed.
    Agreed,
    /// The workspace (or the user) declined.
    Declined,
    /// The request failed, or the workspace was gone before it could answer.
    Failed,
}

/// The next step of opening a project in a window.
#[derive(Clone, Copy, Debug, PartialEq, Eq, Structural)]
pub enum ProjectStep {
    /// Open the paths in `workspace`; the outcome of that is the outcome of
    /// opening the project.
    OpenPaths { workspace: EntityId },
    /// Ask `workspace` to close so that the project replaces it, and continue
    /// with `project::step_after_close_request` on its answer.
    RequestClose { workspace: EntityId },
    /// Stop without opening anything, successfully.
    Done,
    /// Stop without opening anything, with the error of the close request.
    Fail,
}

} // verus!
