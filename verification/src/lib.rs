pub mod effects;
pub mod focus;
pub mod laws;
pub mod model;
pub mod multi_workspace;
pub mod operation_laws;
pub mod project;
pub mod tabs;

pub use effects::{DraggedSidebar, DraggedWorkspaceTab, CloseAnswer, Effect, EntityId, ProjectStep, SidebarEvent};
pub use focus::{focus_target, DockFocusState, FocusTarget};
pub use multi_workspace::MultiWorkspace;
pub use project::step_after_close_request;
pub use tabs::{drop_indicator, tab_position, DropIndicator, TabOrder, TabPosition, WindowLayout, WorkspaceTab};
