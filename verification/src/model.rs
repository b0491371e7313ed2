use vstd::prelude::*;
use crate::effects::{Effect, EntityId, SidebarEvent};

verus! {

/// The mathematical state of a window that holds several workspaces.
pub struct MultiWorkspaceView {
    /// The workspaces, in tab order.
    pub workspaces: Seq<EntityId>,
    /// The position of the active workspace in `workspaces`.
    pub active: int,
    /// The registered sidebar, if any.
    pub sidebar: Option<EntityId>,
    /// Whether the sidebar has been asked to be open.
    pub sidebar_open: bool,
}

/// One `SetWorkspaceSidebarOpen` effect for each workspace, in order.
pub open spec fn set_sidebar_open_effects(workspaces: Seq<EntityId>, open: bool) -> Seq<Effect> {
    Seq::new(
        workspaces.len(),
        |i: int| Effect::SetWorkspaceSidebarOpen { workspace: workspaces[i], open },
    )
}

/// `workspaces` with the element at `from` taken out and put back at `to`.
pub open spec fn moved(workspaces: Seq<EntityId>, from: int, to: int) -> Seq<EntityId> {
    workspaces.remove(from).insert(to, workspaces[from])
}

/// Where the element at `active` stands after the element at `from` moved to `to`.
pub open spec fn index_after_move(active: int, from: int, to: int) -> int {
    if active == from {
        to
    } else if from < active && to >= active {
        active - 1
    } else if from > active && to <= active {
        active + 1
    } else {
        active
    }
}

/// The active position after the element at `index` was removed, leaving
/// `new_len` elements.
pub open spec fn index_after_remove(active: int, index: int, new_len: int) -> int {
    if active >= new_len {
        new_len - 1
    } else if active > index {
        active - 1
    } else {
        active
    }
}

impl MultiWorkspaceView {
    pub open spec fn initial(workspace: EntityId) -> MultiWorkspaceView {
        MultiWorkspaceView {
            workspaces: seq![workspace],
            active: 0,
            sidebar: None,
            sidebar_open: false,
        }
    }

    /// At least one workspace, and the active position points at one.
    pub open spec fn wf(self) -> bool {
        &&& self.workspaces.len() > 0
        &&& 0 <= self.active < self.workspaces.len()
    }

    /// No workspace occurs twice.
    pub open spec fn distinct(self) -> bool {
        self.workspaces.no_duplicates()
    }

    pub open spec fn active_workspace(self) -> EntityId {
        self.workspaces[self.active]
    }

    /// The sidebar is open and there is a sidebar to show.
    pub open spec fn sidebar_shown(self) -> bool {
        self.sidebar_open && self.sidebar is Some
    }

    pub open spec fn with_active(self, active: int) -> MultiWorkspaceView {
        MultiWorkspaceView { active, ..self }
    }

    pub open spec fn with_sidebar_open(self, open: bool) -> MultiWorkspaceView {
        MultiWorkspaceView { sidebar_open: open, ..self }
    }

    pub open spec fn with_sidebar(self, sidebar: EntityId) -> MultiWorkspaceView {
        MultiWorkspaceView { sidebar: Some(sidebar), ..self }
    }

    pub open spec fn serialize_effect(self) -> Effect {
        Effect::Serialize { active_workspace: self.active_workspace(), sidebar_open: self.sidebar_open }
    }

    pub open spec fn focus_sidebar_effects(self) -> Seq<Effect> {
        if self.sidebar is Some {
            seq![Effect::FocusSidebar]
        } else {
            seq![]
        }
    }

    pub open spec fn open_sidebar(self) -> (MultiWorkspaceView, Seq<Effect>) {
        let next = self.with_sidebar_open(true);
        (
            next,
            set_sidebar_open_effects(self.workspaces, true).push(next.serialize_effect()).push(
                Effect::Notify,
            ),
        )
    }

    pub open spec fn close_sidebar(self) -> (MultiWorkspaceView, Seq<Effect>) {
        let next = self.with_sidebar_open(false);
        (
            next,
            set_sidebar_open_effects(self.workspaces, false).push(Effect::FocusActivePane).push(
                next.serialize_effect(),
            ).push(Effect::Notify),
        )
    }

    /// Open the sidebar and focus it.
    pub open spec fn open_and_focus_sidebar(self) -> (MultiWorkspaceView, Seq<Effect>) {
        let (next, fx) = self.open_sidebar();
        (next, fx + next.focus_sidebar_effects())
    }

    pub open spec fn toggle_sidebar(self, enabled: bool) -> (MultiWorkspaceView, Seq<Effect>) {
        if !enabled {
            (self, seq![])
        } else if self.sidebar_open {
            self.close_sidebar()
        } else {
            self.open_and_focus_sidebar()
        }
    }

    pub open spec fn focus_sidebar(self, enabled: bool, sidebar_is_focused: bool) -> (
        MultiWorkspaceView,
        Seq<Effect>,
    ) {
        if !enabled {
            (self, seq![])
        } else if self.sidebar_open {
            if self.sidebar is Some && sidebar_is_focused {
                (self, seq![Effect::FocusActivePane])
            } else {
                (self, self.focus_sidebar_effects())
            }
        } else {
            self.open_and_focus_sidebar()
        }
    }

    /// An event that `sender` emitted: only the registered sidebar is heard.
    pub open spec fn on_sidebar_event(self, sender: EntityId, event: SidebarEvent, enabled: bool) -> (
        MultiWorkspaceView,
        Seq<Effect>,
    ) {
        if self.sidebar != Some(sender) {
            (self, seq![])
        } else {
            match event {
                SidebarEvent::Open => self.toggle_sidebar(enabled),
                SidebarEvent::Close => self.close_sidebar(),
            }
        }
    }

    /// The state, the position of `workspace`, and the effects, after adding
    /// `workspace` unless it is already there.
    pub open spec fn add_workspace(self, workspace: EntityId) -> (MultiWorkspaceView, int, Seq<Effect>) {
        match self.workspaces.index_of_first(workspace) {
            Some(index) => (self, index, seq![]),
            None => (
                MultiWorkspaceView { workspaces: self.workspaces.push(workspace), ..self },
                self.workspaces.len() as int,
                if self.sidebar_open {
                    seq![Effect::SetWorkspaceSidebarOpen { workspace, open: true }, Effect::Notify]
                } else {
                    seq![Effect::Notify]
                },
            ),
        }
    }

    pub open spec fn activate(self, workspace: EntityId, enabled: bool) -> (
        MultiWorkspaceView,
        Seq<Effect>,
    ) {
        if !enabled {
            (
                MultiWorkspaceView {
                    workspaces: self.workspaces.update(0, workspace),
                    active: 0,
                    ..self
                },
                seq![Effect::Notify],
            )
        } else {
            let (added, index, fx) = self.add_workspace(workspace);
            if added.active != index {
                (added.with_active(index), fx.push(Effect::Notify))
            } else {
                (added, fx)
            }
        }
    }

    pub open spec fn activate_index(self, index: int) -> (MultiWorkspaceView, Seq<Effect>) {
        let next = self.with_active(index);
        (next, seq![next.serialize_effect(), Effect::FocusActiveWorkspace, Effect::Notify])
    }

    pub open spec fn next_index(self) -> int {
        (self.active + 1) % (self.workspaces.len() as int)
    }

    pub open spec fn previous_index(self) -> int {
        if self.active == 0 {
            self.workspaces.len() - 1
        } else {
            self.active - 1
        }
    }

    pub open spec fn activate_next(self) -> (MultiWorkspaceView, Seq<Effect>) {
        if self.workspaces.len() > 1 {
            self.activate_index(self.next_index())
        } else {
            (self, seq![])
        }
    }

    pub open spec fn activate_previous(self) -> (MultiWorkspaceView, Seq<Effect>) {
        if self.workspaces.len() > 1 {
            self.activate_index(self.previous_index())
        } else {
            (self, seq![])
        }
    }

    pub open spec fn create_workspace(self, enabled: bool) -> Seq<Effect> {
        if enabled {
            seq![Effect::CreateWorkspace { template: self.active_workspace() }]
        } else {
            seq![]
        }
    }

    pub open spec fn add_created_workspace(self, workspace: EntityId) -> (
        MultiWorkspaceView,
        Seq<Effect>,
    ) {
        let (next, fx) = self.activate(workspace, true);
        (next, fx.push(Effect::FocusActiveWorkspace))
    }

    pub open spec fn remove_workspace(self, index: int) -> (MultiWorkspaceView, Seq<Effect>) {
        let len = self.workspaces.len() as int;
        if len <= 1 || index < 0 || index >= len {
            (self, seq![])
        } else {
            (
                MultiWorkspaceView {
                    workspaces: self.workspaces.remove(index),
                    active: index_after_remove(self.active, index, len - 1),
                    ..self
                },
                seq![Effect::FocusActiveWorkspace, Effect::Notify],
            )
        }
    }

    pub open spec fn move_workspace(self, from: int, to: int) -> (MultiWorkspaceView, Seq<Effect>) {
        let len = self.workspaces.len() as int;
        if from == to || from < 0 || to < 0 || from >= len || to >= len {
            (self, seq![])
        } else {
            let next = MultiWorkspaceView {
                workspaces: moved(self.workspaces, from, to),
                active: index_after_move(self.active, from, to),
                ..self
            };
            (next, seq![next.serialize_effect(), Effect::Notify])
        }
    }
}

} // verus!
