use vstd::prelude::*;
use crate::effects::{Effect, EntityId, ProjectStep, SidebarEvent};
use crate::laws::{lemma_move_keeps_active_workspace, lemma_remove_keeps_active_workspace};
use crate::operation_laws::{
    law_add_workspace, law_focus_sidebar, law_move_workspace, law_remove_workspace,
    law_toggle_sidebar,
};
use crate::model::{set_sidebar_open_effects, MultiWorkspaceView};

verus! {

/// A window that holds several workspaces, one of them active, and an
/// optional sidebar that can be opened beside them.
///
/// Every method that changes the state appends, to the `fx` vector it is
/// given, the effects that the host is to perform, in order.
pub struct MultiWorkspace {
    workspaces: Vec<EntityId>,
    active_workspace_index: usize,
    sidebar: Option<EntityId>,
    sidebar_open: bool,
}

impl View for MultiWorkspace {
    type V = MultiWorkspaceView;

    closed spec fn view(&self) -> MultiWorkspaceView {
        MultiWorkspaceView {
            workspaces: self.workspaces@,
            active: self.active_workspace_index as int,
            sidebar: self.sidebar,
            sidebar_open: self.sidebar_open,
        }
    }
}

/// Appends one `SetWorkspaceSidebarOpen` effect for each workspace.
fn push_sidebar_open_effects(workspaces: &Vec<EntityId>, open: bool, fx: &mut Vec<Effect>)
    ensures
        final(fx)@ == old(fx)@ + set_sidebar_open_effects(workspaces@, open),
{
    let ghost start = fx@;
    let mut i: usize = 0;
    while i < workspaces.len()
        invariant
            i <= workspaces.len(),
            fx@ == start + set_sidebar_open_effects(workspaces@.take(i as int), open),
        decreases workspaces.len() - i,
    {
        fx.push(Effect::SetWorkspaceSidebarOpen { workspace: workspaces[i], open });
        assert(set_sidebar_open_effects(workspaces@.take(i as int + 1), open)
            =~= set_sidebar_open_effects(workspaces@.take(i as int), open).push(
            Effect::SetWorkspaceSidebarOpen { workspace: workspaces@[i as int], open },
        ));
        i = i + 1;
    }
    assert(workspaces@.take(i as int) =~= workspaces@);
}

impl MultiWorkspace {
    /// At least one workspace, and the active position points at one. Every
    /// value of the type satisfies it.
    #[verifier::type_invariant]
    spec fn well_formed(self) -> bool {
        self@.wf()
    }

    pub open spec fn wf(&self) -> bool {
        self@.wf()
    }

    /// Moves the whole state out of `self`, leaving a one-workspace window in
    /// its place, so that the workspace list can be changed as a value of its
    /// own before the new state is put back in one assignment.
    fn take(&mut self) -> (r: MultiWorkspace)
        ensures
            r@ == old(self)@,
            r@.wf(),
    {
        proof {
            use_type_invariant(&*self);
        }
        let mut taken = MultiWorkspace::new(0);
        core::mem::swap(self, &mut taken);
        taken
    }

    /// A window with `workspace` as its only, active, workspace, no sidebar,
    /// and the sidebar closed.
    pub fn new(workspace: EntityId) -> (r: MultiWorkspace)
        ensures
            r@ == MultiWorkspaceView::initial(workspace),
            r@.workspaces == seq![workspace],
            r@.active == 0,
            r@.sidebar is None,
            !r@.sidebar_open,
            r.wf(),
    {
        let workspaces = vec![workspace];
        assert(workspaces@ =~= seq![workspace]);
        MultiWorkspace { workspaces, active_workspace_index: 0, sidebar: None, sidebar_open: false }
    }

    /// Registers `sidebar` as the window's sidebar, in place of any earlier
    /// one, whose events are no longer heard.
    pub fn register_sidebar(&mut self, sidebar: EntityId)
        ensures
            final(self)@ == old(self)@.with_sidebar(sidebar),
            final(self)@.sidebar == Some(sidebar),
            final(self)@.workspaces == old(self)@.workspaces,
            final(self)@.active == old(self)@.active,
            final(self)@.sidebar_open == old(self)@.sidebar_open,
            final(self).wf(),
    {
        proof {
            use_type_invariant(&*self);
        }
        self.sidebar = Some(sidebar);
    }

    /// The registered sidebar, if any.
    pub fn sidebar(&self) -> (r: Option<EntityId>)
        ensures
            r == self@.sidebar,
    {
        self.sidebar
    }

    /// Whether a sidebar is registered and open.
    pub fn sidebar_open(&self) -> (r: bool)
        ensures
            r == self@.sidebar_shown(),
            r == (self@.sidebar_open && self@.sidebar is Some),
    {
        self.sidebar_open && self.sidebar.is_some()
    }

    /// Whether a sidebar is registered and reports notifications; the
    /// sidebar's own answer is `sidebar_notifies`.
    pub fn sidebar_has_notifications(&self, sidebar_notifies: bool) -> (r: bool)
        ensures
            r == (self@.sidebar is Some && sidebar_notifies),
    {
        match self.sidebar {
            Some(_) => sidebar_notifies,
            None => false,
        }
    }

    /// Whether the sidebar has been asked to be open (registered or not).
    pub fn is_sidebar_open(&self) -> (r: bool)
        ensures
            r == self@.sidebar_open,
    {
        self.sidebar_open
    }

    /// The active workspace.
    pub fn workspace(&self) -> (r: EntityId)
        ensures
            self.wf(),
            r == self@.active_workspace(),
    {
        proof {
            use_type_invariant(self);
        }
        self.workspaces[self.active_workspace_index]
    }

    /// All workspaces, in tab order.
    pub fn workspaces(&self) -> (r: &[EntityId])
        ensures
            self.wf(),
            r@ == self@.workspaces,
    {
        proof {
            use_type_invariant(self);
        }
        self.workspaces.as_slice()
    }

    /// The position of the active workspace.
    pub fn active_workspace_index(&self) -> (r: usize)
        ensures
            self.wf(),
            r == self@.active,
    {
        proof {
            use_type_invariant(self);
        }
        self.active_workspace_index
    }

    fn serialize(&self, fx: &mut Vec<Effect>)
        ensures
            final(fx)@ == old(fx)@.push(self@.serialize_effect()),
    {
        fx.push(
            Effect::Serialize {
                active_workspace: self.workspace(),
                sidebar_open: self.sidebar_open,
            },
        );
    }

    /// Opens the sidebar and tells every workspace so.
    pub fn open_sidebar(&mut self, fx: &mut Vec<Effect>)
        ensures
            final(self).wf(),
            final(self)@ == old(self)@.open_sidebar().0,
            final(fx)@ == old(fx)@ + old(self)@.open_sidebar().1,
    {
        proof {
            use_type_invariant(&*self);
        }
        self.sidebar_open = true;
        push_sidebar_open_effects(&self.workspaces, true, fx);
        self.serialize(fx);
        fx.push(Effect::Notify);
    }

    fn close_sidebar(&mut self, fx: &mut Vec<Effect>)
        ensures
            final(self).wf(),
            final(self)@ == old(self)@.close_sidebar().0,
            final(fx)@ == old(fx)@ + old(self)@.close_sidebar().1,
    {
        proof {
            use_type_invariant(&*self);
        }
        self.sidebar_open = false;
        push_sidebar_open_effects(&self.workspaces, false, fx);
        fx.push(Effect::FocusActivePane);
        self.serialize(fx);
        fx.push(Effect::Notify);
    }

    fn focus_registered_sidebar(&self, fx: &mut Vec<Effect>)
        ensures
            final(fx)@ == old(fx)@ + self@.focus_sidebar_effects(),
    {
        if self.sidebar.is_some() {
            fx.push(Effect::FocusSidebar);
        }
    }

    fn open_and_focus_sidebar(&mut self, fx: &mut Vec<Effect>)
        ensures
            final(self).wf(),
            final(self)@ == old(self)@.open_and_focus_sidebar().0,
            final(fx)@ == old(fx)@ + old(self)@.open_and_focus_sidebar().1,
    {
        self.open_sidebar(fx);
        self.focus_registered_sidebar(fx);
    }

    /// Closes the sidebar if it is open, else opens and focuses it; nothing
    /// happens unless the multi-workspace feature is `enabled`.
    pub fn toggle_sidebar(&mut self, enabled: bool, fx: &mut Vec<Effect>)
        ensures
            final(self).wf(),
            final(self)@ == old(self)@.toggle_sidebar(enabled).0,
            enabled ==> final(self)@.sidebar_open == !old(self)@.sidebar_open,
            !enabled ==> final(self)@ == old(self)@,
            final(self)@.workspaces == old(self)@.workspaces,
            final(self)@.active == old(self)@.active,
            final(fx)@ == old(fx)@ + old(self)@.toggle_sidebar(enabled).1,
    {
        proof {
            use_type_invariant(&*self);
            law_toggle_sidebar(self@, enabled);
        }
        if !enabled {
            assert(fx@ =~= fx@ + Seq::<Effect>::empty());
            return;
        }
        if self.sidebar_open {
            self.close_sidebar(fx);
        } else {
            self.open_and_focus_sidebar(fx);
        }
    }

    /// Moves focus into or out of the sidebar without closing it: an open
    /// sidebar that has focus (`sidebar_is_focused`) hands it to the active
    /// pane, an open one without focus takes it, and a closed one is opened
    /// and focused. Nothing happens unless the feature is `enabled`.
    pub fn focus_sidebar(&mut self, enabled: bool, sidebar_is_focused: bool, fx: &mut Vec<Effect>)
        ensures
            final(self).wf(),
            final(self)@ == old(self)@.focus_sidebar(enabled, sidebar_is_focused).0,
            enabled ==> final(self)@.sidebar_open,
            !enabled ==> final(self)@ == old(self)@,
            final(self)@.workspaces == old(self)@.workspaces,
            final(self)@.active == old(self)@.active,
            final(fx)@ == old(fx)@ + old(self)@.focus_sidebar(enabled, sidebar_is_focused).1,
    {
        proof {
            use_type_invariant(&*self);
            law_focus_sidebar(self@, enabled, sidebar_is_focused);
        }
        if !enabled {
            assert(fx@ =~= fx@ + Seq::<Effect>::empty());
            return;
        }
        if self.sidebar_open {
            if self.sidebar.is_some() && sidebar_is_focused {
                fx.push(Effect::FocusActivePane);
            } else {
                self.focus_registered_sidebar(fx);
            }
        } else {
            self.open_and_focus_sidebar(fx);
        }
    }

    /// Reacts to an `event` that the sidebar `sender` emitted: `Open` toggles
    /// the sidebar and `Close` closes it, when `sender` is the registered
    /// sidebar; events of any other sidebar are ignored.
    pub fn handle_sidebar_event(
        &mut self,
        sender: EntityId,
        event: SidebarEvent,
        enabled: bool,
        fx: &mut Vec<Effect>,
    )
        ensures
            final(self).wf(),
            final(self)@ == old(self)@.on_sidebar_event(sender, event, enabled).0,
            final(fx)@ == old(fx)@ + old(self)@.on_sidebar_event(sender, event, enabled).1,
    {
        proof {
            use_type_invariant(&*self);
        }
        let registered = match self.sidebar {
            Some(sidebar) => sidebar == sender,
            None => false,
        };
        if !registered {
            assert(fx@ =~= fx@ + Seq::<Effect>::empty());
            return;
        }
        match event {
            SidebarEvent::Open => self.toggle_sidebar(enabled, fx),
            SidebarEvent::Close => self.close_sidebar(fx),
        }
    }

    /// Adds `workspace` to the window unless it is already there, without
    /// changing which workspace is active, and returns its position.
    pub fn add_workspace(&mut self, workspace: EntityId, fx: &mut Vec<Effect>) -> (index: usize)
        ensures
            final(self).wf(),
            final(self)@ == old(self)@.add_workspace(workspace).0,
            index == old(self)@.add_workspace(workspace).1,
            index < final(self)@.workspaces.len(),
            final(self)@.workspaces[index as int] == workspace,
            final(self)@.active == old(self)@.active,
            !old(self)@.workspaces.contains(workspace) ==> final(self)@.workspaces == old(
                self,
            )@.workspaces.push(workspace) && index == old(self)@.workspaces.len(),
            old(self)@.workspaces.contains(workspace) ==> final(self)@ == old(self)@,
            final(fx)@ == old(fx)@ + old(self)@.add_workspace(workspace).2,
    {
        proof {
            use_type_invariant(&*self);
            law_add_workspace(self@, workspace);
        }
        let mut i: usize = 0;
        while i < self.workspaces.len()
            invariant
                *self == *old(self),
                self.wf(),
                i <= self.workspaces.len(),
                forall|j: int| 0 <= j < i ==> self.workspaces@[j] != workspace,
            decreases self.workspaces.len() - i,
        {
            if self.workspaces[i] == workspace {
                proof {
                    self.workspaces@.index_of_first_ensures(workspace);
                    let found = self.workspaces@.index_of_first(workspace);
                    assert(self.workspaces@.contains(workspace));
                    assert(found == Some(i as int));
                }
                assert(fx@ =~= fx@ + Seq::<Effect>::empty());
                return i;
            }
            i = i + 1;
        }
        proof {
            self.workspaces@.index_of_first_ensures(workspace);
        }
        assert(!self.workspaces@.contains(workspace));
        let ghost start = fx@;
        if self.sidebar_open {
            fx.push(Effect::SetWorkspaceSidebarOpen { workspace, open: true });
        }
        let MultiWorkspace { mut workspaces, active_workspace_index, sidebar, sidebar_open } =
            self.take();
        workspaces.push(workspace);
        let index = workspaces.len() - 1;
        *self = MultiWorkspace { workspaces, active_workspace_index, sidebar, sidebar_open };
        fx.push(Effect::Notify);
        assert(fx@ =~= start + old(self)@.add_workspace(workspace).2);
        index
    }

    /// Makes `workspace` the active one. With the multi-workspace feature
    /// `enabled`, it is added unless already there; without it, it takes the
    /// place of the first workspace.
    pub fn activate(&mut self, workspace: EntityId, enabled: bool, fx: &mut Vec<Effect>)
        ensures
            final(self).wf(),
            final(self)@ == old(self)@.activate(workspace, enabled).0,
            final(self)@.active_workspace() == workspace,
            final(fx)@ == old(fx)@ + old(self)@.activate(workspace, enabled).1,
    {
        proof {
            use_type_invariant(&*self);
        }
        if !enabled {
            let MultiWorkspace { mut workspaces, active_workspace_index: _, sidebar, sidebar_open } =
                self.take();
            workspaces.set(0, workspace);
            *self = MultiWorkspace { workspaces, active_workspace_index: 0, sidebar, sidebar_open };
            fx.push(Effect::Notify);
            return;
        }
        let index = self.add_workspace(workspace, fx);
        if self.active_workspace_index != index {
            self.active_workspace_index = index;
            fx.push(Effect::Notify);
            assert(fx@ =~= old(fx)@ + old(self)@.activate(workspace, enabled).1);
        }
    }

    /// Makes the workspace at `index` the active one and focuses it.
    pub fn activate_index(&mut self, index: usize, fx: &mut Vec<Effect>)
        requires
            index < old(self)@.workspaces.len(),
        ensures
            final(self).wf(),
            final(self)@ == old(self)@.activate_index(index as int).0,
            final(fx)@ == old(fx)@ + old(self)@.activate_index(index as int).1,
    {
        proof {
            use_type_invariant(&*self);
        }
        self.active_workspace_index = index;
        self.serialize(fx);
        fx.push(Effect::FocusActiveWorkspace);
        fx.push(Effect::Notify);
        assert(fx@ =~= old(fx)@ + old(self)@.activate_index(index as int).1);
    }

    /// Activates the workspace after the active one, wrapping around to the
    /// first; nothing happens with a single workspace.
    pub fn activate_next_workspace(&mut self, fx: &mut Vec<Effect>)
        ensures
            final(self).wf(),
            final(self)@ == old(self)@.activate_next().0,
            final(fx)@ == old(fx)@ + old(self)@.activate_next().1,
    {
        proof {
            use_type_invariant(&*self);
        }
        if self.workspaces.len() > 1 {
            let next_index = (self.active_workspace_index + 1) % self.workspaces.len();
            self.activate_index(next_index, fx);
        } else {
            assert(fx@ =~= fx@ + Seq::<Effect>::empty());
        }
    }

    /// Activates the workspace before the active one, wrapping around to the
    /// last; nothing happens with a single workspace.
    pub fn activate_previous_workspace(&mut self, fx: &mut Vec<Effect>)
        ensures
            final(self).wf(),
            final(self)@ == old(self)@.activate_previous().0,
            final(fx)@ == old(fx)@ + old(self)@.activate_previous().1,
    {
        proof {
            use_type_invariant(&*self);
        }
        if self.workspaces.len() > 1 {
            let prev_index = if self.active_workspace_index == 0 {
                self.workspaces.len() - 1
            } else {
                self.active_workspace_index - 1
            };
            self.activate_index(prev_index, fx);
        } else {
            assert(fx@ =~= fx@ + Seq::<Effect>::empty());
        }
    }

    /// Asks the host, when the feature is `enabled`, for a new workspace built
    /// with the application state of the active one; the host reports it back
    /// through [`Self::add_created_workspace`].
    pub fn create_workspace(&self, enabled: bool, fx: &mut Vec<Effect>)
        ensures
            final(fx)@ == old(fx)@ + self@.create_workspace(enabled),
            enabled ==> final(fx)@.last() == (Effect::CreateWorkspace {
                template: self@.active_workspace(),
            }),
    {
        if enabled {
            fx.push(Effect::CreateWorkspace { template: self.workspace() });
        } else {
            assert(fx@ =~= fx@ + Seq::<Effect>::empty());
        }
    }

    /// Activates a workspace that the host built on a `CreateWorkspace`
    /// effect, and focuses it.
    pub fn add_created_workspace(&mut self, workspace: EntityId, fx: &mut Vec<Effect>)
        ensures
            final(self).wf(),
            final(self)@ == old(self)@.add_created_workspace(workspace).0,
            final(fx)@ == old(fx)@ + old(self)@.add_created_workspace(workspace).1,
    {
        self.activate(workspace, true, fx);
        fx.push(Effect::FocusActiveWorkspace);
        assert(fx@ =~= old(fx)@ + old(self)@.add_created_workspace(workspace).1);
    }

    /// Removes the workspace at `index`, unless it is the only one or `index`
    /// is out of range; the active position follows the workspace it pointed
    /// at, or stays in range if that one was removed.
    pub fn remove_workspace(&mut self, index: usize, fx: &mut Vec<Effect>)
        ensures
            final(self).wf(),
            final(self)@ == old(self)@.remove_workspace(index as int).0,
            index != old(self)@.active ==> final(self)@.active_workspace()
                == old(self)@.active_workspace(),
            1 < old(self)@.workspaces.len() && index < old(self)@.workspaces.len()
                ==> final(self)@.workspaces == old(self)@.workspaces.remove(index as int),
            !(1 < old(self)@.workspaces.len() && index < old(self)@.workspaces.len())
                ==> final(self)@ == old(self)@,
            final(fx)@ == old(fx)@ + old(self)@.remove_workspace(index as int).1,
    {
        proof {
            use_type_invariant(&*self);
            lemma_remove_keeps_active_workspace(self@, index as int);
            law_remove_workspace(self@, index as int);
        }
        if self.workspaces.len() <= 1 || index >= self.workspaces.len() {
            assert(fx@ =~= fx@ + Seq::<Effect>::empty());
            return;
        }
        let MultiWorkspace { mut workspaces, mut active_workspace_index, sidebar, sidebar_open } =
            self.take();
        workspaces.remove(index);
        if active_workspace_index >= workspaces.len() {
            active_workspace_index = workspaces.len() - 1;
        } else if active_workspace_index > index {
            active_workspace_index = active_workspace_index - 1;
        }
        *self = MultiWorkspace { workspaces, active_workspace_index, sidebar, sidebar_open };
        fx.push(Effect::FocusActiveWorkspace);
        fx.push(Effect::Notify);
        assert(fx@ =~= old(fx)@ + old(self)@.remove_workspace(index as int).1);
    }

    /// Moves the workspace at `from_index` to `to_index`, updating the active
    /// position so that the same workspace stays active. Nothing happens when
    /// the positions are equal or out of range.
    pub fn move_workspace(&mut self, from_index: usize, to_index: usize, fx: &mut Vec<Effect>)
        ensures
            final(self).wf(),
            final(self)@ == old(self)@.move_workspace(from_index as int, to_index as int).0,
            final(self)@.active_workspace() == old(self)@.active_workspace(),
            from_index != to_index && from_index < old(self)@.workspaces.len() && to_index < old(
                self,
            )@.workspaces.len() ==> final(self)@.workspaces == old(self)@.workspaces.remove(
                from_index as int,
            ).insert(to_index as int, old(self)@.workspaces[from_index as int]),
            !(from_index != to_index && from_index < old(self)@.workspaces.len() && to_index < old(
                self,
            )@.workspaces.len()) ==> final(self)@ == old(self)@,
            final(fx)@ == old(fx)@ + old(self)@.move_workspace(from_index as int, to_index as int).1,
    {
        proof {
            use_type_invariant(&*self);
            lemma_move_keeps_active_workspace(self@, from_index as int, to_index as int);
            law_move_workspace(self@, from_index as int, to_index as int);
        }
        if from_index == to_index || from_index >= self.workspaces.len() || to_index
            >= self.workspaces.len() {
            assert(fx@ =~= fx@ + Seq::<Effect>::empty());
            return;
        }
        let MultiWorkspace { mut workspaces, mut active_workspace_index, sidebar, sidebar_open } =
            self.take();
        let workspace = workspaces.remove(from_index);
        workspaces.insert(to_index, workspace);
        if active_workspace_index == from_index {
            active_workspace_index = to_index;
        } else if from_index < active_workspace_index && to_index >= active_workspace_index {
            active_workspace_index = active_workspace_index - 1;
        } else if from_index > active_workspace_index && to_index <= active_workspace_index {
            active_workspace_index = active_workspace_index + 1;
        }
        *self = MultiWorkspace { workspaces, active_workspace_index, sidebar, sidebar_open };
        self.serialize(fx);
        fx.push(Effect::Notify);
        assert(fx@ =~= old(fx)@ + old(self)@.move_workspace(from_index as int, to_index as int).1);
    }

    /// The first step of opening a project: with the feature `enabled` the
    /// active workspace opens the paths beside the others; without it, the
    /// active workspace is first asked to close, the project then replacing it.
    pub fn open_project(&self, enabled: bool) -> (r: ProjectStep)
        ensures
            enabled ==> r == (ProjectStep::OpenPaths { workspace: self@.active_workspace() }),
            !enabled ==> r == (ProjectStep::RequestClose { workspace: self@.active_workspace() }),
    {
        let workspace = self.workspace();
        if enabled {
            ProjectStep::OpenPaths { workspace }
        } else {
            ProjectStep::RequestClose { workspace }
        }
    }
}

} // verus!
