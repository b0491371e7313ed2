use vstd::prelude::*;
use crate::effects::{Effect, EntityId, SidebarEvent};
use crate::laws::{
    lemma_add_workspace_idempotent, lemma_move_keeps_active_workspace, lemma_moved_index,
    lemma_remove_keeps_active_workspace, source_of_moved,
};
use crate::model::MultiWorkspaceView;
use crate::tabs::{
    drop_indicator_spec, tab_position_spec, workspace_tab_spec, DropIndicator, TabOrder,
    TabPosition,
};

verus! {

/// Moving the workspace at `from` to `to` (both in range and different)
/// takes it out and puts it back at `to`: the workspace at `to` is the one
/// that was at `from`, the ones in between shift by one towards `from`, all
/// others stay put. The same workspace stays active, the sidebar is
/// untouched, and the new state is persisted, then the window re-rendered.
/// Out-of-range or equal positions change nothing and cause no effect.
pub proof fn law_move_workspace(s: MultiWorkspaceView, from: int, to: int)
    requires
        s.wf(),
    ensures
        ({
            let (r, fx) = s.move_workspace(from, to);
            let ws = s.workspaces;
            let len = ws.len() as int;
            if 0 <= from < len && 0 <= to < len && from != to {
                &&& r.workspaces == ws.remove(from).insert(to, ws[from])
                &&& r.workspaces.len() == len
                &&& r.workspaces[to] == ws[from]
                &&& forall|k: int|
                    0 <= k < len ==> #[trigger] r.workspaces[k] == (if k == to {
                        ws[from]
                    } else if from < to && from <= k < to {
                        ws[k + 1]
                    } else if to < from && to < k <= from {
                        ws[k - 1]
                    } else {
                        ws[k]
                    })
                &&& s.distinct() ==> r.workspaces != ws
                &&& r.wf()
                &&& r.active_workspace() == s.active_workspace()
                &&& (s.active == from <==> r.active == to)
                &&& (from < s.active <= to ==> r.active == s.active - 1)
                &&& (to <= s.active < from ==> r.active == s.active + 1)
                &&& ((s.active < from && s.active < to) || (s.active > from && s.active > to))
                    ==> r.active == s.active
                &&& r.sidebar == s.sidebar
                &&& r.sidebar_open == s.sidebar_open
                &&& fx == seq![
                    Effect::Serialize {
                        active_workspace: s.active_workspace(),
                        sidebar_open: s.sidebar_open,
                    },
                    Effect::Notify,
                ]
            } else {
                r == s && fx == Seq::<Effect>::empty()
            }
        }),
{
    let ws = s.workspaces;
    let len = ws.len() as int;
    lemma_move_keeps_active_workspace(s, from, to);
    if 0 <= from < len && 0 <= to < len && from != to {
        lemma_moved_index(ws, from, to);
        let r = s.move_workspace(from, to).0;
        assert forall|k: int| 0 <= k < len implies #[trigger] r.workspaces[k] == (if k == to {
            ws[from]
        } else if from < to && from <= k < to {
            ws[k + 1]
        } else if to < from && to < k <= from {
            ws[k - 1]
        } else {
            ws[k]
        }) by {
            assert(r.workspaces[k] == ws[source_of_moved(k, from, to)]);
        }
        if s.distinct() {
            assert(r.workspaces[to] == ws[from]);
            assert(ws[to] != ws[from]);
        }
    }
}

/// Removing the workspace at `index`, when there are several and `index` is
/// in range, takes out exactly that workspace: the ones before it stay put,
/// the ones after it shift down by one. The sidebar is untouched; the active
/// workspace is focused and the window re-rendered. Otherwise nothing
/// changes and nothing happens.
pub proof fn law_remove_workspace(s: MultiWorkspaceView, index: int)
    requires
        s.wf(),
    ensures
        ({
            let (r, fx) = s.remove_workspace(index);
            let ws = s.workspaces;
            let len = ws.len() as int;
            if 1 < len && 0 <= index < len {
                &&& r.workspaces == ws.remove(index)
                &&& r.workspaces.len() == len - 1
                &&& forall|k: int| 0 <= k < index ==> #[trigger] r.workspaces[k] == ws[k]
                &&& forall|k: int| index <= k < len - 1 ==> #[trigger] r.workspaces[k] == ws[k + 1]
                &&& r.wf()
                &&& index != s.active ==> r.active_workspace() == s.active_workspace()
                &&& index == s.active ==> r.active == (if index == len - 1 {
                    len - 2
                } else {
                    index
                })
                &&& r.sidebar == s.sidebar
                &&& r.sidebar_open == s.sidebar_open
                &&& fx == seq![Effect::FocusActiveWorkspace, Effect::Notify]
            } else {
                r == s && fx == Seq::<Effect>::empty()
            }
        }),
{
    lemma_remove_keeps_active_workspace(s, index);
    let len = s.workspaces.len() as int;
    if 1 < len && 0 <= index < len {
        s.workspaces.remove_ensures(index);
    }
}

/// Adding a workspace that is not in the window appends it at the end and
/// yields the old length; one that is already there changes nothing and
/// yields its first position. The active workspace and the sidebar are never
/// changed.
pub proof fn law_add_workspace(s: MultiWorkspaceView, w: EntityId)
    requires
        s.wf(),
    ensures
        ({
            let (r, index, fx) = s.add_workspace(w);
            let ws = s.workspaces;
            &&& r.wf()
            &&& r.active == s.active
            &&& r.sidebar == s.sidebar
            &&& r.sidebar_open == s.sidebar_open
            &&& 0 <= index < r.workspaces.len()
            &&& r.workspaces[index] == w
            &&& if ws.contains(w) {
                &&& r.workspaces == ws
                &&& forall|j: int| 0 <= j < index ==> ws[j] != w
                &&& fx == Seq::<Effect>::empty()
            } else {
                &&& r.workspaces == ws.push(w)
                &&& r.workspaces.len() == ws.len() + 1
                &&& index == ws.len()
                &&& fx == if s.sidebar_open {
                    seq![Effect::SetWorkspaceSidebarOpen { workspace: w, open: true }, Effect::Notify]
                } else {
                    seq![Effect::Notify]
                }
            }
        }),
{
    lemma_add_workspace_idempotent(s, w);
    s.workspaces.index_of_first_ensures(w);
}

/// Activating `w` with the feature enabled keeps every workspace and adds `w`
/// at the end if it was missing, then makes `w` active; without the feature
/// `w` takes the place of the first workspace, which becomes active.
pub proof fn law_activate(s: MultiWorkspaceView, w: EntityId, enabled: bool)
    requires
        s.wf(),
    ensures
        ({
            let (r, fx) = s.activate(w, enabled);
            let ws = s.workspaces;
            &&& r.wf()
            &&& r.active_workspace() == w
            &&& r.sidebar == s.sidebar
            &&& r.sidebar_open == s.sidebar_open
            &&& if enabled {
                &&& r.workspaces == if ws.contains(w) { ws } else { ws.push(w) }
                &&& ws.contains(w) ==> forall|j: int| 0 <= j < r.active ==> ws[j] != w
                &&& !ws.contains(w) ==> r.active == ws.len()
                &&& !ws.contains(w) ==> fx == if s.sidebar_open {
                    seq![
                        Effect::SetWorkspaceSidebarOpen { workspace: w, open: true },
                        Effect::Notify,
                        Effect::Notify,
                    ]
                } else {
                    seq![Effect::Notify, Effect::Notify]
                }
                &&& ws.contains(w) ==> fx == if r.active == s.active {
                    Seq::<Effect>::empty()
                } else {
                    seq![Effect::Notify]
                }
                &&& (s.distinct() && s.active_workspace() == w) ==> (r == s && fx
                    == Seq::<Effect>::empty())
            } else {
                &&& r.workspaces == ws.update(0, w)
                &&& r.active == 0
                &&& fx == seq![Effect::Notify]
            }
        }),
{
    lemma_add_workspace_idempotent(s, w);
    s.workspaces.index_of_first_ensures(w);
    if s.distinct() && s.active_workspace() == w {
        assert(s.workspaces.contains(w));
        let i = s.workspaces.index_of_first(w).unwrap();
        assert(s.workspaces[i] == s.workspaces[s.active]);
    }
}

/// Activating the workspace at `index` makes it active, keeps the workspaces
/// and sidebar, persists, focuses the workspace and re-renders.
pub proof fn law_activate_index(s: MultiWorkspaceView, index: int)
    requires
        s.wf(),
        0 <= index < s.workspaces.len(),
    ensures
        ({
            let (r, fx) = s.activate_index(index);
            &&& r.wf()
            &&& r.active == index
            &&& r.workspaces == s.workspaces
            &&& r.sidebar == s.sidebar
            &&& r.sidebar_open == s.sidebar_open
            &&& fx == seq![
                Effect::Serialize {
                    active_workspace: s.workspaces[index],
                    sidebar_open: s.sidebar_open,
                },
                Effect::FocusActiveWorkspace,
                Effect::Notify,
            ]
        }),
{
}

/// The next workspace is the one after the active one, or the first after
/// the last; the previous one is the one before, or the last before the
/// first. With a single workspace neither step changes or does anything.
pub proof fn law_next_and_previous(s: MultiWorkspaceView)
    requires
        s.wf(),
    ensures
        ({
            let (n, nfx) = s.activate_next();
            let (p, pfx) = s.activate_previous();
            let len = s.workspaces.len() as int;
            if len > 1 {
                &&& n == s.activate_index(if s.active + 1 == len { 0 } else { s.active + 1 }).0
                &&& n.active == if s.active + 1 == len { 0 } else { s.active + 1 }
                &&& p.active == if s.active == 0 { len - 1 } else { s.active - 1 }
                &&& n.workspaces == s.workspaces && p.workspaces == s.workspaces
                &&& nfx == seq![
                    Effect::Serialize {
                        active_workspace: s.workspaces[n.active],
                        sidebar_open: s.sidebar_open,
                    },
                    Effect::FocusActiveWorkspace,
                    Effect::Notify,
                ]
                &&& pfx == seq![
                    Effect::Serialize {
                        active_workspace: s.workspaces[p.active],
                        sidebar_open: s.sidebar_open,
                    },
                    Effect::FocusActiveWorkspace,
                    Effect::Notify,
                ]
            } else {
                &&& n == s && nfx == Seq::<Effect>::empty()
                &&& p == s && pfx == Seq::<Effect>::empty()
            }
        }),
{
    let len = s.workspaces.len() as int;
    if len > 1 {
        if s.active + 1 < len {
            vstd::arithmetic::div_mod::lemma_small_mod((s.active + 1) as nat, len as nat);
        } else {
            vstd::arithmetic::div_mod::lemma_mod_self_0(len);
        }
    }
}

/// Opening the sidebar tells each workspace, in order, that it is open, then
/// persists the state with the sidebar open and re-renders; closing it does
/// the same with "closed" and moves focus back to the active pane before
/// persisting. Nothing but the open flag changes.
pub proof fn law_open_and_close_sidebar(s: MultiWorkspaceView)
    requires
        s.wf(),
    ensures
        ({
            let (o, ofx) = s.open_sidebar();
            let (c, cfx) = s.close_sidebar();
            let len = s.workspaces.len() as int;
            &&& o.sidebar_open && !c.sidebar_open
            &&& o.workspaces == s.workspaces && c.workspaces == s.workspaces
            &&& o.active == s.active && c.active == s.active
            &&& o.sidebar == s.sidebar && c.sidebar == s.sidebar
            &&& ofx.len() == len + 2
            &&& forall|i: int|
                0 <= i < len ==> #[trigger] ofx[i] == (Effect::SetWorkspaceSidebarOpen {
                    workspace: s.workspaces[i],
                    open: true,
                })
            &&& ofx[len] == (Effect::Serialize {
                active_workspace: s.active_workspace(),
                sidebar_open: true,
            })
            &&& ofx[len + 1] == Effect::Notify
            &&& cfx.len() == len + 3
            &&& forall|i: int|
                0 <= i < len ==> #[trigger] cfx[i] == (Effect::SetWorkspaceSidebarOpen {
                    workspace: s.workspaces[i],
                    open: false,
                })
            &&& cfx[len] == Effect::FocusActivePane
            &&& cfx[len + 1] == (Effect::Serialize {
                active_workspace: s.active_workspace(),
                sidebar_open: false,
            })
            &&& cfx[len + 2] == Effect::Notify
        }),
{
}

/// With the feature enabled, toggling flips whether the sidebar is open;
/// opening it ends by focusing the sidebar if one is registered, closing it
/// hands focus to the active pane. Workspaces and active position never
/// change. Without the feature nothing changes or happens.
pub proof fn law_toggle_sidebar(s: MultiWorkspaceView, enabled: bool)
    requires
        s.wf(),
    ensures
        ({
            let (r, fx) = s.toggle_sidebar(enabled);
            let len = s.workspaces.len() as int;
            if enabled {
                &&& r.sidebar_open == !s.sidebar_open
                &&& r.workspaces == s.workspaces
                &&& r.active == s.active
                &&& r.sidebar == s.sidebar
                &&& !s.sidebar_open ==> (s.sidebar is Some <==> fx.last() == Effect::FocusSidebar)
                &&& !s.sidebar_open ==> fx.len() == len + 2 + (if s.sidebar is Some { 1int } else { 0 })
                &&& s.sidebar_open ==> fx.contains(Effect::FocusActivePane)
                &&& s.sidebar_open ==> !fx.contains(Effect::FocusSidebar)
                &&& s.sidebar_open ==> (r, fx) == s.close_sidebar()
                &&& !s.sidebar_open ==> r == s.open_sidebar().0
                &&& !s.sidebar_open ==> fx == s.open_sidebar().1 + if s.sidebar is Some {
                    seq![Effect::FocusSidebar]
                } else {
                    Seq::<Effect>::empty()
                }
            } else {
                r == s && fx == Seq::<Effect>::empty()
            }
        }),
{
    let len = s.workspaces.len() as int;
    if enabled && s.sidebar_open {
        let fx = s.toggle_sidebar(enabled).1;
        assert(fx[len] == Effect::FocusActivePane);
        assert forall|i: int| 0 <= i < fx.len() implies fx[i] != Effect::FocusSidebar by {
            if i < len {
                assert(fx[i] == (Effect::SetWorkspaceSidebarOpen {
                    workspace: s.workspaces[i],
                    open: false,
                }));
            }
        }
    }
}

/// With the feature enabled, focusing the sidebar always leaves it open:
/// a closed sidebar is opened (every workspace told so) and focused; an open
/// one keeps open, handing focus to the active pane if it held it, else
/// taking it. Workspaces and active position never change. Without the
/// feature nothing changes or happens.
pub proof fn law_focus_sidebar(s: MultiWorkspaceView, enabled: bool, sidebar_is_focused: bool)
    requires
        s.wf(),
    ensures
        ({
            let (r, fx) = s.focus_sidebar(enabled, sidebar_is_focused);
            let len = s.workspaces.len() as int;
            if enabled {
                &&& r.sidebar_open
                &&& r.workspaces == s.workspaces
                &&& r.active == s.active
                &&& r.sidebar == s.sidebar
                &&& !s.sidebar_open ==> {
                    &&& fx.len() == len + 2 + (if s.sidebar is Some { 1int } else { 0 })
                    &&& forall|i: int|
                        0 <= i < len ==> #[trigger] fx[i] == (Effect::SetWorkspaceSidebarOpen {
                            workspace: s.workspaces[i],
                            open: true,
                        })
                    &&& (s.sidebar is Some <==> fx.last() == Effect::FocusSidebar)
                    &&& (r, fx) == s.toggle_sidebar(true)
                }
                &&& s.sidebar_open ==> (fx == if s.sidebar is Some && sidebar_is_focused {
                    seq![Effect::FocusActivePane]
                } else if s.sidebar is Some {
                    seq![Effect::FocusSidebar]
                } else {
                    Seq::<Effect>::empty()
                })
            } else {
                r == s && fx == Seq::<Effect>::empty()
            }
        }),
{
    let len = s.workspaces.len() as int;
    if enabled && !s.sidebar_open {
        let fx = s.focus_sidebar(enabled, sidebar_is_focused).1;
        assert forall|i: int| 0 <= i < len implies #[trigger] fx[i] == (
        Effect::SetWorkspaceSidebarOpen { workspace: s.workspaces[i], open: true }) by {
            assert(s.open_sidebar().1[i] == fx[i]);
        }
    }
}

/// A sidebar event from the registered sidebar: `Open` flips whether it is
/// open when the feature is enabled (and does nothing otherwise), `Close`
/// closes it in every case. Events from anything else are ignored.
pub proof fn law_sidebar_event(s: MultiWorkspaceView, sender: EntityId, event: SidebarEvent, enabled: bool)
    requires
        s.wf(),
    ensures
        ({
            let (r, fx) = s.on_sidebar_event(sender, event, enabled);
            &&& r.workspaces == s.workspaces
            &&& r.active == s.active
            &&& r.sidebar == s.sidebar
            &&& if s.sidebar != Some(sender) {
                r == s && fx == Seq::<Effect>::empty()
            } else if event == SidebarEvent::Close {
                &&& !r.sidebar_open
                &&& fx.contains(Effect::FocusActivePane)
                &&& (r, fx) == s.close_sidebar()
            } else if enabled {
                &&& r.sidebar_open == !s.sidebar_open
                &&& (r, fx) == s.toggle_sidebar(true)
            } else {
                r == s && fx == Seq::<Effect>::empty()
            }
        }),
{
    let len = s.workspaces.len() as int;
    if s.sidebar == Some(sender) && event == SidebarEvent::Close {
        assert(s.close_sidebar().1[len] == Effect::FocusActivePane);
    }
}

/// Creating a workspace, with the feature enabled, asks the host for exactly
/// one new workspace built from the active one; without it, nothing happens.
/// The built workspace then becomes the active one and is focused last.
pub proof fn law_create_workspace(s: MultiWorkspaceView, enabled: bool, w: EntityId)
    requires
        s.wf(),
    ensures
        s.create_workspace(enabled) == if enabled {
            seq![Effect::CreateWorkspace { template: s.active_workspace() }]
        } else {
            Seq::<Effect>::empty()
        },
        s.add_created_workspace(w).0.wf(),
        s.add_created_workspace(w).0.active_workspace() == w,
        s.add_created_workspace(w).0.workspaces == if s.workspaces.contains(w) {
            s.workspaces
        } else {
            s.workspaces.push(w)
        },
        s.add_created_workspace(w).1.last() == Effect::FocusActiveWorkspace,
        s.add_created_workspace(w).0 == s.activate(w, true).0,
        s.add_created_workspace(w).1 == s.activate(w, true).1.push(Effect::FocusActiveWorkspace),
{
    law_activate(s, w, true);
}

/// The tab of the workspace at `index` names that workspace and its
/// position, is active exactly when the workspace is, has a close button
/// exactly when there is more than one workspace, and stands first at
/// position 0, last at the last position otherwise, and else in the middle,
/// ordered against the active tab.
pub proof fn law_workspace_tab(v: MultiWorkspaceView, index: int)
    requires
        v.wf(),
        0 <= index < v.workspaces.len(),
        v.workspaces.len() <= usize::MAX,
    ensures
        ({
            let t = workspace_tab_spec(v, index);
            let len = v.workspaces.len() as int;
            &&& t.index == index
            &&& t.workspace == v.workspaces[index]
            &&& t.is_active == (index == v.active)
            &&& t.closable == (len > 1)
            &&& (index == 0 <==> t.position == TabPosition::First)
            &&& (0 < index && index == len - 1 <==> t.position == TabPosition::Last)
            &&& (0 < index < len - 1 ==> t.position == TabPosition::Middle(
                if index < v.active {
                    TabOrder::Less
                } else if index == v.active {
                    TabOrder::Equal
                } else {
                    TabOrder::Greater
                },
            ))
        }),
{
}

/// Tab positions do not depend on which tab is active except for the order
/// of a middle tab, which is `Less`, `Equal` or `Greater` as the tab stands
/// before, at or after the active one.
pub proof fn law_tab_position(index: int, total_count: int, active: int)
    requires
        0 <= index < total_count,
    ensures
        (index == 0) <==> tab_position_spec(index, total_count, active) == TabPosition::First,
        (0 < index && index == total_count - 1) <==> tab_position_spec(index, total_count, active)
            == TabPosition::Last,
        (0 < index < total_count - 1 && index < active) <==> tab_position_spec(
            index,
            total_count,
            active,
        ) == TabPosition::Middle(TabOrder::Less),
        (0 < index < total_count - 1 && index == active) <==> tab_position_spec(
            index,
            total_count,
            active,
        ) == TabPosition::Middle(TabOrder::Equal),
        (0 < index < total_count - 1 && index > active) <==> tab_position_spec(
            index,
            total_count,
            active,
        ) == TabPosition::Middle(TabOrder::Greater),
{
}

/// A tab shows its left border while a tab from further right is dragged over
/// it, its right border for one from further left, and no border for itself.
pub proof fn law_drop_indicator(index: int, dragged_index: int)
    ensures
        (drop_indicator_spec(index, dragged_index) == DropIndicator::BorderLeft) <==> index
            < dragged_index,
        (drop_indicator_spec(index, dragged_index) == DropIndicator::BorderRight) <==> index
            > dragged_index,
        (drop_indicator_spec(index, dragged_index) == DropIndicator::NoBorder) <==> index
            == dragged_index,
{
}

/// Registering a sidebar makes it the registered one and changes nothing
/// else; a new window holds just the given workspace, active, with no
/// sidebar, closed.
pub proof fn law_register_sidebar_and_new(s: MultiWorkspaceView, sidebar: EntityId, w: EntityId)
    ensures
        s.with_sidebar(sidebar).sidebar == Some(sidebar),
        s.with_sidebar(sidebar).workspaces == s.workspaces,
        s.with_sidebar(sidebar).active == s.active,
        s.with_sidebar(sidebar).sidebar_open == s.sidebar_open,
        MultiWorkspaceView::initial(w).workspaces == seq![w],
        MultiWorkspaceView::initial(w).active == 0,
        MultiWorkspaceView::initial(w).sidebar is None,
        !MultiWorkspaceView::initial(w).sidebar_open,
        MultiWorkspaceView::initial(w).wf(),
{
}

} // verus!
