use workspace::{
    drop_indicator, focus_target, step_after_close_request, tab_position, CloseAnswer,
    DockFocusState, DraggedWorkspaceTab, DropIndicator, Effect, FocusTarget, MultiWorkspace,
    ProjectStep, SidebarEvent, TabOrder, TabPosition, WindowLayout,
};

fn window(ids: &[u64]) -> MultiWorkspace {
    let mut mw = MultiWorkspace::new(ids[0]);
    let mut fx = Vec::new();
    for &id in &ids[1..] {
        mw.add_workspace(id, &mut fx);
    }
    mw
}

fn serialize(active: u64, open: bool) -> Effect {
    Effect::Serialize { active_workspace: active, sidebar_open: open }
}

#[test]
fn new_window_has_one_active_workspace() {
    let mw = MultiWorkspace::new(7);
    assert_eq!(mw.workspaces(), &[7]);
    assert_eq!(mw.active_workspace_index(), 0);
    assert_eq!(mw.workspace(), 7);
    assert_eq!(mw.sidebar(), None);
    assert!(!mw.is_sidebar_open());
    assert!(!mw.sidebar_open());
}

#[test]
fn add_workspace_appends_without_activating() {
    let mut mw = MultiWorkspace::new(1);
    let mut fx = Vec::new();
    let index = mw.add_workspace(2, &mut fx);
    assert_eq!(index, 1);
    assert_eq!(mw.workspaces(), &[1, 2]);
    assert_eq!(mw.active_workspace_index(), 0);
    assert_eq!(fx, vec![Effect::Notify]);
}

#[test]
fn add_workspace_returns_existing_position() {
    let mut mw = window(&[1, 2, 3]);
    let mut fx = Vec::new();
    assert_eq!(mw.add_workspace(2, &mut fx), 1);
    assert_eq!(mw.workspaces(), &[1, 2, 3]);
    assert!(fx.is_empty());
}

#[test]
fn add_workspace_twice_is_idempotent() {
    let mut mw = window(&[1, 2]);
    let mut fx = Vec::new();
    let first = mw.add_workspace(9, &mut fx);
    let second = mw.add_workspace(9, &mut fx);
    assert_eq!(first, 2);
    assert_eq!(second, 2);
    assert_eq!(mw.workspaces(), &[1, 2, 9]);
    assert_eq!(fx, vec![Effect::Notify]);
}

#[test]
fn add_workspace_with_open_sidebar_tells_the_new_workspace() {
    let mut mw = MultiWorkspace::new(1);
    let mut fx = Vec::new();
    mw.register_sidebar(50);
    mw.open_sidebar(&mut fx);
    fx.clear();
    mw.add_workspace(2, &mut fx);
    assert_eq!(
        fx,
        vec![Effect::SetWorkspaceSidebarOpen { workspace: 2, open: true }, Effect::Notify]
    );
}

#[test]
fn activate_enabled_adds_and_activates() {
    let mut mw = window(&[1, 2]);
    let mut fx = Vec::new();
    mw.activate(3, true, &mut fx);
    assert_eq!(mw.workspaces(), &[1, 2, 3]);
    assert_eq!(mw.workspace(), 3);
    assert_eq!(fx, vec![Effect::Notify, Effect::Notify]);
}

#[test]
fn activate_enabled_existing_workspace() {
    let mut mw = window(&[1, 2, 3]);
    let mut fx = Vec::new();
    mw.activate(2, true, &mut fx);
    assert_eq!(mw.workspaces(), &[1, 2, 3]);
    assert_eq!(mw.active_workspace_index(), 1);
    assert_eq!(fx, vec![Effect::Notify]);
    fx.clear();
    mw.activate(2, true, &mut fx);
    assert!(fx.is_empty());
}

#[test]
fn activate_disabled_replaces_first_workspace() {
    let mut mw = window(&[1, 2, 3]);
    let mut fx = Vec::new();
    mw.activate_index(2, &mut fx);
    fx.clear();
    mw.activate(8, false, &mut fx);
    assert_eq!(mw.workspaces(), &[8, 2, 3]);
    assert_eq!(mw.active_workspace_index(), 0);
    assert_eq!(mw.workspace(), 8);
    assert_eq!(fx, vec![Effect::Notify]);
}

#[test]
fn activate_disabled_can_list_a_workspace_twice() {
    let mut mw = window(&[1, 2]);
    let mut fx = Vec::new();
    mw.activate(2, false, &mut fx);
    assert_eq!(mw.workspaces(), &[2, 2]);
}

#[test]
fn activate_index_serializes_focuses_and_notifies() {
    let mut mw = window(&[1, 2, 3]);
    let mut fx = Vec::new();
    mw.activate_index(1, &mut fx);
    assert_eq!(mw.active_workspace_index(), 1);
    assert_eq!(
        fx,
        vec![serialize(2, false), Effect::FocusActiveWorkspace, Effect::Notify]
    );
}

#[test]
fn next_workspace_wraps_around() {
    let mut mw = window(&[1, 2, 3]);
    let mut fx = Vec::new();
    mw.activate_index(2, &mut fx);
    mw.activate_next_workspace(&mut fx);
    assert_eq!(mw.active_workspace_index(), 0);
    mw.activate_next_workspace(&mut fx);
    assert_eq!(mw.active_workspace_index(), 1);
}

#[test]
fn previous_workspace_wraps_around() {
    let mut mw = window(&[1, 2, 3]);
    let mut fx = Vec::new();
    mw.activate_previous_workspace(&mut fx);
    assert_eq!(mw.active_workspace_index(), 2);
    mw.activate_previous_workspace(&mut fx);
    assert_eq!(mw.active_workspace_index(), 1);
}

#[test]
fn next_and_previous_do_nothing_with_one_workspace() {
    let mut mw = MultiWorkspace::new(4);
    let mut fx = Vec::new();
    mw.activate_next_workspace(&mut fx);
    mw.activate_previous_workspace(&mut fx);
    assert_eq!(mw.active_workspace_index(), 0);
    assert!(fx.is_empty());
}

#[test]
fn next_then_previous_returns_to_start() {
    for start in 0..4 {
        let mut mw = window(&[1, 2, 3, 4]);
        let mut fx = Vec::new();
        mw.activate_index(start, &mut fx);
        mw.activate_next_workspace(&mut fx);
        mw.activate_previous_workspace(&mut fx);
        assert_eq!(mw.active_workspace_index(), start);
        mw.activate_previous_workspace(&mut fx);
        mw.activate_next_workspace(&mut fx);
        assert_eq!(mw.active_workspace_index(), start);
    }
}

#[test]
fn next_as_many_times_as_workspaces_cycles() {
    let mut mw = window(&[1, 2, 3, 4, 5]);
    let mut fx = Vec::new();
    mw.activate_index(3, &mut fx);
    for _ in 0..5 {
        mw.activate_next_workspace(&mut fx);
    }
    assert_eq!(mw.active_workspace_index(), 3);
}

#[test]
fn remove_workspace_before_active_keeps_active_workspace() {
    let mut mw = window(&[1, 2, 3]);
    let mut fx = Vec::new();
    mw.activate_index(2, &mut fx);
    fx.clear();
    mw.remove_workspace(0, &mut fx);
    assert_eq!(mw.workspaces(), &[2, 3]);
    assert_eq!(mw.active_workspace_index(), 1);
    assert_eq!(mw.workspace(), 3);
    assert_eq!(fx, vec![Effect::FocusActiveWorkspace, Effect::Notify]);
}

#[test]
fn remove_workspace_after_active_keeps_index() {
    let mut mw = window(&[1, 2, 3]);
    let mut fx = Vec::new();
    mw.remove_workspace(2, &mut fx);
    assert_eq!(mw.workspaces(), &[1, 2]);
    assert_eq!(mw.workspace(), 1);
}

#[test]
fn remove_active_workspace_activates_the_next_one() {
    let mut mw = window(&[1, 2, 3]);
    let mut fx = Vec::new();
    mw.activate_index(1, &mut fx);
    mw.remove_workspace(1, &mut fx);
    assert_eq!(mw.workspaces(), &[1, 3]);
    assert_eq!(mw.workspace(), 3);
}

#[test]
fn remove_last_active_workspace_clamps_index() {
    let mut mw = window(&[1, 2, 3]);
    let mut fx = Vec::new();
    mw.activate_index(2, &mut fx);
    mw.remove_workspace(2, &mut fx);
    assert_eq!(mw.workspaces(), &[1, 2]);
    assert_eq!(mw.active_workspace_index(), 1);
}

#[test]
fn remove_only_workspace_or_out_of_range_does_nothing() {
    let mut mw = MultiWorkspace::new(1);
    let mut fx = Vec::new();
    mw.remove_workspace(0, &mut fx);
    assert_eq!(mw.workspaces(), &[1]);
    let mut mw = window(&[1, 2]);
    mw.remove_workspace(5, &mut fx);
    assert_eq!(mw.workspaces(), &[1, 2]);
    assert!(fx.is_empty());
}

#[test]
fn move_active_workspace_follows_it() {
    let mut mw = window(&[1, 2, 3, 4]);
    let mut fx = Vec::new();
    mw.activate_index(1, &mut fx);
    fx.clear();
    mw.move_workspace(1, 3, &mut fx);
    assert_eq!(mw.workspaces(), &[1, 3, 4, 2]);
    assert_eq!(mw.active_workspace_index(), 3);
    assert_eq!(mw.workspace(), 2);
    assert_eq!(fx, vec![serialize(2, false), Effect::Notify]);
}

#[test]
fn move_across_active_shifts_index() {
    let mut mw = window(&[1, 2, 3, 4]);
    let mut fx = Vec::new();
    mw.activate_index(2, &mut fx);
    mw.move_workspace(0, 3, &mut fx);
    assert_eq!(mw.workspaces(), &[2, 3, 4, 1]);
    assert_eq!(mw.active_workspace_index(), 1);
    assert_eq!(mw.workspace(), 3);
    mw.move_workspace(3, 0, &mut fx);
    assert_eq!(mw.workspaces(), &[1, 2, 3, 4]);
    assert_eq!(mw.active_workspace_index(), 2);
    assert_eq!(mw.workspace(), 3);
}

#[test]
fn move_not_crossing_active_keeps_index() {
    let mut mw = window(&[1, 2, 3, 4]);
    let mut fx = Vec::new();
    mw.move_workspace(2, 3, &mut fx);
    assert_eq!(mw.workspaces(), &[1, 2, 4, 3]);
    assert_eq!(mw.active_workspace_index(), 0);
}

#[test]
fn move_round_trip_restores_window() {
    for from in 0..4 {
        for to in 0..4 {
            for active in 0..4 {
                let mut mw = window(&[10, 11, 12, 13]);
                let mut fx = Vec::new();
                mw.activate_index(active, &mut fx);
                let before_active = mw.workspace();
                mw.move_workspace(from, to, &mut fx);
                assert_eq!(mw.workspace(), before_active);
                mw.move_workspace(to, from, &mut fx);
                assert_eq!(mw.workspaces(), &[10, 11, 12, 13]);
                assert_eq!(mw.active_workspace_index(), active);
            }
        }
    }
}

#[test]
fn move_with_equal_or_out_of_range_positions_does_nothing() {
    let mut mw = window(&[1, 2, 3]);
    let mut fx = Vec::new();
    mw.move_workspace(1, 1, &mut fx);
    mw.move_workspace(0, 3, &mut fx);
    mw.move_workspace(4, 0, &mut fx);
    assert_eq!(mw.workspaces(), &[1, 2, 3]);
    assert!(fx.is_empty());
}

#[test]
fn open_sidebar_tells_every_workspace() {
    let mut mw = window(&[1, 2]);
    let mut fx = Vec::new();
    mw.open_sidebar(&mut fx);
    assert!(mw.is_sidebar_open());
    assert!(!mw.sidebar_open());
    assert_eq!(
        fx,
        vec![
            Effect::SetWorkspaceSidebarOpen { workspace: 1, open: true },
            Effect::SetWorkspaceSidebarOpen { workspace: 2, open: true },
            serialize(1, true),
            Effect::Notify,
        ]
    );
}

#[test]
fn toggle_sidebar_disabled_does_nothing() {
    let mut mw = MultiWorkspace::new(1);
    mw.register_sidebar(9);
    let mut fx = Vec::new();
    mw.toggle_sidebar(false, &mut fx);
    assert!(!mw.is_sidebar_open());
    assert!(fx.is_empty());
}

#[test]
fn toggle_sidebar_opens_focuses_and_closes() {
    let mut mw = MultiWorkspace::new(1);
    mw.register_sidebar(9);
    let mut fx = Vec::new();
    mw.toggle_sidebar(true, &mut fx);
    assert!(mw.sidebar_open());
    assert_eq!(
        fx,
        vec![
            Effect::SetWorkspaceSidebarOpen { workspace: 1, open: true },
            serialize(1, true),
            Effect::Notify,
            Effect::FocusSidebar,
        ]
    );
    fx.clear();
    mw.toggle_sidebar(true, &mut fx);
    assert!(!mw.is_sidebar_open());
    assert_eq!(
        fx,
        vec![
            Effect::SetWorkspaceSidebarOpen { workspace: 1, open: false },
            Effect::FocusActivePane,
            serialize(1, false),
            Effect::Notify,
        ]
    );
}

#[test]
fn toggle_sidebar_without_sidebar_does_not_focus() {
    let mut mw = MultiWorkspace::new(1);
    let mut fx = Vec::new();
    mw.toggle_sidebar(true, &mut fx);
    assert!(mw.is_sidebar_open());
    assert!(!fx.contains(&Effect::FocusSidebar));
}

#[test]
fn focus_sidebar_moves_focus_in_and_out() {
    let mut mw = MultiWorkspace::new(1);
    mw.register_sidebar(9);
    let mut fx = Vec::new();
    mw.focus_sidebar(true, false, &mut fx);
    assert!(mw.is_sidebar_open());
    assert_eq!(fx.last(), Some(&Effect::FocusSidebar));
    fx.clear();
    mw.focus_sidebar(true, true, &mut fx);
    assert_eq!(fx, vec![Effect::FocusActivePane]);
    assert!(mw.is_sidebar_open());
    fx.clear();
    mw.focus_sidebar(true, false, &mut fx);
    assert_eq!(fx, vec![Effect::FocusSidebar]);
    fx.clear();
    mw.focus_sidebar(false, true, &mut fx);
    assert!(fx.is_empty());
}

#[test]
fn sidebar_events_toggle_and_close() {
    let mut mw = MultiWorkspace::new(1);
    mw.register_sidebar(9);
    let mut fx = Vec::new();
    mw.handle_sidebar_event(9, SidebarEvent::Open, true, &mut fx);
    assert!(mw.is_sidebar_open());
    mw.handle_sidebar_event(9, SidebarEvent::Open, true, &mut fx);
    assert!(!mw.is_sidebar_open());
    mw.handle_sidebar_event(9, SidebarEvent::Open, false, &mut fx);
    assert!(!mw.is_sidebar_open());
    mw.open_sidebar(&mut fx);
    mw.handle_sidebar_event(9, SidebarEvent::Close, false, &mut fx);
    assert!(!mw.is_sidebar_open());
}

#[test]
fn replaced_sidebar_events_are_ignored() {
    let mut mw = MultiWorkspace::new(1);
    mw.register_sidebar(9);
    mw.register_sidebar(10);
    let mut fx = Vec::new();
    mw.handle_sidebar_event(9, SidebarEvent::Open, true, &mut fx);
    assert!(!mw.is_sidebar_open());
    assert!(fx.is_empty());
    mw.handle_sidebar_event(10, SidebarEvent::Open, true, &mut fx);
    assert!(mw.is_sidebar_open());
    fx.clear();
    mw.handle_sidebar_event(9, SidebarEvent::Close, true, &mut fx);
    assert!(mw.is_sidebar_open());
    assert!(fx.is_empty());
}

#[test]
fn events_without_registered_sidebar_are_ignored() {
    let mut mw = MultiWorkspace::new(1);
    let mut fx = Vec::new();
    mw.handle_sidebar_event(3, SidebarEvent::Open, true, &mut fx);
    assert!(!mw.is_sidebar_open());
    assert!(fx.is_empty());
}

#[test]
fn sidebar_notifications_need_a_sidebar() {
    let mut mw = MultiWorkspace::new(1);
    assert!(!mw.sidebar_has_notifications(true));
    mw.register_sidebar(3);
    assert_eq!(mw.sidebar(), Some(3));
    assert!(mw.sidebar_has_notifications(true));
    assert!(!mw.sidebar_has_notifications(false));
}

#[test]
fn create_workspace_asks_host_only_when_enabled() {
    let mw = MultiWorkspace::new(1);
    let mut fx = Vec::new();
    mw.create_workspace(false, &mut fx);
    assert!(fx.is_empty());
    mw.create_workspace(true, &mut fx);
    assert_eq!(fx, vec![Effect::CreateWorkspace { template: 1 }]);
    let mut mw = window(&[1, 2, 3]);
    mw.activate_index(2, &mut fx);
    fx.clear();
    mw.create_workspace(true, &mut fx);
    assert_eq!(fx, vec![Effect::CreateWorkspace { template: 3 }]);
}

#[test]
fn created_workspace_is_activated_and_focused() {
    let mut mw = MultiWorkspace::new(1);
    let mut fx = Vec::new();
    mw.add_created_workspace(5, &mut fx);
    assert_eq!(mw.workspaces(), &[1, 5]);
    assert_eq!(mw.workspace(), 5);
    assert_eq!(
        fx,
        vec![Effect::Notify, Effect::Notify, Effect::FocusActiveWorkspace]
    );
}

#[test]
fn open_project_plan_depends_on_feature() {
    let mut mw = window(&[1, 2]);
    let mut fx = Vec::new();
    mw.activate_index(1, &mut fx);
    assert_eq!(mw.open_project(true), ProjectStep::OpenPaths { workspace: 2 });
    assert_eq!(mw.open_project(false), ProjectStep::RequestClose { workspace: 2 });
}

#[test]
fn close_answer_decides_whether_paths_open() {
    assert_eq!(
        step_after_close_request(4, CloseAnswer::Agreed),
        ProjectStep::OpenPaths { workspace: 4 }
    );
    assert_eq!(step_after_close_request(4, CloseAnswer::Declined), ProjectStep::Done);
    assert_eq!(step_after_close_request(4, CloseAnswer::Failed), ProjectStep::Fail);
}

#[test]
fn focus_target_prefers_first_zoomed_open_dock() {
    let docks = [
        DockFocusState { is_open: false, active_panel_zoomed: Some(true) },
        DockFocusState { is_open: true, active_panel_zoomed: None },
        DockFocusState { is_open: true, active_panel_zoomed: Some(false) },
        DockFocusState { is_open: true, active_panel_zoomed: Some(true) },
        DockFocusState { is_open: true, active_panel_zoomed: Some(true) },
    ];
    assert_eq!(focus_target(&docks), FocusTarget::ZoomedPanel { dock: 3 });
    assert_eq!(focus_target(&docks[..3]), FocusTarget::ActivePane);
    assert_eq!(focus_target(&[]), FocusTarget::ActivePane);
}

#[test]
fn tab_positions() {
    assert_eq!(tab_position(0, 1, 0), TabPosition::First);
    assert_eq!(tab_position(0, 3, 2), TabPosition::First);
    assert_eq!(tab_position(2, 3, 0), TabPosition::Last);
    assert_eq!(tab_position(1, 4, 2), TabPosition::Middle(TabOrder::Less));
    assert_eq!(tab_position(2, 4, 2), TabPosition::Middle(TabOrder::Equal));
    assert_eq!(tab_position(2, 4, 1), TabPosition::Middle(TabOrder::Greater));
}

#[test]
fn workspace_tabs_describe_each_workspace() {
    let mut mw = window(&[1, 2, 3]);
    let mut fx = Vec::new();
    mw.activate_index(1, &mut fx);
    let tabs = mw.workspace_tabs();
    assert_eq!(tabs.len(), 3);
    assert_eq!(tabs[0].position, TabPosition::First);
    assert_eq!(tabs[1].position, TabPosition::Middle(TabOrder::Equal));
    assert_eq!(tabs[2].position, TabPosition::Last);
    assert!(tabs[1].is_active && !tabs[0].is_active);
    assert!(tabs.iter().all(|t| t.closable));
    assert_eq!(tabs[2].workspace, 3);
    assert_eq!(tabs[2].index, 2);
    let single = MultiWorkspace::new(1).workspace_tabs();
    assert!(!single[0].closable);
}

#[test]
fn drop_indicator_sides() {
    let dragged = DraggedWorkspaceTab { workspace: 7, index: 2, name: String::from("seven") };
    assert_eq!(drop_indicator(0, &dragged), DropIndicator::BorderLeft);
    assert_eq!(drop_indicator(2, &dragged), DropIndicator::NoBorder);
    assert_eq!(drop_indicator(3, &dragged), DropIndicator::BorderRight);
}

#[test]
fn layout_follows_feature_and_sidebar() {
    let mut mw = MultiWorkspace::new(1);
    let mut fx = Vec::new();
    assert_eq!(
        mw.layout(true),
        WindowLayout { show_workspace_tabs: false, show_sidebar: false, tiling_left: false }
    );
    mw.add_workspace(2, &mut fx);
    mw.open_sidebar(&mut fx);
    assert_eq!(
        mw.layout(true),
        WindowLayout { show_workspace_tabs: true, show_sidebar: false, tiling_left: true }
    );
    mw.register_sidebar(4);
    assert_eq!(
        mw.layout(true),
        WindowLayout { show_workspace_tabs: true, show_sidebar: true, tiling_left: true }
    );
    assert_eq!(
        mw.layout(false),
        WindowLayout { show_workspace_tabs: false, show_sidebar: false, tiling_left: false }
    );
}

#[test]
fn enabled_operations_keep_workspaces_distinct() {
    let mut mw = window(&[1, 2, 3]);
    let mut fx = Vec::new();
    mw.activate(2, true, &mut fx);
    mw.activate(4, true, &mut fx);
    mw.add_workspace(1, &mut fx);
    mw.move_workspace(0, 3, &mut fx);
    mw.remove_workspace(1, &mut fx);
    mw.add_created_workspace(5, &mut fx);
    let ws = mw.workspaces().to_vec();
    let mut sorted = ws.clone();
    sorted.sort();
    sorted.dedup();
    assert_eq!(sorted.len(), ws.len());
    assert_eq!(mw.workspace(), 5);
}
