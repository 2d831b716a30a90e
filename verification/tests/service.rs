use miri_layout::config::{GlobalConfig, LayoutOptions};
use miri_layout::niri_ipc_utils::{
    get_focused_window, get_focused_workspace, get_windows_on_focused_workspace, WindowInfo,
    WorkspaceInfo,
};
use miri_layout::plan::{Failure, LayoutAction, Notice, Step, Width};
use miri_layout::service::{MiriAction, NiriEvent};
use miri_layout::service_state::{
    copy_event_state_to_layout, workspaces_have_outputs, Layout, MiriWindow, Mode, ServiceState,
};

fn options() -> LayoutOptions {
    LayoutOptions {
        global: GlobalConfig { default_workspace_mode: Mode::Master },
        maximize_single_window: true,
        maintain_focus_on_new_window: false,
        spread_windows_on_enter: true,
    }
}

fn window(id: u64, workspace_id: u64, position: Option<(usize, usize)>, is_focused: bool) -> WindowInfo {
    WindowInfo {
        id,
        workspace_id: Some(workspace_id),
        is_focused,
        is_floating: position.is_none(),
        pos_in_scrolling_layout: position,
    }
}

fn workspace(id: u64, idx: u8, output: Option<&str>, is_focused: bool) -> WorkspaceInfo {
    WorkspaceInfo { id, idx, output: output.map(|o| o.to_string()), is_focused }
}

#[test]
fn focus_queries_take_the_first_focused_item() {
    let windows = vec![window(1, 1, Some((1, 1)), false), window(2, 2, Some((1, 1)), true)];
    let workspaces = vec![workspace(1, 1, Some("DP-1"), false), workspace(2, 2, Some("DP-1"), true)];
    assert_eq!(get_focused_window(&windows), Some(windows[1]));
    assert_eq!(get_focused_workspace(&workspaces).map(|w| w.id), Some(2));
    assert_eq!(get_windows_on_focused_workspace(&windows, &workspaces), Some(vec![windows[1]]));
    let unfocused = vec![workspace(1, 1, Some("DP-1"), false)];
    assert_eq!(get_windows_on_focused_workspace(&windows, &unfocused), None);
    assert_eq!(get_focused_window(&Vec::new()), None);
}

#[test]
fn copying_keeps_modes_and_replaces_duplicate_keys() {
    let mut previous = Layout::new(Mode::Master);
    let windows = vec![window(10, 1, Some((1, 1)), true), window(11, 2, None, false)];
    let workspaces = vec![workspace(1, 1, Some("DP-1"), true), workspace(2, 2, Some("DP-1"), false)];
    let scratch = Layout::new(Mode::Master);
    copy_event_state_to_layout(&windows, &workspaces, &scratch, &mut previous);
    assert!(previous.set_focused_workspace_mode(Mode::Scroll));

    let mut layout = Layout::new(Mode::Master);
    let again = vec![
        workspace(2, 2, Some("DP-1"), false),
        workspace(1, 1, Some("DP-1"), true),
        workspace(3, 1, Some("DP-1"), false),
    ];
    copy_event_state_to_layout(&windows, &again, &previous, &mut layout);
    assert_eq!(layout.workspaces.len(), 2);
    assert_eq!(layout.workspaces[0].id, 2);
    assert_eq!(layout.workspaces[0].mode, Mode::Master);
    assert_eq!(layout.workspaces[0].windows, vec![MiriWindow { id: 11, position: None, is_focused: false, is_floating: true }]);
    // workspace 3 took the place of workspace 1 on DP-1, index 1
    assert_eq!(layout.workspaces[1].id, 3);
    assert_eq!(layout.workspaces[1].mode, Mode::Master);
    assert!(layout.workspaces[1].windows.is_empty());

    let missing = vec![workspace(1, 1, Some("DP-1"), false), workspace(4, 1, None, true)];
    assert!(!workspaces_have_outputs(&missing));
    assert!(workspaces_have_outputs(&again));
    assert!(workspaces_have_outputs(&Vec::new()));
}

#[test]
fn a_tiled_window_without_position_or_a_missing_master_stops_the_service() {
    let mut state = ServiceState::new(options());
    let workspaces = vec![workspace(1, 1, Some("DP-1"), true)];
    let one = vec![window(1, 1, Some((1, 1)), true)];
    state.handle_niri_event(&NiriEvent::Other, &one, &workspaces);
    let unplaced = WindowInfo {
        id: 2,
        workspace_id: Some(1),
        is_focused: true,
        is_floating: false,
        pos_in_scrolling_layout: None,
    };
    let with_unplaced = vec![window(1, 1, Some((1, 1)), false), unplaced];
    let steps = state.handle_niri_event(
        &NiriEvent::WindowOpenedOrChanged { window: unplaced },
        &with_unplaced,
        &workspaces,
    );
    assert_eq!(
        steps,
        vec![Step::Note(Notice::WindowOpened), Step::Abort(Failure::ScrollPositionMissing)]
    );

    let mut state = ServiceState::new(options());
    let no_master_before = vec![window(1, 1, Some((1, 2)), true)];
    state.handle_niri_event(&NiriEvent::Other, &no_master_before, &workspaces);
    let no_master = vec![window(1, 1, Some((1, 2)), false), window(2, 1, Some((2, 1)), true)];
    let steps = state.handle_niri_event(
        &NiriEvent::WindowOpenedOrChanged { window: no_master[1] },
        &no_master,
        &workspaces,
    );
    assert_eq!(
        steps,
        vec![
            Step::Note(Notice::WindowOpened),
            Step::Act(LayoutAction::ConsumeOrExpelWindowRight { id: Some(2) }),
            Step::Act(LayoutAction::SetWindowWidth { id: Some(2), width: Width::ChildColumn }),
            Step::Abort(Failure::MasterWindowMissing),
        ]
    );
}

#[test]
fn the_first_windows_event_puts_occupied_workspaces_into_scroll_mode() {
    let mut state = ServiceState::new(options());
    let windows = vec![window(10, 1, Some((1, 1)), true)];
    let workspaces = vec![workspace(1, 1, Some("DP-1"), true), workspace(2, 2, Some("DP-1"), false)];
    let steps = state.handle_niri_event(&NiriEvent::WindowsChanged, &windows, &workspaces);
    assert_eq!(steps, vec![Step::Note(Notice::WindowsChanged)]);
    assert!(state.first_niri_event_received);
    assert_eq!(state.current_layout.workspaces[0].mode, Mode::Scroll);
    assert_eq!(state.current_layout.workspaces[1].mode, Mode::Master);
}

#[test]
fn events_before_windows_are_assigned_change_no_mode() {
    let mut state = ServiceState::new(options());
    let windows = vec![window(10, 1, Some((1, 1)), true)];
    let workspaces = vec![workspace(1, 1, Some("DP-1"), true)];
    let steps = state.handle_niri_event(&NiriEvent::Other, &windows, &workspaces);
    assert!(steps.is_empty());
    assert!(!state.first_niri_event_received);
    assert_eq!(state.current_layout.workspaces[0].mode, Mode::Master);
}

#[test]
fn opening_and_closing_windows_in_a_master_workspace() {
    let mut state = ServiceState::new(options());
    let workspaces = vec![workspace(1, 1, Some("DP-1"), true)];
    let one = vec![window(10, 1, Some((1, 1)), true)];
    state.handle_niri_event(&NiriEvent::Other, &one, &workspaces);
    state.handle_niri_event(&NiriEvent::Other, &one, &workspaces);

    let two = vec![window(10, 1, Some((1, 1)), false), window(11, 1, Some((2, 1)), true)];
    let opened = NiriEvent::WindowOpenedOrChanged { window: two[1] };
    let steps = state.handle_niri_event(&opened, &two, &workspaces);
    assert_eq!(
        steps,
        vec![
            Step::Note(Notice::WindowOpened),
            Step::Act(LayoutAction::ConsumeOrExpelWindowRight { id: Some(11) }),
            Step::Act(LayoutAction::SetWindowWidth { id: Some(11), width: Width::ChildColumn }),
            Step::Act(LayoutAction::SetWindowWidth { id: Some(10), width: Width::MasterColumn }),
        ]
    );

    let closed = NiriEvent::WindowClosed { id: 10 };
    let after_close = vec![window(11, 1, Some((1, 1)), true)];
    let steps = state.handle_niri_event(&closed, &after_close, &workspaces);
    assert_eq!(
        steps,
        vec![
            Step::Note(Notice::WindowClosed),
            Step::Act(LayoutAction::SetWindowWidth {
                id: Some(11),
                width: Width::SingleWindow { output: "DP-1".to_string() },
            }),
        ]
    );
}

#[test]
fn a_window_turning_floating_is_lost_by_its_workspace() {
    let mut state = ServiceState::new(options());
    let workspaces = vec![workspace(1, 1, Some("DP-1"), true)];
    let two = vec![window(10, 1, Some((1, 1)), false), window(11, 1, Some((2, 1)), true)];
    state.handle_niri_event(&NiriEvent::Other, &two, &workspaces);
    let floated = vec![window(10, 1, Some((1, 1)), false), window(11, 1, None, true)];
    let changed = NiriEvent::WindowOpenedOrChanged { window: floated[1] };
    let steps = state.handle_niri_event(&changed, &floated, &workspaces);
    assert_eq!(
        steps,
        vec![
            Step::Note(Notice::WindowChanged),
            Step::Act(LayoutAction::SetWindowWidth {
                id: Some(10),
                width: Width::SingleWindow { output: "DP-1".to_string() },
            }),
        ]
    );
}

#[test]
fn a_window_moved_to_another_workspace_is_lost_then_gained() {
    let mut state = ServiceState::new(options());
    let first_focused = vec![workspace(1, 1, Some("DP-1"), true), workspace(2, 2, Some("DP-1"), false)];
    let windows = vec![window(10, 1, Some((1, 1)), false), window(11, 1, Some((2, 1)), true)];
    state.handle_niri_event(&NiriEvent::Other, &windows, &first_focused);
    let second_focused = vec![workspace(1, 1, Some("DP-1"), false), workspace(2, 2, Some("DP-1"), true)];
    let moved = vec![window(10, 1, Some((1, 1)), false), window(11, 2, Some((1, 1)), true)];
    let event = NiriEvent::WindowOpenedOrChanged { window: moved[1] };
    let steps = state.handle_niri_event(&event, &moved, &second_focused);
    assert_eq!(
        steps,
        vec![
            Step::Note(Notice::WindowChanged),
            Step::Note(Notice::WindowMovedToNewWorkspace),
            Step::Act(LayoutAction::SetWindowWidth {
                id: Some(10),
                width: Width::SingleWindow { output: "DP-1".to_string() },
            }),
            Step::Act(LayoutAction::SetWindowWidth {
                id: Some(11),
                width: Width::SingleWindow { output: "DP-1".to_string() },
            }),
        ]
    );
}

#[test]
fn events_without_a_focused_workspace_or_output_stop_the_service() {
    let mut state = ServiceState::new(options());
    let windows = vec![window(10, 1, Some((1, 1)), true)];
    let unfocused = vec![workspace(1, 1, Some("DP-1"), false)];
    let steps = state.handle_niri_event(&NiriEvent::WindowClosed { id: 3 }, &windows, &unfocused);
    assert_eq!(
        steps,
        vec![Step::Note(Notice::WindowClosed), Step::Abort(Failure::CurrentFocusedWorkspaceMissing)]
    );
    let no_output = vec![workspace(1, 1, None, true)];
    let steps = state.handle_niri_event(&NiriEvent::WindowsChanged, &windows, &no_output);
    assert_eq!(steps, vec![Step::Abort(Failure::WorkspaceOutputMissing)]);
    assert!(!state.first_niri_event_received);
}

#[test]
fn a_window_being_dragged_is_ignored() {
    let mut state = ServiceState::new(options());
    let workspaces = vec![workspace(1, 1, Some("DP-1"), true)];
    let dragged = WindowInfo {
        id: 5,
        workspace_id: None,
        is_focused: true,
        is_floating: false,
        pos_in_scrolling_layout: None,
    };
    let steps = state.handle_niri_event(
        &NiriEvent::WindowOpenedOrChanged { window: dragged },
        &vec![dragged],
        &workspaces,
    );
    assert!(steps.is_empty());
}

#[test]
fn cycling_the_focused_workspace_switches_and_rearranges_it() {
    let mut state = ServiceState::new(options());
    let workspaces = vec![workspace(1, 1, Some("DP-1"), true)];
    let windows = vec![window(10, 1, Some((1, 1)), false), window(11, 1, Some((1, 2)), true)];
    state.handle_niri_event(&NiriEvent::Other, &windows, &workspaces);

    let steps = state.run_miri_action(MiriAction::CycleFocusedWorkspaceMode, &windows, &workspaces);
    assert_eq!(state.current_layout.workspaces[0].mode, Mode::Scroll);
    assert_eq!(
        steps,
        vec![
            Step::Note(Notice::CycleFocusedWorkspaceMode),
            Step::Act(LayoutAction::FocusWindow { id: 10 }),
            Step::Act(LayoutAction::ExpelWindowFromColumn),
            Step::Act(LayoutAction::SetWindowWidth { id: Some(10), width: Width::ScrollColumn }),
            Step::Act(LayoutAction::ResetWindowHeight { id: Some(10) }),
            Step::Act(LayoutAction::SetWindowWidth { id: Some(11), width: Width::ScrollColumn }),
            Step::Act(LayoutAction::ResetWindowHeight { id: Some(11) }),
            Step::Act(LayoutAction::FocusWindow { id: 11 }),
        ]
    );

    let steps = state.run_miri_action(
        MiriAction::SetFocusedWorkspaceMode { mode: Mode::Master },
        &windows,
        &workspaces,
    );
    assert_eq!(state.current_layout.workspaces[0].mode, Mode::Master);
    assert_eq!(steps[0], Step::Note(Notice::SetFocusedWorkspaceMode(Mode::Master)));
    assert_eq!(steps.len(), 8);
}

#[test]
fn actions_need_a_focused_workspace() {
    let mut state = ServiceState::new(options());
    let windows = vec![window(10, 1, Some((1, 1)), true)];
    let focused = vec![workspace(1, 1, Some("DP-1"), true)];
    let steps = state.run_miri_action(MiriAction::CycleFocusedWorkspaceMode, &windows, &focused);
    assert_eq!(steps, vec![Step::Abort(Failure::CurrentFocusedWorkspaceMissing)]);

    state.handle_niri_event(&NiriEvent::Other, &windows, &focused);
    let unfocused = vec![workspace(1, 1, Some("DP-1"), false)];
    let steps = state.run_miri_action(MiriAction::CycleFocusedWorkspaceMode, &windows, &unfocused);
    assert_eq!(
        steps,
        vec![Step::Note(Notice::FocusedWorkspaceMissing), Step::Note(Notice::WorkspaceWindowsMissing)]
    );
    assert_eq!(state.current_layout.workspaces[0].mode, Mode::Master);
}
