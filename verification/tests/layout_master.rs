use miri_layout::config::{GlobalConfig, LayoutOptions};
use miri_layout::layout::handler::{
    force_workspace_windows_into_layout_mode, handle_workspace_gain_window, handle_workspace_lose_window,
};
use miri_layout::layout::master::{
    force_master_layout, handle_master_gain_window, handle_master_lose_window, tiled_windows,
};
use miri_layout::layout::WorkspaceLayout;
use miri_layout::niri_ipc_utils::WindowInfo;
use miri_layout::plan::{LayoutAction, Notice, Step, Width};
use miri_layout::service_state::{MiriWindow, MiriWorkspace, Mode};

fn options(maximize: bool) -> LayoutOptions {
    LayoutOptions {
        global: GlobalConfig { default_workspace_mode: Mode::Master },
        maximize_single_window: maximize,
        maintain_focus_on_new_window: false,
        spread_windows_on_enter: true,
    }
}

fn tile(id: u64, column: usize, row: usize) -> MiriWindow {
    MiriWindow { id, position: Some((column, row)), is_focused: false, is_floating: false }
}

fn floating(id: u64) -> MiriWindow {
    MiriWindow { id, position: None, is_focused: false, is_floating: true }
}

fn workspace(mode: Mode, windows: Vec<MiriWindow>) -> MiriWorkspace {
    MiriWorkspace { id: 1, output: "DP-1".to_string(), idx: 1, focused: true, mode, windows }
}

fn new_window(id: u64, position: Option<(usize, usize)>, is_floating: bool) -> WindowInfo {
    WindowInfo { id, workspace_id: Some(1), is_focused: true, is_floating, pos_in_scrolling_layout: position }
}

fn single_width(id: u64) -> Step {
    Step::Act(LayoutAction::SetWindowWidth {
        id: Some(id),
        width: Width::SingleWindow { output: "DP-1".to_string() },
    })
}

#[test]
fn a_lone_tiled_window_is_widened_when_configured() {
    let ws = workspace(Mode::Master, vec![tile(7, 1, 1), floating(8)]);
    let nw = new_window(7, Some((1, 1)), false);
    assert_eq!(handle_master_gain_window(&ws, &nw, &options(true), None), vec![single_width(7)]);
    assert!(handle_master_gain_window(&ws, &nw, &options(false), None).is_empty());
}

#[test]
fn floating_or_empty_workspaces_need_nothing() {
    let ws = workspace(Mode::Master, vec![tile(1, 1, 1), tile(2, 2, 1)]);
    let floater = new_window(9, None, true);
    assert!(handle_master_gain_window(&ws, &floater, &options(true), None).is_empty());
    let empty = workspace(Mode::Master, vec![floating(3)]);
    let nw = new_window(4, Some((1, 1)), false);
    assert!(handle_master_gain_window(&empty, &nw, &options(true), None).is_empty());
}

#[test]
fn a_window_opened_in_the_second_column_joins_the_child_column() {
    let ws = workspace(Mode::Master, vec![tile(1, 1, 1), tile(2, 2, 1)]);
    let nw = new_window(2, Some((2, 1)), false);
    let previous = tile(1, 1, 1);
    assert_eq!(
        handle_master_gain_window(&ws, &nw, &options(true), Some(previous)),
        vec![
            Step::Act(LayoutAction::ConsumeOrExpelWindowRight { id: Some(2) }),
            Step::Act(LayoutAction::SetWindowWidth { id: Some(2), width: Width::ChildColumn }),
            Step::Act(LayoutAction::SetWindowWidth { id: Some(1), width: Width::MasterColumn }),
        ]
    );
}

#[test]
fn a_new_window_moves_right_under_the_focused_child() {
    // four windows in the child column, the focused one second from the top:
    // the new window moves up twice to sit right under it.
    let windows = vec![
        tile(1, 1, 1),
        tile(2, 2, 1),
        tile(3, 2, 2),
        tile(4, 2, 3),
        tile(5, 2, 4),
        tile(6, 3, 1),
    ];
    let ws = workspace(Mode::Master, windows);
    let nw = new_window(6, Some((3, 1)), false);
    let focused = MiriWindow { id: 3, position: Some((2, 2)), is_focused: true, is_floating: false };
    assert_eq!(
        handle_master_gain_window(&ws, &nw, &options(true), Some(focused)),
        vec![
            Step::Act(LayoutAction::ConsumeOrExpelWindowLeft { id: Some(6) }),
            Step::Act(LayoutAction::FocusWindow { id: 6 }),
            Step::Act(LayoutAction::MoveWindowUp),
            Step::Act(LayoutAction::MoveWindowUp),
            Step::Act(LayoutAction::SetWindowWidth { id: Some(6), width: Width::ChildColumn }),
            Step::Act(LayoutAction::SetWindowWidth { id: Some(1), width: Width::MasterColumn }),
        ]
    );
    // a floating focused window leaves the new window where it landed
    let floating_focus = MiriWindow { id: 9, position: None, is_focused: true, is_floating: true };
    assert_eq!(
        handle_master_gain_window(&ws, &nw, &options(true), Some(floating_focus)),
        vec![
            Step::Act(LayoutAction::ConsumeOrExpelWindowLeft { id: Some(6) }),
            Step::Act(LayoutAction::SetWindowWidth { id: Some(6), width: Width::ChildColumn }),
            Step::Act(LayoutAction::SetWindowWidth { id: Some(1), width: Width::MasterColumn }),
        ]
    );
}

#[test]
fn a_window_in_the_first_column_is_reported() {
    let ws = workspace(Mode::Master, vec![tile(1, 1, 1), tile(2, 1, 2)]);
    let nw = new_window(2, Some((1, 2)), false);
    assert_eq!(
        handle_master_gain_window(&ws, &nw, &options(true), None),
        vec![Step::Note(Notice::InvalidNewWindowColumn(1))]
    );
}

#[test]
fn closing_the_master_window_promotes_the_top_child() {
    let ws = workspace(Mode::Master, vec![tile(2, 1, 1), tile(3, 1, 2), floating(4)]);
    assert_eq!(ws.get_workspace_column_count(), 1);
    assert_eq!(
        handle_master_lose_window(&ws, &options(true)),
        vec![
            Step::Act(LayoutAction::ConsumeOrExpelWindowLeft { id: Some(2) }),
            Step::Act(LayoutAction::FocusColumnLeft),
        ]
    );
}

#[test]
fn closing_a_child_window_needs_nothing() {
    let ws = workspace(Mode::Master, vec![tile(1, 1, 1), tile(2, 2, 1), tile(3, 2, 2)]);
    assert_eq!(ws.get_workspace_column_count(), 2);
    assert!(handle_master_lose_window(&ws, &options(true)).is_empty());
}

#[test]
fn the_last_tiled_window_is_widened_and_an_empty_workspace_needs_nothing() {
    let ws = workspace(Mode::Master, vec![floating(4), tile(5, 1, 1)]);
    assert_eq!(handle_master_lose_window(&ws, &options(true)), vec![single_width(5)]);
    let empty = workspace(Mode::Master, vec![floating(4)]);
    assert!(handle_master_lose_window(&empty, &options(true)).is_empty());
}

#[test]
fn a_single_column_without_a_head_is_reported() {
    let ws = workspace(Mode::Master, vec![tile(2, 1, 2), tile(3, 1, 3)]);
    assert_eq!(
        handle_master_lose_window(&ws, &options(true)),
        vec![Step::Note(Notice::TopChildWindowMissing)]
    );
}

#[test]
fn forcing_the_master_layout_builds_two_columns() {
    let windows = vec![
        new_window(1, Some((1, 1)), false),
        new_window(2, Some((2, 1)), false),
        new_window(3, Some((3, 1)), false),
    ];
    let output = "DP-1".to_string();
    assert_eq!(
        force_master_layout(&windows, &options(true), &output),
        vec![
            Step::Act(LayoutAction::MoveColumnToFirst),
            Step::Act(LayoutAction::ConsumeOrExpelWindowLeft { id: None }),
            Step::Act(LayoutAction::SetColumnWidth { width: Width::MasterColumn }),
            Step::Act(LayoutAction::FocusColumnRight),
            Step::Act(LayoutAction::SetColumnWidth { width: Width::ChildColumn }),
            Step::Act(LayoutAction::ConsumeWindowIntoColumn),
            Step::Act(LayoutAction::ConsumeWindowIntoColumn),
            Step::Act(LayoutAction::FocusColumnLeft),
        ]
    );
    assert!(force_master_layout(&Vec::new(), &options(true), &output).is_empty());
    let one = vec![new_window(8, Some((1, 1)), false)];
    assert_eq!(force_master_layout(&one, &options(true), &output), vec![single_width(8)]);
}

#[test]
fn scrolling_workspaces_leave_windows_alone() {
    let ws = workspace(Mode::Scroll, vec![tile(1, 1, 1), tile(2, 2, 1)]);
    let nw = new_window(2, Some((2, 1)), false);
    assert!(handle_workspace_gain_window(&ws, &nw, &options(true), None).is_empty());
    assert!(handle_workspace_lose_window(&ws, &options(true)).is_empty());
    assert!(ws.gain_window(&nw, &options(true), None).is_empty());
    assert!(ws.lose_window(&options(true)).is_empty());
}

#[test]
fn forcing_a_mode_dispatches_on_the_mode() {
    let windows = vec![new_window(1, Some((1, 1)), false), new_window(2, Some((1, 2)), false)];
    let output = "DP-1".to_string();
    let master = force_workspace_windows_into_layout_mode(&windows, &options(true), Mode::Master, &output);
    assert_eq!(master.len(), 7);
    let scroll = force_workspace_windows_into_layout_mode(&windows, &options(true), Mode::Scroll, &output);
    assert_eq!(scroll[0], Step::Act(LayoutAction::FocusWindow { id: 1 }));
    let mut quiet = options(true);
    quiet.spread_windows_on_enter = false;
    assert!(force_workspace_windows_into_layout_mode(&windows, &quiet, Mode::Scroll, &output).is_empty());
    let ws = workspace(Mode::Master, vec![]);
    assert_eq!(ws.force_mode(&windows, &options(true)), master);
}

#[test]
fn tiled_windows_keep_their_order() {
    let windows = vec![floating(1), tile(2, 1, 1), floating(3), tile(4, 2, 1)];
    assert_eq!(tiled_windows(&windows), vec![tile(2, 1, 1), tile(4, 2, 1)]);
}
