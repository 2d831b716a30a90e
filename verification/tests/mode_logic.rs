use miri_layout::config::{GlobalConfig, LayoutOptions};
use miri_layout::mode_logic::master::{
    force_workspace_windows_into_layout_mode, handle_master_window_close, handle_master_window_open,
};
use miri_layout::niri_ipc_utils::WindowInfo;
use miri_layout::plan::{LayoutAction, Notice, Step, Width};
use miri_layout::service_state::{Layout, MiriWindow, MiriWorkspace, Mode, ServiceState};

fn options(maximize: bool) -> LayoutOptions {
    LayoutOptions {
        global: GlobalConfig { default_workspace_mode: Mode::Master },
        maximize_single_window: maximize,
        maintain_focus_on_new_window: false,
        spread_windows_on_enter: false,
    }
}

fn tile(id: u64, column: usize, row: usize, is_focused: bool) -> MiriWindow {
    MiriWindow { id, position: Some((column, row)), is_focused, is_floating: false }
}

fn layout(windows: Vec<MiriWindow>) -> Layout {
    Layout {
        workspaces: vec![MiriWorkspace {
            id: 1,
            output: "DP-1".to_string(),
            idx: 1,
            focused: true,
            mode: Mode::Master,
            windows,
        }],
        default_mode: Mode::Master,
    }
}

fn state(previous: Vec<MiriWindow>, current: Vec<MiriWindow>, maximize: bool) -> ServiceState {
    ServiceState {
        previous_layout: layout(previous),
        current_layout: layout(current),
        options: options(maximize),
        first_niri_event_received: true,
    }
}

fn opened(id: u64) -> WindowInfo {
    WindowInfo { id, workspace_id: Some(1), is_focused: true, is_floating: false, pos_in_scrolling_layout: Some((2, 1)) }
}

fn width(id: u64, width: Width) -> Step {
    Step::Act(LayoutAction::SetWindowWidth { id: Some(id), width })
}

#[test]
fn opening_the_only_window_fills_the_workspace() {
    let s = state(vec![], vec![tile(1, 1, 1, true)], true);
    assert_eq!(
        handle_master_window_open(&s, &opened(1)),
        vec![Step::Note(Notice::OnlyOneWindow), width(1, Width::Full)]
    );
    let quiet = state(vec![], vec![tile(1, 1, 1, true)], false);
    assert!(handle_master_window_open(&quiet, &opened(1)).is_empty());
}

#[test]
fn opening_beside_a_focused_master_consumes_right() {
    let s = state(vec![tile(1, 1, 1, true)], vec![tile(1, 1, 1, false), tile(2, 2, 1, true)], true);
    assert_eq!(
        handle_master_window_open(&s, &opened(2)),
        vec![
            Step::Act(LayoutAction::ConsumeOrExpelWindowRight { id: Some(2) }),
            width(1, Width::MasterColumn),
            width(2, Width::ChildColumn),
        ]
    );
}

#[test]
fn opening_from_the_child_column_lands_under_the_focused_window() {
    let previous = vec![
        tile(1, 1, 1, false),
        tile(2, 2, 1, false),
        tile(3, 2, 2, true),
        tile(4, 2, 3, false),
        tile(5, 2, 4, false),
    ];
    let mut current = previous.clone();
    current.push(tile(6, 3, 1, true));
    let s = state(previous, current, true);
    assert_eq!(
        handle_master_window_open(&s, &opened(6)),
        vec![
            Step::Act(LayoutAction::ConsumeOrExpelWindowLeft { id: Some(6) }),
            Step::Act(LayoutAction::FocusWindow { id: 6 }),
            Step::Act(LayoutAction::MoveWindowUp),
            Step::Act(LayoutAction::MoveWindowUp),
            width(1, Width::MasterColumn),
            width(6, Width::ChildColumn),
        ]
    );
}

#[test]
fn opening_reports_missing_windows() {
    let no_master = state(vec![tile(2, 2, 1, true)], vec![tile(2, 2, 1, false), tile(3, 3, 1, true)], true);
    assert_eq!(handle_master_window_open(&no_master, &opened(3)), vec![Step::Note(Notice::LeftmostWindowMissing)]);
    let no_focus = state(vec![tile(1, 1, 1, false)], vec![tile(1, 1, 1, false), tile(3, 2, 1, true)], true);
    assert_eq!(
        handle_master_window_open(&no_focus, &opened(3)),
        vec![
            Step::Act(LayoutAction::ConsumeOrExpelWindowLeft { id: Some(3) }),
            Step::Note(Notice::FocusedWindowMissing),
        ]
    );
}

#[test]
fn closing_windows_in_the_master_layout() {
    let last = state(vec![], vec![tile(2, 1, 1, true)], true);
    assert_eq!(
        handle_master_window_close(1, &last),
        vec![Step::Note(Notice::OnlyOneWindow), width(2, Width::Full)]
    );
    let master_gone = state(vec![], vec![tile(2, 1, 1, false), tile(3, 1, 2, true)], true);
    assert_eq!(
        handle_master_window_close(1, &master_gone),
        vec![
            Step::Act(LayoutAction::ConsumeOrExpelWindowLeft { id: Some(2) }),
            Step::Act(LayoutAction::FocusColumnLeft),
        ]
    );
    let child_gone = state(vec![], vec![tile(1, 1, 1, false), tile(3, 2, 1, true)], true);
    assert!(handle_master_window_close(2, &child_gone).is_empty());
    let headless = state(vec![], vec![tile(2, 1, 2, false), tile(3, 1, 3, true)], true);
    assert_eq!(handle_master_window_close(1, &headless), vec![Step::Note(Notice::TopChildWindowMissing)]);
    assert!(handle_master_window_close(1, &state(vec![], vec![], true)).is_empty());
}

#[test]
fn forcing_windows_into_a_mode() {
    let windows = vec![opened(1), opened(2)];
    assert_eq!(
        force_workspace_windows_into_layout_mode(&windows, &options(true), Mode::Master),
        vec![
            Step::Act(LayoutAction::MoveColumnToFirst),
            Step::Act(LayoutAction::ConsumeOrExpelWindowLeft { id: None }),
            Step::Act(LayoutAction::SetColumnWidth { width: Width::MasterColumn }),
            Step::Act(LayoutAction::FocusColumnRight),
            Step::Act(LayoutAction::SetColumnWidth { width: Width::ChildColumn }),
            Step::Act(LayoutAction::ConsumeWindowIntoColumn),
            Step::Act(LayoutAction::FocusColumnLeft),
        ]
    );
    assert_eq!(
        force_workspace_windows_into_layout_mode(&vec![opened(4)], &options(true), Mode::Master),
        vec![width(4, Width::Full)]
    );
    assert!(force_workspace_windows_into_layout_mode(&windows, &options(true), Mode::Scroll).is_empty());
}
