use miri_layout::config::{GlobalConfig, LayoutOptions};
use miri_layout::layout::scroll::{
    force_scroll_layout, group_workspace_windows_by_column, handle_scroll_window_open,
};
use miri_layout::niri_ipc_utils::WindowInfo;
use miri_layout::plan::{LayoutAction, Step, Width};
use miri_layout::service_state::{Mode, ServiceState};

fn window(id: u64, position: Option<(usize, usize)>, is_focused: bool, is_floating: bool) -> WindowInfo {
    WindowInfo {
        id,
        workspace_id: Some(1),
        is_focused,
        is_floating,
        pos_in_scrolling_layout: position,
    }
}

fn options(maintain_focus: bool, spread: bool) -> LayoutOptions {
    LayoutOptions {
        global: GlobalConfig { default_workspace_mode: Mode::Master },
        maximize_single_window: true,
        maintain_focus_on_new_window: maintain_focus,
        spread_windows_on_enter: spread,
    }
}

#[test]
fn groups_tiled_workspace_windows_by_column() {
    let top = window(10, Some((2, 1)), false, false);
    let bottom = window(11, Some((2, 2)), true, false);
    let first = window(12, Some((1, 1)), false, false);
    let floating = window(13, None, false, true);
    let windows = vec![bottom, floating, first, top];

    let grouped_windows = group_workspace_windows_by_column(&windows);

    assert_eq!(grouped_windows.get(&1), Some(&vec![(1, 12)]));
    assert_eq!(grouped_windows.get(&2), Some(&vec![(1, 10), (2, 11)]));
}

#[test]
fn grouping_skips_floating_and_unplaced_windows() {
    let floating_with_position = window(1, Some((1, 1)), false, true);
    let unplaced = window(2, None, false, false);
    let windows = vec![floating_with_position, unplaced];
    let grouped_windows = group_workspace_windows_by_column(&windows);
    assert!(grouped_windows.is_empty());
}

#[test]
fn grouping_sorts_each_column_by_row() {
    let windows = vec![
        window(30, Some((3, 3)), false, false),
        window(31, Some((3, 1)), false, false),
        window(32, Some((3, 2)), false, false),
    ];
    let grouped_windows = group_workspace_windows_by_column(&windows);
    assert_eq!(grouped_windows.len(), 1);
    assert_eq!(grouped_windows.get(&3), Some(&vec![(1, 31), (2, 32), (3, 30)]));
}

#[test]
fn scroll_layout_splits_columns_from_the_left_and_restores_focus() {
    let windows = vec![
        window(11, Some((2, 2)), true, false),
        window(13, None, false, true),
        window(12, Some((1, 1)), false, false),
        window(10, Some((2, 1)), false, false),
        window(14, Some((1, 2)), false, false),
        window(15, Some((1, 3)), false, false),
    ];
    let steps = force_scroll_layout(&windows);
    let mut expected = vec![
        Step::Act(LayoutAction::FocusWindow { id: 12 }),
        Step::Act(LayoutAction::ExpelWindowFromColumn),
        Step::Act(LayoutAction::ExpelWindowFromColumn),
        Step::Act(LayoutAction::FocusWindow { id: 10 }),
        Step::Act(LayoutAction::ExpelWindowFromColumn),
    ];
    for id in [11u64, 12, 10, 14, 15] {
        expected.push(Step::Act(LayoutAction::SetWindowWidth { id: Some(id), width: Width::ScrollColumn }));
        expected.push(Step::Act(LayoutAction::ResetWindowHeight { id: Some(id) }));
    }
    expected.push(Step::Act(LayoutAction::FocusWindow { id: 11 }));
    assert_eq!(steps, expected);
}

#[test]
fn scroll_layout_without_focus_or_stacked_columns() {
    let windows = vec![window(1, Some((1, 1)), false, false), window(2, Some((2, 1)), false, false)];
    let steps = force_scroll_layout(&windows);
    assert_eq!(
        steps,
        vec![
            Step::Act(LayoutAction::SetWindowWidth { id: Some(1), width: Width::ScrollColumn }),
            Step::Act(LayoutAction::ResetWindowHeight { id: Some(1) }),
            Step::Act(LayoutAction::SetWindowWidth { id: Some(2), width: Width::ScrollColumn }),
            Step::Act(LayoutAction::ResetWindowHeight { id: Some(2) }),
        ]
    );
    assert!(force_scroll_layout(&Vec::new()).is_empty());
}

#[test]
fn scroll_window_open_keeps_focus_only_when_configured() {
    let tiled = window(5, Some((2, 1)), true, false);
    let floating = window(6, None, true, true);
    let keeping = ServiceState::new(options(true, false));
    let leaving = ServiceState::new(options(false, false));
    assert_eq!(
        handle_scroll_window_open(&keeping, &tiled),
        vec![Step::Act(LayoutAction::FocusColumnLeft)]
    );
    assert!(handle_scroll_window_open(&leaving, &tiled).is_empty());
    assert!(handle_scroll_window_open(&keeping, &floating).is_empty());
}
