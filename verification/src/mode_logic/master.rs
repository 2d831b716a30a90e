//! The master layout as the service's window-open and window-close handlers drive
//! it: they read the focused workspace of the previous and current layouts of a
//! [`ServiceState`] in which every window has a place in the scrolling layout.
use vstd::prelude::*;

use crate::config::LayoutOptions;
use crate::layout::master::{
    find_column_head, find_master_window, heads_its_column, is_master_window, saturating_sub,
};
use crate::niri_ipc_utils::WindowInfo;
use crate::plan::{push_repeated, repeated, Failure, LayoutAction, Notice, Step, Width};
use crate::seq_util::{first_where, lemma_first_where_step};
use crate::service_state::{is_focused_miri_window, is_focused_miri_workspace, MiriWindow, MiriWorkspace, Mode, ServiceState};

verus! {

/// Every window of every workspace has a place in the scrolling layout.
pub open spec fn all_placed(workspaces: Seq<MiriWorkspace>) -> bool {
    forall|k: int, i: int|
        0 <= k < workspaces.len() && 0 <= i < workspaces[k].windows@.len() ==> (#[trigger] workspaces[k].windows@[i]).position is Some
}

/// The row of a placed window.
pub open spec fn row_of(w: MiriWindow) -> usize {
    match w.position {
        Some((_, row)) => row,
        None => 0,
    }
}

/// A window in the second column or further right.
pub open spec fn right_of_first_column() -> spec_fn(MiriWindow) -> bool {
    |w: MiriWindow| w.position matches Some((column, _)) && column >= 2
}

/// The inputs on which opening a window cannot be handled: a layout without a
/// focused workspace, or a current workspace that holds no window although the
/// new window must be moved under the focused one.
pub open spec fn window_open_panics(
    previous: Seq<MiriWorkspace>,
    current: Seq<MiriWorkspace>,
    new_window: WindowInfo,
) -> bool {
    &&& !new_window.is_floating
    &&& match (
        first_where(previous, is_focused_miri_workspace()),
        first_where(current, is_focused_miri_workspace()),
    ) {
        (Some(previous_workspace), Some(current_workspace)) => {
            &&& current_workspace.windows@.len() == 0
            &&& first_where(previous_workspace.windows@, is_master_window()) matches Some(leftmost)
            &&& !leftmost.is_focused
            &&& first_where(previous_workspace.windows@, is_focused_miri_window()) is Some
        },
        _ => true,
    }
}

/// What opening `new_window` does to the master layout, given the workspaces
/// before and after it opened.
pub open spec fn window_open_steps(
    previous: Seq<MiriWorkspace>,
    current: Seq<MiriWorkspace>,
    new_window: WindowInfo,
    options: LayoutOptions,
) -> Seq<Step> {
    if new_window.is_floating {
        seq![]
    } else {
        match first_where(previous, is_focused_miri_workspace()) {
            None => seq![Step::Abort(Failure::NoFocusedWorkspace)],
            Some(previous_workspace) => match first_where(current, is_focused_miri_workspace()) {
                None => seq![Step::Abort(Failure::NoFocusedWorkspace)],
                Some(current_workspace) => {
                    let previous_windows = previous_workspace.windows@;
                    let window_count = current_workspace.windows@.len();
                    if window_count == 1 {
                        if options.maximize_single_window {
                            seq![
                                Step::Note(Notice::OnlyOneWindow),
                                Step::Act(
                                    LayoutAction::SetWindowWidth {
                                        id: Some(new_window.id),
                                        width: Width::Full,
                                    },
                                ),
                            ]
                        } else {
                            seq![]
                        }
                    } else {
                        match first_where(previous_windows, is_master_window()) {
                            None => seq![Step::Note(Notice::LeftmostWindowMissing)],
                            Some(leftmost) => {
                                let consume = if leftmost.is_focused {
                                    LayoutAction::ConsumeOrExpelWindowRight { id: Some(new_window.id) }
                                } else {
                                    LayoutAction::ConsumeOrExpelWindowLeft { id: Some(new_window.id) }
                                };
                                let widths = seq![
                                    Step::Act(
                                        LayoutAction::SetWindowWidth {
                                            id: Some(leftmost.id),
                                            width: Width::MasterColumn,
                                        },
                                    ),
                                    Step::Act(
                                        LayoutAction::SetWindowWidth {
                                            id: Some(new_window.id),
                                            width: Width::ChildColumn,
                                        },
                                    ),
                                ];
                                if leftmost.is_focused {
                                    seq![Step::Act(consume)] + widths
                                } else {
                                    match first_where(previous_windows, is_focused_miri_window()) {
                                        None => seq![
                                            Step::Act(consume),
                                            Step::Note(Notice::FocusedWindowMissing),
                                        ],
                                        Some(focused) => if window_count == 0 {
                                            seq![
                                                Step::Act(consume),
                                                Step::Abort(Failure::WindowCountUnderflow),
                                            ]
                                        } else {
                                            seq![
                                                Step::Act(consume),
                                                Step::Act(LayoutAction::FocusWindow { id: new_window.id }),
                                            ] + repeated(
                                                LayoutAction::MoveWindowUp,
                                                saturating_sub(window_count - 2, row_of(focused) as int),
                                            ) + widths
                                        },
                                    }
                                }
                            },
                        }
                    }
                },
            },
        }
    }
}

/// What closing a window does to the master layout, given the workspaces after it closed.
pub open spec fn window_close_steps(current: Seq<MiriWorkspace>, options: LayoutOptions) -> Seq<Step> {
    match first_where(current, is_focused_miri_workspace()) {
        None => seq![Step::Abort(Failure::NoFocusedWorkspace)],
        Some(workspace) => {
            let windows = workspace.windows@;
            if windows.len() == 0 {
                seq![]
            } else if windows.len() == 1 {
                seq![Step::Note(Notice::OnlyOneWindow)] + if options.maximize_single_window {
                    seq![
                        Step::Act(
                            LayoutAction::SetWindowWidth { id: Some(windows[0].id), width: Width::Full },
                        ),
                    ]
                } else {
                    seq![]
                }
            } else if first_where(windows, right_of_first_column()) is None {
                match first_where(windows, heads_its_column()) {
                    None => seq![Step::Note(Notice::TopChildWindowMissing)],
                    Some(top) => seq![
                        Step::Act(LayoutAction::ConsumeOrExpelWindowLeft { id: Some(top.id) }),
                        Step::Act(LayoutAction::FocusColumnLeft),
                    ],
                }
            } else {
                seq![]
            }
        },
    }
}

/// What putting `windows` into `mode` does: the master layout gathers them into a
/// master column and a child column; the scrolling layout leaves them be.
pub open spec fn layout_mode_steps(windows: Seq<WindowInfo>, options: LayoutOptions, mode: Mode) -> Seq<
    Step,
> {
    match mode {
        Mode::Master => if windows.len() == 0 {
            seq![]
        } else if windows.len() == 1 {
            if options.maximize_single_window {
                seq![
                    Step::Act(
                        LayoutAction::SetWindowWidth { id: Some(windows[0].id), width: Width::Full },
                    ),
                ]
            } else {
                seq![]
            }
        } else {
            seq![
                Step::Act(LayoutAction::MoveColumnToFirst),
                Step::Act(LayoutAction::ConsumeOrExpelWindowLeft { id: None }),
                Step::Act(LayoutAction::SetColumnWidth { width: Width::MasterColumn }),
                Step::Act(LayoutAction::FocusColumnRight),
                Step::Act(LayoutAction::SetColumnWidth { width: Width::ChildColumn }),
            ] + repeated(LayoutAction::ConsumeWindowIntoColumn, (windows.len() - 1) as nat) + seq![
                Step::Act(LayoutAction::FocusColumnLeft),
            ]
        },
        Mode::Scroll => seq![],
    }
}

/// The first window right of the first column.
fn find_right_of_first_column(windows: &Vec<MiriWindow>) -> (found: Option<MiriWindow>)
    ensures
        found == first_where(windows@, right_of_first_column()),
{
    let mut i: usize = 0;
    assert(windows@.subrange(0, windows@.len() as int) =~= windows@);
    while i < windows.len()
        invariant
            i <= windows.len(),
            first_where(windows@, right_of_first_column()) == first_where(
                windows@.subrange(i as int, windows@.len() as int),
                right_of_first_column(),
            ),
        decreases windows.len() - i,
    {
        proof {
            lemma_first_where_step(windows@, right_of_first_column(), i as int);
        }
        let hit = match windows[i].position {
            Some((column, _)) => column >= 2,
            None => false,
        };
        if hit {
            return Some(windows[i]);
        }
        i = i + 1;
    }
    None
}

/// The steps for a tiled `new_window` that opened on the focused workspace. With
/// one window, that window is widened to the full working area where the
/// configuration asks; otherwise the new window joins the child column, right
/// under the focused window when the child column has focus, and the two columns
/// get their widths.
pub fn handle_master_window_open(service_state: &ServiceState, new_window: &WindowInfo) -> (steps: Vec<Step>)
    requires
        all_placed(service_state.previous_layout.workspaces@),
        all_placed(service_state.current_layout.workspaces@),
        !window_open_panics(
            service_state.previous_layout.workspaces@,
            service_state.current_layout.workspaces@,
            *new_window,
        ),
    ensures
        steps@ == window_open_steps(
            service_state.previous_layout.workspaces@,
            service_state.current_layout.workspaces@,
            *new_window,
            service_state.options,
        ),
{
    let mut steps: Vec<Step> = Vec::new();
    if new_window.is_floating {
        return steps;
    }
    let previous_workspace = match service_state.previous_layout.get_focused_workspace() {
        Some(w) => w,
        None => {
            steps.push(Step::Abort(Failure::NoFocusedWorkspace));
            return steps;
        },
    };
    let current_workspace = match service_state.current_layout.get_focused_workspace() {
        Some(w) => w,
        None => {
            steps.push(Step::Abort(Failure::NoFocusedWorkspace));
            return steps;
        },
    };
    let previous_windows = &previous_workspace.windows;
    let window_count = current_workspace.windows.len();
    let ghost spec_steps = window_open_steps(
        service_state.previous_layout.workspaces@,
        service_state.current_layout.workspaces@,
        *new_window,
        service_state.options,
    );

    if window_count == 1 {
        if service_state.options.maximize_single_window {
            steps.push(Step::Note(Notice::OnlyOneWindow));
            steps.push(
                Step::Act(LayoutAction::SetWindowWidth { id: Some(new_window.id), width: Width::Full }),
            );
        }
        assert(steps@ =~= spec_steps);
        return steps;
    }
    let leftmost_window = match find_master_window(previous_windows) {
        Some(w) => w,
        None => {
            steps.push(Step::Note(Notice::LeftmostWindowMissing));
            assert(steps@ =~= spec_steps);
            return steps;
        },
    };
    let move_into_child_column = if leftmost_window.is_focused {
        LayoutAction::ConsumeOrExpelWindowRight { id: Some(new_window.id) }
    } else {
        LayoutAction::ConsumeOrExpelWindowLeft { id: Some(new_window.id) }
    };
    steps.push(Step::Act(move_into_child_column));

    if !leftmost_window.is_focused {
        let focused_window = match previous_workspace.get_focused_window() {
            Some(w) => w,
            None => {
                steps.push(Step::Note(Notice::FocusedWindowMissing));
                assert(steps@ =~= spec_steps);
                return steps;
            },
        };
        if window_count == 0 {
            steps.push(Step::Abort(Failure::WindowCountUnderflow));
            assert(steps@ =~= spec_steps);
            return steps;
        }
        let previous_window_count = window_count - 1;
        let master_window_count: usize = 1;
        let child_column_count = previous_window_count - master_window_count;
        steps.push(Step::Act(LayoutAction::FocusWindow { id: new_window.id }));
        let row = match focused_window.position {
            Some((_, row)) => row,
            None => 0,
        };
        let moves_needed = child_column_count.saturating_sub(row);
        push_repeated(&mut steps, &LayoutAction::MoveWindowUp, moves_needed);
    }
    steps.push(
        Step::Act(
            LayoutAction::SetWindowWidth { id: Some(leftmost_window.id), width: Width::MasterColumn },
        ),
    );
    steps.push(
        Step::Act(LayoutAction::SetWindowWidth { id: Some(new_window.id), width: Width::ChildColumn }),
    );
    assert(steps@ =~= spec_steps);
    steps
}

/// The steps after a window closed on the focused workspace. A lone window is
/// widened to the full working area where the configuration asks; where no window
/// is left right of the first column, the master window was closed and the top
/// window of the remaining column becomes the master window.
pub fn handle_master_window_close(_closed_id: u64, service_state: &ServiceState) -> (steps: Vec<Step>)
    requires
        all_placed(service_state.current_layout.workspaces@),
        first_where(service_state.current_layout.workspaces@, is_focused_miri_workspace()) is Some,
    ensures
        steps@ == window_close_steps(service_state.current_layout.workspaces@, service_state.options),
{
    let mut steps: Vec<Step> = Vec::new();
    let current_workspace = match service_state.current_layout.get_focused_workspace() {
        Some(w) => w,
        None => {
            steps.push(Step::Abort(Failure::NoFocusedWorkspace));
            return steps;
        },
    };
    let current_windows = &current_workspace.windows;
    let ghost spec_steps = window_close_steps(
        service_state.current_layout.workspaces@,
        service_state.options,
    );
    if current_windows.len() == 0 {
        return steps;
    }
    if current_windows.len() == 1 {
        steps.push(Step::Note(Notice::OnlyOneWindow));
        let last_window = current_windows[0];
        if service_state.options.maximize_single_window {
            steps.push(
                Step::Act(LayoutAction::SetWindowWidth { id: Some(last_window.id), width: Width::Full }),
            );
        }
    }
    if current_windows.len() >= 2 {
        let master_closed = find_right_of_first_column(current_windows).is_none();
        if master_closed {
            match find_column_head(current_windows) {
                None => {
                    steps.push(Step::Note(Notice::TopChildWindowMissing));
                },
                Some(top_child_window) => {
                    steps.push(
                        Step::Act(
                            LayoutAction::ConsumeOrExpelWindowLeft { id: Some(top_child_window.id) },
                        ),
                    );
                    steps.push(Step::Act(LayoutAction::FocusColumnLeft));
                },
            }
        }
    }
    assert(steps@ =~= spec_steps);
    steps
}

/// Puts the windows of a workspace into `mode`: the master layout makes the first
/// column the master column and consumes every other window into the child column;
/// the scrolling layout leaves the windows where they are.
pub fn force_workspace_windows_into_layout_mode(
    windows: &Vec<WindowInfo>,
    options: &LayoutOptions,
    mode: Mode,
) -> (steps: Vec<Step>)
    ensures
        steps@ == layout_mode_steps(windows@, *options, mode),
{
    let mut steps: Vec<Step> = Vec::new();
    match mode {
        Mode::Master => {
            let window_count = windows.len();
            if window_count == 0 {
                return steps;
            }
            if window_count == 1 {
                if options.maximize_single_window {
                    steps.push(
                        Step::Act(
                            LayoutAction::SetWindowWidth { id: Some(windows[0].id), width: Width::Full },
                        ),
                    );
                }
                assert(steps@ =~= layout_mode_steps(windows@, *options, mode));
                return steps;
            }
            steps.push(Step::Act(LayoutAction::MoveColumnToFirst));
            steps.push(Step::Act(LayoutAction::ConsumeOrExpelWindowLeft { id: None }));
            steps.push(Step::Act(LayoutAction::SetColumnWidth { width: Width::MasterColumn }));
            steps.push(Step::Act(LayoutAction::FocusColumnRight));
            steps.push(Step::Act(LayoutAction::SetColumnWidth { width: Width::ChildColumn }));
            push_repeated(&mut steps, &LayoutAction::ConsumeWindowIntoColumn, window_count - 1);
            steps.push(Step::Act(LayoutAction::FocusColumnLeft));
        },
        Mode::Scroll => {},
    }
    assert(steps@ =~= layout_mode_steps(windows@, *options, mode));
    steps
}

} // verus!
