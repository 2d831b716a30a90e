use vstd::prelude::*;

use crate::config::LayoutOptions;
use crate::niri_ipc_utils::WindowInfo;
use crate::plan::{push_repeated, repeated, Failure, LayoutAction, Notice, Step, Width};
use crate::seq_util::{first_where, lemma_first_where_at, lemma_first_where_filter, lemma_first_where_step};
use crate::service_state::{MiriWindow, MiriWorkspace};

verus! {

/// The windows of a workspace that are in the tiling layout, in their order.
pub open spec fn tiled(windows: Seq<MiriWindow>) -> Seq<MiriWindow> {
    windows.filter(|w: MiriWindow| !w.is_floating)
}

/// The master window stands first in the first column.
pub open spec fn is_master_window() -> spec_fn(MiriWindow) -> bool {
    |w: MiriWindow| w.position == Some((1usize, 1usize))
}

/// A window that heads its column.
pub open spec fn heads_its_column() -> spec_fn(MiriWindow) -> bool {
    |w: MiriWindow| w.position matches Some((_, row)) && row == 1
}

/// `a - b`, or 0 where `b` is the larger.
pub open spec fn saturating_sub(a: int, b: int) -> nat {
    if a > b {
        (a - b) as nat
    } else {
        0
    }
}

/// The steps for a workspace left with one tiled window: widen it, where the
/// configuration asks for that.
pub open spec fn single_window_steps(maximize_single_window: bool, id: u64, output: String) -> Seq<
    Step,
> {
    if maximize_single_window {
        seq![
            Step::Act(
                LayoutAction::SetWindowWidth { id: Some(id), width: Width::SingleWindow { output } },
            ),
        ]
    } else {
        seq![]
    }
}

/// A lone window takes no step unless the configuration asks to widen it, and then
/// exactly one: giving that window the single-window width on its output.
pub proof fn lemma_single_window_steps(maximize_single_window: bool, id: u64, output: String)
    ensures
        !maximize_single_window ==> single_window_steps(maximize_single_window, id, output).len() == 0,
        maximize_single_window ==> {
            &&& single_window_steps(maximize_single_window, id, output).len() == 1
            &&& single_window_steps(maximize_single_window, id, output)[0] == Step::Act(
                LayoutAction::SetWindowWidth { id: Some(id), width: Width::SingleWindow { output } },
            )
        },
{
}

/// The steps that bring a window into the child column right under the window
/// that was focused there. `window_count` counts the tiled windows with the new one.
pub open spec fn move_under_steps(focused_window: MiriWindow, window_count: nat, id: u64) -> Seq<
    Step,
> {
    match focused_window.position {
        None => seq![],
        Some((_, row)) => seq![Step::Act(LayoutAction::FocusWindow { id })] + repeated(
            LayoutAction::MoveWindowUp,
            saturating_sub(window_count - 2, row as int),
        ),
    }
}

/// What the master layout does when a window joins the workspace.
pub open spec fn master_gain_steps(
    workspace: MiriWorkspace,
    new_window: WindowInfo,
    options: LayoutOptions,
    previous_focused_window: Option<MiriWindow>,
) -> Seq<Step> {
    let tiled = tiled(workspace.windows@);
    if new_window.is_floating || tiled.len() == 0 {
        seq![]
    } else if tiled.len() == 1 {
        single_window_steps(options.maximize_single_window, new_window.id, workspace.output)
    } else {
        match new_window.pos_in_scrolling_layout {
            None => seq![Step::Abort(Failure::ScrollPositionMissing)],
            Some((x, _)) => {
                if x < 2 {
                    seq![Step::Note(Notice::InvalidNewWindowColumn(x))]
                } else {
                    let consume = if x == 2 {
                        LayoutAction::ConsumeOrExpelWindowRight { id: Some(new_window.id) }
                    } else {
                        LayoutAction::ConsumeOrExpelWindowLeft { id: Some(new_window.id) }
                    };
                    let move_under = match previous_focused_window {
                        Some(focused) => if x >= 3 {
                            move_under_steps(focused, tiled.len(), new_window.id)
                        } else {
                            seq![]
                        },
                        None => seq![],
                    };
                    let child_width = Step::Act(
                        LayoutAction::SetWindowWidth {
                            id: Some(new_window.id),
                            width: Width::ChildColumn,
                        },
                    );
                    let master_width = match first_where(tiled, is_master_window()) {
                        None => Step::Abort(Failure::MasterWindowMissing),
                        Some(master) => Step::Act(
                            LayoutAction::SetWindowWidth {
                                id: Some(master.id),
                                width: Width::MasterColumn,
                            },
                        ),
                    };
                    seq![Step::Act(consume)] + move_under + seq![child_width, master_width]
                }
            },
        }
    }
}

/// A tiled window that opens in the third column or further right of a
/// workspace in the master layout is taken into the child column and put right
/// under the window that had focus: it is focused and moved up once for each child
/// below the focused one, counting tiled windows only; then the new window gets
/// the child width and the master window, the first tiled window standing first
/// in the first column, the master width.
pub proof fn lemma_gain_moves_under_focused(
    workspace: MiriWorkspace,
    new_window: WindowInfo,
    options: LayoutOptions,
    focused: MiriWindow,
    master: int,
    column: usize,
    row: usize,
    focused_column: usize,
    focused_row: usize,
)
    requires
        !new_window.is_floating,
        new_window.pos_in_scrolling_layout == Some((column, row)),
        column >= 3,
        focused.position == Some((focused_column, focused_row)),
        0 <= master < workspace.windows@.len(),
        !workspace.windows@[master].is_floating,
        workspace.windows@[master].position == Some((1usize, 1usize)),
        forall|j: int|
            0 <= j < master && !(#[trigger] workspace.windows@[j]).is_floating
                ==> workspace.windows@[j].position != Some((1usize, 1usize)),
        workspace.windows@.filter(|w: MiriWindow| !w.is_floating).len() >= 2,
    ensures
        ({
            let tiled_count = workspace.windows@.filter(|w: MiriWindow| !w.is_floating).len();
            let moves = if tiled_count - 2 > focused_row {
                tiled_count - 2 - focused_row
            } else {
                0
            };
            master_gain_steps(workspace, new_window, options, Some(focused)) == seq![
                Step::Act(LayoutAction::ConsumeOrExpelWindowLeft { id: Some(new_window.id) }),
                Step::Act(LayoutAction::FocusWindow { id: new_window.id }),
            ] + Seq::new(moves as nat, |_i: int| Step::Act(LayoutAction::MoveWindowUp)) + seq![
                Step::Act(
                    LayoutAction::SetWindowWidth {
                        id: Some(new_window.id),
                        width: Width::ChildColumn,
                    },
                ),
                Step::Act(
                    LayoutAction::SetWindowWidth {
                        id: Some(workspace.windows@[master].id),
                        width: Width::MasterColumn,
                    },
                ),
            ]
        }),
{
    let windows = workspace.windows@;
    let tiled_windows = tiled(windows);
    assert(tiled_windows =~= windows.filter(|w: MiriWindow| !w.is_floating));
    let both = |w: MiriWindow| (|w: MiriWindow| !w.is_floating)(w) && is_master_window()(w);
    lemma_first_where_filter(windows, |w: MiriWindow| !w.is_floating, is_master_window());
    assert forall|j: int| 0 <= j < master implies !both(#[trigger] windows[j]) by {}
    lemma_first_where_at(windows, both, master);
    assert(first_where(tiled_windows, is_master_window()) == Some(windows[master]));
    let tiled_count = tiled_windows.len();
    let moves = if tiled_count - 2 > focused_row {
        tiled_count - 2 - focused_row
    } else {
        0
    };
    assert(repeated(LayoutAction::MoveWindowUp, saturating_sub(tiled_count - 2, focused_row as int))
        =~= Seq::new(moves as nat, |_i: int| Step::Act(LayoutAction::MoveWindowUp)));
    assert(master_gain_steps(workspace, new_window, options, Some(focused)) =~= seq![
        Step::Act(LayoutAction::ConsumeOrExpelWindowLeft { id: Some(new_window.id) }),
        Step::Act(LayoutAction::FocusWindow { id: new_window.id }),
    ] + Seq::new(moves as nat, |_i: int| Step::Act(LayoutAction::MoveWindowUp)) + seq![
        Step::Act(
            LayoutAction::SetWindowWidth { id: Some(new_window.id), width: Width::ChildColumn },
        ),
        Step::Act(
            LayoutAction::SetWindowWidth {
                id: Some(windows[master].id),
                width: Width::MasterColumn,
            },
        ),
    ]);
}

/// A tiled window that opens in the second column, right of the master column,
/// is taken into the child column from the left and stays where it lands, whatever
/// window had focus: then the child and master widths are set.
pub proof fn lemma_gain_in_second_column(
    workspace: MiriWorkspace,
    new_window: WindowInfo,
    options: LayoutOptions,
    previous_focused_window: Option<MiriWindow>,
    master: int,
    row: usize,
)
    requires
        !new_window.is_floating,
        new_window.pos_in_scrolling_layout == Some((2usize, row)),
        0 <= master < workspace.windows@.len(),
        !workspace.windows@[master].is_floating,
        workspace.windows@[master].position == Some((1usize, 1usize)),
        forall|j: int|
            0 <= j < master && !(#[trigger] workspace.windows@[j]).is_floating
                ==> workspace.windows@[j].position != Some((1usize, 1usize)),
        workspace.windows@.filter(|w: MiriWindow| !w.is_floating).len() >= 2,
    ensures
        master_gain_steps(workspace, new_window, options, previous_focused_window) == seq![
            Step::Act(LayoutAction::ConsumeOrExpelWindowRight { id: Some(new_window.id) }),
            Step::Act(
                LayoutAction::SetWindowWidth { id: Some(new_window.id), width: Width::ChildColumn },
            ),
            Step::Act(
                LayoutAction::SetWindowWidth {
                    id: Some(workspace.windows@[master].id),
                    width: Width::MasterColumn,
                },
            ),
        ],
{
    let windows = workspace.windows@;
    let tiled_windows = tiled(windows);
    assert(tiled_windows =~= windows.filter(|w: MiriWindow| !w.is_floating));
    let both = |w: MiriWindow| (|w: MiriWindow| !w.is_floating)(w) && is_master_window()(w);
    lemma_first_where_filter(windows, |w: MiriWindow| !w.is_floating, is_master_window());
    assert forall|j: int| 0 <= j < master implies !both(#[trigger] windows[j]) by {}
    lemma_first_where_at(windows, both, master);
    assert(first_where(tiled_windows, is_master_window()) == Some(windows[master]));
    assert(master_gain_steps(workspace, new_window, options, previous_focused_window) =~= seq![
        Step::Act(LayoutAction::ConsumeOrExpelWindowRight { id: Some(new_window.id) }),
        Step::Act(
            LayoutAction::SetWindowWidth { id: Some(new_window.id), width: Width::ChildColumn },
        ),
        Step::Act(
            LayoutAction::SetWindowWidth {
                id: Some(windows[master].id),
                width: Width::MasterColumn,
            },
        ),
    ]);
}

/// Floating windows play no part when a window joins a workspace in the master
/// layout: two workspaces on one output with the same tiled windows, in the same
/// order, take the same steps, however many floating windows each holds.
pub proof fn lemma_gain_ignores_floating_windows(
    a: MiriWorkspace,
    b: MiriWorkspace,
    new_window: WindowInfo,
    options: LayoutOptions,
    previous_focused_window: Option<MiriWindow>,
)
    requires
        a.output == b.output,
        a.windows@.filter(|w: MiriWindow| !w.is_floating) == b.windows@.filter(
            |w: MiriWindow| !w.is_floating,
        ),
    ensures
        master_gain_steps(a, new_window, options, previous_focused_window) == master_gain_steps(
            b,
            new_window,
            options,
            previous_focused_window,
        ),
{
    assert(tiled(a.windows@) =~= a.windows@.filter(|w: MiriWindow| !w.is_floating));
    assert(tiled(b.windows@) =~= b.windows@.filter(|w: MiriWindow| !w.is_floating));
}

/// A window leaving a workspace in the master layout widens nothing unless the
/// configuration asks to widen a lone window; where it does and one tiled window
/// is left, that window alone gets the single-window width on the workspace's output.
pub proof fn lemma_lose_widens_only_when_configured(workspace: MiriWorkspace, options: LayoutOptions)
    ensures
        !options.maximize_single_window ==> forall|i: int|
            0 <= i < master_lose_steps(workspace, options).len() ==> !(#[trigger] master_lose_steps(
                workspace,
                options,
            )[i] matches Step::Act(LayoutAction::SetWindowWidth { .. })),
        ({
            let tiled_windows = workspace.windows@.filter(|w: MiriWindow| !w.is_floating);
            options.maximize_single_window && tiled_windows.len() == 1 ==> master_lose_steps(
                workspace,
                options,
            ) == seq![
                Step::Act(
                    LayoutAction::SetWindowWidth {
                        id: Some(tiled_windows[0].id),
                        width: Width::SingleWindow { output: workspace.output },
                    },
                ),
            ]
        }),
{
    assert(tiled(workspace.windows@) =~= workspace.windows@.filter(|w: MiriWindow| !w.is_floating));
}

/// The column of a window, where it has a position.
pub open spec fn column_of(w: MiriWindow) -> Option<usize> {
    match w.position {
        Some((column, _)) => Some(column),
        None => None,
    }
}

/// The columns that the positioned windows occupy.
pub open spec fn occupied_columns(windows: Seq<MiriWindow>) -> Set<usize> {
    Set::new(
        |c: usize| exists|i: int| 0 <= i < windows.len() && column_of(#[trigger] windows[i]) == Some(c),
    )
}

/// The number of distinct columns that the positioned windows occupy.
pub open spec fn column_count(windows: Seq<MiriWindow>) -> nat {
    occupied_columns(windows).len()
}

/// What the master layout does when a window leaves the workspace.
pub open spec fn master_lose_steps(workspace: MiriWorkspace, options: LayoutOptions) -> Seq<Step> {
    let tiled = tiled(workspace.windows@);
    if tiled.len() == 0 {
        seq![]
    } else if tiled.len() == 1 {
        single_window_steps(options.maximize_single_window, tiled[0].id, workspace.output)
    } else if column_count(workspace.windows@) == 1 {
        match first_where(tiled, heads_its_column()) {
            None => seq![Step::Note(Notice::TopChildWindowMissing)],
            Some(top) => seq![
                Step::Act(LayoutAction::ConsumeOrExpelWindowLeft { id: Some(top.id) }),
                Step::Act(LayoutAction::FocusColumnLeft),
            ],
        }
    } else {
        seq![]
    }
}

/// What switching a workspace's windows into the master layout does.
pub open spec fn force_master_steps(
    windows: Seq<WindowInfo>,
    options: LayoutOptions,
    output: String,
) -> Seq<Step> {
    if windows.len() == 0 {
        seq![]
    } else if windows.len() == 1 {
        single_window_steps(options.maximize_single_window, windows[0].id, output)
    } else {
        seq![
            Step::Act(LayoutAction::MoveColumnToFirst),
            Step::Act(LayoutAction::ConsumeOrExpelWindowLeft { id: None }),
            Step::Act(LayoutAction::SetColumnWidth { width: Width::MasterColumn }),
            Step::Act(LayoutAction::FocusColumnRight),
            Step::Act(LayoutAction::SetColumnWidth { width: Width::ChildColumn }),
        ] + repeated(LayoutAction::ConsumeWindowIntoColumn, (windows.len() - 1) as nat) + seq![
            Step::Act(LayoutAction::FocusColumnLeft),
        ]
    }
}

/// The tiled windows among `windows`, in their order.
pub fn tiled_windows(windows: &Vec<MiriWindow>) -> (result: Vec<MiriWindow>)
    ensures
        result@ == tiled(windows@),
{
    let mut result: Vec<MiriWindow> = Vec::new();
    let mut i: usize = 0;
    while i < windows.len()
        invariant
            i <= windows.len(),
            result@ == tiled(windows@.take(i as int)),
        decreases windows.len() - i,
    {
        proof {
            reveal_with_fuel(Seq::<_>::filter, 1);
            assert(windows@.take(i + 1).drop_last() =~= windows@.take(i as int));
        }
        if !windows[i].is_floating {
            result.push(windows[i]);
        }
        i = i + 1;
    }
    assert(windows@.take(windows.len() as int) =~= windows@);
    result
}

/// The first window that `is_master_window` accepts.
pub(crate) fn find_master_window(windows: &Vec<MiriWindow>) -> (found: Option<MiriWindow>)
    ensures
        found == first_where(windows@, is_master_window()),
{
    let mut i: usize = 0;
    assert(windows@.subrange(0, windows@.len() as int) =~= windows@);
    while i < windows.len()
        invariant
            i <= windows.len(),
            first_where(windows@, is_master_window()) == first_where(
                windows@.subrange(i as int, windows@.len() as int),
                is_master_window(),
            ),
        decreases windows.len() - i,
    {
        proof {
            lemma_first_where_step(windows@, is_master_window(), i as int);
        }
        let hit = match windows[i].position {
            Some((column, row)) => column == 1 && row == 1,
            None => false,
        };
        if hit {
            return Some(windows[i]);
        }
        i = i + 1;
    }
    None
}

/// The first window that heads its column.
pub(crate) fn find_column_head(windows: &Vec<MiriWindow>) -> (found: Option<MiriWindow>)
    ensures
        found == first_where(windows@, heads_its_column()),
{
    let mut i: usize = 0;
    assert(windows@.subrange(0, windows@.len() as int) =~= windows@);
    while i < windows.len()
        invariant
            i <= windows.len(),
            first_where(windows@, heads_its_column()) == first_where(
                windows@.subrange(i as int, windows@.len() as int),
                heads_its_column(),
            ),
        decreases windows.len() - i,
    {
        proof {
            lemma_first_where_step(windows@, heads_its_column(), i as int);
        }
        let hit = match windows[i].position {
            Some((_, row)) => row == 1,
            None => false,
        };
        if hit {
            return Some(windows[i]);
        }
        i = i + 1;
    }
    None
}

/// Widens a lone tiled window, where the configuration asks for that.
fn handle_single_window(options: &LayoutOptions, single_window_id: u64, output: &String) -> (steps:
    Vec<Step>)
    ensures
        steps@ == single_window_steps(options.maximize_single_window, single_window_id, *output),
{
    let mut steps: Vec<Step> = Vec::new();
    if options.maximize_single_window {
        steps.push(
            Step::Act(
                LayoutAction::SetWindowWidth {
                    id: Some(single_window_id),
                    width: Width::SingleWindow { output: output.clone() },
                },
            ),
        );
    }
    assert(steps@ =~= single_window_steps(options.maximize_single_window, single_window_id, *output));
    steps
}

/// Appends the steps that put `window_to_move` right under `focused_window` in the child column.
fn move_window_under_focused_window(
    focused_window: &MiriWindow,
    window_count: usize,
    window_to_move: &WindowInfo,
    steps: &mut Vec<Step>,
)
    requires
        window_count >= 2,
    ensures
        final(steps)@ == old(steps)@ + move_under_steps(
            *focused_window,
            window_count as nat,
            window_to_move.id,
        ),
{
    let focused_window_position = match focused_window.position {
        Some(position) => position,
        None => {
            assert(steps@ =~= steps@ + move_under_steps(
                *focused_window,
                window_count as nat,
                window_to_move.id,
            ));
            return ;
        },
    };
    let previous_window_count = window_count - 1;
    let master_window_count: usize = 1;
    let child_column_count = previous_window_count - master_window_count;

    let ghost start = steps@;
    steps.push(Step::Act(LayoutAction::FocusWindow { id: window_to_move.id }));
    let moves_needed = child_column_count.saturating_sub(focused_window_position.1);
    push_repeated(steps, &LayoutAction::MoveWindowUp, moves_needed);
    assert(steps@ =~= start + move_under_steps(*focused_window, window_count as nat, window_to_move.id));
}

/// The inputs on which joining the master layout cannot go on: a tiled window
/// with no place in the scrolling layout, or, once it is taken into the child
/// column, no master window to give the master width.
pub open spec fn master_gain_panics(workspace: MiriWorkspace, new_window: WindowInfo) -> bool {
    let tiled = tiled(workspace.windows@);
    &&& !new_window.is_floating
    &&& tiled.len() >= 2
    &&& match new_window.pos_in_scrolling_layout {
        None => true,
        Some((x, _)) => x >= 2 && first_where(tiled, is_master_window()) is None,
    }
}

/// What the master layout does when `new_window` joins `current_workspace`.
/// `previous_focused_window` is the window that had focus before, where the window
/// was just opened; the new window is then put right under it in the child column.
pub fn handle_master_gain_window(
    current_workspace: &MiriWorkspace,
    new_window: &WindowInfo,
    options: &LayoutOptions,
    previous_focused_window: Option<MiriWindow>,
) -> (steps: Vec<Step>)
    requires
        !master_gain_panics(*current_workspace, *new_window),
    ensures
        steps@ == master_gain_steps(*current_workspace, *new_window, *options, previous_focused_window),
{
    plan_master_gain(current_workspace, new_window, options, previous_focused_window)
}

/// The steps of [`handle_master_gain_window`] on every input: where joining cannot go
/// on, the steps taken up to that point followed by the stop.
pub(crate) fn plan_master_gain(
    current_workspace: &MiriWorkspace,
    new_window: &WindowInfo,
    options: &LayoutOptions,
    previous_focused_window: Option<MiriWindow>,
) -> (steps: Vec<Step>)
    ensures
        steps@ == master_gain_steps(*current_workspace, *new_window, *options, previous_focused_window),
{
    let mut steps: Vec<Step> = Vec::new();
    if new_window.is_floating {
        return steps;
    }
    let tiled_windows = tiled_windows(&current_workspace.windows);
    if tiled_windows.len() == 0 {
        return steps;
    }
    if tiled_windows.len() == 1 {
        return handle_single_window(options, new_window.id, &current_workspace.output);
    }
    let window_x = match new_window.pos_in_scrolling_layout {
        Some((x, _)) => x,
        None => {
            steps.push(Step::Abort(Failure::ScrollPositionMissing));
            assert(steps@ =~= master_gain_steps(
                *current_workspace,
                *new_window,
                *options,
                previous_focused_window,
            ));
            return steps;
        },
    };
    if window_x < 2 {
        steps.push(Step::Note(Notice::InvalidNewWindowColumn(window_x)));
        assert(steps@ =~= master_gain_steps(
            *current_workspace,
            *new_window,
            *options,
            previous_focused_window,
        ));
        return steps;
    }
    let move_into_child_column = if window_x == 2 {
        LayoutAction::ConsumeOrExpelWindowRight { id: Some(new_window.id) }
    } else {
        LayoutAction::ConsumeOrExpelWindowLeft { id: Some(new_window.id) }
    };
    steps.push(Step::Act(move_into_child_column));
    let ghost after_consume = steps@;

    if let Some(focused) = previous_focused_window {
        let third_column_index: usize = 3;
        if window_x >= third_column_index {
            move_window_under_focused_window(&focused, tiled_windows.len(), new_window, &mut steps);
        }
    }
    let ghost after_move = steps@;

    steps.push(
        Step::Act(
            LayoutAction::SetWindowWidth { id: Some(new_window.id), width: Width::ChildColumn },
        ),
    );
    match find_master_window(&tiled_windows) {
        Some(master) => {
            steps.push(
                Step::Act(
                    LayoutAction::SetWindowWidth { id: Some(master.id), width: Width::MasterColumn },
                ),
            );
        },
        None => {
            steps.push(Step::Abort(Failure::MasterWindowMissing));
        },
    }
    assert(steps@ =~= master_gain_steps(
        *current_workspace,
        *new_window,
        *options,
        previous_focused_window,
    ));
    steps
}

/// What the master layout does when a window leaves `current_workspace_state`,
/// which no longer holds it. Where the master window was closed (one column is
/// left), the head of the child column becomes the master window.
pub fn handle_master_lose_window(current_workspace_state: &MiriWorkspace, options: &LayoutOptions) -> (steps: Vec<
    Step,
>)
    ensures
        steps@ == master_lose_steps(*current_workspace_state, *options),
{
    let mut steps: Vec<Step> = Vec::new();
    let tiled_windows = tiled_windows(&current_workspace_state.windows);
    if tiled_windows.len() == 0 {
        return steps;
    }
    if tiled_windows.len() == 1 {
        return handle_single_window(options, tiled_windows[0].id, &current_workspace_state.output);
    }
    let master_closed: bool = current_workspace_state.get_workspace_column_count() == 1;
    if master_closed {
        match find_column_head(&tiled_windows) {
            None => {
                steps.push(Step::Note(Notice::TopChildWindowMissing));
            },
            Some(top_child_window) => {
                steps.push(
                    Step::Act(LayoutAction::ConsumeOrExpelWindowLeft { id: Some(top_child_window.id) }),
                );
                steps.push(Step::Act(LayoutAction::FocusColumnLeft));
            },
        }
    }
    assert(steps@ =~= master_lose_steps(*current_workspace_state, *options));
    steps
}

/// What switching the windows of a workspace on `output` into the master layout does:
/// the first column becomes the master column, every other window is consumed into
/// the child column, and focus returns to the master column.
pub fn force_master_layout(workspace_windows: &Vec<WindowInfo>, options: &LayoutOptions, output: &String) -> (steps: Vec<
    Step,
>)
    ensures
        steps@ == force_master_steps(workspace_windows@, *options, *output),
{
    let window_count = workspace_windows.len();
    if window_count == 0 {
        return Vec::new();
    }
    if window_count == 1 {
        return handle_single_window(options, workspace_windows[0].id, output);
    }
    let mut steps: Vec<Step> = Vec::new();
    steps.push(Step::Act(LayoutAction::MoveColumnToFirst));
    steps.push(Step::Act(LayoutAction::ConsumeOrExpelWindowLeft { id: None }));
    steps.push(Step::Act(LayoutAction::SetColumnWidth { width: Width::MasterColumn }));
    steps.push(Step::Act(LayoutAction::FocusColumnRight));
    steps.push(Step::Act(LayoutAction::SetColumnWidth { width: Width::ChildColumn }));
    push_repeated(&mut steps, &LayoutAction::ConsumeWindowIntoColumn, window_count - 1);
    steps.push(Step::Act(LayoutAction::FocusColumnLeft));
    assert(steps@ =~= force_master_steps(workspace_windows@, *options, *output));
    steps
}

/// Whether `columns` holds `column`.
pub(crate) fn holds_column(columns: &Vec<usize>, column: usize) -> (found: bool)
    ensures
        found == columns@.contains(column),
{
    let mut i: usize = 0;
    while i < columns.len()
        invariant
            i <= columns.len(),
            forall|j: int| 0 <= j < i ==> columns@[j] != column,
        decreases columns.len() - i,
    {
        if columns[i] == column {
            return true;
        }
        i = i + 1;
    }
    false
}

impl MiriWorkspace {
    /// The number of distinct columns that the workspace's windows occupy.
    pub fn get_workspace_column_count(&self) -> (count: usize)
        ensures
            count == column_count(self.windows@),
    {
        let mut seen: Vec<usize> = Vec::new();
        let mut i: usize = 0;
        while i < self.windows.len()
            invariant
                i <= self.windows.len(),
                seen@.no_duplicates(),
                seen@.to_set() == occupied_columns(self.windows@.take(i as int)),
            decreases self.windows.len() - i,
        {
            let ghost before = seen@;
            let ghost prefix = self.windows@.take(i as int);
            let ghost next = self.windows@.take(i + 1);
            assert forall|k: int| 0 <= k < i implies #[trigger] next[k] == prefix[k] by {}
            assert(next[i as int] == self.windows@[i as int]);
            if let Some((column, _)) = self.windows[i].position {
                if !holds_column(&seen, column) {
                    seen.push(column);
                    assert(seen@[seen@.len() - 1] == column);
                }
                assert(seen@.contains(column));
                assert forall|c: usize| before.contains(c) implies seen@.contains(c) by {
                    let j = choose|j: int| 0 <= j < before.len() && before[j] == c;
                    assert(seen@[j] == c);
                }
                assert(seen@.to_set() =~= occupied_columns(next)) by {
                    assert forall|c: usize| seen@.to_set().contains(c) implies occupied_columns(
                        next,
                    ).contains(c) by {
                        if c != column {
                            assert(before.contains(c));
                            assert(before.to_set().contains(c));
                            assert(occupied_columns(prefix).contains(c));
                            let k = choose|k: int| 0 <= k < prefix.len() && column_of(#[trigger] prefix[k]) == Some(c);
                            assert(column_of(next[k]) == Some(c));
                        } else {
                            assert(column_of(next[i as int]) == Some(c));
                        }
                    }
                    assert forall|c: usize| occupied_columns(next).contains(c) implies seen@.to_set().contains(c) by {
                        let k = choose|k: int| 0 <= k < next.len() && column_of(#[trigger] next[k]) == Some(c);
                        if k < i {
                            assert(column_of(prefix[k]) == Some(c));
                            assert(occupied_columns(prefix).contains(c));
                            assert(before.to_set().contains(c));
                            assert(before.contains(c));
                        } else {
                            assert(c == column);
                        }
                    }
                }
            } else {
                assert(seen@.to_set() =~= occupied_columns(next)) by {
                    assert forall|c: usize| occupied_columns(next).contains(c) implies seen@.to_set().contains(c) by {
                        let k = choose|k: int| 0 <= k < next.len() && column_of(#[trigger] next[k]) == Some(c);
                        assert(k < i);
                        assert(column_of(prefix[k]) == Some(c));
                    }
                    assert forall|c: usize| seen@.to_set().contains(c) implies occupied_columns(next).contains(c) by {
                        let k = choose|k: int| 0 <= k < prefix.len() && column_of(#[trigger] prefix[k]) == Some(c);
                        assert(column_of(next[k]) == Some(c));
                    }
                }
            }
            i = i + 1;
        }
        assert(self.windows@.take(self.windows.len() as int) =~= self.windows@);
        proof {
            seen@.unique_seq_to_set();
        }
        seen.len()
    }
}

} // verus!
