use vstd::prelude::*;

use crate::config::LayoutOptions;
use crate::layout::master::{
    force_master_layout, force_master_steps, handle_master_gain_window, handle_master_lose_window,
    master_gain_panics, plan_master_gain,
    master_gain_steps, master_lose_steps,
};
use crate::layout::scroll::{
    force_scroll_layout, is_scroll_plan, lemma_scroll_plan_unique, places_distinct,
};
use crate::niri_ipc_utils::WindowInfo;
use crate::plan::Step;
use crate::service_state::{MiriWindow, MiriWorkspace, Mode};

verus! {

/// What a workspace does when a window joins it: only a tiled window in the
/// master layout moves anything.
pub open spec fn workspace_gain_steps(
    workspace: MiriWorkspace,
    new_window: WindowInfo,
    options: LayoutOptions,
    previous_focused_window: Option<MiriWindow>,
) -> Seq<Step> {
    if new_window.is_floating {
        seq![]
    } else {
        match workspace.mode {
            Mode::Master => master_gain_steps(workspace, new_window, options, previous_focused_window),
            Mode::Scroll => seq![],
        }
    }
}

/// What a workspace does when a window leaves it.
pub open spec fn workspace_lose_steps(workspace: MiriWorkspace, options: LayoutOptions) -> Seq<Step> {
    match workspace.mode {
        Mode::Master => master_lose_steps(workspace, options),
        Mode::Scroll => seq![],
    }
}

/// `steps` put `windows`, the windows of a workspace on `output`, into `mode`. The
/// scrolling layout spreads the windows only where the configuration asks for it.
pub open spec fn is_force_plan(
    windows: Seq<WindowInfo>,
    options: LayoutOptions,
    mode: Mode,
    output: String,
    steps: Seq<Step>,
) -> bool {
    match mode {
        Mode::Master => steps == force_master_steps(windows, options, output),
        Mode::Scroll => if options.spread_windows_on_enter {
            is_scroll_plan(windows, steps)
        } else {
            steps == Seq::<Step>::empty()
        },
    }
}

/// A floating window never rearranges a workspace, and a workspace in the
/// scrolling layout leaves both arriving and leaving windows to niri.
pub proof fn lemma_floating_and_scroll_are_left_alone(
    workspace: MiriWorkspace,
    new_window: WindowInfo,
    options: LayoutOptions,
    previous_focused_window: Option<MiriWindow>,
)
    ensures
        new_window.is_floating ==> workspace_gain_steps(
            workspace,
            new_window,
            options,
            previous_focused_window,
        ) == Seq::<Step>::empty(),
        workspace.mode == Mode::Scroll ==> workspace_gain_steps(
            workspace,
            new_window,
            options,
            previous_focused_window,
        ) == Seq::<Step>::empty() && workspace_lose_steps(workspace, options) == Seq::<Step>::empty(),
{
}

/// Entering the scrolling layout does what switching the windows into the
/// scrolling layout does where the configuration asks to spread them, and nothing
/// otherwise. Where no two tiles share a place, that is one plan only.
pub proof fn lemma_scroll_mode_is_scroll_layout(
    windows: Seq<WindowInfo>,
    options: LayoutOptions,
    output: String,
    entered: Seq<Step>,
    spread: Seq<Step>,
)
    requires
        is_force_plan(windows, options, Mode::Scroll, output, entered),
    ensures
        !options.spread_windows_on_enter ==> entered.len() == 0,
        options.spread_windows_on_enter ==> is_scroll_plan(windows, entered),
        options.spread_windows_on_enter && places_distinct(windows) && is_scroll_plan(windows, spread)
            ==> entered == spread,
{
    if options.spread_windows_on_enter && places_distinct(windows) && is_scroll_plan(windows, spread) {
        lemma_scroll_plan_unique(windows, entered, spread);
    }
}

/// The inputs on which a workspace cannot take in a joining window.
pub open spec fn workspace_gain_panics(workspace: MiriWorkspace, new_window: WindowInfo) -> bool {
    workspace.mode == Mode::Master && master_gain_panics(workspace, new_window)
}

/// The steps of [`handle_workspace_gain_window`] on every input: where the workspace
/// cannot take the window in, the steps taken up to that point followed by the stop.
pub(crate) fn plan_workspace_gain(
    current_workspace: &MiriWorkspace,
    new_window: &WindowInfo,
    options: &LayoutOptions,
    previous_focused_window: Option<MiriWindow>,
) -> (steps: Vec<Step>)
    ensures
        steps@ == workspace_gain_steps(
            *current_workspace,
            *new_window,
            *options,
            previous_focused_window,
        ),
{
    if new_window.is_floating {
        return Vec::new();
    }
    match current_workspace.mode {
        Mode::Master => plan_master_gain(current_workspace, new_window, options, previous_focused_window),
        Mode::Scroll => Vec::new(),
    }
}

/// What `current_workspace` does when `new_window` joins it.
pub fn handle_workspace_gain_window(
    current_workspace: &MiriWorkspace,
    new_window: &WindowInfo,
    options: &LayoutOptions,
    previous_focused_window: Option<MiriWindow>,
) -> (steps: Vec<Step>)
    requires
        !workspace_gain_panics(*current_workspace, *new_window),
    ensures
        steps@ == workspace_gain_steps(
            *current_workspace,
            *new_window,
            *options,
            previous_focused_window,
        ),
{
    if new_window.is_floating {
        return Vec::new();
    }
    match current_workspace.mode {
        Mode::Master => handle_master_gain_window(
            current_workspace,
            new_window,
            options,
            previous_focused_window,
        ),
        Mode::Scroll => Vec::new(),
    }
}

/// What `current_workspace_state` does when a window leaves it.
pub fn handle_workspace_lose_window(current_workspace_state: &MiriWorkspace, options: &LayoutOptions) -> (steps: Vec<
    Step,
>)
    ensures
        steps@ == workspace_lose_steps(*current_workspace_state, *options),
{
    match current_workspace_state.mode {
        Mode::Master => handle_master_lose_window(current_workspace_state, options),
        Mode::Scroll => Vec::new(),
    }
}

/// Puts `windows`, the windows of a workspace on `output`, into `mode`.
pub fn force_workspace_windows_into_layout_mode(
    windows: &Vec<WindowInfo>,
    options: &LayoutOptions,
    mode: Mode,
    output: &String,
) -> (steps: Vec<Step>)
    ensures
        is_force_plan(windows@, *options, mode, *output, steps@),
{
    match mode {
        Mode::Master => force_master_layout(windows, options, output),
        Mode::Scroll => {
            if options.spread_windows_on_enter {
                force_scroll_layout(windows)
            } else {
                Vec::new()
            }
        },
    }
}

} // verus!
