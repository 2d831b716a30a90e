use vstd::prelude::*;

use crate::service_state::Mode;

verus! {

/// A window or column width, named by what it is for. The percentages and the
/// single-window limits live in the user's configuration; the program that sends
/// the actions turns each of these into niri's size change.
#[derive(Clone, Debug, PartialEq, Eq)]
pub enum Width {
    /// The width a lone tiled window gets on the named output: the whole working
    /// area, or less where the configuration caps a single window.
    SingleWindow { output: String },
    /// The whole working area.
    Full,
    /// The master column's share of the working area.
    MasterColumn,
    /// What the master column leaves to the child column.
    ChildColumn,
    /// The width of a column in the scrolling layout.
    ScrollColumn,
}

/// One niri action that a layout decision asks for.
#[derive(Clone, Debug, PartialEq, Eq)]
pub enum LayoutAction {
    SetWindowWidth { id: Option<u64>, width: Width },
    SetColumnWidth { width: Width },
    FocusWindow { id: u64 },
    FocusColumnLeft,
    FocusColumnRight,
    MoveColumnToFirst,
    MoveWindowUp,
    ConsumeOrExpelWindowLeft { id: Option<u64> },
    ConsumeOrExpelWindowRight { id: Option<u64> },
    ConsumeWindowIntoColumn,
    ExpelWindowFromColumn,
    ResetWindowHeight { id: Option<u64> },
}

/// A line of the service's log.
#[derive(Clone, Copy, Debug, PartialEq, Eq)]
pub enum Notice {
    WindowOpened,
    WindowChanged,
    WindowMovedToNewWorkspace,
    WindowClosed,
    WindowsChanged,
    /// A new tiled window stood in a column where a master layout cannot take it in.
    InvalidNewWindowColumn(usize),
    /// The master window was closed but no window heads the child column.
    TopChildWindowMissing,
    FocusedWorkspaceMissing,
    WorkspaceWindowsMissing,
    /// A workspace is left with a single window.
    OnlyOneWindow,
    /// No window stands first in the first column.
    LeftmostWindowMissing,
    /// No window of the workspace has focus.
    FocusedWindowMissing,
    CycleFocusedWorkspaceMode,
    SetFocusedWorkspaceMode(Mode),
}

/// A state the service does not recover from.
#[derive(Clone, Copy, Debug, PartialEq, Eq)]
pub enum Failure {
    CurrentFocusedWorkspaceMissing,
    PreviousFocusedWorkspaceMissing,
    PreviousWorkspaceDestroyed,
    ScrollPositionMissing,
    MasterWindowMissing,
    WorkspaceOutputMissing,
    /// A layout has no focused workspace.
    NoFocusedWorkspace,
    /// A window count fell below zero.
    WindowCountUnderflow,
}

/// One step of a decision, carried out in order: send an action, write a log
/// line, or stop the service.
#[derive(Clone, Debug, PartialEq, Eq)]
pub enum Step {
    Act(LayoutAction),
    Note(Notice),
    Abort(Failure),
}

/// `n` copies of one action.
pub open spec fn repeated(action: LayoutAction, n: nat) -> Seq<Step> {
    Seq::new(n, |_i: int| Step::Act(action))
}

/// Appends `n` copies of an action to a plan.
pub fn push_repeated(steps: &mut Vec<Step>, action: &LayoutAction, n: usize)
    ensures
        final(steps)@ == old(steps)@ + repeated(*action, n as nat),
{
    let ghost start = steps@;
    let mut k: usize = 0;
    while k < n
        invariant
            k <= n,
            steps@ == start + repeated(*action, k as nat),
        decreases n - k,
    {
        steps.push(Step::Act(copy_action(action)));
        k = k + 1;
        assert(steps@ =~= start + repeated(*action, k as nat));
    }
}

/// A copy of an action.
pub fn copy_action(action: &LayoutAction) -> (copy: LayoutAction)
    ensures
        copy == *action,
{
    match action {
        LayoutAction::SetWindowWidth { id, width } => LayoutAction::SetWindowWidth { id: *id, width: copy_width(width) },
        LayoutAction::SetColumnWidth { width } => LayoutAction::SetColumnWidth { width: copy_width(width) },
        LayoutAction::FocusWindow { id } => LayoutAction::FocusWindow { id: *id },
        LayoutAction::FocusColumnLeft => LayoutAction::FocusColumnLeft,
        LayoutAction::FocusColumnRight => LayoutAction::FocusColumnRight,
        LayoutAction::MoveColumnToFirst => LayoutAction::MoveColumnToFirst,
        LayoutAction::MoveWindowUp => LayoutAction::MoveWindowUp,
        LayoutAction::ConsumeOrExpelWindowLeft { id } => LayoutAction::ConsumeOrExpelWindowLeft { id: *id },
        LayoutAction::ConsumeOrExpelWindowRight { id } => LayoutAction::ConsumeOrExpelWindowRight { id: *id },
        LayoutAction::ConsumeWindowIntoColumn => LayoutAction::ConsumeWindowIntoColumn,
        LayoutAction::ExpelWindowFromColumn => LayoutAction::ExpelWindowFromColumn,
        LayoutAction::ResetWindowHeight { id } => LayoutAction::ResetWindowHeight { id: *id },
    }
}

/// A copy of a width.
pub fn copy_width(width: &Width) -> (copy: Width)
    ensures
        copy == *width,
{
    match width {
        Width::SingleWindow { output } => Width::SingleWindow { output: output.clone() },
        Width::Full => Width::Full,
        Width::MasterColumn => Width::MasterColumn,
        Width::ChildColumn => Width::ChildColumn,
        Width::ScrollColumn => Width::ScrollColumn,
    }
}

} // verus!
