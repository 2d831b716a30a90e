use vstd::prelude::*;

use crate::config::LayoutOptions;
use crate::layout::handler::{
    is_force_plan, plan_workspace_gain, workspace_gain_steps, workspace_lose_steps,
};
use crate::layout::WorkspaceLayout;
use crate::niri_ipc_utils::{
    focused_workspace_windows, get_windows_on_focused_workspace, WindowInfo, WorkspaceInfo,
};
use crate::layout::master::lemma_gain_moves_under_focused;
use crate::plan::{Failure, LayoutAction, Notice, Step, Width};
use crate::seq_util::{first_where, lemma_first_where_at, lemma_first_where_found};
use crate::service_state::{
    copied_workspaces, copy_event_state_to_layout, workspaces_have_outputs, first_focused_index, lemma_first_focused_index, has_window_id,
    has_workspace_id, holds_window, initial_mode, is_focused_miri_window,
    is_focused_miri_workspace, some_workspace_without_output, with_mode_at, workspace_views,
    MiriWindow, MiriWorkspace, Mode, ServiceState, WorkspaceView,
};

verus! {

/// The niri events that the service tells apart.
#[derive(Clone, Copy, Debug, PartialEq, Eq)]
pub enum NiriEvent {
    WindowOpenedOrChanged { window: WindowInfo },
    WindowClosed { id: u64 },
    WindowsChanged,
    /// Any other event.
    Other,
}

/// The actions a user asks of the service.
#[derive(Clone, Copy, Debug, PartialEq, Eq)]
pub enum MiriAction {
    CycleFocusedWorkspaceMode,
    SetFocusedWorkspaceMode { mode: Mode },
}

/// What the service does about a window that opened or changed, once the layouts
/// reflect the event: `previous` and `current` are the workspaces before and after it.
pub open spec fn window_event_steps(
    window: WindowInfo,
    previous: Seq<MiriWorkspace>,
    current: Seq<MiriWorkspace>,
    options: LayoutOptions,
) -> Seq<Step> {
    if window.workspace_id is None {
        seq![]
    } else {
        match first_where(current, is_focused_miri_workspace()) {
            None => seq![Step::Abort(Failure::CurrentFocusedWorkspaceMissing)],
            Some(current_workspace) => match first_where(previous, is_focused_miri_workspace()) {
                None => seq![Step::Abort(Failure::PreviousFocusedWorkspaceMissing)],
                Some(previous_workspace) => {
                    let previous_focused = first_where(
                        previous_workspace.windows@,
                        is_focused_miri_window(),
                    );
                    if holds_window(current_workspace, window.id) && !holds_window(
                        previous_workspace,
                        window.id,
                    ) {
                        seq![Step::Note(Notice::WindowOpened)] + workspace_gain_steps(
                            current_workspace,
                            window,
                            options,
                            previous_focused,
                        )
                    } else if previous_workspace.id != current_workspace.id {
                        seq![
                            Step::Note(Notice::WindowChanged),
                            Step::Note(Notice::WindowMovedToNewWorkspace),
                        ] + match first_where(current, has_workspace_id(previous_workspace.id)) {
                            None => seq![Step::Abort(Failure::PreviousWorkspaceDestroyed)],
                            Some(left_workspace) => workspace_lose_steps(left_workspace, options)
                                + workspace_gain_steps(current_workspace, window, options, None),
                        }
                    } else {
                        seq![Step::Note(Notice::WindowChanged)] + match first_where(
                            previous_workspace.windows@,
                            has_window_id(window.id),
                        ) {
                            Some(previous_window) => if previous_window.is_floating
                                && !window.is_floating {
                                workspace_gain_steps(
                                    current_workspace,
                                    window,
                                    options,
                                    previous_focused,
                                )
                            } else if !previous_window.is_floating && window.is_floating {
                                workspace_lose_steps(current_workspace, options)
                            } else {
                                seq![]
                            },
                            None => seq![],
                        }
                    }
                },
            },
        }
    }
}

/// A tiled window that opens in the third column or further right of the focused
/// workspace, in the master layout, is put right under the window that had focus
/// on the workspace that was focused before the event: after the log line, it is
/// taken into the child column, focused and moved up once for each child below
/// that window (counting tiled windows only), then the child and master widths are set.
pub proof fn lemma_new_window_moves_under_previous_focus(
    window: WindowInfo,
    previous: Seq<MiriWorkspace>,
    current: Seq<MiriWorkspace>,
    options: LayoutOptions,
    current_index: int,
    previous_index: int,
    held_at: int,
    focused_index: int,
    master: int,
    column: usize,
    row: usize,
    focused_column: usize,
    focused_row: usize,
)
    requires
        window.workspace_id is Some,
        !window.is_floating,
        window.pos_in_scrolling_layout == Some((column, row)),
        column >= 3,
        0 <= current_index < current.len(),
        current[current_index].focused,
        forall|j: int| 0 <= j < current_index ==> !(#[trigger] current[j]).focused,
        0 <= previous_index < previous.len(),
        previous[previous_index].focused,
        forall|j: int| 0 <= j < previous_index ==> !(#[trigger] previous[j]).focused,
        0 <= held_at < current[current_index].windows@.len(),
        current[current_index].windows@[held_at].id == window.id,
        forall|j: int|
            0 <= j < previous[previous_index].windows@.len() ==> (
            #[trigger] previous[previous_index].windows@[j]).id != window.id,
        0 <= focused_index < previous[previous_index].windows@.len(),
        previous[previous_index].windows@[focused_index].is_focused,
        forall|j: int|
            0 <= j < focused_index ==> !(#[trigger] previous[previous_index].windows@[j]).is_focused,
        previous[previous_index].windows@[focused_index].position == Some(
            (focused_column, focused_row),
        ),
        current[current_index].mode == Mode::Master,
        0 <= master < current[current_index].windows@.len(),
        !current[current_index].windows@[master].is_floating,
        current[current_index].windows@[master].position == Some((1usize, 1usize)),
        forall|j: int|
            0 <= j < master && !(#[trigger] current[current_index].windows@[j]).is_floating
                ==> current[current_index].windows@[j].position != Some((1usize, 1usize)),
        current[current_index].windows@.filter(|w: MiriWindow| !w.is_floating).len() >= 2,
    ensures
        ({
            let workspace = current[current_index];
            let tiled_count = workspace.windows@.filter(|w: MiriWindow| !w.is_floating).len();
            let moves = if tiled_count - 2 > focused_row {
                tiled_count - 2 - focused_row
            } else {
                0
            };
            window_event_steps(window, previous, current, options) == seq![
                Step::Note(Notice::WindowOpened),
                Step::Act(LayoutAction::ConsumeOrExpelWindowLeft { id: Some(window.id) }),
                Step::Act(LayoutAction::FocusWindow { id: window.id }),
            ] + Seq::new(moves as nat, |_i: int| Step::Act(LayoutAction::MoveWindowUp)) + seq![
                Step::Act(
                    LayoutAction::SetWindowWidth { id: Some(window.id), width: Width::ChildColumn },
                ),
                Step::Act(
                    LayoutAction::SetWindowWidth {
                        id: Some(workspace.windows@[master].id),
                        width: Width::MasterColumn,
                    },
                ),
            ]
        }),
{
    let workspace = current[current_index];
    let previous_workspace = previous[previous_index];
    let focused = previous_workspace.windows@[focused_index];
    lemma_first_where_at(current, is_focused_miri_workspace(), current_index);
    lemma_first_where_at(previous, is_focused_miri_workspace(), previous_index);
    lemma_first_where_at(previous_workspace.windows@, is_focused_miri_window(), focused_index);
    assert(holds_window(workspace, window.id));
    assert(!holds_window(previous_workspace, window.id));
    lemma_gain_moves_under_focused(
        workspace,
        window,
        options,
        focused,
        master,
        column,
        row,
        focused_column,
        focused_row,
    );
    let tiled_count = workspace.windows@.filter(|w: MiriWindow| !w.is_floating).len();
    let moves = if tiled_count - 2 > focused_row {
        tiled_count - 2 - focused_row
    } else {
        0
    };
    let gained = seq![
        Step::Act(LayoutAction::ConsumeOrExpelWindowLeft { id: Some(window.id) }),
        Step::Act(LayoutAction::FocusWindow { id: window.id }),
    ] + Seq::new(moves as nat, |_i: int| Step::Act(LayoutAction::MoveWindowUp)) + seq![
        Step::Act(LayoutAction::SetWindowWidth { id: Some(window.id), width: Width::ChildColumn }),
        Step::Act(
            LayoutAction::SetWindowWidth {
                id: Some(workspace.windows@[master].id),
                width: Width::MasterColumn,
            },
        ),
    ];
    assert(workspace_gain_steps(workspace, window, options, Some(focused)) == gained);
    assert(window_event_steps(window, previous, current, options) == seq![
        Step::Note(Notice::WindowOpened),
    ] + gained);
    assert(seq![Step::Note(Notice::WindowOpened)] + gained =~= seq![
        Step::Note(Notice::WindowOpened),
        Step::Act(LayoutAction::ConsumeOrExpelWindowLeft { id: Some(window.id) }),
        Step::Act(LayoutAction::FocusWindow { id: window.id }),
    ] + Seq::new(moves as nat, |_i: int| Step::Act(LayoutAction::MoveWindowUp)) + seq![
        Step::Act(LayoutAction::SetWindowWidth { id: Some(window.id), width: Width::ChildColumn }),
        Step::Act(
            LayoutAction::SetWindowWidth {
                id: Some(workspace.windows@[master].id),
                width: Width::MasterColumn,
            },
        ),
    ]);
}

/// What the service does about `event`, once the layouts reflect it.
pub open spec fn event_steps(
    event: NiriEvent,
    previous: Seq<MiriWorkspace>,
    current: Seq<MiriWorkspace>,
    options: LayoutOptions,
) -> Seq<Step> {
    match event {
        NiriEvent::WindowOpenedOrChanged { window } => window_event_steps(
            window,
            previous,
            current,
            options,
        ),
        NiriEvent::WindowClosed { .. } => seq![Step::Note(Notice::WindowClosed)] + match first_where(
            current,
            is_focused_miri_workspace(),
        ) {
            None => seq![Step::Abort(Failure::CurrentFocusedWorkspaceMissing)],
            Some(current_workspace) => workspace_lose_steps(current_workspace, options),
        },
        NiriEvent::WindowsChanged => seq![Step::Note(Notice::WindowsChanged)],
        NiriEvent::Other => seq![],
    }
}

/// The workspaces after an event, given those that niri's state copies into:
/// on the first event that assigns windows, workspaces holding windows turn to
/// the scrolling layout.
pub open spec fn settled_workspaces(copied: Seq<WorkspaceView>, initializing: bool) -> Seq<WorkspaceView> {
    if initializing {
        copied.map_values(|w: WorkspaceView| initial_mode(w))
    } else {
        copied
    }
}

/// The mode a user action sets, from the mode the workspace had.
pub open spec fn mode_after(action: MiriAction, mode: Mode) -> Mode {
    match action {
        MiriAction::CycleFocusedWorkspaceMode => mode.next(),
        MiriAction::SetFocusedWorkspaceMode { mode: new_mode } => new_mode,
    }
}

/// Cycling twice restores a workspace's mode, and setting a mode twice is setting it once.
pub proof fn lemma_mode_actions(mode: Mode, target: Mode)
    ensures
        mode_after(
            MiriAction::CycleFocusedWorkspaceMode,
            mode_after(MiriAction::CycleFocusedWorkspaceMode, mode),
        ) == mode,
        mode_after(
            MiriAction::SetFocusedWorkspaceMode { mode: target },
            mode_after(MiriAction::SetFocusedWorkspaceMode { mode: target }, mode),
        ) == mode_after(MiriAction::SetFocusedWorkspaceMode { mode: target }, mode),
{
}

/// The log line of a user action.
pub open spec fn action_notice(action: MiriAction) -> Notice {
    match action {
        MiriAction::CycleFocusedWorkspaceMode => Notice::CycleFocusedWorkspaceMode,
        MiriAction::SetFocusedWorkspaceMode { mode } => Notice::SetFocusedWorkspaceMode(mode),
    }
}

impl ServiceState {
    /// Handles a niri event. `windows` and `workspaces` are niri's state with the
    /// event applied. The current layout becomes the previous one and is rebuilt
    /// from niri's state with the modes it had; then the steps for the event follow.
    pub fn handle_niri_event(
        &mut self,
        event: &NiriEvent,
        windows: &Vec<WindowInfo>,
        workspaces: &Vec<WorkspaceInfo>,
    ) -> (steps: Vec<Step>)
        ensures
            final(self).previous_layout == old(self).current_layout,
            final(self).options == old(self).options,
            final(self).current_layout.default_mode == old(self).previous_layout.default_mode,
            old(self).first_niri_event_received ==> final(self).first_niri_event_received,
            some_workspace_without_output(workspaces@) ==> {
                &&& steps@ == seq![Step::Abort(Failure::WorkspaceOutputMissing)]
                &&& final(self).first_niri_event_received == old(self).first_niri_event_received
            },
            !some_workspace_without_output(workspaces@) ==> {
                let initializing = !old(self).first_niri_event_received && *event
                    == NiriEvent::WindowsChanged;
                &&& final(self).first_niri_event_received == (old(self).first_niri_event_received
                    || initializing)
                &&& workspace_views(final(self).current_layout.workspaces@) == settled_workspaces(
                    copied_workspaces(
                        windows@,
                        workspaces@,
                        old(self).current_layout.workspaces@,
                        old(self).previous_layout.default_mode,
                    ),
                    initializing,
                )
                &&& steps@ == event_steps(
                    *event,
                    final(self).previous_layout.workspaces@,
                    final(self).current_layout.workspaces@,
                    old(self).options,
                )
            },
    {
        std::mem::swap(&mut self.previous_layout, &mut self.current_layout);
        if !workspaces_have_outputs(workspaces) {
            let mut steps: Vec<Step> = Vec::new();
            steps.push(Step::Abort(Failure::WorkspaceOutputMissing));
            return steps;
        }
        copy_event_state_to_layout(windows, workspaces, &self.previous_layout, &mut self.current_layout);
        if !self.first_niri_event_received {
            if let NiriEvent::WindowsChanged = event {
                self.first_niri_event_received = true;
                self.initialize_workspace_modes();
            }
        }
        self.event_steps(event)
    }

    /// Carries out a user's action on the focused workspace: switch its mode, then
    /// put the windows on niri's focused workspace into that mode.
    pub fn run_miri_action(
        &mut self,
        action: MiriAction,
        windows: &Vec<WindowInfo>,
        workspaces: &Vec<WorkspaceInfo>,
    ) -> (steps: Vec<Step>)
        ensures
            final(self).previous_layout == old(self).previous_layout,
            final(self).options == old(self).options,
            final(self).first_niri_event_received == old(self).first_niri_event_received,
            final(self).current_layout.default_mode == old(self).current_layout.default_mode,
            match first_focused_index(old(self).current_layout.workspaces@) {
                None => {
                    &&& steps@ == seq![Step::Abort(Failure::CurrentFocusedWorkspaceMissing)]
                    &&& workspace_views(final(self).current_layout.workspaces@) == workspace_views(
                        old(self).current_layout.workspaces@,
                    )
                },
                Some(i) => match focused_workspace_windows(windows@, workspaces@) {
                    None => {
                        &&& steps@ == seq![
                            Step::Note(Notice::FocusedWorkspaceMissing),
                            Step::Note(Notice::WorkspaceWindowsMissing),
                        ]
                        &&& workspace_views(final(self).current_layout.workspaces@)
                            == workspace_views(old(self).current_layout.workspaces@)
                    },
                    Some(on_workspace) => {
                        let workspace = old(self).current_layout.workspaces@[i];
                        let mode = mode_after(action, workspace.mode);
                        &&& workspace_views(final(self).current_layout.workspaces@)
                            == with_mode_at(
                            workspace_views(old(self).current_layout.workspaces@),
                            i,
                            mode,
                        )
                        &&& steps@.len() >= 1
                        &&& steps@[0] == Step::Note(action_notice(action))
                        &&& is_force_plan(
                            on_workspace,
                            old(self).options,
                            mode,
                            workspace.output,
                            steps@.drop_first(),
                        )
                    },
                },
            },
    {
        let mut steps: Vec<Step> = Vec::new();
        let i = match self.current_layout.focused_workspace_index() {
            Some(i) => i,
            None => {
                proof {
                    lemma_first_where_found(old(self).current_layout.workspaces@, is_focused_miri_workspace());
                    if first_focused_index(old(self).current_layout.workspaces@) is Some {
                        let k = first_focused_index(old(self).current_layout.workspaces@)->0;
                        assert(old(self).current_layout.workspaces@[k].focused);
                    }
                }
                steps.push(Step::Abort(Failure::CurrentFocusedWorkspaceMissing));
                return steps;
            },
        };
        proof {
            lemma_first_focused_index(self.current_layout.workspaces@, i as int);
        }
        let on_workspace = match get_windows_on_focused_workspace(windows, workspaces) {
            Some(on_workspace) => on_workspace,
            None => {
                steps.push(Step::Note(Notice::FocusedWorkspaceMissing));
                steps.push(Step::Note(Notice::WorkspaceWindowsMissing));
                return steps;
            },
        };
        let mode = match action {
            MiriAction::CycleFocusedWorkspaceMode => {
                steps.push(Step::Note(Notice::CycleFocusedWorkspaceMode));
                let mut mode = self.current_layout.workspaces[i].mode;
                mode.cycle();
                mode
            },
            MiriAction::SetFocusedWorkspaceMode { mode } => {
                steps.push(Step::Note(Notice::SetFocusedWorkspaceMode(mode)));
                mode
            },
        };
        self.current_layout.set_mode_at(i, mode);
        let mut forced = self.current_layout.workspaces[i].force_mode(&on_workspace, &self.options);
        let ghost forced_steps = forced@;
        steps.append(&mut forced);
        assert(steps@.drop_first() =~= forced_steps);
        steps
    }

    /// The steps for `event`, taken against the layouts as they stand.
    fn event_steps(&self, event: &NiriEvent) -> (steps: Vec<Step>)
        ensures
            steps@ == event_steps(
                *event,
                self.previous_layout.workspaces@,
                self.current_layout.workspaces@,
                self.options,
            ),
    {
        let mut steps: Vec<Step> = Vec::new();
        match event {
            NiriEvent::WindowOpenedOrChanged { window } => {
                return self.window_event_steps(window);
            },
            NiriEvent::WindowClosed { .. } => {
                steps.push(Step::Note(Notice::WindowClosed));
                match self.current_layout.get_focused_workspace() {
                    None => {
                        steps.push(Step::Abort(Failure::CurrentFocusedWorkspaceMissing));
                    },
                    Some(current_workspace) => {
                        let mut lost = current_workspace.lose_window(&self.options);
                        steps.append(&mut lost);
                    },
                }
            },
            NiriEvent::WindowsChanged => {
                steps.push(Step::Note(Notice::WindowsChanged));
            },
            NiriEvent::Other => {},
        }
        assert(steps@ =~= event_steps(
            *event,
            self.previous_layout.workspaces@,
            self.current_layout.workspaces@,
            self.options,
        ));
        steps
    }

    /// The steps for a window that opened or changed.
    fn window_event_steps(&self, window: &WindowInfo) -> (steps: Vec<Step>)
        ensures
            steps@ == window_event_steps(
                *window,
                self.previous_layout.workspaces@,
                self.current_layout.workspaces@,
                self.options,
            ),
    {
        let mut steps: Vec<Step> = Vec::new();
        if window.workspace_id.is_none() {
            return steps;
        }
        let current_workspace = match self.current_layout.get_focused_workspace() {
            Some(w) => w,
            None => {
                steps.push(Step::Abort(Failure::CurrentFocusedWorkspaceMissing));
                assert(steps@ =~= window_event_steps(
                    *window,
                    self.previous_layout.workspaces@,
                    self.current_layout.workspaces@,
                    self.options,
                ));
                return steps;
            },
        };
        let previous_workspace = match self.previous_layout.get_focused_workspace() {
            Some(w) => w,
            None => {
                steps.push(Step::Abort(Failure::PreviousFocusedWorkspaceMissing));
                assert(steps@ =~= window_event_steps(
                    *window,
                    self.previous_layout.workspaces@,
                    self.current_layout.workspaces@,
                    self.options,
                ));
                return steps;
            },
        };
        if ServiceState::window_is_new(previous_workspace, current_workspace, window.id) {
            steps.push(Step::Note(Notice::WindowOpened));
            let mut gained = plan_workspace_gain(
                current_workspace,
                window,
                &self.options,
                previous_workspace.get_focused_window(),
            );
            steps.append(&mut gained);
        } else {
            steps.push(Step::Note(Notice::WindowChanged));
            if previous_workspace.id != current_workspace.id {
                steps.push(Step::Note(Notice::WindowMovedToNewWorkspace));
                match self.current_layout.find_workspace(previous_workspace.id) {
                    None => {
                        steps.push(Step::Abort(Failure::PreviousWorkspaceDestroyed));
                    },
                    Some(left_workspace) => {
                        let mut lost = left_workspace.lose_window(&self.options);
                        steps.append(&mut lost);
                        let mut gained = plan_workspace_gain(current_workspace, window, &self.options, None);
                        steps.append(&mut gained);
                    },
                }
            } else {
                match previous_workspace.find_window(window.id) {
                    Some(previous_window) => {
                        if previous_window.is_floating && !window.is_floating {
                            let mut gained = plan_workspace_gain(
                                current_workspace,
                                window,
                                &self.options,
                                previous_workspace.get_focused_window(),
                            );
                            steps.append(&mut gained);
                        } else if !previous_window.is_floating && window.is_floating {
                            let mut lost = current_workspace.lose_window(&self.options);
                            steps.append(&mut lost);
                        }
                    },
                    None => {},
                }
            }
        }
        assert(steps@ =~= window_event_steps(
            *window,
            self.previous_layout.workspaces@,
            self.current_layout.workspaces@,
            self.options,
        ));
        steps
    }
}

} // verus!
