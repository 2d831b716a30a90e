pub mod handler;
pub mod master;
pub mod scroll;

use vstd::prelude::*;

use crate::config::LayoutOptions;
use crate::layout::handler::{
    force_workspace_windows_into_layout_mode, handle_workspace_gain_window,
    handle_workspace_lose_window, is_force_plan, workspace_gain_panics, workspace_gain_steps,
    workspace_lose_steps,
};
use crate::niri_ipc_utils::WindowInfo;
use crate::plan::Step;
use crate::service_state::{MiriWindow, MiriWorkspace};

verus! {

/// A workspace that arranges its windows in a layout of its own.
pub trait WorkspaceLayout {
    /// What the workspace does when `new_window` joins it.
    spec fn gain_window_steps(
        &self,
        new_window: WindowInfo,
        options: LayoutOptions,
        previous_focused_window: Option<MiriWindow>,
    ) -> Seq<Step>;

    /// The inputs on which the workspace cannot take `new_window` in.
    spec fn gain_window_panics(&self, new_window: WindowInfo) -> bool;

    /// What the workspace does when a window leaves it.
    spec fn lose_window_steps(&self, options: LayoutOptions) -> Seq<Step>;

    /// Whether `steps` put `windows` into the workspace's layout.
    spec fn is_force_mode_plan(&self, windows: Seq<WindowInfo>, options: LayoutOptions, steps: Seq<Step>) -> bool;

    fn gain_window(
        &self,
        new_window: &WindowInfo,
        options: &LayoutOptions,
        previous_focused_window: Option<MiriWindow>,
    ) -> (steps: Vec<Step>)
        requires
            !self.gain_window_panics(*new_window),
        ensures
            steps@ == self.gain_window_steps(*new_window, *options, previous_focused_window),
    ;

    fn lose_window(&self, options: &LayoutOptions) -> (steps: Vec<Step>)
        ensures
            steps@ == self.lose_window_steps(*options),
    ;

    fn force_mode(&self, windows: &Vec<WindowInfo>, options: &LayoutOptions) -> (steps: Vec<Step>)
        ensures
            self.is_force_mode_plan(windows@, *options, steps@),
    ;
}

impl WorkspaceLayout for MiriWorkspace {
    open spec fn gain_window_steps(
        &self,
        new_window: WindowInfo,
        options: LayoutOptions,
        previous_focused_window: Option<MiriWindow>,
    ) -> Seq<Step> {
        workspace_gain_steps(*self, new_window, options, previous_focused_window)
    }

    open spec fn gain_window_panics(&self, new_window: WindowInfo) -> bool {
        workspace_gain_panics(*self, new_window)
    }

    open spec fn lose_window_steps(&self, options: LayoutOptions) -> Seq<Step> {
        workspace_lose_steps(*self, options)
    }

    open spec fn is_force_mode_plan(&self, windows: Seq<WindowInfo>, options: LayoutOptions, steps: Seq<Step>) -> bool {
        is_force_plan(windows, options, self.mode, self.output, steps)
    }

    fn gain_window(
        &self,
        new_window: &WindowInfo,
        options: &LayoutOptions,
        previous_focused_window: Option<MiriWindow>,
    ) -> (steps: Vec<Step>) {
        handle_workspace_gain_window(self, new_window, options, previous_focused_window)
    }

    fn lose_window(&self, options: &LayoutOptions) -> (steps: Vec<Step>) {
        handle_workspace_lose_window(self, options)
    }

    fn force_mode(&self, windows: &Vec<WindowInfo>, options: &LayoutOptions) -> (steps: Vec<Step>) {
        force_workspace_windows_into_layout_mode(windows, options, self.mode, &self.output)
    }
}

} // verus!
