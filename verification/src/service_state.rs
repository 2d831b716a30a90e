use vstd::prelude::*;

use crate::niri_ipc_utils::{windows_on, windows_on_workspace, WindowInfo, WorkspaceInfo};
use crate::config::LayoutOptions;
use crate::seq_util::{first_where, lemma_first_where_at, lemma_first_where_found, lemma_first_where_step};

verus! {

/// How the windows of a workspace are arranged.
#[derive(Clone, Copy, Debug, PartialEq, Eq, Structural)]
pub enum Mode {
    /// One master column on the left and one child column holding the other windows.
    Master,
    /// niri's own scrolling layout: every window is a column of its own.
    Scroll,
}

impl Mode {
    /// The mode that follows this one when the user cycles modes.
    pub open spec fn next(self) -> Mode {
        match self {
            Mode::Master => Mode::Scroll,
            Mode::Scroll => Mode::Master,
        }
    }

    /// Cycling twice brings a workspace back to the mode it started in.
    pub proof fn lemma_cycle_twice(self)
        ensures
            self.next().next() == self,
            self.next() != self,
    {
    }

    /// Switches to the next mode.
    pub fn cycle(&mut self)
        ensures
            *final(self) == old(self).next(),
    {
        *self = match *self {
            Mode::Master => Mode::Scroll,
            Mode::Scroll => Mode::Master,
        };
    }
}

/// What the service keeps of one window of a workspace.
#[derive(Clone, Copy, Debug, PartialEq, Eq)]
pub struct MiriWindow {
    pub id: u64,
    /// Column and row in the scrolling layout, both counted from 1; `None` for a floating window.
    pub position: Option<(usize, usize)>,
    pub is_focused: bool,
    pub is_floating: bool,
}

/// What the service keeps of one workspace.
#[derive(Debug)]
pub struct MiriWorkspace {
    pub id: u64,
    /// Name of the output that shows the workspace.
    pub output: String,
    /// Index of the workspace on its output.
    pub idx: u8,
    pub focused: bool,
    pub mode: Mode,
    pub windows: Vec<MiriWindow>,
}

/// What the service keeps of a workspace, as values.
pub struct WorkspaceView {
    pub id: u64,
    pub output: Seq<char>,
    pub idx: u8,
    pub focused: bool,
    pub mode: Mode,
    pub windows: Seq<MiriWindow>,
}

impl View for MiriWorkspace {
    type V = WorkspaceView;

    open spec fn view(&self) -> WorkspaceView {
        WorkspaceView {
            id: self.id,
            output: self.output@,
            idx: self.idx,
            focused: self.focused,
            mode: self.mode,
            windows: self.windows@,
        }
    }
}

/// The workspaces the service knows of, and the mode a workspace starts in.
#[derive(Debug)]
pub struct Layout {
    /// The workspaces, filed by output and index.
    pub workspaces: Vec<MiriWorkspace>,
    pub default_mode: Mode,
}

/// The workspaces of a layout, as values.
pub open spec fn workspace_views(workspaces: Seq<MiriWorkspace>) -> Seq<WorkspaceView> {
    workspaces.map_values(|w: MiriWorkspace| w@)
}

/// A focused window.
pub open spec fn is_focused_miri_window() -> spec_fn(MiriWindow) -> bool {
    |w: MiriWindow| w.is_focused
}

/// A focused workspace.
pub open spec fn is_focused_miri_workspace() -> spec_fn(MiriWorkspace) -> bool {
    |w: MiriWorkspace| w.focused
}

/// The workspace with the given id.
pub open spec fn has_workspace_id(id: u64) -> spec_fn(MiriWorkspace) -> bool {
    |w: MiriWorkspace| w.id == id
}

/// The window with the given id.
pub open spec fn has_window_id(id: u64) -> spec_fn(MiriWindow) -> bool {
    |w: MiriWindow| w.id == id
}

/// What the service keeps of a niri window.
pub open spec fn miri_window_of(w: WindowInfo) -> MiriWindow {
    MiriWindow {
        id: w.id,
        position: w.pos_in_scrolling_layout,
        is_focused: w.is_focused,
        is_floating: w.is_floating,
    }
}

/// The windows that the service keeps for the workspace `workspace_id`.
pub open spec fn workspace_windows(windows: Seq<WindowInfo>, workspace_id: u64) -> Seq<MiriWindow> {
    windows_on_workspace(windows, workspace_id).map_values(|w: WindowInfo| miri_window_of(w))
}

/// The mode that the workspace `id` had in `previous`, or `default_mode` where it is new.
pub open spec fn kept_mode(previous: Seq<MiriWorkspace>, id: u64, default_mode: Mode) -> Mode {
    match first_where(previous, has_workspace_id(id)) {
        Some(w) => w.mode,
        None => default_mode,
    }
}

/// What the service keeps of a niri workspace that has an output.
pub open spec fn workspace_of(
    workspace: WorkspaceInfo,
    windows: Seq<WindowInfo>,
    previous: Seq<MiriWorkspace>,
    default_mode: Mode,
) -> WorkspaceView {
    WorkspaceView {
        id: workspace.id,
        output: workspace.output->0@,
        idx: workspace.idx,
        focused: workspace.is_focused,
        mode: kept_mode(previous, workspace.id, default_mode),
        windows: workspace_windows(windows, workspace.id),
    }
}

/// The position of the first workspace in `workspaces` on `output` with index `idx`.
pub open spec fn key_index(workspaces: Seq<WorkspaceView>, output: Seq<char>, idx: u8) -> Option<int>
    decreases workspaces.len(),
{
    if workspaces.len() == 0 {
        None
    } else {
        match key_index(workspaces.drop_last(), output, idx) {
            Some(i) => Some(i),
            None => {
                let last = workspaces.last();
                if last.output == output && last.idx == idx {
                    Some(workspaces.len() - 1)
                } else {
                    None
                }
            },
        }
    }
}

/// Files `workspace` under its output and index: it replaces the workspace filed there, if any.
pub open spec fn insert_keyed(workspaces: Seq<WorkspaceView>, workspace: WorkspaceView) -> Seq<WorkspaceView> {
    match key_index(workspaces, workspace.output, workspace.idx) {
        Some(i) => workspaces.update(i, workspace),
        None => workspaces.push(workspace),
    }
}

/// The workspaces that a layout holds after copying niri's `workspaces` and
/// `windows`, with the modes kept from `previous`.
pub open spec fn copied_workspaces(
    windows: Seq<WindowInfo>,
    workspaces: Seq<WorkspaceInfo>,
    previous: Seq<MiriWorkspace>,
    default_mode: Mode,
) -> Seq<WorkspaceView>
    decreases workspaces.len(),
{
    if workspaces.len() == 0 {
        seq![]
    } else {
        insert_keyed(
            copied_workspaces(windows, workspaces.drop_last(), previous, default_mode),
            workspace_of(workspaces.last(), windows, previous, default_mode),
        )
    }
}

/// Some workspace is on no output.
pub open spec fn some_workspace_without_output(workspaces: Seq<WorkspaceInfo>) -> bool {
    exists|i: int| 0 <= i < workspaces.len() && (#[trigger] workspaces[i]).output is None
}

/// A workspace holds a window with the given id.
pub open spec fn holds_window(workspace: MiriWorkspace, id: u64) -> bool {
    exists|i: int| 0 <= i < workspace.windows@.len() && (#[trigger] workspace.windows@[i]).id == id
}

/// A workspace's mode once the service has seen windows for the first time: a
/// workspace that already holds windows is taken to be in the scrolling layout.
pub open spec fn initial_mode(workspace: WorkspaceView) -> WorkspaceView {
    if workspace.windows.len() > 0 {
        WorkspaceView { mode: Mode::Scroll, ..workspace }
    } else {
        workspace
    }
}

impl MiriWorkspace {
    /// The first focused window of the workspace.
    pub fn get_focused_window(&self) -> (found: Option<MiriWindow>)
        ensures
            found == first_where(self.windows@, is_focused_miri_window()),
    {
        let mut i: usize = 0;
        assert(self.windows@.subrange(0, self.windows@.len() as int) =~= self.windows@);
        while i < self.windows.len()
            invariant
                i <= self.windows.len(),
                first_where(self.windows@, is_focused_miri_window()) == first_where(
                    self.windows@.subrange(i as int, self.windows@.len() as int),
                    is_focused_miri_window(),
                ),
            decreases self.windows.len() - i,
        {
            proof {
                lemma_first_where_step(self.windows@, is_focused_miri_window(), i as int);
            }
            if self.windows[i].is_focused {
                return Some(self.windows[i]);
            }
            i = i + 1;
        }
        None
    }

    /// The window of the workspace with the given id.
    pub fn find_window(&self, id: u64) -> (found: Option<MiriWindow>)
        ensures
            found == first_where(self.windows@, has_window_id(id)),
    {
        let mut i: usize = 0;
        assert(self.windows@.subrange(0, self.windows@.len() as int) =~= self.windows@);
        while i < self.windows.len()
            invariant
                i <= self.windows.len(),
                first_where(self.windows@, has_window_id(id)) == first_where(
                    self.windows@.subrange(i as int, self.windows@.len() as int),
                    has_window_id(id),
                ),
            decreases self.windows.len() - i,
        {
            proof {
                lemma_first_where_step(self.windows@, has_window_id(id), i as int);
            }
            if self.windows[i].id == id {
                return Some(self.windows[i]);
            }
            i = i + 1;
        }
        None
    }

    /// Whether the workspace holds a window with the given id.
    pub fn holds_window(&self, id: u64) -> (held: bool)
        ensures
            held == holds_window(*self, id),
    {
        let mut i: usize = 0;
        while i < self.windows.len()
            invariant
                i <= self.windows.len(),
                forall|j: int| 0 <= j < i ==> self.windows@[j].id != id,
            decreases self.windows.len() - i,
        {
            if self.windows[i].id == id {
                return true;
            }
            i = i + 1;
        }
        false
    }
}

/// The position of the first focused workspace.
pub open spec fn first_focused_index(workspaces: Seq<MiriWorkspace>) -> Option<int> {
    if exists|i: int|
        0 <= i < workspaces.len() && (#[trigger] workspaces[i]).focused && forall|j: int|
            0 <= j < i ==> !(#[trigger] workspaces[j]).focused {
        Some(
            choose|i: int|
                0 <= i < workspaces.len() && (#[trigger] workspaces[i]).focused && forall|j: int|
                    0 <= j < i ==> !(#[trigger] workspaces[j]).focused,
        )
    } else {
        None
    }
}

/// The workspaces with the one at `i` switched to `mode`.
pub open spec fn with_mode_at(workspaces: Seq<WorkspaceView>, i: int, mode: Mode) -> Seq<WorkspaceView> {
    workspaces.update(i, WorkspaceView { mode, ..workspaces[i] })
}

/// Where no workspace is filed under the key, no workspace has it.
proof fn lemma_key_index_none(s: Seq<WorkspaceView>, output: Seq<char>, idx: u8)
    ensures
        key_index(s, output, idx) is None ==> forall|i: int|
            0 <= i < s.len() ==> !((#[trigger] s[i]).output == output && s[i].idx == idx),
    decreases s.len(),
{
    if s.len() > 0 {
        lemma_key_index_none(s.drop_last(), output, idx);
        if key_index(s, output, idx) is None {
            assert forall|i: int| 0 <= i < s.len() implies !((#[trigger] s[i]).output == output
                && s[i].idx == idx) by {
                if i < s.len() - 1 {
                    assert(s[i] == s.drop_last()[i]);
                }
            }
        }
    }
}

/// Rebuilding a layout from niri's state keeps each workspace's mode, gives it the
/// windows niri places on it, and files at most one workspace per output and
/// index; every workspace niri reports is filed under its output and index.
pub proof fn lemma_copied_workspaces(
    windows: Seq<WindowInfo>,
    workspaces: Seq<WorkspaceInfo>,
    previous: Seq<MiriWorkspace>,
    default_mode: Mode,
)
    requires
        !some_workspace_without_output(workspaces),
    ensures
        forall|k: int|
            0 <= k < copied_workspaces(windows, workspaces, previous, default_mode).len() ==> {
                let w = #[trigger] copied_workspaces(windows, workspaces, previous, default_mode)[k];
                &&& w.mode == kept_mode(previous, w.id, default_mode)
                &&& w.windows == workspace_windows(windows, w.id)
            },
        forall|k: int, l: int|
            0 <= k < l < copied_workspaces(windows, workspaces, previous, default_mode).len() ==> !(
            (#[trigger] copied_workspaces(windows, workspaces, previous, default_mode)[k]).output
                == (#[trigger] copied_workspaces(windows, workspaces, previous, default_mode)[l]).output
                && copied_workspaces(windows, workspaces, previous, default_mode)[k].idx
                == copied_workspaces(windows, workspaces, previous, default_mode)[l].idx),
        forall|j: int|
            0 <= j < workspaces.len() ==> exists|k: int|
                0 <= k < copied_workspaces(windows, workspaces, previous, default_mode).len()
                    && (#[trigger] copied_workspaces(windows, workspaces, previous, default_mode)[k]).output
                    == (#[trigger] workspaces[j]).output->0@
                    && copied_workspaces(windows, workspaces, previous, default_mode)[k].idx
                    == workspaces[j].idx,
    decreases workspaces.len(),
{
    if workspaces.len() > 0 {
        let rest = workspaces.drop_last();
        assert forall|i: int| 0 <= i < rest.len() implies (#[trigger] rest[i]).output is Some by {
            assert(rest[i] == workspaces[i]);
        }
        lemma_copied_workspaces(windows, rest, previous, default_mode);
        let acc = copied_workspaces(windows, rest, previous, default_mode);
        let last = workspaces.last();
        assert(workspaces[workspaces.len() - 1].output is Some);
        let w = workspace_of(last, windows, previous, default_mode);
        let result = copied_workspaces(windows, workspaces, previous, default_mode);
        lemma_key_index_bounds(acc, w.output, w.idx);
        lemma_key_index_none(acc, w.output, w.idx);
        assert(result == insert_keyed(acc, w));
        assert forall|j: int| 0 <= j < workspaces.len() implies exists|k: int|
            0 <= k < result.len() && (#[trigger] result[k]).output == (#[trigger] workspaces[j]).output->0@
                && result[k].idx == workspaces[j].idx by {
            if j == workspaces.len() - 1 {
                match key_index(acc, w.output, w.idx) {
                    Some(i) => {
                        assert(result[i] == w);
                    },
                    None => {
                        assert(result[acc.len() as int] == w);
                    },
                }
            } else {
                assert(rest[j] == workspaces[j]);
                let k = choose|k: int|
                    0 <= k < acc.len() && (#[trigger] acc[k]).output == (#[trigger] rest[j]).output->0@
                        && acc[k].idx == rest[j].idx;
                match key_index(acc, w.output, w.idx) {
                    Some(i) => {
                        if i == k {
                            assert(result[i] == w);
                        } else {
                            assert(result[k] == acc[k]);
                        }
                    },
                    None => {
                        assert(result[k] == acc[k]);
                    },
                }
            }
        }
    }
}

/// Rebuilding a layout from niri's state keeps the mode the user gave each
/// workspace: a rebuilt workspace that the previous layout knows takes the mode of
/// the first previous workspace with its id.
pub proof fn lemma_copy_keeps_mode(
    windows: Seq<WindowInfo>,
    workspaces: Seq<WorkspaceInfo>,
    previous: Seq<MiriWorkspace>,
    default_mode: Mode,
    k: int,
    j: int,
)
    requires
        !some_workspace_without_output(workspaces),
        0 <= k < copied_workspaces(windows, workspaces, previous, default_mode).len(),
        0 <= j < previous.len(),
        previous[j].id == copied_workspaces(windows, workspaces, previous, default_mode)[k].id,
        forall|l: int|
            0 <= l < j ==> (#[trigger] previous[l]).id != copied_workspaces(
                windows,
                workspaces,
                previous,
                default_mode,
            )[k].id,
    ensures
        copied_workspaces(windows, workspaces, previous, default_mode)[k].mode == previous[j].mode,
{
    let copied = copied_workspaces(windows, workspaces, previous, default_mode);
    lemma_copied_workspaces(windows, workspaces, previous, default_mode);
    assert(copied[k].mode == kept_mode(previous, copied[k].id, default_mode));
    lemma_kept_mode_found(previous, copied[k].id, default_mode, j);
}

/// Only a workspace new to the service starts in the default mode: a rebuilt
/// workspace whose id no previous workspace has gets `default_mode`.
pub proof fn lemma_copy_new_workspace_mode(
    windows: Seq<WindowInfo>,
    workspaces: Seq<WorkspaceInfo>,
    previous: Seq<MiriWorkspace>,
    default_mode: Mode,
    k: int,
)
    requires
        !some_workspace_without_output(workspaces),
        0 <= k < copied_workspaces(windows, workspaces, previous, default_mode).len(),
        forall|j: int|
            0 <= j < previous.len() ==> (#[trigger] previous[j]).id != copied_workspaces(
                windows,
                workspaces,
                previous,
                default_mode,
            )[k].id,
    ensures
        copied_workspaces(windows, workspaces, previous, default_mode)[k].mode == default_mode,
{
    let copied = copied_workspaces(windows, workspaces, previous, default_mode);
    lemma_copied_workspaces(windows, workspaces, previous, default_mode);
    assert(copied[k].mode == kept_mode(previous, copied[k].id, default_mode));
    lemma_kept_mode_new(previous, copied[k].id, default_mode);
}

/// The kept mode is that of the first previous workspace with the id.
proof fn lemma_kept_mode_found(previous: Seq<MiriWorkspace>, id: u64, default_mode: Mode, j: int)
    requires
        0 <= j < previous.len(),
        previous[j].id == id,
        forall|l: int| 0 <= l < j ==> previous[l].id != id,
    ensures
        kept_mode(previous, id, default_mode) == previous[j].mode,
{
    assert forall|l: int| 0 <= l < j implies !has_workspace_id(id)(#[trigger] previous[l]) by {}
    lemma_first_where_at(previous, has_workspace_id(id), j);
}

/// A workspace that no previous workspace has the id of gets the default mode.
proof fn lemma_kept_mode_new(previous: Seq<MiriWorkspace>, id: u64, default_mode: Mode)
    requires
        forall|j: int| 0 <= j < previous.len() ==> (#[trigger] previous[j]).id != id,
    ensures
        kept_mode(previous, id, default_mode) == default_mode,
{
    lemma_first_where_found(previous, has_workspace_id(id));
    assert forall|j: int| 0 <= j < previous.len() implies !has_workspace_id(id)(
        #[trigger] previous[j],
    ) by {}
}

/// On the first event that assigns windows, exactly the workspaces that hold
/// windows turn to the scrolling layout; nothing else about a workspace changes.
pub proof fn lemma_initial_modes(workspace: WorkspaceView)
    ensures
        initial_mode(workspace).mode == if workspace.windows.len() > 0 {
            Mode::Scroll
        } else {
            workspace.mode
        },
        initial_mode(workspace).id == workspace.id,
        initial_mode(workspace).output == workspace.output,
        initial_mode(workspace).idx == workspace.idx,
        initial_mode(workspace).focused == workspace.focused,
        initial_mode(workspace).windows == workspace.windows,
{
}

/// A match lies within the sequence and files a workspace under the key.
proof fn lemma_key_index_bounds(s: Seq<WorkspaceView>, output: Seq<char>, idx: u8)
    ensures
        key_index(s, output, idx) matches Some(i) ==> 0 <= i < s.len() && s[i].output == output
            && s[i].idx == idx,
    decreases s.len(),
{
    if s.len() > 0 {
        lemma_key_index_bounds(s.drop_last(), output, idx);
    }
}

/// The first focused workspace stands at `i` where `i` is the first focused position.
pub proof fn lemma_first_focused_index(workspaces: Seq<MiriWorkspace>, i: int)
    requires
        0 <= i < workspaces.len(),
        workspaces[i].focused,
        forall|j: int| 0 <= j < i ==> !(#[trigger] workspaces[j]).focused,
    ensures
        first_focused_index(workspaces) == Some(i),
{
    let k = choose|k: int|
        0 <= k < workspaces.len() && (#[trigger] workspaces[k]).focused && forall|j: int|
            0 <= j < k ==> !(#[trigger] workspaces[j]).focused;
    assert(workspaces[i].focused);
    if k < i {
        assert(!workspaces[k].focused);
    }
    if i < k {
        assert(!workspaces[i].focused);
    }
}

/// A match found in a prefix is the match of the whole sequence.
proof fn lemma_key_index_prefix(s: Seq<WorkspaceView>, output: Seq<char>, idx: u8, n: int)
    requires
        0 <= n <= s.len(),
        key_index(s.take(n), output, idx) is Some,
    ensures
        key_index(s, output, idx) == key_index(s.take(n), output, idx),
    decreases s.len(),
{
    if n == s.len() {
        assert(s.take(n) =~= s);
    } else {
        assert(s.drop_last().take(n) =~= s.take(n));
        lemma_key_index_prefix(s.drop_last(), output, idx, n);
    }
}

/// The position of the first workspace on `output` with index `idx`.
fn find_keyed(workspaces: &Vec<MiriWorkspace>, output: &String, idx: u8) -> (found: Option<usize>)
    ensures
        match found {
            Some(k) => key_index(workspace_views(workspaces@), output@, idx) == Some(k as int),
            None => key_index(workspace_views(workspaces@), output@, idx) is None,
        },
{
    let ghost views = workspace_views(workspaces@);
    let mut k: usize = 0;
    while k < workspaces.len()
        invariant
            k <= workspaces.len(),
            views == workspace_views(workspaces@),
            key_index(views.take(k as int), output@, idx) is None,
        decreases workspaces.len() - k,
    {
        assert(views.take(k + 1).drop_last() =~= views.take(k as int));
        if workspaces[k].output == *output && workspaces[k].idx == idx {
            proof {
                lemma_key_index_prefix(views, output@, idx, k + 1);
            }
            return Some(k);
        }
        k = k + 1;
    }
    assert(views.take(workspaces.len() as int) =~= views);
    None
}

/// What the service keeps of the niri windows `windows`.
fn miri_windows_of(windows: &Vec<WindowInfo>) -> (kept: Vec<MiriWindow>)
    ensures
        kept@ == windows@.map_values(|w: WindowInfo| miri_window_of(w)),
{
    let mut kept: Vec<MiriWindow> = Vec::new();
    let mut i: usize = 0;
    while i < windows.len()
        invariant
            i <= windows.len(),
            kept@ == windows@.take(i as int).map_values(|w: WindowInfo| miri_window_of(w)),
        decreases windows.len() - i,
    {
        let w = windows[i];
        kept.push(
            MiriWindow {
                id: w.id,
                position: w.pos_in_scrolling_layout,
                is_focused: w.is_focused,
                is_floating: w.is_floating,
            },
        );
        assert(kept@ =~= windows@.take(i + 1).map_values(|w: WindowInfo| miri_window_of(w)));
        i = i + 1;
    }
    assert(windows@.take(windows.len() as int) =~= windows@);
    kept
}

impl Layout {
    /// An empty layout whose workspaces start in `default_mode`.
    pub fn new(default_mode: Mode) -> (layout: Self)
        ensures
            layout.workspaces@.len() == 0,
            layout.default_mode == default_mode,
    {
        Layout { workspaces: Vec::new(), default_mode }
    }

    /// The first focused workspace.
    pub fn get_focused_workspace(&self) -> (found: Option<&MiriWorkspace>)
        ensures
            match found {
                Some(w) => first_where(self.workspaces@, is_focused_miri_workspace()) == Some(*w),
                None => first_where(self.workspaces@, is_focused_miri_workspace()) is None,
            },
    {
        match self.focused_workspace_index() {
            Some(i) => Some(&self.workspaces[i]),
            None => None,
        }
    }

    /// The position of the first focused workspace.
    pub fn focused_workspace_index(&self) -> (found: Option<usize>)
        ensures
            match found {
                Some(i) => i < self.workspaces@.len() && first_where(
                    self.workspaces@,
                    is_focused_miri_workspace(),
                ) == Some(self.workspaces@[i as int]) && self.workspaces@[i as int].focused && forall|j: int|
                    0 <= j < i ==> !(#[trigger] self.workspaces@[j]).focused,
                None => first_where(self.workspaces@, is_focused_miri_workspace()) is None,
            },
    {
        let mut i: usize = 0;
        assert(self.workspaces@.subrange(0, self.workspaces@.len() as int) =~= self.workspaces@);
        while i < self.workspaces.len()
            invariant
                i <= self.workspaces.len(),
                first_where(self.workspaces@, is_focused_miri_workspace()) == first_where(
                    self.workspaces@.subrange(i as int, self.workspaces@.len() as int),
                    is_focused_miri_workspace(),
                ),
                forall|j: int| 0 <= j < i ==> !(#[trigger] self.workspaces@[j]).focused,
            decreases self.workspaces.len() - i,
        {
            proof {
                lemma_first_where_step(self.workspaces@, is_focused_miri_workspace(), i as int);
            }
            if self.workspaces[i].focused {
                return Some(i);
            }
            i = i + 1;
        }
        None
    }

    /// Switches the first focused workspace to `mode`; tells whether a workspace is focused.
    pub fn set_focused_workspace_mode(&mut self, mode: Mode) -> (found: bool)
        ensures
            found == (first_focused_index(old(self).workspaces@) is Some),
            final(self).default_mode == old(self).default_mode,
            workspace_views(final(self).workspaces@) == match first_focused_index(old(self).workspaces@) {
                Some(i) => with_mode_at(workspace_views(old(self).workspaces@), i, mode),
                None => workspace_views(old(self).workspaces@),
            },
    {
        match self.focused_workspace_index() {
            Some(i) => {
                self.set_mode_at(i, mode);
                proof {
                    assert(self.workspaces@.len() == old(self).workspaces@.len());
                    lemma_first_focused_index(old(self).workspaces@, i as int);
                }
                true
            },
            None => {
                proof {
                    lemma_first_where_found(old(self).workspaces@, is_focused_miri_workspace());
                    if first_focused_index(old(self).workspaces@) is Some {
                        let i = first_focused_index(old(self).workspaces@)->0;
                        assert(old(self).workspaces@[i].focused);
                    }
                }
                false
            },
        }
    }

    /// Switches the workspace at `i` to `mode`.
    pub fn set_mode_at(&mut self, i: usize, mode: Mode)
        requires
            i < old(self).workspaces@.len(),
        ensures
            final(self).default_mode == old(self).default_mode,
            final(self).workspaces@.len() == old(self).workspaces@.len(),
            final(self).workspaces@[i as int].output == old(self).workspaces@[i as int].output,
            final(self).workspaces@[i as int].mode == mode,
            workspace_views(final(self).workspaces@) == with_mode_at(
                workspace_views(old(self).workspaces@),
                i as int,
                mode,
            ),
    {
        let mut workspace = self.workspaces.remove(i);
        workspace.mode = mode;
        self.workspaces.insert(i, workspace);
        assert(workspace_views(self.workspaces@) =~= with_mode_at(
            workspace_views(old(self).workspaces@),
            i as int,
            mode,
        ));
    }

    /// The first workspace with the given id.
    pub fn find_workspace(&self, id: u64) -> (found: Option<&MiriWorkspace>)
        ensures
            match found {
                Some(w) => first_where(self.workspaces@, has_workspace_id(id)) == Some(*w),
                None => first_where(self.workspaces@, has_workspace_id(id)) is None,
            },
    {
        let mut i: usize = 0;
        assert(self.workspaces@.subrange(0, self.workspaces@.len() as int) =~= self.workspaces@);
        while i < self.workspaces.len()
            invariant
                i <= self.workspaces.len(),
                first_where(self.workspaces@, has_workspace_id(id)) == first_where(
                    self.workspaces@.subrange(i as int, self.workspaces@.len() as int),
                    has_workspace_id(id),
                ),
            decreases self.workspaces.len() - i,
        {
            proof {
                lemma_first_where_step(self.workspaces@, has_workspace_id(id), i as int);
            }
            if self.workspaces[i].id == id {
                return Some(&self.workspaces[i]);
            }
            i = i + 1;
        }
        None
    }
}

/// Rebuilds `layout` from niri's `workspaces` and `windows`. Each workspace keeps
/// the mode it has in `previous_layout`; a workspace new to the service starts in
/// `layout`'s default mode. Every workspace must be on an output; see
/// [`workspaces_have_outputs`].
pub fn copy_event_state_to_layout(
    windows: &Vec<WindowInfo>,
    workspaces: &Vec<WorkspaceInfo>,
    previous_layout: &Layout,
    layout: &mut Layout,
)
    requires
        !some_workspace_without_output(workspaces@),
    ensures
        final(layout).default_mode == old(layout).default_mode,
        workspace_views(final(layout).workspaces@) == copied_workspaces(
            windows@,
            workspaces@,
            previous_layout.workspaces@,
            old(layout).default_mode,
        ),
{
    layout.workspaces.clear();
    let ghost previous = previous_layout.workspaces@;
    let ghost default_mode = layout.default_mode;
    assert(workspace_views(layout.workspaces@) =~= copied_workspaces(
        windows@,
        workspaces@.take(0),
        previous,
        default_mode,
    ));
    let mut i: usize = 0;
    while i < workspaces.len()
        invariant
            i <= workspaces.len(),
            previous == previous_layout.workspaces@,
            layout.default_mode == default_mode,
            default_mode == old(layout).default_mode,
            !some_workspace_without_output(workspaces@),
            workspace_views(layout.workspaces@) == copied_workspaces(
                windows@,
                workspaces@.take(i as int),
                previous,
                default_mode,
            ),
        decreases workspaces.len() - i,
    {
        let workspace = &workspaces[i];
        let output = match &workspace.output {
            Some(output) => output.clone(),
            None => {
                proof {
                    assert(workspaces@[i as int].output is None);
                    assert(some_workspace_without_output(workspaces@));
                }
                assert(false);
                return ;
            },
        };
        let on_workspace = windows_on(windows, workspace.id);
        let kept = miri_windows_of(&on_workspace);
        let mode = match previous_layout.find_workspace(workspace.id) {
            Some(previous_workspace) => previous_workspace.mode,
            None => layout.default_mode,
        };
        let miri_workspace = MiriWorkspace {
            id: workspace.id,
            output,
            idx: workspace.idx,
            focused: workspace.is_focused,
            mode,
            windows: kept,
        };
        let ghost before = workspace_views(layout.workspaces@);
        proof {
            assert(workspaces@.take(i + 1).drop_last() =~= workspaces@.take(i as int));
            assert(miri_workspace@ == workspace_of(*workspace, windows@, previous, default_mode));
        }
        match find_keyed(&layout.workspaces, &miri_workspace.output, miri_workspace.idx) {
            Some(k) => {
                proof {
                    lemma_key_index_bounds(before, miri_workspace@.output, miri_workspace.idx);
                }
                layout.workspaces.set(k, miri_workspace);
            },
            None => {
                layout.workspaces.push(miri_workspace);
            },
        }
        assert(workspace_views(layout.workspaces@) =~= insert_keyed(
            before,
            workspace_of(workspaces@[i as int], windows@, previous, default_mode),
        ));
        i = i + 1;
    }
    assert(workspaces@.take(workspaces.len() as int) =~= workspaces@);
}

/// Whether every workspace is on an output.
pub fn workspaces_have_outputs(workspaces: &Vec<WorkspaceInfo>) -> (all: bool)
    ensures
        all == !some_workspace_without_output(workspaces@),
{
    let mut i: usize = 0;
    while i < workspaces.len()
        invariant
            i <= workspaces.len(),
            forall|j: int| 0 <= j < i ==> (#[trigger] workspaces@[j]).output is Some,
        decreases workspaces.len() - i,
    {
        if workspaces[i].output.is_none() {
            assert(workspaces@[i as int].output is None);
            return false;
        }
        i = i + 1;
    }
    true
}

/// The state of the service: the layout before the latest niri event, the layout
/// after it, and the options that decisions depend on.
pub struct ServiceState {
    pub previous_layout: Layout,
    pub current_layout: Layout,
    pub options: LayoutOptions,
    /// Whether niri has assigned windows to workspaces since the service started.
    pub first_niri_event_received: bool,
}

impl ServiceState {
    /// A service that knows no workspace yet.
    pub fn new(options: LayoutOptions) -> (state: Self)
        ensures
            state.previous_layout.workspaces@.len() == 0,
            state.current_layout.workspaces@.len() == 0,
            state.previous_layout.default_mode == options.global.default_workspace_mode,
            state.current_layout.default_mode == options.global.default_workspace_mode,
            state.options == options,
            !state.first_niri_event_received,
    {
        ServiceState {
            previous_layout: Layout::new(options.global.default_workspace_mode),
            current_layout: Layout::new(options.global.default_workspace_mode),
            options,
            first_niri_event_received: false,
        }
    }

    /// Puts every current workspace that already holds windows into the scrolling
    /// layout, so that a restarted service does not rearrange them.
    pub fn initialize_workspace_modes(&mut self)
        ensures
            final(self).previous_layout == old(self).previous_layout,
            final(self).options == old(self).options,
            final(self).first_niri_event_received == old(self).first_niri_event_received,
            final(self).current_layout.default_mode == old(self).current_layout.default_mode,
            workspace_views(final(self).current_layout.workspaces@) == workspace_views(
                old(self).current_layout.workspaces@,
            ).map_values(|w: WorkspaceView| initial_mode(w)),
    {
        let n = self.current_layout.workspaces.len();
        let mut i: usize = 0;
        while i < n
            invariant
                i <= n,
                n == self.current_layout.workspaces@.len(),
                n == old(self).current_layout.workspaces@.len(),
                self.previous_layout == old(self).previous_layout,
                self.options == old(self).options,
                self.first_niri_event_received == old(self).first_niri_event_received,
                self.current_layout.default_mode == old(self).current_layout.default_mode,
                forall|j: int|
                    0 <= j < n ==> #[trigger] workspace_views(self.current_layout.workspaces@)[j] == if j
                        < i {
                        initial_mode(workspace_views(old(self).current_layout.workspaces@)[j])
                    } else {
                        workspace_views(old(self).current_layout.workspaces@)[j]
                    },
            decreases n - i,
        {
            if self.current_layout.workspaces[i].windows.len() > 0 {
                self.current_layout.set_mode_at(i, Mode::Scroll);
            }
            i = i + 1;
        }
        assert(workspace_views(self.current_layout.workspaces@) =~= workspace_views(
            old(self).current_layout.workspaces@,
        ).map_values(|w: WorkspaceView| initial_mode(w)));
    }

    /// Whether the window `window_id` is new: the current workspace holds it and the
    /// previous one did not.
    pub fn window_is_new(previous_workspace: &MiriWorkspace, current_workspace: &MiriWorkspace, window_id: u64) -> (new: bool)
        ensures
            new == (holds_window(*current_workspace, window_id) && !holds_window(
                *previous_workspace,
                window_id,
            )),
    {
        current_workspace.holds_window(window_id) && !previous_workspace.holds_window(window_id)
    }
}

} // verus!
