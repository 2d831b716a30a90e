use vstd::prelude::*;

use crate::seq_util::{first_where, lemma_first_where_step, same_text};

verus! {

/// The niri release whose IPC this library speaks.
pub const SUPPORTED_NIRI_VERSION: &'static str = "25.11";

/// What the library reads of a niri window.
#[derive(Clone, Copy, Debug, PartialEq, Eq)]
pub struct WindowInfo {
    pub id: u64,
    pub workspace_id: Option<u64>,
    pub is_focused: bool,
    pub is_floating: bool,
    /// Column and row of a tiled window, both counted from 1.
    pub pos_in_scrolling_layout: Option<(usize, usize)>,
}

/// What the library reads of a niri workspace.
#[derive(Clone, Debug, PartialEq, Eq)]
pub struct WorkspaceInfo {
    pub id: u64,
    /// Index of the workspace on its output.
    pub idx: u8,
    /// Name of the output that shows the workspace, if an output is connected.
    pub output: Option<String>,
    pub is_focused: bool,
}

/// What the running niri's version says about this library's support for it.
#[derive(Clone, Copy, Debug, PartialEq, Eq)]
pub enum VersionStatus {
    /// niri did not say its version.
    Unknown,
    /// The version string holds no word.
    Unparseable,
    /// The version's first word is not the supported release.
    Mismatch,
    /// The version's first word is the supported release.
    Supported,
}

/// A focused window.
pub open spec fn is_focused_window() -> spec_fn(WindowInfo) -> bool {
    |w: WindowInfo| w.is_focused
}

/// A focused workspace.
pub open spec fn is_focused_workspace() -> spec_fn(WorkspaceInfo) -> bool {
    |w: WorkspaceInfo| w.is_focused
}

/// The windows of `windows` that are on the workspace `workspace_id`, in their order.
pub open spec fn windows_on_workspace(windows: Seq<WindowInfo>, workspace_id: u64) -> Seq<WindowInfo> {
    windows.filter(|w: WindowInfo| w.workspace_id == Some(workspace_id))
}

/// The windows on the focused workspace, where a workspace is focused.
pub open spec fn focused_workspace_windows(
    windows: Seq<WindowInfo>,
    workspaces: Seq<WorkspaceInfo>,
) -> Option<Seq<WindowInfo>> {
    match first_where(workspaces, is_focused_workspace()) {
        Some(workspace) => Some(windows_on_workspace(windows, workspace.id)),
        None => None,
    }
}

/// Whether a character has Unicode's White_Space property, as `char::is_whitespace` reads it.
pub open spec fn is_white_space(c: char) -> bool {
    let n = c as u32;
    (0x9 <= n && n <= 0xd) || n == 0x20 || n == 0x85 || n == 0xa0 || n == 0x1680 || (0x2000 <= n
        && n <= 0x200a) || n == 0x2028 || n == 0x2029 || n == 0x202f || n == 0x205f || n == 0x3000
}

/// The first position at or after `from` whose character is, or is not, white space.
pub open spec fn next_where_white(text: Seq<char>, from: int, white: bool) -> int
    decreases text.len() - from,
{
    if from >= text.len() {
        text.len() as int
    } else if is_white_space(text[from]) == white {
        from
    } else {
        next_where_white(text, from + 1, white)
    }
}

/// The first white-space-separated word of a text, as `str::split_whitespace` yields it first.
pub open spec fn first_word_of(text: Seq<char>) -> Option<Seq<char>> {
    let start = next_where_white(text, 0, false);
    if start >= text.len() {
        None
    } else {
        Some(text.subrange(start, next_where_white(text, start, true)))
    }
}

/// The status that a version's first word gives.
pub open spec fn word_version_status(word: Option<Seq<char>>) -> VersionStatus {
    match word {
        None => VersionStatus::Unparseable,
        Some(w) => if w == SUPPORTED_NIRI_VERSION@ {
            VersionStatus::Supported
        } else {
            VersionStatus::Mismatch
        },
    }
}

/// The status of a running niri that reported `running_version`, if it reported one.
pub open spec fn version_status(running_version: Option<Seq<char>>) -> VersionStatus {
    match running_version {
        None => VersionStatus::Unknown,
        Some(version) => word_version_status(first_word_of(version)),
    }
}

/// The first focused window among `windows`.
pub fn get_focused_window(windows: &Vec<WindowInfo>) -> (found: Option<WindowInfo>)
    ensures
        found == first_where(windows@, is_focused_window()),
{
    let mut i: usize = 0;
    assert(windows@.subrange(0, windows@.len() as int) =~= windows@);
    while i < windows.len()
        invariant
            i <= windows.len(),
            first_where(windows@, is_focused_window()) == first_where(
                windows@.subrange(i as int, windows@.len() as int),
                is_focused_window(),
            ),
        decreases windows.len() - i,
    {
        proof {
            lemma_first_where_step(windows@, is_focused_window(), i as int);
        }
        if windows[i].is_focused {
            return Some(windows[i]);
        }
        i = i + 1;
    }
    None
}

/// The first focused workspace among `workspaces`.
pub fn get_focused_workspace(workspaces: &Vec<WorkspaceInfo>) -> (found: Option<&WorkspaceInfo>)
    ensures
        match found {
            Some(w) => first_where(workspaces@, is_focused_workspace()) == Some(*w),
            None => first_where(workspaces@, is_focused_workspace()) is None,
        },
{
    let mut i: usize = 0;
    assert(workspaces@.subrange(0, workspaces@.len() as int) =~= workspaces@);
    while i < workspaces.len()
        invariant
            i <= workspaces.len(),
            first_where(workspaces@, is_focused_workspace()) == first_where(
                workspaces@.subrange(i as int, workspaces@.len() as int),
                is_focused_workspace(),
            ),
        decreases workspaces.len() - i,
    {
        proof {
            lemma_first_where_step(workspaces@, is_focused_workspace(), i as int);
        }
        if workspaces[i].is_focused {
            return Some(&workspaces[i]);
        }
        i = i + 1;
    }
    None
}

/// The windows on the workspace `workspace_id`, in their order.
pub fn windows_on(windows: &Vec<WindowInfo>, workspace_id: u64) -> (on: Vec<WindowInfo>)
    ensures
        on@ == windows_on_workspace(windows@, workspace_id),
{
    let mut on: Vec<WindowInfo> = Vec::new();
    let mut i: usize = 0;
    while i < windows.len()
        invariant
            i <= windows.len(),
            on@ == windows_on_workspace(windows@.take(i as int), workspace_id),
        decreases windows.len() - i,
    {
        proof {
            reveal_with_fuel(Seq::<_>::filter, 1);
            assert(windows@.take(i + 1).drop_last() =~= windows@.take(i as int));
        }
        if windows[i].workspace_id == Some(workspace_id) {
            on.push(windows[i]);
        }
        i = i + 1;
    }
    assert(windows@.take(windows.len() as int) =~= windows@);
    on
}

/// The windows on the focused workspace, or `None` where no workspace is focused.
pub fn get_windows_on_focused_workspace(
    windows: &Vec<WindowInfo>,
    workspaces: &Vec<WorkspaceInfo>,
) -> (on: Option<Vec<WindowInfo>>)
    ensures
        match on {
            Some(v) => focused_workspace_windows(windows@, workspaces@) == Some(v@),
            None => focused_workspace_windows(windows@, workspaces@) is None,
        },
{
    match get_focused_workspace(workspaces) {
        Some(workspace) => Some(windows_on(windows, workspace.id)),
        None => None,
    }
}

/// Whether `c` is white space.
pub fn is_white_space_char(c: char) -> (white: bool)
    ensures
        white == is_white_space(c),
{
    let n = c as u32;
    (0x9 <= n && n <= 0xd) || n == 0x20 || n == 0x85 || n == 0xa0 || n == 0x1680 || (0x2000 <= n
        && n <= 0x200a) || n == 0x2028 || n == 0x2029 || n == 0x202f || n == 0x205f || n == 0x3000
}

/// The first position at or after `from` whose character is, or is not, white space.
fn find_next_where_white(text: &str, from: usize, white: bool) -> (found: usize)
    requires
        from <= text@.len(),
    ensures
        found as int == next_where_white(text@, from as int, white),
        found <= text@.len(),
{
    let len = text.unicode_len();
    let mut i = from;
    while i < len
        invariant
            len == text@.len(),
            from <= i <= len,
            next_where_white(text@, from as int, white) == next_where_white(text@, i as int, white),
        decreases len - i,
    {
        if is_white_space_char(text.get_char(i)) == white {
            return i;
        }
        i = i + 1;
    }
    i
}

/// The first white-space-separated word of `text`.
pub fn first_word(text: &str) -> (word: Option<&str>)
    ensures
        match word {
            Some(w) => first_word_of(text@) == Some(w@),
            None => first_word_of(text@) is None,
        },
{
    let start = find_next_where_white(text, 0, false);
    if start >= text.unicode_len() {
        return None;
    }
    let end = find_next_where_white(text, start, true);
    proof {
        lemma_next_where_white_after(text@, start as int, true);
    }
    Some(text.substring_char(start, end))
}

/// The position found lies at or after where the search starts.
proof fn lemma_next_where_white_after(text: Seq<char>, from: int, white: bool)
    requires
        0 <= from <= text.len(),
    ensures
        from <= next_where_white(text, from, white) <= text.len(),
    decreases text.len() - from,
{
    if from < text.len() && is_white_space(text[from]) != white {
        lemma_next_where_white_after(text, from + 1, white);
    }
}

/// The status that the first word of a version string gives.
pub fn version_status_of_word(word: Option<&str>) -> (status: VersionStatus)
    ensures
        status == word_version_status(
            match word {
                Some(w) => Some(w@),
                None => None,
            },
        ),
{
    match word {
        None => VersionStatus::Unparseable,
        Some(w) => {
            if same_text(w, SUPPORTED_NIRI_VERSION) {
                VersionStatus::Supported
            } else {
                VersionStatus::Mismatch
            }
        },
    }
}

/// Whether the running niri, which reported `running_version` where it reported
/// one, is the release this library supports.
pub fn niri_version_status(running_version: Option<&str>) -> (status: VersionStatus)
    ensures
        status == version_status(
            match running_version {
                Some(v) => Some(v@),
                None => None,
            },
        ),
{
    match running_version {
        None => VersionStatus::Unknown,
        Some(version) => version_status_of_word(first_word(version)),
    }
}

} // verus!
