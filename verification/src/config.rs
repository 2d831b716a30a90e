use vstd::prelude::*;

use crate::seq_util::same_text;
use crate::service_state::Mode;

verus! {

/// The mode a workspace starts in when the configuration names none.
pub open spec fn default_workspace_mode() -> Mode {
    Mode::Master
}

/// Settings that hold for every workspace.
#[derive(Clone, Copy, Debug, PartialEq, Eq, Structural)]
pub struct GlobalConfig {
    pub default_workspace_mode: Mode,
}

impl Default for GlobalConfig {
    fn default() -> (config: Self)
        ensures
            config.default_workspace_mode == default_workspace_mode(),
    {
        GlobalConfig { default_workspace_mode: Mode::Master }
    }
}

/// The parts of the user's configuration that layout decisions depend on.
/// Column percentages and single-window limits are not among them: decisions
/// name a [`crate::plan::Width`] and the program resolves it.
#[derive(Clone, Copy, Debug, PartialEq, Eq, Structural)]
pub struct LayoutOptions {
    pub global: GlobalConfig,
    /// In the master layout, whether a lone tiled window is widened.
    pub maximize_single_window: bool,
    /// In the scrolling layout, whether focus goes back left when a window opens.
    pub maintain_focus_on_new_window: bool,
    /// Whether entering the scrolling layout spreads every window into a column of its own.
    pub spread_windows_on_enter: bool,
}

/// The text that `str::to_lowercase` makes of `text`.
pub uninterp spec fn lowercase_of(text: Seq<char>) -> Seq<char>;

/// The mode that a lower-case mode name names: "scroll" or "master", and the
/// default mode for any other name.
pub open spec fn mode_named(name: Seq<char>) -> Mode {
    if name == "scroll"@ {
        Mode::Scroll
    } else if name == "master"@ {
        Mode::Master
    } else {
        default_workspace_mode()
    }
}

/// The mode that a configured mode setting asks for; names are read without regard
/// to case, and a missing or unknown name asks for the default mode.
pub open spec fn mode_of_setting(setting: Option<Seq<char>>) -> Mode {
    match setting {
        Some(name) => mode_named(lowercase_of(name)),
        None => default_workspace_mode(),
    }
}

/// `text` in lower case.
#[verifier::external_body]
fn lowercase(text: &str) -> (lower: String)
    ensures
        lower@ == lowercase_of(text@),
{
    text.to_lowercase()
}

/// The mode that a lower-case mode name names.
pub fn mode_from_lowercase_name(name: &str) -> (mode: Mode)
    ensures
        mode == mode_named(name@),
{
    if same_text(name, "scroll") {
        Mode::Scroll
    } else if same_text(name, "master") {
        Mode::Master
    } else {
        Mode::Master
    }
}

/// The mode that the configured setting `setting` asks for.
pub fn mode_from_setting(setting: Option<&str>) -> (mode: Mode)
    ensures
        mode == mode_of_setting(
            match setting {
                Some(s) => Some(s@),
                None => None,
            },
        ),
{
    match setting {
        Some(name) => {
            let lower = lowercase(name);
            mode_from_lowercase_name(lower.as_str())
        },
        None => Mode::Master,
    }
}

} // verus!
