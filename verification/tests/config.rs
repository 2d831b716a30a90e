use miri_layout::config::{mode_from_lowercase_name, mode_from_setting, GlobalConfig};
use miri_layout::niri_ipc_utils::{
    first_word, is_white_space_char, niri_version_status, version_status_of_word, VersionStatus,
};
use miri_layout::service_state::Mode;

#[test]
fn the_default_workspace_mode_is_master() {
    assert_eq!(GlobalConfig::default().default_workspace_mode, Mode::Master);
}

#[test]
fn mode_settings_ignore_case() {
    assert_eq!(mode_from_setting(Some("Scroll")), Mode::Scroll);
    assert_eq!(mode_from_setting(Some("SCROLL")), Mode::Scroll);
    assert_eq!(mode_from_setting(Some("master")), Mode::Master);
    assert_eq!(mode_from_setting(Some("MaStEr")), Mode::Master);
}

#[test]
fn unknown_or_missing_mode_settings_fall_back_to_the_default() {
    assert_eq!(mode_from_setting(Some("tabbed")), Mode::Master);
    assert_eq!(mode_from_setting(Some("")), Mode::Master);
    assert_eq!(mode_from_setting(None), Mode::Master);
    assert_eq!(mode_from_lowercase_name("Scroll"), Mode::Master);
    assert_eq!(mode_from_lowercase_name("scroll"), Mode::Scroll);
}

#[test]
fn cycling_modes_alternates() {
    let mut mode = Mode::Master;
    mode.cycle();
    assert_eq!(mode, Mode::Scroll);
    mode.cycle();
    assert_eq!(mode, Mode::Master);
}

#[test]
fn niri_versions_are_checked_by_their_first_word() {
    assert_eq!(niri_version_status(None), VersionStatus::Unknown);
    assert_eq!(niri_version_status(Some("")), VersionStatus::Unparseable);
    assert_eq!(niri_version_status(Some("   ")), VersionStatus::Unparseable);
    assert_eq!(niri_version_status(Some("25.11 (v25.11)")), VersionStatus::Supported);
    assert_eq!(niri_version_status(Some("  25.11")), VersionStatus::Supported);
    assert_eq!(niri_version_status(Some("25.08 (v25.08)")), VersionStatus::Mismatch);
    assert_eq!(niri_version_status(Some("25.11.1")), VersionStatus::Mismatch);
    assert_eq!(version_status_of_word(Some("25.11")), VersionStatus::Supported);
    assert_eq!(version_status_of_word(None), VersionStatus::Unparseable);
}

#[test]
fn the_first_word_skips_unicode_white_space() {
    assert_eq!(first_word("25.11 (v25.11)"), Some("25.11"));
    assert_eq!(first_word("\t\n 25.11\u{a0}x"), Some("25.11"));
    assert_eq!(first_word("\u{3000}niri\u{2029}"), Some("niri"));
    assert_eq!(first_word(" \u{85} "), None);
    assert_eq!(first_word(""), None);
    for c in ['\t', '\n', '\u{b}', '\u{c}', '\r', ' ', '\u{85}', '\u{a0}', '\u{1680}', '\u{2000}', '\u{200a}', '\u{2028}', '\u{2029}', '\u{202f}', '\u{205f}', '\u{3000}'] {
        assert!(is_white_space_char(c));
        assert!(c.is_whitespace());
    }
    for c in ['a', '2', '\u{200b}', '\u{180e}', '\u{feff}', '_'] {
        assert_eq!(is_white_space_char(c), c.is_whitespace());
    }
    assert_eq!(niri_version_status(Some("\u{a0}25.11")), VersionStatus::Supported);
}
