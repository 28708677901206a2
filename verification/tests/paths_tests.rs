use focustime::config::paths::{
    config_dir_from_env, stats_state_dir_from_env, windows_config_dir_from_env,
    windows_stats_state_dir_from_env,
};

#[test]
fn config_dir_returns_none_when_home_is_blank_and_xdg_is_unset() {
    let dir = config_dir_from_env(None, Some("   "));
    assert!(dir.is_none());
}

#[test]
fn config_dir_ignores_relative_xdg_config_home_and_falls_back_to_home() {
    let dir = config_dir_from_env(Some("relative-config"), Some("/tmp/home"));
    assert_eq!(dir, Some("/tmp/home/.config".to_string()));
}

#[test]
fn config_dir_uses_absolute_xdg_config_home_when_set() {
    let dir = config_dir_from_env(Some("/tmp/xdg"), None);
    assert_eq!(dir, Some("/tmp/xdg".to_string()));
}

#[test]
fn config_dir_returns_none_when_appdata_is_blank() {
    let dir = windows_config_dir_from_env(Some("   "));
    assert!(dir.is_none());
}

#[test]
fn config_dir_returns_none_when_appdata_is_relative() {
    let dir = windows_config_dir_from_env(Some("AppData\\Roaming"));
    assert!(dir.is_none());
}

#[test]
fn config_dir_uses_absolute_appdata_when_set() {
    let dir = windows_config_dir_from_env(Some(r"C:\Users\test\AppData\Roaming"));
    assert_eq!(dir, Some(r"C:\Users\test\AppData\Roaming".to_string()));
}

#[test]
fn stats_state_dir_uses_absolute_xdg_state_home_when_set() {
    let dir = stats_state_dir_from_env(Some("/tmp/state"), None, None);
    assert_eq!(dir, Some("/tmp/state".to_string()));
}

#[test]
fn stats_state_dir_falls_back_to_absolute_xdg_data_home() {
    let dir = stats_state_dir_from_env(Some("relative-state"), Some("/tmp/data"), None);
    assert_eq!(dir, Some("/tmp/data".to_string()));
}

#[test]
fn stats_state_dir_falls_back_to_home_local_state() {
    let dir = stats_state_dir_from_env(None, None, Some("/tmp/home"));
    assert_eq!(dir, Some("/tmp/home/.local/state".to_string()));
}

#[test]
fn stats_state_dir_uses_absolute_localappdata_when_set() {
    let dir = windows_stats_state_dir_from_env(Some(r"C:\Users\test\AppData\Local"), None);
    assert_eq!(dir, Some(r"C:\Users\test\AppData\Local".to_string()));
}

#[test]
fn stats_state_dir_falls_back_to_absolute_appdata_when_localappdata_missing() {
    let dir = windows_stats_state_dir_from_env(None, Some(r"C:\Users\test\AppData\Roaming"));
    assert_eq!(dir, Some(r"C:\Users\test\AppData\Roaming".to_string()));
}

#[test]
fn stats_state_dir_returns_none_when_all_candidates_are_relative() {
    let dir = windows_stats_state_dir_from_env(Some("AppData\\Local"), Some("AppData\\Roaming"));
    assert!(dir.is_none());
}
