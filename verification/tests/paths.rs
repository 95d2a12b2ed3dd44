use avatar_studio::paths::portable_flag;
use avatar_studio::paths::{resolve_with, EnvProbe, PathMode, USER_DATA_DIR_NAME};
use avatar_studio::pathtext::{components, components_on, join_path};

fn env_with_local_appdata(p: &str) -> EnvProbe {
    EnvProbe { local_app_data: Some(p.to_string()), ..EnvProbe::default() }
}

#[test]
fn assets_root_prefers_env() {
    let env = EnvProbe {
        assets: Some("/tmp/custom-assets".into()),
        local_app_data: Some("/tmp/appdata".into()),
        ..EnvProbe::default()
    };
    let r = resolve_with(Some("C:/Program Files/AvatarStudio"), &env, false, false);
    assert_eq!(r.assets, "/tmp/custom-assets");
}

#[test]
fn user_data_root_portable_marker_triggers_portable_mode() {
    let env = env_with_local_appdata("/tmp/appdata");
    let r = resolve_with(Some("/tmp/bundle"), &env, true, false);
    assert_eq!(r.mode, PathMode::Portable);
    assert_eq!(r.user_data, "/tmp/bundle/user_data");
    assert_eq!(r.assets, "/tmp/bundle/assets");
}

#[test]
fn user_data_root_local_appdata_in_installed_mode() {
    let exe_dir = "C:/Program Files/AvatarStudio";
    let env = env_with_local_appdata("C:/Users/test/AppData/Local");
    let r = resolve_with(Some(exe_dir), &env, false, false);
    assert_eq!(r.mode, PathMode::Installed);
    assert_eq!(r.user_data, join_path("C:/Users/test/AppData/Local", USER_DATA_DIR_NAME));
    assert_eq!(r.user_data, "C:/Users/test/AppData/Local/AvatarStudio");
    assert_eq!(r.assets, join_path(exe_dir, "assets"));
}

#[test]
fn workspace_fallback_when_exe_in_target_debug() {
    let r = resolve_with(Some("C:/work/avatar-studio/target/debug"), &EnvProbe::default(), false, false);
    assert_eq!(r.mode, PathMode::Workspace);
    assert_eq!(r.assets, "assets");
    assert_eq!(r.user_data, "user_data");
}

#[test]
fn portable_env_overrides_target_dir() {
    let exe_dir = "C:/work/avatar-studio/target/release";
    let env = EnvProbe { portable: true, ..EnvProbe::default() };
    let r = resolve_with(Some(exe_dir), &env, false, false);
    assert_eq!(r.mode, PathMode::Portable);
    assert_eq!(r.assets, join_path(exe_dir, "assets"));
    assert_eq!(r.user_data, join_path(exe_dir, "user_data"));
}

#[test]
fn env_user_data_wins_and_missing_exe_dir_falls_back() {
    let env = EnvProbe { user_data: Some("/u".into()), ..EnvProbe::default() };
    let r = resolve_with(None, &env, false, false);
    assert_eq!(r.user_data, "/u");
    assert_eq!(r.mode, PathMode::Installed);
    assert_eq!(r.assets, "assets");
}

#[test]
fn resolved_files_live_under_their_roots() {
    let r = resolve_with(Some("/opt/app"), &env_with_local_appdata("/home/u/.local/share"), false, false);
    assert_eq!(r.settings(), "/home/u/.local/share/AvatarStudio/settings.json");
    assert_eq!(r.catalog_db(), "/home/u/.local/share/AvatarStudio/asset_catalog.sqlite");
    assert_eq!(r.characters_dir(), "/home/u/.local/share/AvatarStudio/characters");
    assert_eq!(r.assets_processed(), "/opt/app/assets/processed");
}

#[test]
fn joining_and_splitting_paths() {
    assert_eq!(join_path("a/", "b"), "a/b");
    assert_eq!(join_path("", "b"), "b");
    assert_eq!(join_path("a", "/b"), "/b");
    let c: Vec<String> = components("/a//./b/").iter().map(|v| v.iter().collect()).collect();
    assert_eq!(c, vec!["a".to_string(), "b".to_string()]);
    let c: Vec<String> = components("./x").iter().map(|v| v.iter().collect()).collect();
    assert_eq!(c, vec![".".to_string(), "x".to_string()]);
}

#[test]
fn portable_switch_reads_one_or_true() {
    assert!(portable_flag(Some("1")));
    assert!(portable_flag(Some("true")));
    assert!(portable_flag(Some("TRUE")));
    assert!(!portable_flag(Some("True")));
    assert!(!portable_flag(Some("yes")));
    assert!(!portable_flag(None));
}

#[test]
fn windows_exe_dirs_split_on_backslashes() {
    let dir = "C:\\work\\avatar-studio\\target\\debug";
    let r = resolve_with(Some(dir), &EnvProbe::default(), false, true);
    assert_eq!(r.mode, PathMode::Workspace);
    let r = resolve_with(Some(dir), &EnvProbe::default(), false, false);
    assert_eq!(r.mode, PathMode::Installed);
    let c: Vec<String> = components_on("C:\\a\\.\\b/c", true).iter().map(|v| v.iter().collect()).collect();
    assert_eq!(c, vec!["C:".to_string(), "a".to_string(), "b".to_string(), "c".to_string()]);
}
