use avatar_studio::config::{
    config_load_step, decide_load_step, is_blank_settings, unsupported_schema_message, Config, ConfigLoadStep,
    PathsConfig, RenderConfig, WindowConfig, CONFIG_SCHEMA_VERSION, DEFAULT_CLEAR_COLOR,
};
use avatar_studio::editor::EditorMode;

#[test]
fn default_settings() {
    let c = Config::default();
    assert_eq!(c.schema_version, CONFIG_SCHEMA_VERSION);
    assert_eq!(c.window.title, "Avatar Studio");
    assert_eq!((c.window.width, c.window.height), (1480, 780));
    assert_eq!(c.render.clear_color, DEFAULT_CLEAR_COLOR);
    assert_eq!(f32::from_bits(c.render.clear_color[2]), 0.180);
    assert_eq!(c.editor.last_mode, EditorMode::Character);
}

#[test]
fn migrates_v1_to_character_mode() {
    let legacy = r#"{"schema_version": 1, "window": {"title": "Avatar Studio", "width": 1480, "height": 780, "vsync": true}}"#;
    assert_eq!(config_load_step(legacy), ConfigLoadStep::ParseLegacy);
    let c = Config::default();
    let migrated = Config::from_legacy(c.window.clone(), c.render.clone(), c.paths.clone());
    assert_eq!(migrated.schema_version, 2);
    assert_eq!(migrated.editor.last_mode, EditorMode::Character);
}

#[test]
fn recovers_from_empty_or_corrupt_settings_file() {
    let nuls: String = std::iter::repeat('\0').take(32).collect();
    assert!(is_blank_settings(&nuls));
    assert_eq!(config_load_step(&nuls), ConfigLoadStep::UseDefaults);
    assert_eq!(config_load_step("{not json"), ConfigLoadStep::NotJson);
    assert!(is_blank_settings("\0 \n\0"));
    assert!(!is_blank_settings(" \0 "));
}

#[test]
fn schema_versions_pick_the_parse() {
    assert_eq!(config_load_step(r#"{"schema_version": 2}"#), ConfigLoadStep::ParseCurrent);
    assert_eq!(config_load_step(r#"{"window": {}}"#), ConfigLoadStep::ParseLegacy);
    assert_eq!(config_load_step(r#"{"schema_version": 7}"#), ConfigLoadStep::Unsupported(7));
    assert_eq!(config_load_step(r#"{"schema_version": "2"}"#), ConfigLoadStep::ParseLegacy);
    assert_eq!(config_load_step("[1, 2]"), ConfigLoadStep::ParseLegacy);
    assert_eq!(decide_load_step(false, Some(Some(4294967298))), ConfigLoadStep::ParseCurrent);
    assert_eq!(decide_load_step(true, Some(Some(2))), ConfigLoadStep::UseDefaults);
    assert_eq!(
        unsupported_schema_message(7),
        "settings.json schema_version 7 unsupported; expected <= 2"
    );
}

#[test]
fn zero_sized_windows_fall_back() {
    let mut c = Config::default();
    c.window.width = 0;
    let c = c.with_window_fallback();
    assert_eq!((c.window.width, c.window.height), (1280, 720));
    let c = Config {
        window: WindowConfig { title: "t".into(), width: 10, height: 20, vsync: false },
        render: RenderConfig { clear_color: [0; 4], msaa_samples: 4 },
        paths: PathsConfig { user_data: "u".into(), assets: "a".into() },
        ..Config::default()
    }
    .with_window_fallback();
    assert_eq!((c.window.width, c.window.height), (10, 20));
}
