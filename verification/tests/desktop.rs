use avatar_studio::desktop::{dropped_wearables_note, install_body_on_avatar, installed_body_label};
use avatar_studio::avatar::Avatar;
use avatar_studio::desktop::{
    bone_scene_id, clip_scene_id, default_slot_tint, parse_args, parse_perf_frames, seed_slot_color, slot_from_mesh_id,
    slot_material_id, slot_mesh_id, slot_stable_name, stable_token, validate_wearable, StartupMode, StartupOptions,
};
use avatar_studio::metadata::{AssetCategory, AssetMeta};
use avatar_studio::slots::Slot;

fn args(v: &[&str]) -> Vec<String> {
    v.iter().map(|s| s.to_string()).collect()
}

#[test]
fn parses_agent_perf_frames() {
    let opts = parse_args(&args(&["--agent-perf", "--perf-frames", "120"])).unwrap();
    assert_eq!(opts.mode, StartupMode::AgentPerf);
    assert_eq!(opts.perf_frames, 120);
}

#[test]
fn parses_agent_gif_flag() {
    let opts = parse_args(&args(&["--agent-gif", "--deterministic"])).unwrap();
    assert_eq!(opts.mode, StartupMode::AgentGif);
    assert!(opts.deterministic);
}

#[test]
fn parses_show_perf_flag() {
    let opts = parse_args(&args(&["--show-perf"])).unwrap();
    assert!(opts.show_perf);
}

#[test]
fn rejects_invalid_perf_frames() {
    assert!(parse_args(&args(&["--agent-perf", "--perf-frames", "0"])).is_err());
    assert!(parse_args(&args(&["--agent-perf", "--perf-frames", "nope"])).is_err());
}

#[test]
fn parses_no_vsync_flag() {
    let opts = parse_args(&args(&["--no-vsync"])).unwrap();
    assert!(!opts.vsync);
    let opts = parse_args(&Vec::new()).unwrap();
    assert!(opts.vsync, "default is vsync on");
}

#[test]
fn parses_deterministic_flag() {
    let opts = parse_args(&args(&["--deterministic"])).unwrap();
    assert!(opts.deterministic);
    let opts = parse_args(&Vec::new()).unwrap();
    assert!(!opts.deterministic, "default is non-deterministic");
}

#[test]
fn argument_errors_and_equals_form() {
    assert_eq!(parse_args(&args(&["--perf-frames"])), Err("--perf-frames requires a positive integer".to_string()));
    assert_eq!(parse_args(&args(&["--bogus"])), Err("unknown argument: --bogus".to_string()));
    assert_eq!(parse_args(&args(&["--perf-frames=77"])).unwrap().perf_frames, 77);
    assert_eq!(parse_args(&args(&["--perf-frames=--perf-frames=5"])).unwrap().perf_frames, 5);
    assert_eq!(
        parse_args(&args(&["--perf-frames=0"])),
        Err("--perf-frames must be greater than zero".to_string())
    );
    let opts = parse_args(&args(&["--agent-capture", "--agent-perf"])).unwrap();
    assert_eq!(opts.mode, StartupMode::AgentPerf);
    assert_eq!(StartupOptions::default().perf_frames, 300);
}

#[test]
fn perf_frames_parse_like_usize() {
    assert_eq!(parse_perf_frames("+42"), Ok(42));
    assert_eq!(parse_perf_frames("007"), Ok(7));
    assert_eq!(parse_perf_frames("18446744073709551615"), Ok(usize::MAX));
    assert!(parse_perf_frames("18446744073709551616").is_err());
    assert!(parse_perf_frames("").is_err());
    assert!(parse_perf_frames("+").is_err());
    assert!(parse_perf_frames("-1").is_err());
    assert!(parse_perf_frames(" 1").is_err());
    assert_eq!(parse_perf_frames("x"), Err("--perf-frames must be a positive integer".to_string()));
}

#[test]
fn scene_ids_are_stable() {
    assert_eq!(slot_stable_name(Slot::Accessory), "accessory");
    assert_eq!(slot_mesh_id(Slot::Top), "mesh_top_001");
    assert_eq!(slot_material_id(Slot::Hat), "mat_hat_primary");
    assert_eq!(stable_token("__Upper Arm.L!__"), "upper_arm.l");
    assert_eq!(bone_scene_id("Hand-R"), "bone_hand-r");
    assert_eq!(clip_scene_id("Walk Cycle", 3), "clip_walk_cycle");
    assert_eq!(clip_scene_id("***", 3), "clip_003");
    assert_eq!(clip_scene_id("", 42), "clip_042");
    assert_eq!(clip_scene_id("", 1234), "clip_1234");
    for slot in Slot::ALL {
        assert_eq!(slot_from_mesh_id(&slot_mesh_id(slot)), Some(slot));
    }
    assert_eq!(slot_from_mesh_id("mesh_cape_001"), None);
}

fn wearable(category: AssetCategory, skeleton: Option<&str>, bodies: &[&str]) -> AssetMeta {
    AssetMeta {
        id: "w".into(),
        display_name: "W".into(),
        category,
        model: "m".into(),
        thumbnail: None,
        supports_color: false,
        default_color: None,
        compatible_body_types: bodies.iter().map(|s| s.to_string()).collect(),
        compatible_skeleton: skeleton.map(String::from),
        tags: Vec::new(),
        version: 1,
    }
}

#[test]
fn wearables_are_checked_before_equipping() {
    let ok = wearable(AssetCategory::Top, Some("avatar_skeleton_v1"), &[]);
    assert_eq!(validate_wearable(false, "b", &ok), Err("Load a body first.".to_string()));
    assert_eq!(validate_wearable(true, "b", &ok), Ok(Slot::Top));
    let pose = wearable(AssetCategory::Pose, Some("avatar_skeleton_v1"), &[]);
    assert_eq!(validate_wearable(true, "b", &pose), Err("Asset category isn't equippable.".to_string()));
    let body = wearable(AssetCategory::Body, Some("avatar_skeleton_v1"), &[]);
    assert_eq!(validate_wearable(true, "b", &body), Err("Use the Character tab to swap the body.".to_string()));
    let unrigged = wearable(AssetCategory::Hat, None, &[]);
    assert_eq!(
        validate_wearable(true, "b", &unrigged),
        Err("Incompatible: requires skeleton avatar_skeleton_v1".to_string())
    );
    let picky = wearable(AssetCategory::Hat, Some("avatar_skeleton_v1"), &["x", "y"]);
    assert_eq!(validate_wearable(true, "b", &picky), Err("Incompatible with body b".to_string()));
    assert_eq!(validate_wearable(true, "y", &picky), Ok(Slot::Hat));
}

#[test]
fn slot_colours_seed_from_pick_then_asset_then_tint() {
    let mut av = Avatar::default();
    let mut meta = wearable(AssetCategory::Top, None, &[]);
    let tint = default_slot_tint(Slot::Top);
    assert_eq!(f32::from_bits(tint[0]), 0.15);
    assert_eq!(seed_slot_color(&av, Slot::Top, None), [tint[0], tint[1], tint[2]]);
    meta.default_color = Some([1, 2, 3]);
    assert_eq!(seed_slot_color(&av, Slot::Top, Some(&meta)), [1, 2, 3]);
    av.set_slot_color(Slot::Top, [7, 8, 9]);
    assert_eq!(seed_slot_color(&av, Slot::Top, Some(&meta)), [7, 8, 9]);
    assert_eq!(default_slot_tint(Slot::Body), [1.0f32.to_bits(); 4]);
}

#[test]
fn saving_needs_avatar_mode_and_a_body() {
    let mut avatar = avatar_studio::avatar::Avatar::default();
    assert!(!avatar_studio::desktop::can_save_character(true, &avatar));
    avatar.equip(Slot::Body, "body_001".to_string());
    assert!(avatar_studio::desktop::can_save_character(true, &avatar));
    assert!(!avatar_studio::desktop::can_save_character(false, &avatar));
}

#[test]
fn installing_a_body_resets_the_avatar() {
    let mut avatar = avatar_studio::avatar::Avatar::default();
    avatar.equip(Slot::Top, "top_a".to_string());
    avatar.set_slot_color(Slot::Top, [1, 2, 3]);
    let mut body = wearable(AssetCategory::Body, None, &[]);
    body.id = "body_duck_001".into();
    body.display_name = "Duck".into();
    body.default_color = Some([4, 5, 6]);
    let tint = install_body_on_avatar(&mut avatar, Some(&body));
    assert_eq!(tint, [4, 5, 6]);
    assert_eq!(avatar.body_type, "body_duck_001");
    assert_eq!(avatar.equipped(Slot::Body), Some("body_duck_001"));
    assert_eq!(avatar.equipped(Slot::Top), None);
    assert_eq!(avatar.slot_color(Slot::Top), None);
    assert_eq!(avatar.slot_color(Slot::Body), Some([4, 5, 6]));
    let tint = install_body_on_avatar(&mut avatar, None);
    let white = default_slot_tint(Slot::Body);
    assert_eq!(tint, [white[0], white[1], white[2]]);
    assert_eq!(avatar.body_type, "custom");
    assert_eq!(avatar.equipped(Slot::Body), Some("custom_body"));
    assert_eq!(installed_body_label(Some(&body)), "Duck");
    assert_eq!(installed_body_label(None), "custom body");
    assert_eq!(dropped_wearables_note(0), None);
    assert_eq!(dropped_wearables_note(3), Some("Unequipped 3 wearable(s) for new body".to_string()));
}
