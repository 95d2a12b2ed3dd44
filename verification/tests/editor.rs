use avatar_studio::commands::{
    AvatarEquipAssetPayload, MaterialSetColorPayload, MaterialTarget, TransformApplyDeltaPayload, ValidationResult,
};
use avatar_studio::metadata::{AssetCategory, AssetMeta};
use avatar_studio::overrides::{ObjectOverrides, ObjectRuntimeOverrides, ObjectTransform};
use avatar_studio::runtime_checks::{
    equip_payload_for, known_avatar_id, validate_apply_delta, validate_equip_asset, validate_flag_target,
    validate_material_color, validate_reset, validate_selection_ids, validate_set_rotation, validate_set_scale,
    validate_set_translation,
};
use avatar_studio::selection::{contains_id, restrict_selection, retain_present, SelectionIds};
use avatar_studio::slots::Slot;

fn outcome(r: &ValidationResult) -> Option<(String, String)> {
    if r.valid {
        assert!(r.warnings.is_empty());
        None
    } else {
        assert_eq!(r.warnings.len(), 1);
        Some((r.warnings[0].code.clone(), r.warnings[0].message.clone()))
    }
}

fn err(code: &str, message: &str) -> Option<(String, String)> {
    Some((code.to_string(), message.to_string()))
}

fn bits3(v: [f32; 3]) -> [u32; 3] {
    [v[0].to_bits(), v[1].to_bits(), v[2].to_bits()]
}

fn bits4(v: [f32; 4]) -> [u32; 4] {
    [v[0].to_bits(), v[1].to_bits(), v[2].to_bits(), v[3].to_bits()]
}

fn asset(category: AssetCategory, skeleton: Option<&str>, bodies: &[&str]) -> AssetMeta {
    AssetMeta {
        id: "asset".into(),
        display_name: "Asset".into(),
        category,
        model: "m.glb".into(),
        thumbnail: None,
        supports_color: true,
        default_color: None,
        compatible_body_types: bodies.iter().map(|s| s.to_string()).collect(),
        compatible_skeleton: skeleton.map(String::from),
        tags: Vec::new(),
        version: 1,
    }
}

fn base() -> ObjectTransform {
    ObjectTransform { translation: bits3([0.0; 3]), rotation: bits4([0.0, 0.0, 0.0, 1.0]), scale: bits3([1.0; 3]) }
}

#[test]
fn overrides_read_back_and_stay_per_object() {
    let mut o = ObjectOverrides::new();
    assert_eq!(o.len(), 0);
    assert!(o.effective_visibility("mesh_top_001", true));
    o.set_visible("mesh_top_001", false);
    assert!(!o.effective_visibility("mesh_top_001", true));
    assert!(o.effective_visibility("mesh_hat_001", true));
    o.set_locked("mesh_top_001", true);
    assert!(o.effective_locked("mesh_top_001", false));
    assert!(!o.effective_locked("mesh_hat_001", false));
    o.set_translation("bone_head", bits3([0.5, 1.0, -2.0]));
    let t = o.effective_transform("bone_head", base());
    assert_eq!(t.translation, bits3([0.5, 1.0, -2.0]));
    assert_eq!(t.rotation, base().rotation);
    assert_eq!(o.len(), 2);
}

#[test]
fn clearing_a_transform_keeps_flags_and_drops_empty_entries() {
    let mut o = ObjectOverrides::new();
    o.set_scale("mesh_hat_001", bits3([2.0; 3]));
    o.set_rotation("mesh_hat_001", bits4([0.0, 0.0, 1.0, 0.0]));
    o.set_visible("mesh_top_001", false);
    o.set_translation("mesh_top_001", bits3([1.0, 0.0, 0.0]));
    assert_eq!(o.len(), 2);
    o.clear_transform("mesh_hat_001");
    assert_eq!(o.get("mesh_hat_001"), None);
    assert_eq!(o.effective_transform("mesh_hat_001", base()), base());
    o.clear_transform("mesh_top_001");
    assert_eq!(
        o.get("mesh_top_001"),
        Some(ObjectRuntimeOverrides { visible: Some(false), locked: None, translation: None, rotation: None, scale: None })
    );
    assert!(!o.effective_visibility("mesh_top_001", true));
    assert_eq!(o.len(), 1);
    o.clear_transform("missing");
    assert_eq!(o.len(), 1);
    let entries = o.entries();
    assert_eq!(entries.len(), 1);
    assert_eq!(entries[0].0, "mesh_top_001");
}

#[test]
fn avatar_ids_are_current_or_avatar_001() {
    assert!(known_avatar_id("current"));
    assert!(known_avatar_id("avatar_001"));
    assert!(!known_avatar_id("avatar_002"));
}

#[test]
fn equip_checks_follow_the_catalog_row() {
    let p = |avatar: &str, slot: Slot| AvatarEquipAssetPayload {
        avatar_id: avatar.to_string(),
        slot,
        asset_id: "asset".to_string(),
    };
    let top = asset(AssetCategory::Top, Some("avatar_skeleton_v1"), &[]);
    assert_eq!(outcome(&validate_equip_asset(&p("nobody", Slot::Top), Some(&top), true, "b")), err("UNKNOWN_AVATAR", "unknown avatar id"));
    assert_eq!(outcome(&validate_equip_asset(&p("current", Slot::Top), None, true, "b")), err("ASSET_NOT_FOUND", "asset not found"));
    let pose = asset(AssetCategory::Pose, None, &[]);
    assert_eq!(
        outcome(&validate_equip_asset(&p("current", Slot::Top), Some(&pose), true, "b")),
        err("NOT_EQUIPPABLE", "asset category is not equippable")
    );
    assert_eq!(
        outcome(&validate_equip_asset(&p("current", Slot::Hat), Some(&top), true, "b")),
        err("SLOT_MISMATCH", "asset belongs to slot Top, not Hat")
    );
    assert_eq!(outcome(&validate_equip_asset(&p("current", Slot::Top), Some(&top), true, "b")), None);
    let body = asset(AssetCategory::Body, None, &[]);
    assert_eq!(outcome(&validate_equip_asset(&p("avatar_001", Slot::Body), Some(&body), false, "b")), None);
    assert_eq!(
        outcome(&validate_equip_asset(&p("current", Slot::Top), Some(&top), false, "b")),
        err("INCOMPATIBLE_ASSET", "Load a body first.")
    );
    let picky = asset(AssetCategory::Top, Some("avatar_skeleton_v1"), &["slim"]);
    assert_eq!(
        outcome(&validate_equip_asset(&p("current", Slot::Top), Some(&picky), true, "broad")),
        err("INCOMPATIBLE_ASSET", "Incompatible with body broad")
    );
}

#[test]
fn color_checks_range_avatar_and_slot() {
    let p = |c: [f32; 3], avatar: &str| MaterialSetColorPayload {
        target: MaterialTarget::AvatarSlot { avatar_id: avatar.to_string(), slot: Slot::Top },
        color_srgb: bits3(c),
    };
    assert_eq!(outcome(&validate_material_color(&p([0.0, 0.5, 1.0], "current"), Some(true))), None);
    assert_eq!(outcome(&validate_material_color(&p([-0.0, 0.5, 1.0], "current"), Some(true))), None);
    for bad in [[1.0001, 0.5, 0.5], [-0.1, 0.5, 0.5], [f32::NAN, 0.0, 0.0], [0.0, f32::INFINITY, 0.0]] {
        assert_eq!(
            outcome(&validate_material_color(&p(bad, "current"), Some(true))),
            err("COLOR_OUT_OF_RANGE", "color must be finite 0..=1")
        );
    }
    assert_eq!(outcome(&validate_material_color(&p([0.2; 3], "x"), Some(true))), err("UNKNOWN_AVATAR", "unknown avatar id"));
    assert_eq!(outcome(&validate_material_color(&p([0.2; 3], "current"), None)), err("SLOT_EMPTY", "slot is not equipped"));
    assert_eq!(
        outcome(&validate_material_color(&p([0.2; 3], "current"), Some(false))),
        err("COLOR_LOCKED", "slot does not support color edits")
    );
}

#[test]
fn visibility_and_lock_targets_must_exist() {
    assert_eq!(outcome(&validate_flag_target(" \t", true, true)), err("EMPTY_OBJECT_ID", "object id is empty"));
    assert_eq!(outcome(&validate_flag_target("", true, true)), err("EMPTY_OBJECT_ID", "object id is empty"));
    assert_eq!(outcome(&validate_flag_target("Bad Id", false, false)), err("INVALID_OBJECT_ID", "invalid scene object id: Bad Id"));
    assert_eq!(outcome(&validate_flag_target("missing", true, false)), err("OBJECT_NOT_FOUND", "scene object not found: missing"));
    assert_eq!(outcome(&validate_flag_target("camera_main", true, true)), None);
}

#[test]
fn transform_checks_target_then_values() {
    assert_eq!(outcome(&validate_set_translation(false, Some(false), bits3([0.0; 3]))), err("INVALID_OBJECT_ID", "invalid object id"));
    assert_eq!(outcome(&validate_set_translation(true, None, bits3([0.0; 3]))), err("OBJECT_NOT_FOUND", "scene object not found"));
    assert_eq!(outcome(&validate_set_translation(true, Some(true), bits3([0.0; 3]))), err("OBJECT_LOCKED", "object is locked"));
    assert_eq!(
        outcome(&validate_set_translation(true, Some(false), bits3([0.0, f32::NAN, 0.0]))),
        err("INVALID_TRANSLATION", "translation must be finite")
    );
    assert_eq!(outcome(&validate_set_translation(true, Some(false), bits3([-3.5, 1e30, 0.0]))), None);
    assert_eq!(
        outcome(&validate_set_rotation(true, Some(false), bits4([0.0, 0.0, 0.0, f32::INFINITY]), true)),
        err("INVALID_ROTATION", "rotation must be finite")
    );
    assert_eq!(
        outcome(&validate_set_rotation(true, Some(false), bits4([0.0, 0.0, 0.0, 2.0]), false)),
        err("NON_UNIT_ROTATION", "rotation must be unit length")
    );
    assert_eq!(outcome(&validate_set_rotation(true, Some(false), bits4([0.0, 0.0, 0.0, 1.0]), true)), None);
    assert_eq!(outcome(&validate_set_scale(true, Some(false), bits3([1.0, 0.5, 1e-40]))), None);
    for bad in [[0.0, 1.0, 1.0], [1.0, -1.0, 1.0], [1.0, 1.0, f32::INFINITY], [-0.0, 1.0, 1.0]] {
        assert_eq!(
            outcome(&validate_set_scale(true, Some(false), bits3(bad))),
            err("INVALID_SCALE", "scale must be finite and positive")
        );
    }
    assert_eq!(outcome(&validate_reset(false, true)), err("INVALID_OBJECT_ID", "invalid object id"));
    assert_eq!(outcome(&validate_reset(true, false)), err("OBJECT_NOT_FOUND", "scene object not found"));
    assert_eq!(outcome(&validate_reset(true, true)), None);
}

#[test]
fn delta_checks_each_part() {
    let d = |t: Option<[f32; 3]>, q: Option<[f32; 4]>, s: Option<[f32; 3]>| TransformApplyDeltaPayload {
        object_id: "mesh_top_001".to_string(),
        delta_translation: t.map(bits3),
        delta_rotation_quat: q.map(bits4),
        delta_scale: s.map(bits3),
    };
    assert_eq!(outcome(&validate_apply_delta(true, Some(false), &d(None, None, None), false)), None);
    assert_eq!(
        outcome(&validate_apply_delta(true, Some(false), &d(Some([f32::NAN, 0.0, 0.0]), None, None), true)),
        err("INVALID_TRANSLATION", "delta translation must be finite")
    );
    assert_eq!(
        outcome(&validate_apply_delta(true, Some(false), &d(None, Some([0.0, 0.0, 0.0, 1.0]), None), false)),
        err("NON_UNIT_ROTATION", "delta rotation must be unit length")
    );
    assert_eq!(
        outcome(&validate_apply_delta(true, Some(false), &d(None, None, Some([-1.0, 0.0, f32::NEG_INFINITY])), true)),
        err("INVALID_SCALE", "delta scale must be finite")
    );
    assert_eq!(outcome(&validate_apply_delta(true, Some(false), &d(None, None, Some([-1.0, 0.0, 0.0])), true)), None);
    assert_eq!(outcome(&validate_apply_delta(true, Some(true), &d(None, None, None), true)), err("OBJECT_LOCKED", "object is locked"));
}

#[test]
fn selection_ids_are_checked_in_order() {
    let ids = vec!["camera_main".to_string(), "bad id".to_string(), "missing".to_string()];
    assert_eq!(
        outcome(&validate_selection_ids(&ids, &vec![true, false, true], &vec![true, false, false])),
        err("INVALID_OBJECT_ID", "invalid scene object id: bad id")
    );
    assert_eq!(
        outcome(&validate_selection_ids(&ids, &vec![true, true, true], &vec![true, true, false])),
        err("OBJECT_NOT_FOUND", "scene object not found: missing")
    );
    assert_eq!(outcome(&validate_selection_ids(&ids, &vec![true; 3], &vec![true; 3])), None);
    assert_eq!(outcome(&validate_selection_ids(&Vec::new(), &Vec::new(), &Vec::new())), None);
}

#[test]
fn asset_rows_become_equip_payloads() {
    let hat = asset(AssetCategory::Hat, None, &[]);
    let p = equip_payload_for("hat_001".to_string(), Some(&hat)).unwrap();
    assert_eq!((p.avatar_id.as_str(), p.slot, p.asset_id.as_str()), ("current", Slot::Hat, "hat_001"));
    assert_eq!(equip_payload_for("x".to_string(), None).unwrap_err(), "Asset 'x' not in catalog");
    let bg = asset(AssetCategory::Background, None, &[]);
    assert_eq!(equip_payload_for("bg".to_string(), Some(&bg)).unwrap_err(), "Asset category isn't equippable: bg");
}

#[test]
fn selection_is_cut_to_the_scene() {
    let present = vec!["camera_main".to_string(), "mesh_top_001".to_string(), "bone_head".to_string()];
    assert!(contains_id(&present, "bone_head"));
    assert!(!contains_id(&present, "bone_neck"));
    assert_eq!(
        retain_present(&vec!["gone".into(), "mesh_top_001".into(), "camera_main".into()], &present),
        vec!["mesh_top_001".to_string(), "camera_main".to_string()]
    );
    let sel = SelectionIds {
        selected_objects: vec!["gone".into(), "mesh_top_001".into(), "camera_main".into()],
        active_object: Some("gone".into()),
        selected_bones: vec!["bone_neck".into()],
        active_bone: Some("bone_neck".into()),
        active_clip: Some("clip_walk_000".into()),
    };
    let r = restrict_selection(&sel, &present);
    assert_eq!(r.selected_objects, vec!["mesh_top_001".to_string(), "camera_main".to_string()]);
    assert_eq!(r.active_object.as_deref(), Some("mesh_top_001"));
    assert!(r.selected_bones.is_empty());
    assert_eq!(r.active_bone, None);
    assert_eq!(r.active_clip, None);
    let kept = SelectionIds { active_object: Some("camera_main".into()), ..sel.clone() };
    assert_eq!(restrict_selection(&kept, &present).active_object.as_deref(), Some("camera_main"));
}
