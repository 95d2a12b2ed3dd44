use avatar_studio::builder::validate::mesh_tally;
use avatar_studio::builder::fixtures::{
    fixture_skin, pack_fixture_meta, pack_fixture_specs, top_fixture_meta, tube_indices, TUBE_SEGMENTS,
};
use avatar_studio::builder::glb::{align_to, encode_glb, pad_to_4};
use avatar_studio::builder::import::{
    check_existing, import_report, parse_category, prepare_import_meta, split_tags, thumbnail_size, ImportArgs,
    ImportError,
};
use avatar_studio::builder::paths::{
    catalog_db_path, category_dir, metadata_path, output_glb_path, output_metadata_path, relative_model_path,
    relative_thumbnail_path, thumbnail_path, validate_asset_id, AssetIdError,
};
use avatar_studio::builder::validate::{enforce_category_rules, run_validate, summarise_bones, ValidateReport};
use avatar_studio::metadata::{AssetCategory, AssetMeta};
use avatar_studio::skeleton::{Bone, BoneIndex, JointInput, Skeleton, SkinInput, MVP_BONE_NAMES};

#[test]
fn category_dir_covers_importable_categories() {
    assert_eq!(category_dir(AssetCategory::Body), Some("bodies"));
    assert_eq!(category_dir(AssetCategory::Top), Some("tops"));
    assert_eq!(category_dir(AssetCategory::Animation), None);
}

#[test]
fn validate_asset_id_accepts_snake_lower() {
    assert!(validate_asset_id("body_phase4_rig_001").is_ok());
    assert!(validate_asset_id("").is_err());
    assert!(validate_asset_id("Body").is_err());
    assert!(validate_asset_id("body-1").is_err());
    assert!(validate_asset_id("body 1").is_err());
}

#[test]
fn invalid_asset_id_reports_the_first_bad_character() {
    assert!(matches!(validate_asset_id(""), Err(AssetIdError::Empty)));
    match validate_asset_id("body-1 x") {
        Err(AssetIdError::InvalidCharacter { id, ch }) => {
            assert_eq!(id, "body-1 x");
            assert_eq!(ch, '-');
        }
        other => panic!("unexpected {other:?}"),
    }
}

#[test]
fn workspace_paths_are_joined_under_the_root() {
    assert_eq!(metadata_path("/ws", "top_a"), "/ws/assets/processed/metadata/top_a.json");
    assert_eq!(thumbnail_path("/ws/", "top_a"), "/ws/assets/processed/thumbnails/top_a.png");
    assert_eq!(relative_model_path(AssetCategory::Hair, "hair_a"), Some("avatars/hairs/hair_a.glb".to_string()));
    assert_eq!(relative_model_path(AssetCategory::Pose, "p"), None);
    assert_eq!(relative_thumbnail_path("x"), "thumbnails/x.png");
    assert_eq!(catalog_db_path("ws"), "ws/user_data/asset_catalog.sqlite");
    assert_eq!(output_glb_path("ws"), "ws/assets/processed/avatars/tops/phase7_top.glb");
    assert_eq!(output_metadata_path("ws"), "ws/assets/processed/metadata/phase7_top.json");
}

#[test]
fn align_to_pads_with_the_fill_byte() {
    let mut buf = vec![1u8, 2, 3, 4, 5];
    let len = align_to(&mut buf, 4, 0xaa);
    assert_eq!(len, 8);
    assert_eq!(buf, vec![1, 2, 3, 4, 5, 0xaa, 0xaa, 0xaa]);
    let len = align_to(&mut buf, 4, 0);
    assert_eq!(len, 8);
    let mut empty: Vec<u8> = Vec::new();
    pad_to_4(&mut empty, b' ');
    assert!(empty.is_empty());
    let mut three = vec![9u8; 3];
    pad_to_4(&mut three, b' ');
    assert_eq!(three, vec![9, 9, 9, b' ']);
}

#[test]
fn glb_header_records_its_length() {
    let json = b"{\"a\":1}".to_vec();
    let bin = vec![1u8, 2, 3, 4, 5];
    let out = encode_glb(json.clone(), &bin);
    assert_eq!(&out[0..4], b"glTF");
    assert_eq!(u32::from_le_bytes([out[4], out[5], out[6], out[7]]), 2);
    let total = u32::from_le_bytes([out[8], out[9], out[10], out[11]]) as usize;
    assert_eq!(total, out.len());
    assert_eq!(out.len() % 4, 0);
    // JSON chunk: 7 bytes padded with one space
    assert_eq!(u32::from_le_bytes([out[12], out[13], out[14], out[15]]), 8);
    assert_eq!(&out[16..20], b"JSON");
    assert_eq!(&out[20..28], b"{\"a\":1} ");
    // BIN chunk: 5 bytes padded with zeros
    assert_eq!(u32::from_le_bytes([out[28], out[29], out[30], out[31]]), 8);
    assert_eq!(&out[32..36], b"BIN\0");
    assert_eq!(&out[36..44], &[1, 2, 3, 4, 5, 0, 0, 0]);
}

fn report(mesh_count: u32, has_skin: bool, root: Option<&str>, error: Option<&str>) -> ValidateReport {
    ValidateReport {
        path: "x.glb".into(),
        file_bytes: 10,
        mesh_count,
        primitive_count: mesh_count,
        vertex_count: 3,
        animation_count: 0,
        aabb: None,
        longest_axis_m: 0,
        has_skin,
        skeleton_root: root.map(String::from),
        bone_names: Vec::new(),
        skeleton_error: error.map(String::from),
        warnings: Vec::new(),
    }
}

#[test]
fn wearables_must_be_skinned_to_the_shared_rig() {
    let r = report(1, false, None, None);
    assert_eq!(
        enforce_category_rules(&r, AssetCategory::Top, false).unwrap_err(),
        "wearable category Top requires a skinned mesh, but no skin is present"
    );
    let r = report(1, true, Some("other_rig"), None);
    assert_eq!(
        enforce_category_rules(&r, AssetCategory::Hat, false).unwrap_err(),
        "wearable's skeleton root is 'other_rig', expected 'avatar_skeleton_v1'"
    );
    let r = report(1, true, None, None);
    assert!(enforce_category_rules(&r, AssetCategory::Hat, false).is_ok());
    let r = report(1, true, Some("avatar_skeleton_v1"), None);
    assert!(enforce_category_rules(&r, AssetCategory::Glasses, false).is_ok());
}

#[test]
fn category_rules_check_parse_errors_skin_and_meshes() {
    let r = report(1, true, None, Some("skin has a joint without a node name"));
    assert_eq!(
        enforce_category_rules(&r, AssetCategory::Body, false).unwrap_err(),
        "skeleton parse failed: skin has a joint without a node name"
    );
    let r = report(1, false, None, None);
    assert_eq!(
        enforce_category_rules(&r, AssetCategory::Body, true).unwrap_err(),
        "--require-skeleton: body has no skin (use a rigged GLB)"
    );
    assert!(enforce_category_rules(&r, AssetCategory::Body, false).is_ok());
    assert!(enforce_category_rules(&r, AssetCategory::Background, true).is_ok());
    let r = report(0, false, None, None);
    assert_eq!(enforce_category_rules(&r, AssetCategory::Pose, false).unwrap_err(), "no meshes in GLB");
}

#[test]
fn run_validate_without_category_checks_only_the_skin() {
    let r = report(0, false, None, None);
    assert_eq!(run_validate(&r, None, true).unwrap_err(), "--require-skeleton: no skin in GLB");
    assert!(run_validate(&r, None, false).is_ok());
    assert_eq!(run_validate(&r, Some(AssetCategory::Body), false).unwrap_err(), "no meshes in GLB");
}

#[test]
fn bone_summary_lists_six_then_counts_the_rest() {
    let six: Vec<String> = ["a", "b", "c", "d", "e", "f"].iter().map(|s| s.to_string()).collect();
    assert_eq!(summarise_bones(&six), "a, b, c, d, e, f");
    let eight: Vec<String> = ["a", "b", "c", "d", "e", "f", "g", "h"].iter().map(|s| s.to_string()).collect();
    assert_eq!(summarise_bones(&eight), "a, b, c, d, e, … +3");
    assert_eq!(summarise_bones(&Vec::new()), "");
}

fn rig_skin() -> SkinInput {
    let n = MVP_BONE_NAMES.len();
    let joints = MVP_BONE_NAMES
        .iter()
        .enumerate()
        .map(|(i, name)| JointInput { node: i, name: Some(name.to_string()) })
        .collect();
    let mut node_children: Vec<Vec<usize>> = (0..n).map(|i| if i + 1 < n { vec![i + 1] } else { vec![] }).collect();
    node_children.push(vec![0]);
    SkinInput { root_name: Some("avatar_skeleton_v1".into()), joints, node_children, inverse_bind_count: n }
}

#[test]
fn recording_a_skin_fills_the_report() {
    let mut r = report(1, false, None, None);
    r.warnings.push("first".into());
    let mut skin = rig_skin();
    skin.joints.push(JointInput { node: 18, name: Some("mystery".into()) });
    skin.node_children.push(vec![]);
    r.record_skin(Some(&skin));
    assert!(r.has_skin);
    assert_eq!(r.skeleton_root.as_deref(), Some("avatar_skeleton_v1"));
    assert_eq!(r.bone_names.len(), 19);
    assert_eq!(r.bone_names[0], "root");
    assert!(r.skeleton_error.is_none());
    assert_eq!(
        r.warnings,
        vec![
            "first".to_string(),
            "skeleton: inverse bind matrix count 18 does not match joint count 19; missing entries use identity"
                .to_string(),
            "skeleton: unknown non-standard bone 'mystery'".to_string(),
        ]
    );

    let mut r = report(1, false, None, None);
    let mut bad = rig_skin();
    bad.root_name = Some("other".into());
    r.record_skin(Some(&bad));
    assert_eq!(r.skeleton_error.as_deref(), Some("skeleton root is named 'other', expected 'avatar_skeleton_v1'"));
    assert!(r.bone_names.is_empty());

    let mut r = report(1, true, Some("x"), None);
    r.record_skin(None);
    assert!(!r.has_skin);
    assert!(r.skeleton_root.is_none());
}

fn base_args() -> ImportArgs {
    ImportArgs { input: "in.glb".into(), workspace_root: "/ws".into(), ..Default::default() }
}

#[test]
fn import_round_trips_a_body() {
    let args = ImportArgs {
        id: Some("body_imported_test_001".into()),
        category: Some(AssetCategory::Body),
        display_name: Some("Imported Test Body".into()),
        ..base_args()
    };
    let meta = prepare_import_meta(&args, None).expect("import metadata");
    assert_eq!(meta.id, "body_imported_test_001");
    assert_eq!(meta.display_name, "Imported Test Body");
    assert!(matches!(meta.category, AssetCategory::Body));
    assert_eq!(meta.model, "avatars/bodies/body_imported_test_001.glb");
    assert_eq!(meta.compatible_skeleton, None);
    let r = import_report("/ws", &meta, false);
    assert_eq!(r.model_path, "/ws/assets/processed/avatars/bodies/body_imported_test_001.glb");
    assert_eq!(r.metadata_path, "/ws/assets/processed/metadata/body_imported_test_001.json");
    assert!(r.thumbnail_path.is_none());
}

fn sidecar(id: &str) -> AssetMeta {
    AssetMeta {
        id: id.into(),
        display_name: "Sidecar Name".into(),
        category: AssetCategory::Body,
        model: String::new(),
        thumbnail: None,
        supports_color: false,
        default_color: None,
        compatible_body_types: Vec::new(),
        compatible_skeleton: None,
        tags: vec!["from_sidecar".into()],
        version: 1,
    }
}

#[test]
fn import_with_sidecar_then_flag_override() {
    let args = ImportArgs {
        display_name: Some("Flag Wins".into()),
        meta_path: Some("/ws/sidecar.json".into()),
        ..base_args()
    };
    let meta = prepare_import_meta(&args, Some(sidecar("body_sidecar_test_001"))).unwrap();
    assert_eq!(meta.id, "body_sidecar_test_001");
    assert_eq!(meta.display_name, "Flag Wins");
    assert_eq!(meta.tags, vec!["from_sidecar".to_string()]);
}

#[test]
fn import_refusals() {
    assert!(matches!(prepare_import_meta(&base_args(), None), Err(ImportError::MissingCategory)));
    let args = ImportArgs { category: Some(AssetCategory::Top), ..base_args() };
    assert!(matches!(prepare_import_meta(&args, None), Err(ImportError::MissingId)));
    let args = ImportArgs { category: Some(AssetCategory::Top), id: Some("Top A".into()), ..base_args() };
    match prepare_import_meta(&args, None) {
        Err(ImportError::InvalidId(AssetIdError::InvalidCharacter { id, ch })) => {
            assert_eq!(id, "Top A");
            assert_eq!(ch, 'T');
        }
        other => panic!("unexpected {other:?}"),
    }
    let args = ImportArgs { category: Some(AssetCategory::Pose), id: Some("pose_a".into()), ..base_args() };
    assert!(matches!(prepare_import_meta(&args, None), Err(ImportError::NotImportable(AssetCategory::Pose))));
}

#[test]
fn import_defaults_wearables_to_the_shared_rig_and_names_to_ids() {
    let args = ImportArgs {
        category: Some(AssetCategory::Hat),
        id: Some("hat_a".into()),
        body_types: vec!["body_x".into()],
        tags: vec!["t1".into(), "t2".into()],
        supports_color: true,
        default_color: Some([1, 2, 3]),
        ..base_args()
    };
    let meta = prepare_import_meta(&args, None).unwrap();
    assert_eq!(meta.display_name, "hat_a");
    assert_eq!(meta.compatible_skeleton.as_deref(), Some("avatar_skeleton_v1"));
    assert_eq!(meta.compatible_body_types, vec!["body_x".to_string()]);
    assert_eq!(meta.tags, vec!["t1".to_string(), "t2".to_string()]);
    assert!(meta.supports_color);
    assert_eq!(meta.default_color, Some([1, 2, 3]));
    assert_eq!(meta.model, "avatars/hats/hat_a.glb");
    assert_eq!(meta.version, 1);

    let args = ImportArgs { skeleton: Some("null".into()), ..args };
    let meta = prepare_import_meta(&args, None).unwrap();
    assert_eq!(meta.compatible_skeleton, None);
    let args = ImportArgs { category: Some(AssetCategory::Body), skeleton: Some("null".into()), ..args };
    let mut side = sidecar("x");
    side.compatible_skeleton = Some("old".into());
    let meta = prepare_import_meta(&ImportArgs { meta_path: Some("s".into()), ..args }, Some(side)).unwrap();
    assert_eq!(meta.compatible_skeleton, None);
}

#[test]
fn existing_assets_need_force() {
    let existing = sidecar("body_a");
    match check_existing(false, Some(&existing)) {
        Err(ImportError::AlreadyExists { id, model }) => {
            assert_eq!(id, "body_a");
            assert_eq!(model, "");
        }
        other => panic!("unexpected {other:?}"),
    }
    assert!(check_existing(true, Some(&existing)).is_ok());
    assert!(check_existing(false, None).is_ok());
}

#[test]
fn thumbnails_are_at_least_sixteen_pixels() {
    let args = ImportArgs { thumb_width: 4, thumb_height: 300, ..base_args() };
    assert_eq!(thumbnail_size(&args), (16, 300));
}

#[test]
fn categories_parse_from_snake_case() {
    assert_eq!(parse_category("top"), Ok(AssetCategory::Top));
    assert_eq!(parse_category("background"), Ok(AssetCategory::Background));
    assert_eq!(parse_category("Top"), Err("unknown category: Top".to_string()));
}

#[test]
fn tube_indices_wind_each_quad_as_two_triangles() {
    let idx = tube_indices(TUBE_SEGMENTS);
    assert_eq!(idx.len(), 72);
    assert_eq!(&idx[0..6], &[0, 3, 1, 0, 2, 3]);
    assert_eq!(&idx[66..72], &[22, 1, 23, 22, 0, 1]);
    assert!(idx.iter().all(|&i| i < 24));
}

#[test]
fn fixture_skin_reads_back_as_the_rig() {
    let bones: Vec<Bone> = MVP_BONE_NAMES
        .iter()
        .enumerate()
        .map(|(i, name)| Bone { name: name.to_string(), parent: i.checked_sub(1).map(|p| BoneIndex(p / 2)) })
        .collect();
    let skin = fixture_skin(&bones);
    assert_eq!(skin.node_children.len(), bones.len() + 2);
    assert_eq!(skin.node_children[bones.len() + 1], vec![0, bones.len()]);
    let skeleton = Skeleton::from_skin(Some(&skin)).unwrap().unwrap();
    assert_eq!(skeleton.bones.len(), bones.len());
    for (read, written) in skeleton.bones.iter().zip(bones.iter()) {
        assert_eq!(read.name, written.name);
        assert_eq!(read.parent, written.parent);
    }
    assert!(skeleton.warnings.is_empty());
}

#[test]
fn fixture_catalog_entries() {
    let top = top_fixture_meta();
    assert_eq!(top.id, "top_phase7_basic_001");
    assert_eq!(top.model, "avatars/tops/phase7_top.glb");
    let specs = pack_fixture_specs();
    assert_eq!(specs.len(), 6);
    let hat = pack_fixture_meta(&specs[3]).unwrap();
    assert_eq!(hat.id, "hat_phase17_basic_001");
    assert_eq!(hat.model, "avatars/hats/hat_phase17_basic_001.glb");
    assert_eq!(hat.thumbnail.as_deref(), Some("thumbnails/hat_phase17_basic_001.png"));
    assert_eq!(hat.tags, vec!["sample".to_string(), "phase17".to_string(), "hat".to_string()]);
    assert_eq!(hat.default_color, Some([0.70f32.to_bits(), 0.12f32.to_bits(), 0.18f32.to_bits()]));
}

#[test]
fn split_tags_trims_and_drops_empty_pieces() {
    assert_eq!(split_tags(" casual , ,red,"), vec!["casual".to_string(), "red".to_string()]);
    assert_eq!(split_tags(""), Vec::<String>::new());
    assert_eq!(split_tags("a\tb, c "), vec!["a\tb".to_string(), "c".to_string()]);
}

#[test]
fn mesh_tally_counts_meshes_primitives_and_vertices() {
    assert_eq!(mesh_tally(&vec![]), (0, 0, 0));
    assert_eq!(mesh_tally(&vec![vec![3, 4], vec![], vec![10]]), (3, 3, 17));
}

#[test]
fn refusals_read_as_messages() {
    assert_eq!(AssetIdError::Empty.message(), "asset id is empty");
    let bad = validate_asset_id("Body\"1").unwrap_err();
    assert_eq!(bad.message(), "asset id \"Body\\\"1\" contains invalid character 'B' (allowed: a-z, 0-9, _)");
    assert_eq!(ImportError::MissingCategory.message(), "--category is required (no sidecar provided)");
    assert_eq!(ImportError::MissingId.message(), "--id is required (no id in sidecar)");
    assert_eq!(ImportError::InvalidId(AssetIdError::Empty).message(), "asset id is empty");
    assert_eq!(ImportError::NotImportable(AssetCategory::Pose).message(), "category Pose is not importable");
    assert_eq!(
        ImportError::AlreadyExists { id: "hat_a".into(), model: "avatars/hats/hat_a.glb".into() }.message(),
        "asset id 'hat_a' already exists (model=avatars/hats/hat_a.glb); pass --force to overwrite"
    );
}
