use avatar_studio::animation::{check_palette, SkinningError, MAX_BONES};
use avatar_studio::skeleton::{
    is_reserved_bone, is_reserved_finger_bone, validate_bone_names, Bone, BoneIndex, JointInput, Skeleton,
    SkeletonParseError, SkinInput, AVATAR_SKELETON_V1, MVP_BONE_NAMES,
};

fn bone(name: &str, parent: Option<usize>) -> Bone {
    Bone { name: name.to_string(), parent: parent.map(BoneIndex) }
}

#[test]
fn mvp_bone_list_matches_expected_order() {
    assert_eq!(MVP_BONE_NAMES[0], "root");
    assert_eq!(MVP_BONE_NAMES[5], "head");
    assert_eq!(MVP_BONE_NAMES[8], "hand_l");
    assert_eq!(MVP_BONE_NAMES[17], "foot_r");
    assert_eq!(MVP_BONE_NAMES.len(), 18);
}

#[test]
fn lookup_finds_representative_bones() {
    let skeleton = Skeleton {
        name: AVATAR_SKELETON_V1.to_string(),
        bones: MVP_BONE_NAMES.iter().enumerate().map(|(i, name)| bone(name, i.checked_sub(1))).collect(),
        warnings: Vec::new(),
    };
    assert_eq!(skeleton.bone_index("head"), Some(BoneIndex(5)));
    assert_eq!(skeleton.bone_index("hand_l"), Some(BoneIndex(8)));
    assert_eq!(skeleton.bone_index("foot_r"), Some(BoneIndex(17)));
    assert_eq!(skeleton.bone_index("tail"), None);
    assert_eq!(skeleton.bone(BoneIndex(5)).unwrap().name, "head");
    assert!(skeleton.bone(BoneIndex(18)).is_none());
    let segments = skeleton.line_segments();
    assert_eq!(segments.len(), 17);
    assert_eq!(segments[0], (BoneIndex(0), BoneIndex(1)));
}

#[test]
fn validation_rejects_missing_required_bones() {
    let mut bones: Vec<Bone> =
        MVP_BONE_NAMES.iter().copied().filter(|name| *name != "head").map(|name| bone(name, None)).collect();
    let err = validate_bone_names(&bones, &mut Vec::new()).unwrap_err();
    assert!(err.message().contains("head"));
    bones.push(bone("head", None));
    assert!(validate_bone_names(&bones, &mut Vec::new()).is_ok());
}

#[test]
fn reserved_bones_are_accepted_unknowns_warn() {
    let mut bones: Vec<Bone> = MVP_BONE_NAMES.iter().copied().map(|name| bone(name, None)).collect();
    bones.push(bone("jaw", None));
    bones.push(bone("finger_index_1_l", None));
    bones.push(bone("mystery", None));
    let mut warnings = Vec::new();
    validate_bone_names(&bones, &mut warnings).unwrap();
    assert_eq!(warnings, vec!["unknown non-standard bone 'mystery'"]);
}

#[test]
fn missing_bones_are_listed_in_canonical_order() {
    let bones: Vec<Bone> = vec![bone("root", None), bone("hips", Some(0))];
    let err = validate_bone_names(&bones, &mut Vec::new()).unwrap_err();
    match err {
        SkeletonParseError::MissingRequiredBones(m) => {
            assert!(m.starts_with("spine, chest, neck, head, upperarm_l"));
            assert!(m.ends_with("lowerleg_r, foot_r"));
        }
        other => panic!("unexpected {other:?}"),
    }
}

#[test]
fn reserved_names() {
    assert!(is_reserved_finger_bone("finger_pinky_3_r"));
    assert!(!is_reserved_finger_bone("finger_pinky_4_r"));
    assert!(!is_reserved_finger_bone("finger_index_1"));
    assert!(is_reserved_bone("toe_l"));
    assert!(is_reserved_bone("finger_thumb_2_l"));
    assert!(!is_reserved_bone("tail"));
}

fn rig(root: Option<&str>) -> SkinInput {
    let n = MVP_BONE_NAMES.len();
    let joints = MVP_BONE_NAMES
        .iter()
        .enumerate()
        .map(|(i, name)| JointInput { node: i + 1, name: Some(name.to_string()) })
        .collect();
    // node 0 is an unskinned scene root; joint i sits at node i + 1 under joint i - 1
    let node_children: Vec<Vec<usize>> = (0..=n).map(|i| if i < n { vec![i + 1] } else { vec![] }).collect();
    SkinInput { root_name: root.map(String::from), joints, node_children, inverse_bind_count: n }
}

#[test]
fn no_skin_means_no_skeleton() {
    assert!(Skeleton::from_skin(None).unwrap().is_none());
}

#[test]
fn skin_reads_into_the_rig_hierarchy() {
    let s = Skeleton::from_skin(Some(&rig(None))).unwrap().unwrap();
    assert_eq!(s.name, "avatar_skeleton_v1");
    assert_eq!(s.bones.len(), 18);
    assert_eq!(s.bones[0].parent, None);
    assert_eq!(s.bones[5].parent, Some(BoneIndex(4)));
    assert!(s.warnings.is_empty());
    assert!(Skeleton::from_skin(Some(&rig(Some("avatar_skeleton_v1")))).is_ok());
}

#[test]
fn skin_parents_skip_nodes_that_are_not_joints() {
    let mut skin = rig(None);
    // put an extra node (18 + 1) between joint 4 (node 5) and joint 5 (node 6)
    let extra = skin.node_children.len();
    skin.node_children[5] = vec![extra];
    skin.node_children.push(vec![6]);
    let s = Skeleton::from_skin(Some(&skin)).unwrap().unwrap();
    assert_eq!(s.bones[5].parent, Some(BoneIndex(4)));
}

#[test]
fn skin_refusals() {
    match Skeleton::from_skin(Some(&rig(Some("other")))) {
        Err(e @ SkeletonParseError::WrongSkeletonRoot { .. }) => {
            assert_eq!(e.message(), "skeleton root is named 'other', expected 'avatar_skeleton_v1'")
        }
        other => panic!("unexpected {other:?}"),
    }
    let mut skin = rig(None);
    skin.joints[3].name = None;
    assert!(matches!(Skeleton::from_skin(Some(&skin)), Err(SkeletonParseError::UnnamedJoint)));
    let mut skin = rig(None);
    skin.joints.truncate(17);
    match Skeleton::from_skin(Some(&skin)) {
        Err(SkeletonParseError::MissingRequiredBones(m)) => assert_eq!(m, "foot_r"),
        other => panic!("unexpected {other:?}"),
    }
}

#[test]
fn inverse_bind_mismatch_warns() {
    let mut skin = rig(None);
    skin.inverse_bind_count = 2;
    let s = Skeleton::from_skin(Some(&skin)).unwrap().unwrap();
    assert_eq!(
        s.warnings,
        vec!["inverse bind matrix count 2 does not match joint count 18; missing entries use identity".to_string()]
    );
}

#[test]
fn pose_count_mismatch_is_error() {
    assert_eq!(check_palette(2, 1), Err(SkinningError::PoseCountMismatch { pose: 1, bones: 2 }));
    assert_eq!(check_palette(65, 65), Err(SkinningError::TooManyBones { bones: 65, max: MAX_BONES }));
    assert!(check_palette(2, 2).is_ok());
}
