//! The sample fixtures the builder generates: the skinned top's index
//! buffer and node hierarchy, and the catalog entries of the fixture pack.
//! The geometry itself is floating point and is built by the caller.

use vstd::prelude::*;

use crate::builder::paths::relative_thumbnail_path;
use crate::metadata::{AssetCategory, AssetMeta};
use crate::skeleton::{
    bone_parent, joint_nodes, last_joint_of_upto, nearest_joint_ancestor, parent_node, parent_node_upto, Bone,
    BoneIndex, JointInput, SkinInput, AVATAR_SKELETON_V1,
};
use crate::text::owned;

verus! {

/// Segments around the top's tube.
pub const TUBE_SEGMENTS: u32 = 12;

/// The six indices of segment `s` of an `n`-segment tube whose vertices
/// alternate top ring, bottom ring: the quad to the next segment as two
/// triangles, counter-clockwise from outside.
pub open spec fn tube_segment(s: int, n: int) -> Seq<u16> {
    let next = (s + 1) % n;
    seq![
        (2 * s) as u16,
        (2 * next + 1) as u16,
        (2 * s + 1) as u16,
        (2 * s) as u16,
        (2 * next) as u16,
        (2 * next + 1) as u16,
    ]
}

/// The index buffer of an `n`-segment tube.
pub open spec fn tube_index_list(n: int, k: int) -> Seq<u16>
    decreases k,
{
    if k <= 0 {
        Seq::empty()
    } else {
        tube_index_list(n, k - 1) + tube_segment(k - 1, n)
    }
}

proof fn lemma_tube_index_list_len(n: int, k: int)
    requires
        k >= 0,
    ensures
        tube_index_list(n, k).len() == 6 * k,
    decreases k,
{
    if k > 0 {
        lemma_tube_index_list_len(n, k - 1);
    }
}

/// The triangle indices of a tube of `segments` segments.
pub fn tube_indices(segments: u32) -> (v: Vec<u16>)
    requires
        1 <= segments <= 32768,
    ensures
        v@ == tube_index_list(segments as int, segments as int),
        v@.len() == 6 * segments,
{
    let mut out: Vec<u16> = Vec::new();
    let mut s: u32 = 0;
    while s < segments
        invariant
            1 <= segments <= 32768,
            s <= segments,
            out@ == tube_index_list(segments as int, s as int),
        decreases segments - s,
    {
        let next = (s + 1) % segments;
        let t0 = (s * 2) as u16;
        let b0 = (s * 2 + 1) as u16;
        let t1 = (next * 2) as u16;
        let b1 = (next * 2 + 1) as u16;
        out.push(t0);
        out.push(b1);
        out.push(b0);
        out.push(t0);
        out.push(t1);
        out.push(b1);
        assert(out@ =~= tube_index_list(segments as int, s as int) + tube_segment(s as int, segments as int));
        s = s + 1;
    }
    proof {
        lemma_tube_index_list_len(segments as int, segments as int);
    }
    out
}

/// Every index of the tube names one of its `2 * n` vertices.
pub proof fn law_tube_indices_in_range(n: int, i: int)
    requires
        1 <= n <= 32768,
        0 <= i < 6 * n,
    ensures
        tube_index_list(n, n)[i] < 2 * n,
{
    lemma_tube_indices_below(n, n, i);
}

proof fn lemma_tube_indices_below(n: int, k: int, i: int)
    requires
        1 <= n <= 32768,
        0 <= k <= n,
        0 <= i < 6 * k,
    ensures
        tube_index_list(n, k)[i] < 2 * n,
    decreases k,
{
    lemma_tube_index_list_len(n, k - 1);
    if i < 6 * (k - 1) {
        lemma_tube_indices_below(n, k - 1, i);
    } else {
        let s = k - 1;
        let next = (s + 1) % n;
        assert(0 <= next < n);
        assert(tube_index_list(n, k)[i] == tube_segment(s, n)[i - 6 * (k - 1)]);
    }
}

/// The bones among the first `k` whose parent is bone `p`, in order.
pub open spec fn children_upto(bones: Seq<Bone>, p: int, k: int) -> Seq<usize>
    decreases k,
{
    if k <= 0 {
        Seq::empty()
    } else {
        let prev = children_upto(bones, p, k - 1);
        if bones[k - 1].parent == Some(BoneIndex(p as usize)) {
            prev.push((k - 1) as usize)
        } else {
            prev
        }
    }
}

/// The children of every bone, by bone index.
pub open spec fn bone_child_lists(bones: Seq<Bone>) -> Seq<Seq<usize>> {
    Seq::new(bones.len(), |p: int| children_upto(bones, p, bones.len() as int))
}

/// The children of the nodes the top fixture writes: one node per bone,
/// then the mesh node (no children), then the scene root holding the rig's
/// root bone and the mesh node.
pub open spec fn fixture_node_children(bones: Seq<Bone>) -> Seq<Seq<usize>> {
    bone_child_lists(bones) + seq![Seq::<usize>::empty(), seq![0usize, bones.len() as usize]]
}

/// The skin of the top fixture, as its nodes read back: joint `i` is node
/// `i`, named like bone `i`.
pub open spec fn is_fixture_skin(bones: Seq<Bone>, skin: SkinInput) -> bool {
    &&& skin.root_name is None
    &&& skin.joints@.len() == bones.len()
    &&& forall|i: int|
        0 <= i < bones.len() ==> (#[trigger] skin.joints@[i]).node == i && (skin.joints@[i].name matches Some(
            n,
        ) && n@ == bones[i].name@)
    &&& skin.node_children@.map_values(|c: Vec<usize>| c@) == fixture_node_children(bones)
    &&& skin.inverse_bind_count == bones.len()
}

fn children_of(bones: &Vec<Bone>, p: usize) -> (v: Vec<usize>)
    ensures
        v@ == children_upto(bones@, p as int, bones@.len() as int),
{
    let mut out: Vec<usize> = Vec::new();
    let mut i: usize = 0;
    while i < bones.len()
        invariant
            i <= bones.len(),
            out@ == children_upto(bones@, p as int, i as int),
        decreases bones.len() - i,
    {
        match bones[i].parent {
            Some(q) => {
                if q.0 == p {
                    out.push(i);
                }
            },
            None => {},
        }
        i = i + 1;
    }
    out
}

/// The skin of the top fixture built over `bones`: one joint per bone, and
/// the node hierarchy [`fixture_node_children`] describes.
pub fn fixture_skin(bones: &Vec<Bone>) -> (skin: SkinInput)
    requires
        bones@.len() + 2 <= usize::MAX,
    ensures
        is_fixture_skin(bones@, skin),
{
    let n = bones.len();
    let mut joints: Vec<JointInput> = Vec::new();
    let mut lists: Vec<Vec<usize>> = Vec::new();
    let mut i: usize = 0;
    while i < n
        invariant
            n == bones@.len(),
            i <= n,
            joints@.len() == i,
            lists@.len() == i,
            forall|k: int|
                0 <= k < i ==> (#[trigger] joints@[k]).node == k && (joints@[k].name matches Some(nm) && nm@
                    == bones@[k].name@),
            forall|k: int| 0 <= k < i ==> (#[trigger] lists@[k])@ == children_upto(bones@, k, n as int),
        decreases n - i,
    {
        joints.push(JointInput { node: i, name: Some(owned(bones[i].name.as_str())) });
        lists.push(children_of(bones, i));
        i = i + 1;
    }
    let ghost before = lists@;
    lists.push(Vec::new());
    let mut root: Vec<usize> = Vec::new();
    root.push(0);
    root.push(n);
    lists.push(root);
    assert(lists@.map_values(|c: Vec<usize>| c@) =~= fixture_node_children(bones@)) by {
        assert forall|k: int| 0 <= k < lists@.len() implies lists@.map_values(|c: Vec<usize>| c@)[k]
            == fixture_node_children(bones@)[k] by {
            if k < n {
                assert(lists@[k] == before[k]);
            } else if k == n {
                assert(lists@[k]@ =~= Seq::<usize>::empty());
            } else {
                assert(lists@[k]@ =~= seq![0usize, n]);
            }
        }
    }
    SkinInput { root_name: None, joints, node_children: lists, inverse_bind_count: n }
}

proof fn lemma_children_upto(bones: Seq<Bone>, p: int, k: int, i: int)
    requires
        0 <= k <= bones.len(),
        0 <= p <= usize::MAX,
        0 <= i <= usize::MAX,
        bones.len() <= usize::MAX,
    ensures
        children_upto(bones, p, k).contains(i as usize) <==> (0 <= i < k && bones[i].parent == Some(
            BoneIndex(p as usize),
        )),
        forall|t: int| 0 <= t < children_upto(bones, p, k).len() ==> #[trigger] children_upto(bones, p, k)[t] < k,
    decreases k,
{
    if k > 0 {
        lemma_children_upto(bones, p, k - 1, i);
        let prev = children_upto(bones, p, k - 1);
        let cur = children_upto(bones, p, k);
        if bones[k - 1].parent == Some(BoneIndex(p as usize)) {
            assert(cur == prev.push((k - 1) as usize));
            if cur.contains(i as usize) {
                let t = choose|t: int| 0 <= t < cur.len() && cur[t] == i as usize;
                if t < prev.len() {
                    assert(prev[t] == i as usize);
                    assert(prev.contains(i as usize));
                } else {
                    assert(i == k - 1);
                }
            }
            if 0 <= i < k && bones[i].parent == Some(BoneIndex(p as usize)) {
                if i == k - 1 {
                    assert(cur[prev.len() as int] == i as usize);
                } else {
                    let t = choose|t: int| 0 <= t < prev.len() && prev[t] == i as usize;
                    assert(cur[t] == i as usize);
                }
            }
        }
    }
}

/// The parent node of bone `i` among the first `k` bone nodes.
proof fn lemma_bone_node_parent(bones: Seq<Bone>, i: int, k: int)
    requires
        0 <= i < bones.len(),
        0 <= k <= bones.len(),
        bones.len() + 2 <= usize::MAX,
        forall|j: int| 0 <= j < bones.len() ==> ((#[trigger] bones[j]).parent matches Some(q) ==> q.0 < bones.len()),
    ensures
        parent_node_upto(fixture_node_children(bones), i as usize, k) == (match bones[i].parent {
            Some(q) => if (q.0 as int) < k {
                Some(q.0)
            } else {
                None
            },
            None => None,
        }),
    decreases k,
{
    if k > 0 {
        lemma_bone_node_parent(bones, i, k - 1);
        let fc = fixture_node_children(bones);
        assert(fc[k - 1] == children_upto(bones, k - 1, bones.len() as int));
        lemma_children_upto(bones, k - 1, bones.len() as int, i);
    }
}

/// Reading back the skin that the top fixture writes gives the rig's bones:
/// the same names and the same parents, for a rig whose first bone is its
/// root and whose parents are all bones of the rig.
pub proof fn law_fixture_skin_reads_back(bones: Seq<Bone>, skin: SkinInput, i: int)
    requires
        is_fixture_skin(bones, skin),
        bones.len() + 2 <= usize::MAX,
        bones.len() > 0 ==> bones[0].parent is None,
        forall|j: int| 0 <= j < bones.len() ==> ((#[trigger] bones[j]).parent matches Some(q) ==> q.0 < bones.len()),
        0 <= i < bones.len(),
    ensures
        bone_parent(skin, i) == bones[i].parent,
        skin.joints@[i].name matches Some(n) && n@ == bones[i].name@,
{
    let n = bones.len() as int;
    let fc = fixture_node_children(bones);
    let children = skin.node_children@.map_values(|c: Vec<usize>| c@);
    let joints = joint_nodes(skin.joints@);
    assert(children == fc);
    assert(joints =~= Seq::new(n as nat, |k: int| k as usize)) by {
        assert forall|k: int| 0 <= k < n implies joints[k] == k as usize by {
            assert(skin.joints@[k].node == k);
        }
    }
    assert(skin.joints@[i].node == i);
    assert(joints[i] == i as usize);
    assert(fc.len() == n + 2);
    // the scene root lists the first bone and the mesh node; the mesh node
    // lists nothing; the bone nodes list their children
    assert(fc[n + 1] =~= seq![0usize, n as usize]);
    assert(fc[n] =~= Seq::<usize>::empty());
    lemma_bone_node_parent(bones, i, n);
    if i == 0 {
        assert(fc[n + 1].contains(0usize)) by {
            assert(fc[n + 1][0] == 0usize);
        }
        assert(parent_node(fc, 0usize) == Some((n + 1) as usize));
        assert(!joints.contains((n + 1) as usize));
        // nothing lists the scene root
        assert(!fc[n + 1].contains((n + 1) as usize));
        assert(!fc[n as int].contains((n + 1) as usize));
        assert forall|p: int| 0 <= p < n implies !(#[trigger] fc[p]).contains((n + 1) as usize) by {
            lemma_children_upto(bones, p, n as int, n + 1);
            if fc[p].contains((n + 1) as usize) {
                let t = choose|t: int| 0 <= t < fc[p].len() && fc[p][t] == (n + 1) as usize;
                assert(fc[p][t] < n);
            }
        }
        lemma_no_parent(fc, (n + 1) as usize, n + 2);
        assert(nearest_joint_ancestor(children, joints, 0usize, (n + 2) as nat) == None::<usize>) by {
            reveal_with_fuel(nearest_joint_ancestor, 2);
        }
    } else {
        let root_list = fc[n + 1];
        assert(!root_list.contains(i as usize)) by {
            assert forall|t: int| 0 <= t < root_list.len() implies #[trigger] root_list[t] != i as usize by {
                assert(t == 0 || t == 1);
            }
        }
        assert(!fc[n as int].contains(i as usize));
        assert(parent_node(fc, i as usize) == parent_node_upto(fc, i as usize, n as int)) by {
            reveal_with_fuel(parent_node_upto, 3);
        }
        match bones[i].parent {
            Some(q) => {
                assert(joints.contains(q.0)) by {
                    assert(joints[q.0 as int] == q.0);
                }
                lemma_last_joint_identity(n, q.0 as int, n);
            },
            None => {},
        }
    }
}

proof fn lemma_no_parent(fc: Seq<Seq<usize>>, c: usize, k: int)
    requires
        0 <= k <= fc.len(),
        forall|p: int| 0 <= p < k ==> !(#[trigger] fc[p]).contains(c),
    ensures
        parent_node_upto(fc, c, k) is None,
    decreases k,
{
    if k > 0 {
        lemma_no_parent(fc, c, k - 1);
    }
}

proof fn lemma_last_joint_identity(n: int, p: int, k: int)
    requires
        0 <= p < k <= n,
        n + 2 <= usize::MAX,
    ensures
        last_joint_of_upto(Seq::new(n as nat, |j: int| j as usize), p as usize, k) == Some(p),
    decreases k,
{
    if k - 1 != p {
        lemma_last_joint_identity(n, p, k - 1);
    }
}

/// Catalog entry of the generated top.
pub fn top_fixture_meta() -> (m: AssetMeta)
    ensures
        m.id@ == "top_phase7_basic_001"@,
        m.display_name@ == "Phase 7 Top"@,
        m.category == AssetCategory::Top,
        m.model@ == "avatars/tops/phase7_top.glb"@,
        m.thumbnail is None,
        !m.supports_color,
        m.default_color is None,
        m.compatible_skeleton matches Some(k) && k@ == AVATAR_SKELETON_V1@,
        m.compatible_body_types@.len() == 1 && m.compatible_body_types@[0]@ == "body_phase4_rig_001"@,
        m.tags@.len() == 3 && m.tags@[0]@ == "sample"@ && m.tags@[1]@ == "rigged"@ && m.tags@[2]@ == "phase7"@,
        m.version == 1,
{
    let mut body_types: Vec<String> = Vec::new();
    body_types.push(owned("body_phase4_rig_001"));
    let mut tags: Vec<String> = Vec::new();
    tags.push(owned("sample"));
    tags.push(owned("rigged"));
    tags.push(owned("phase7"));
    AssetMeta {
        id: owned("top_phase7_basic_001"),
        display_name: owned("Phase 7 Top"),
        category: AssetCategory::Top,
        model: owned("avatars/tops/phase7_top.glb"),
        thumbnail: None,
        supports_color: false,
        default_color: None,
        compatible_body_types: body_types,
        compatible_skeleton: Some(owned(AVATAR_SKELETON_V1)),
        tags,
        version: 1,
    }
}

/// One entry of the fixture pack: every wearable category but tops, each
/// reusing the top's mesh. `default_color` holds `f32` bit patterns.
pub struct FixtureSpec {
    pub id: &'static str,
    pub name: &'static str,
    pub category: AssetCategory,
    pub default_color: [u32; 3],
    pub tag: &'static str,
}

/// Entry `i` of the fixture pack as `(id, name, category, default colour
/// bits, tag)`.
pub open spec fn pack_entry(i: int) -> (Seq<char>, Seq<char>, AssetCategory, [u32; 3], Seq<char>) {
    if i == 0 {
        ("bottom_phase17_basic_001"@, "Phase 17 Bottom"@, AssetCategory::Bottom, [0x3e38_51ec, 0x3e61_47ae, 0x3ea3_d70a], "bottom"@)
    } else if i == 1 {
        ("shoes_phase17_basic_001"@, "Phase 17 Shoes"@, AssetCategory::Shoes, [0x3da3_d70a, 0x3da3_d70a, 0x3dcc_cccd], "shoes"@)
    } else if i == 2 {
        ("hair_phase17_basic_001"@, "Phase 17 Hair"@, AssetCategory::Hair, [0x3df5_c28f, 0x3d75_c28f, 0x3cf5_c28f], "hair"@)
    } else if i == 3 {
        ("hat_phase17_basic_001"@, "Phase 17 Hat"@, AssetCategory::Hat, [0x3f33_3333, 0x3df5_c28f, 0x3e38_51ec], "hat"@)
    } else if i == 4 {
        ("glasses_phase17_basic_001"@, "Phase 17 Glasses"@, AssetCategory::Glasses, [0x3d4c_cccd, 0x3d4c_cccd, 0x3d75_c28f], "glasses"@)
    } else {
        ("accessory_phase17_basic_001"@, "Phase 17 Accessory"@, AssetCategory::Accessory, [0x3f66_6666, 0x3f33_3333, 0x3df5_c28f], "accessory"@)
    }
}

/// The fixture pack, in the order it is written.
pub fn pack_fixture_specs() -> (v: Vec<FixtureSpec>)
    ensures
        v@.len() == 6,
        forall|i: int| 0 <= i < 6 ==> ((#[trigger] v@[i]).id@, v@[i].name@, v@[i].category, v@[i].default_color, v@[i].tag@) == pack_entry(i),
        forall|i: int| 0 <= i < 6 ==> crate::metadata::is_wearable_category((#[trigger] v@[i]).category),
{
    let mut v: Vec<FixtureSpec> = Vec::new();
    v.push(FixtureSpec {
        id: "bottom_phase17_basic_001",
        name: "Phase 17 Bottom",
        category: AssetCategory::Bottom,
        default_color: [0x3e38_51ec, 0x3e61_47ae, 0x3ea3_d70a],
        tag: "bottom",
    });
    v.push(FixtureSpec {
        id: "shoes_phase17_basic_001",
        name: "Phase 17 Shoes",
        category: AssetCategory::Shoes,
        default_color: [0x3da3_d70a, 0x3da3_d70a, 0x3dcc_cccd],
        tag: "shoes",
    });
    v.push(FixtureSpec {
        id: "hair_phase17_basic_001",
        name: "Phase 17 Hair",
        category: AssetCategory::Hair,
        default_color: [0x3df5_c28f, 0x3d75_c28f, 0x3cf5_c28f],
        tag: "hair",
    });
    v.push(FixtureSpec {
        id: "hat_phase17_basic_001",
        name: "Phase 17 Hat",
        category: AssetCategory::Hat,
        default_color: [0x3f33_3333, 0x3df5_c28f, 0x3e38_51ec],
        tag: "hat",
    });
    v.push(FixtureSpec {
        id: "glasses_phase17_basic_001",
        name: "Phase 17 Glasses",
        category: AssetCategory::Glasses,
        default_color: [0x3d4c_cccd, 0x3d4c_cccd, 0x3d75_c28f],
        tag: "glasses",
    });
    v.push(FixtureSpec {
        id: "accessory_phase17_basic_001",
        name: "Phase 17 Accessory",
        category: AssetCategory::Accessory,
        default_color: [0x3f66_6666, 0x3f33_3333, 0x3df5_c28f],
        tag: "accessory",
    });
    v
}

/// The catalog entry of a pack fixture: its mesh where the category's
/// meshes go, a thumbnail, colourable, rigged to `avatar_skeleton_v1` for
/// the sample body.
pub fn pack_fixture_meta(spec: &FixtureSpec) -> (r: Option<AssetMeta>)
    ensures
        crate::builder::paths::category_dir_name(spec.category) is None ==> r is None,
        crate::builder::paths::category_dir_name(spec.category) is Some ==> (r matches Some(m) && {
            &&& m.id@ == spec.id@
            &&& m.display_name@ == spec.name@
            &&& m.category == spec.category
            &&& m.model@ == "avatars/"@ + crate::builder::paths::category_dir_name(spec.category)->0 + "/"@
                + spec.id@ + ".glb"@
            &&& m.thumbnail matches Some(t) && t@ == "thumbnails/"@ + spec.id@ + ".png"@
            &&& m.supports_color
            &&& m.default_color == Some(spec.default_color)
            &&& m.compatible_body_types@.len() == 1 && m.compatible_body_types@[0]@ == "body_phase4_rig_001"@
            &&& m.compatible_skeleton matches Some(k) && k@ == AVATAR_SKELETON_V1@
            &&& m.tags@.len() == 3 && m.tags@[0]@ == "sample"@ && m.tags@[1]@ == "phase17"@ && m.tags@[2]@
                == spec.tag@
            &&& m.version == 1
        }),
{
    let model = match crate::builder::paths::relative_model_path(spec.category, spec.id) {
        Some(m) => m,
        None => {
            return None;
        },
    };
    let mut body_types: Vec<String> = Vec::new();
    body_types.push(owned("body_phase4_rig_001"));
    let mut tags: Vec<String> = Vec::new();
    tags.push(owned("sample"));
    tags.push(owned("phase17"));
    tags.push(owned(spec.tag));
    Some(
        AssetMeta {
            id: owned(spec.id),
            display_name: owned(spec.name),
            category: spec.category,
            model,
            thumbnail: Some(relative_thumbnail_path(spec.id)),
            supports_color: true,
            default_color: Some(spec.default_color),
            compatible_body_types: body_types,
            compatible_skeleton: Some(owned(AVATAR_SKELETON_V1)),
            tags,
            version: 1,
        },
    )
}

} // verus!
