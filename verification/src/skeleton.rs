//! The `avatar_skeleton_v1` convention: required and reserved bone
//! names, and the bone hierarchy read from a skin.
//!
//! The skeleton here is the named hierarchy; bind and inverse-bind
//! matrices are kept alongside it by the renderer, one per bone in the same
//! order.

use vstd::prelude::*;

use crate::text::{chars_of, concat, decimal, decimal_string, owned, str_eq};

verus! {

#[derive(Debug, Clone, Copy, PartialEq, Eq, Hash, Structural)]
pub struct BoneIndex(pub usize);

/// A joint of the skin: its name and the nearest ancestor that is also a
/// joint.
#[derive(Debug, Clone)]
pub struct Bone {
    pub name: String,
    pub parent: Option<BoneIndex>,
}

#[derive(Debug, Clone)]
pub struct Skeleton {
    pub name: String,
    pub bones: Vec<Bone>,
    pub warnings: Vec<String>,
}

#[derive(Debug, Clone)]
pub enum SkeletonParseError {
    WrongSkeletonRoot { found: String, expected: &'static str },
    /// A joint of the skin has no node name.
    UnnamedJoint,
    /// The required bones that are absent, comma-separated.
    MissingRequiredBones(String),
}

/// The bones every `avatar_skeleton_v1` rig must have, in canonical order.
pub open spec fn mvp_names() -> Seq<Seq<char>> {
    seq![
        "root"@,
        "hips"@,
        "spine"@,
        "chest"@,
        "neck"@,
        "head"@,
        "upperarm_l"@,
        "lowerarm_l"@,
        "hand_l"@,
        "upperarm_r"@,
        "lowerarm_r"@,
        "hand_r"@,
        "upperleg_l"@,
        "lowerleg_l"@,
        "foot_l"@,
        "upperleg_r"@,
        "lowerleg_r"@,
        "foot_r"@,
    ]
}

/// Names outside the required set that the convention reserves.
pub open spec fn reserved_names() -> Seq<Seq<char>> {
    seq![
        "jaw"@,
        "eye_l"@,
        "eye_r"@,
        "shoulder_l"@,
        "shoulder_r"@,
        "toe_l"@,
        "toe_r"@,
    ]
}

pub open spec fn finger_name_part(i: int) -> Seq<char> {
    if i == 0 {
        "thumb"@
    } else if i == 1 {
        "index"@
    } else if i == 2 {
        "middle"@
    } else if i == 3 {
        "ring"@
    } else {
        "pinky"@
    }
}

/// The `n`-th reserved finger bone name, `0 <= n < 30`:
/// `finger_<finger>_<1|2|3>_<l|r>`.
pub open spec fn finger_bone_name(n: int) -> Seq<char> {
    "finger_"@ + finger_name_part(n / 6) + "_"@ + decimal(((n / 2) % 3 + 1) as nat) + "_"@ + (if n % 2 == 0 {
        "l"@
    } else {
        "r"@
    })
}

pub open spec fn is_reserved_finger_name(name: Seq<char>) -> bool {
    exists|n: int| 0 <= n < 30 && name == #[trigger] finger_bone_name(n)
}

pub open spec fn is_reserved_name(name: Seq<char>) -> bool {
    reserved_names().contains(name) || is_reserved_finger_name(name)
}

/// Required or reserved.
pub open spec fn is_known_bone_name(name: Seq<char>) -> bool {
    mvp_names().contains(name) || is_reserved_name(name)
}

/// The required names absent from `names`, among the first `k` required
/// names, in canonical order.
pub open spec fn missing_upto(names: Seq<Seq<char>>, k: int) -> Seq<Seq<char>>
    decreases k,
{
    if k <= 0 {
        Seq::empty()
    } else {
        let m = missing_upto(names, k - 1);
        if names.contains(mvp_names()[k - 1]) {
            m
        } else {
            m.push(mvp_names()[k - 1])
        }
    }
}

pub open spec fn missing_required(names: Seq<Seq<char>>) -> Seq<Seq<char>> {
    missing_upto(names, 18)
}

/// `parts` joined with `sep`.
pub open spec fn join_with(parts: Seq<Seq<char>>, sep: Seq<char>) -> Seq<char>
    decreases parts.len(),
{
    if parts.len() == 0 {
        Seq::empty()
    } else if parts.len() == 1 {
        parts[0]
    } else {
        join_with(parts.drop_last(), sep) + sep + parts.last()
    }
}

pub open spec fn unknown_bone_warning(name: Seq<char>) -> Seq<char> {
    "unknown non-standard bone '"@ + name + "'"@
}

/// Warnings for the unknown names among the first `k` of `names`, one per
/// distinct name, in order of first appearance.
pub open spec fn unknown_warnings_upto(names: Seq<Seq<char>>, k: int) -> Seq<Seq<char>>
    decreases k,
{
    if k <= 0 {
        Seq::empty()
    } else {
        let w = unknown_warnings_upto(names, k - 1);
        let n = names[k - 1];
        if !is_known_bone_name(n) && !names.subrange(0, k - 1).contains(n) {
            w.push(unknown_bone_warning(n))
        } else {
            w
        }
    }
}

pub open spec fn bone_names(bones: Seq<Bone>) -> Seq<Seq<char>> {
    bones.map_values(|b: Bone| b.name@)
}

/// Index of the first bone named `name`.
pub open spec fn first_bone_named(bones: Seq<Bone>, name: Seq<char>) -> Option<int>
    decreases bones.len(),
{
    if bones.len() == 0 {
        None
    } else if bones[0].name@ == name {
        Some(0)
    } else {
        match first_bone_named(bones.drop_first(), name) {
            Some(i) => Some(i + 1),
            None => None,
        }
    }
}

proof fn lemma_first_bone_named(bones: Seq<Bone>, name: Seq<char>)
    ensures
        first_bone_named(bones, name) matches Some(i) ==> 0 <= i < bones.len() && bones[i].name@ == name
            && forall|j: int| 0 <= j < i ==> (#[trigger] bones[j]).name@ != name,
        first_bone_named(bones, name) is None ==> forall|j: int|
            0 <= j < bones.len() ==> (#[trigger] bones[j]).name@ != name,
    decreases bones.len(),
{
    if bones.len() > 0 {
        lemma_first_bone_named(bones.drop_first(), name);
        assert forall|j: int| 1 <= j < bones.len() implies bones[j] == bones.drop_first()[j - 1] by {}
    }
}

/// Canonical required bone names.
pub const MVP_BONE_NAMES: [&'static str; 18] = [
    "root",
    "hips",
    "spine",
    "chest",
    "neck",
    "head",
    "upperarm_l",
    "lowerarm_l",
    "hand_l",
    "upperarm_r",
    "lowerarm_r",
    "hand_r",
    "upperleg_l",
    "lowerleg_l",
    "foot_l",
    "upperleg_r",
    "lowerleg_r",
    "foot_r",
];

/// Name the skin's skeleton root must carry, when it is named.
pub const AVATAR_SKELETON_V1: &'static str = "avatar_skeleton_v1";

const RESERVED_BONE_NAMES: [&'static str; 7] = [
    "jaw",
    "eye_l",
    "eye_r",
    "shoulder_l",
    "shoulder_r",
    "toe_l",
    "toe_r",
];

proof fn lemma_mvp_names()
    ensures
        forall|i: int| 0 <= i < 18 ==> (#[trigger] MVP_BONE_NAMES@[i])@ == mvp_names()[i],
        mvp_names().len() == 18,
{
    assert(MVP_BONE_NAMES@.len() == 18);
}

proof fn lemma_reserved_names()
    ensures
        forall|i: int| 0 <= i < 7 ==> (#[trigger] RESERVED_BONE_NAMES@[i])@ == reserved_names()[i],
        reserved_names().len() == 7,
{
}

fn finger_part(i: usize) -> (s: &'static str)
    ensures
        s@ == finger_name_part(i as int),
{
    if i == 0 {
        "thumb"
    } else if i == 1 {
        "index"
    } else if i == 2 {
        "middle"
    } else if i == 3 {
        "ring"
    } else {
        "pinky"
    }
}

fn finger_bone(n: usize) -> (s: String)
    requires
        n < 30,
    ensures
        s@ == finger_bone_name(n as int),
{
    let a = concat("finger_", finger_part(n / 6));
    let b = concat(a.as_str(), "_");
    let d = decimal_string(((n / 2) % 3 + 1) as u128);
    let c = concat(b.as_str(), d.as_str());
    let e = concat(c.as_str(), "_");
    let side = if n % 2 == 0 { "l" } else { "r" };
    concat(e.as_str(), side)
}

/// Whether `name` is `finger_<thumb|index|middle|ring|pinky>_<1|2|3>_<l|r>`.
pub fn is_reserved_finger_bone(name: &str) -> (b: bool)
    ensures
        b == is_reserved_finger_name(name@),
{
    let mut n: usize = 0;
    while n < 30
        invariant
            n <= 30,
            forall|k: int| 0 <= k < n ==> name@ != #[trigger] finger_bone_name(k),
        decreases 30 - n,
    {
        let candidate = finger_bone(n);
        if str_eq(name, candidate.as_str()) {
            assert(name@ == finger_bone_name(n as int));
            return true;
        }
        n = n + 1;
    }
    false
}

/// Reserved names are accepted without being required.
pub fn is_reserved_bone(name: &str) -> (b: bool)
    ensures
        b == is_reserved_name(name@),
{
    proof {
        lemma_reserved_names();
    }
    let mut i: usize = 0;
    while i < 7
        invariant
            i <= 7,
            forall|k: int| 0 <= k < i ==> name@ != reserved_names()[k],
            forall|k: int| 0 <= k < 7 ==> (#[trigger] RESERVED_BONE_NAMES@[k])@ == reserved_names()[k],
            reserved_names().len() == 7,
        decreases 7 - i,
    {
        if str_eq(name, RESERVED_BONE_NAMES[i]) {
            assert(reserved_names()[i as int] == name@);
            return true;
        }
        i = i + 1;
    }
    assert(!reserved_names().contains(name@));
    is_reserved_finger_bone(name)
}

fn names_contain(bones: &Vec<Bone>, name: &str) -> (b: bool)
    ensures
        b == bone_names(bones@).contains(name@),
{
    let mut i: usize = 0;
    while i < bones.len()
        invariant
            i <= bones.len(),
            forall|k: int| 0 <= k < i ==> (#[trigger] bones@[k]).name@ != name@,
        decreases bones.len() - i,
    {
        if str_eq(bones[i].name.as_str(), name) {
            assert(bone_names(bones@)[i as int] == name@);
            return true;
        }
        i = i + 1;
    }
    assert forall|k: int| 0 <= k < bone_names(bones@).len() implies bone_names(bones@)[k] != name@ by {
        assert(bone_names(bones@)[k] == bones@[k].name@);
    }
    false
}

/// Whether some bone among the first `upto` is named `name`.
fn names_contain_before(bones: &Vec<Bone>, upto: usize, name: &str) -> (b: bool)
    requires
        upto <= bones.len(),
    ensures
        b == bone_names(bones@).subrange(0, upto as int).contains(name@),
{
    let ghost pre = bone_names(bones@).subrange(0, upto as int);
    let mut i: usize = 0;
    while i < upto
        invariant
            i <= upto,
            upto <= bones.len(),
            pre == bone_names(bones@).subrange(0, upto as int),
            forall|k: int| 0 <= k < i ==> (#[trigger] bones@[k]).name@ != name@,
        decreases upto - i,
    {
        if str_eq(bones[i].name.as_str(), name) {
            assert(pre[i as int] == name@);
            return true;
        }
        i = i + 1;
    }
    assert forall|k: int| 0 <= k < pre.len() implies pre[k] != name@ by {
        assert(pre[k] == bones@[k].name@);
    }
    false
}

fn join_names(parts: &Vec<&'static str>, sep: &str) -> (s: String)
    ensures
        s@ == join_with(parts@.map_values(|p: &'static str| p@), sep@),
{
    let ghost views = parts@.map_values(|p: &'static str| p@);
    if parts.len() == 0 {
        return String::new();
    }
    let mut out = owned(parts[0]);
    let mut i: usize = 1;
    assert(views.subrange(0, 1) =~= seq![views[0]]);
    while i < parts.len()
        invariant
            1 <= i <= parts.len(),
            views == parts@.map_values(|p: &'static str| p@),
            out@ == join_with(views.subrange(0, i as int), sep@),
        decreases parts.len() - i,
    {
        let a = concat(out.as_str(), sep);
        out = concat(a.as_str(), parts[i]);
        assert(views.subrange(0, i + 1).drop_last() =~= views.subrange(0, i as int));
        i = i + 1;
    }
    assert(views.subrange(0, parts.len() as int) =~= views);
    out
}

/// Check bone names against the convention: every required bone must be
/// present; every name that is neither required nor reserved adds one
/// warning, in order of first appearance.
pub fn validate_bone_names(bones: &Vec<Bone>, warnings: &mut Vec<String>) -> (r: Result<(), SkeletonParseError>)
    ensures
        missing_required(bone_names(bones@)).len() > 0 ==> {
            &&& r matches Err(SkeletonParseError::MissingRequiredBones(m)) && m@ == join_with(
                missing_required(bone_names(bones@)),
                ", "@,
            )
            &&& final(warnings)@ == old(warnings)@
        },
        missing_required(bone_names(bones@)).len() == 0 ==> {
            &&& r is Ok
            &&& final(warnings)@.len() == old(warnings)@.len() + unknown_warnings_upto(
                bone_names(bones@),
                bones@.len() as int,
            ).len()
            &&& forall|k: int| 0 <= k < old(warnings)@.len() ==> #[trigger] final(warnings)@[k] == old(warnings)@[k]
            &&& forall|k: int| 0 <= k < unknown_warnings_upto(bone_names(bones@), bones@.len() as int).len()
                ==> (#[trigger] final(warnings)@[old(warnings)@.len() + k])@ == unknown_warnings_upto(
                bone_names(bones@),
                bones@.len() as int,
            )[k]
        },
{
    let ghost names = bone_names(bones@);
    proof {
        lemma_mvp_names();
    }
    let mut missing: Vec<&'static str> = Vec::new();
    let mut i: usize = 0;
    while i < 18
        invariant
            i <= 18,
            names == bone_names(bones@),
            forall|k: int| 0 <= k < 18 ==> (#[trigger] MVP_BONE_NAMES@[k])@ == mvp_names()[k],
            mvp_names().len() == 18,
            missing@.map_values(|p: &'static str| p@) == missing_upto(names, i as int),
        decreases 18 - i,
    {
        let required = MVP_BONE_NAMES[i];
        if !names_contain(bones, required) {
            missing.push(required);
        }
        assert(missing@.map_values(|p: &'static str| p@) =~= missing_upto(names, i + 1));
        i = i + 1;
    }
    if missing.len() > 0 {
        let m = join_names(&missing, ", ");
        return Err(SkeletonParseError::MissingRequiredBones(m));
    }
    let ghost start = warnings@;
    let mut j: usize = 0;
    while j < bones.len()
        invariant
            j <= bones.len(),
            names == bone_names(bones@),
            warnings@.len() == start.len() + unknown_warnings_upto(names, j as int).len(),
            forall|k: int| 0 <= k < start.len() ==> #[trigger] warnings@[k] == start[k],
            forall|k: int| 0 <= k < unknown_warnings_upto(names, j as int).len()
                ==> (#[trigger] warnings@[start.len() + k])@ == unknown_warnings_upto(names, j as int)[k],
        decreases bones.len() - j,
    {
        let name = bones[j].name.as_str();
        assert(names[j as int] == name@);
        let seen = names_contain_before(bones, j, name);
        let known_required = names_contain_required(name);
        if !seen && !known_required && !is_reserved_bone(name) {
            let a = concat("unknown non-standard bone '", name);
            let w = concat(a.as_str(), "'");
            warnings.push(w);
        }
        j = j + 1;
    }
    Ok(())
}

fn names_contain_required(name: &str) -> (b: bool)
    ensures
        b == mvp_names().contains(name@),
{
    proof {
        lemma_mvp_names();
    }
    let mut i: usize = 0;
    while i < 18
        invariant
            i <= 18,
            forall|k: int| 0 <= k < i ==> name@ != mvp_names()[k],
            forall|k: int| 0 <= k < 18 ==> (#[trigger] MVP_BONE_NAMES@[k])@ == mvp_names()[k],
            mvp_names().len() == 18,
        decreases 18 - i,
    {
        if str_eq(name, MVP_BONE_NAMES[i]) {
            assert(mvp_names()[i as int] == name@);
            return true;
        }
        i = i + 1;
    }
    false
}

/// One joint of a skin: the node it refers to and that node's name.
#[derive(Debug, Clone)]
pub struct JointInput {
    pub node: usize,
    pub name: Option<String>,
}

/// What the skeleton reader needs of a glTF document with a skin: the name
/// of the skin's skeleton root node (when the skin names a root and the
/// node has a name), the skin's joints in order, the children of every node
/// of the document by node index, and how many inverse bind matrices the
/// skin carries.
#[derive(Debug, Clone)]
pub struct SkinInput {
    pub root_name: Option<String>,
    pub joints: Vec<JointInput>,
    pub node_children: Vec<Vec<usize>>,
    pub inverse_bind_count: usize,
}

/// The parent of `child` among the first `k` nodes: the last of them that
/// lists it as a child.
pub open spec fn parent_node_upto(children: Seq<Seq<usize>>, child: usize, k: int) -> Option<usize>
    decreases k,
{
    if k <= 0 {
        None
    } else if children[k - 1].contains(child) {
        Some((k - 1) as usize)
    } else {
        parent_node_upto(children, child, k - 1)
    }
}

/// The parent node of `child` (when several nodes list it, the last).
pub open spec fn parent_node(children: Seq<Seq<usize>>, child: usize) -> Option<usize> {
    parent_node_upto(children, child, children.len() as int)
}

pub open spec fn joint_nodes(joints: Seq<JointInput>) -> Seq<usize> {
    joints.map_values(|j: JointInput| j.node)
}

/// The nearest proper ancestor of `node` that is a joint, looking at most
/// `fuel` parents up.
pub open spec fn nearest_joint_ancestor(
    children: Seq<Seq<usize>>,
    joints: Seq<usize>,
    node: usize,
    fuel: nat,
) -> Option<usize>
    decreases fuel,
{
    if fuel == 0 {
        None
    } else {
        match parent_node(children, node) {
            None => None,
            Some(p) => if joints.contains(p) {
                Some(p)
            } else {
                nearest_joint_ancestor(children, joints, p, (fuel - 1) as nat)
            },
        }
    }
}

/// Index of the last joint that refers to node `n`.
pub open spec fn last_joint_of_upto(joints: Seq<usize>, n: usize, k: int) -> Option<int>
    decreases k,
{
    if k <= 0 {
        None
    } else if joints[k - 1] == n {
        Some(k - 1)
    } else {
        last_joint_of_upto(joints, n, k - 1)
    }
}

/// The bone parent of joint `i`: the joint index of its nearest joint
/// ancestor node. A parent chain visits each node at most once, so looking
/// as many parents up as there are nodes finds every ancestor.
pub open spec fn bone_parent(skin: SkinInput, i: int) -> Option<BoneIndex> {
    let joints = joint_nodes(skin.joints@);
    let children = skin.node_children@.map_values(|c: Vec<usize>| c@);
    match nearest_joint_ancestor(children, joints, joints[i], children.len()) {
        None => None,
        Some(p) => match last_joint_of_upto(joints, p, joints.len() as int) {
            Some(b) => Some(BoneIndex(b as usize)),
            None => None,
        },
    }
}

/// Index of the first joint without a name.
pub open spec fn first_unnamed_joint(joints: Seq<JointInput>) -> Option<int>
    decreases joints.len(),
{
    if joints.len() == 0 {
        None
    } else if joints.last().name is None {
        match first_unnamed_joint(joints.drop_last()) {
            Some(i) => Some(i),
            None => Some(joints.len() - 1),
        }
    } else {
        first_unnamed_joint(joints.drop_last())
    }
}

/// The bones read from a skin whose joints are all named.
pub open spec fn skin_bones(skin: SkinInput) -> Seq<Bone> {
    Seq::new(
        skin.joints@.len(),
        |i: int| Bone { name: skin.joints@[i].name.unwrap(), parent: bone_parent(skin, i) },
    )
}

pub open spec fn ibm_mismatch_warning(ibm: nat, joints: nat) -> Seq<char> {
    "inverse bind matrix count "@ + decimal(ibm) + " does not match joint count "@ + decimal(joints)
        + "; missing entries use identity"@
}

/// Warnings that come before the bone-name check.
pub open spec fn skin_warnings(skin: SkinInput) -> Seq<Seq<char>> {
    if skin.inverse_bind_count == skin.joints@.len() {
        Seq::empty()
    } else {
        seq![ibm_mismatch_warning(skin.inverse_bind_count as nat, skin.joints@.len())]
    }
}

/// Whether the skin names a skeleton root other than `avatar_skeleton_v1`.
pub open spec fn wrong_root(skin: SkinInput) -> bool {
    skin.root_name matches Some(n) && n@ != AVATAR_SKELETON_V1@
}

/// The outcome of reading `skin`, as a skeleton or an error.
pub open spec fn skin_outcome(skin: SkinInput, r: Result<Skeleton, SkeletonParseError>) -> bool {
    let bones = skin_bones(skin);
    let names = bone_names(bones);
    if wrong_root(skin) {
        r matches Err(SkeletonParseError::WrongSkeletonRoot { found, expected }) && found@
            == skin.root_name.unwrap()@ && expected@ == AVATAR_SKELETON_V1@
    } else if first_unnamed_joint(skin.joints@) is Some {
        r matches Err(SkeletonParseError::UnnamedJoint)
    } else if missing_required(names).len() > 0 {
        r matches Err(SkeletonParseError::MissingRequiredBones(m)) && m@ == join_with(
            missing_required(names),
            ", "@,
        )
    } else {
        &&& r matches Ok(s)
        &&& s.name@ == AVATAR_SKELETON_V1@
        &&& s.bones@.len() == bones.len()
        &&& forall|i: int| 0 <= i < bones.len() ==> (#[trigger] s.bones@[i]).name@ == bones[i].name@
            && s.bones@[i].parent == bones[i].parent
        &&& s.warnings@.map_values(|w: String| w@) == skin_warnings(skin) + unknown_warnings_upto(
            names,
            names.len() as int,
        )
    }
}

proof fn lemma_first_unnamed_joint(joints: Seq<JointInput>)
    ensures
        first_unnamed_joint(joints) is None <==> forall|i: int|
            0 <= i < joints.len() ==> (#[trigger] joints[i]).name is Some,
    decreases joints.len(),
{
    if joints.len() > 0 {
        lemma_first_unnamed_joint(joints.drop_last());
        assert forall|i: int| 0 <= i < joints.len() - 1 implies joints[i] == joints.drop_last()[i] by {}
    }
}

/// The parent node of `child`, as [`parent_node`] defines it.
fn find_parent_node(children: &Vec<Vec<usize>>, child: usize) -> (r: Option<usize>)
    ensures
        r == parent_node(children@.map_values(|c: Vec<usize>| c@), child),
{
    let ghost cs = children@.map_values(|c: Vec<usize>| c@);
    let mut k: usize = children.len();
    while k > 0
        invariant
            k <= children.len(),
            cs == children@.map_values(|c: Vec<usize>| c@),
            parent_node(cs, child) == parent_node_upto(cs, child, k as int),
        decreases k,
    {
        let list = &children[k - 1];
        let mut j: usize = 0;
        while j < list.len()
            invariant
                j <= list.len(),
                0 < k <= children.len(),
                cs == children@.map_values(|c: Vec<usize>| c@),
                parent_node(cs, child) == parent_node_upto(cs, child, k as int),
                *list == children@[k - 1],
                forall|t: int| 0 <= t < j ==> list@[t] != child,
            decreases list.len() - j,
        {
            if list[j] == child {
                assert(cs[k - 1].contains(child)) by {
                    assert(cs[k - 1][j as int] == child);
                }
                return Some(k - 1);
            }
            j = j + 1;
        }
        assert(!cs[k - 1].contains(child));
        k = k - 1;
    }
    None
}

fn joint_nodes_contain(joints: &Vec<JointInput>, n: usize) -> (b: bool)
    ensures
        b == joint_nodes(joints@).contains(n),
{
    let mut i: usize = 0;
    while i < joints.len()
        invariant
            i <= joints.len(),
            forall|t: int| 0 <= t < i ==> joints@[t].node != n,
        decreases joints.len() - i,
    {
        if joints[i].node == n {
            assert(joint_nodes(joints@)[i as int] == n);
            return true;
        }
        i = i + 1;
    }
    assert forall|t: int| 0 <= t < joint_nodes(joints@).len() implies joint_nodes(joints@)[t] != n by {
        assert(joint_nodes(joints@)[t] == joints@[t].node);
    }
    false
}

fn last_joint_of(joints: &Vec<JointInput>, n: usize) -> (r: Option<usize>)
    ensures
        r == (match last_joint_of_upto(joint_nodes(joints@), n, joints@.len() as int) {
            Some(b) => Some(b as usize),
            None => None::<usize>,
        }),
{
    let ghost js = joint_nodes(joints@);
    let mut k: usize = joints.len();
    while k > 0
        invariant
            k <= joints.len(),
            js == joint_nodes(joints@),
            last_joint_of_upto(js, n, joints@.len() as int) == last_joint_of_upto(js, n, k as int),
        decreases k,
    {
        if joints[k - 1].node == n {
            assert(js[k - 1] == n);
            return Some(k - 1);
        }
        k = k - 1;
    }
    None
}

/// The bone parent of joint `i`, as [`bone_parent`] defines it.
fn joint_parent(skin: &SkinInput, i: usize) -> (r: Option<BoneIndex>)
    requires
        i < skin.joints@.len(),
    ensures
        r == bone_parent(*skin, i as int),
{
    let ghost joints = joint_nodes(skin.joints@);
    let ghost children = skin.node_children@.map_values(|c: Vec<usize>| c@);
    let mut cursor: usize = skin.joints[i].node;
    let mut fuel: usize = skin.node_children.len();
    assert(joints[i as int] == cursor);
    let mut found: Option<usize> = None;
    loop
        invariant_except_break
            i < skin.joints@.len(),
            joints == joint_nodes(skin.joints@),
            children == skin.node_children@.map_values(|c: Vec<usize>| c@),
            nearest_joint_ancestor(children, joints, joints[i as int], children.len())
                == nearest_joint_ancestor(children, joints, cursor, fuel as nat),
            found is None,
        invariant
            i < skin.joints@.len(),
            joints == joint_nodes(skin.joints@),
            children == skin.node_children@.map_values(|c: Vec<usize>| c@),
        ensures
            found == nearest_joint_ancestor(children, joints, joints[i as int], children.len()),
        decreases fuel,
    {
        if fuel == 0 {
            break;
        }
        match find_parent_node(&skin.node_children, cursor) {
            None => {
                break;
            },
            Some(p) => {
                if joint_nodes_contain(&skin.joints, p) {
                    found = Some(p);
                    break;
                }
                cursor = p;
                fuel = fuel - 1;
            },
        }
    }
    match found {
        None => None,
        Some(p) => match last_joint_of(&skin.joints, p) {
            Some(b) => Some(BoneIndex(b)),
            None => None,
        },
    }
}

impl SkeletonParseError {
    /// The error as a sentence.
    pub fn message(&self) -> (s: String)
        ensures
            s@ == skeleton_error_message(*self),
    {
        match self {
            SkeletonParseError::WrongSkeletonRoot { found, expected } => {
                let a = concat("skeleton root is named '", found.as_str());
                let b = concat(a.as_str(), "', expected '");
                let c = concat(b.as_str(), expected);
                concat(c.as_str(), "'")
            },
            SkeletonParseError::UnnamedJoint => owned("skin has a joint without a node name"),
            SkeletonParseError::MissingRequiredBones(m) => concat("missing required bones: ", m.as_str()),
        }
    }
}

pub open spec fn skeleton_error_message(e: SkeletonParseError) -> Seq<char> {
    match e {
        SkeletonParseError::WrongSkeletonRoot { found, expected } => "skeleton root is named '"@ + found@
            + "', expected '"@ + expected@ + "'"@,
        SkeletonParseError::UnnamedJoint => "skin has a joint without a node name"@,
        SkeletonParseError::MissingRequiredBones(m) => "missing required bones: "@ + m@,
    }
}

impl Skeleton {
    /// Read the `avatar_skeleton_v1` hierarchy from a skin; `None` when the
    /// document has no skin. The root name is checked first, then every
    /// joint must be named, then the bone names must meet the convention.
    pub fn from_skin(skin: Option<&SkinInput>) -> (r: Result<Option<Skeleton>, SkeletonParseError>)
        ensures
            skin is None ==> r == Ok::<Option<Skeleton>, SkeletonParseError>(None),
            skin matches Some(s) ==> skin_outcome(
                *s,
                match r {
                    Ok(Some(k)) => Ok(k),
                    Ok(None) => Err(SkeletonParseError::UnnamedJoint),
                    Err(e) => Err(e),
                },
            ) && r != Ok::<Option<Skeleton>, SkeletonParseError>(None),
    {
        match skin {
            None => Ok(None),
            Some(s) => match Self::read_skin(s) {
                Ok(k) => Ok(Some(k)),
                Err(e) => Err(e),
            },
        }
    }

    fn read_skin(skin: &SkinInput) -> (r: Result<Skeleton, SkeletonParseError>)
        ensures
            skin_outcome(*skin, r),
    {
        if let Some(root) = &skin.root_name {
            if !str_eq(root.as_str(), AVATAR_SKELETON_V1) {
                return Err(
                    SkeletonParseError::WrongSkeletonRoot {
                        found: owned(root.as_str()),
                        expected: AVATAR_SKELETON_V1,
                    },
                );
            }
        }
        let mut warnings: Vec<String> = Vec::new();
        let n = skin.joints.len();
        if skin.inverse_bind_count != n {
            let a = concat("inverse bind matrix count ", decimal_string(skin.inverse_bind_count as u128).as_str());
            let b = concat(a.as_str(), " does not match joint count ");
            let c = concat(b.as_str(), decimal_string(n as u128).as_str());
            warnings.push(concat(c.as_str(), "; missing entries use identity"));
        }
        assert(warnings@.map_values(|w: String| w@) =~= skin_warnings(*skin));
        proof {
            lemma_first_unnamed_joint(skin.joints@);
        }
        let ghost target = skin_bones(*skin);
        let mut bones: Vec<Bone> = Vec::new();
        let mut i: usize = 0;
        while i < n
            invariant
                i <= n,
                n == skin.joints@.len(),
                target == skin_bones(*skin),
                bones@.len() == i,
                !wrong_root(*skin),
                forall|t: int| 0 <= t < i ==> (#[trigger] skin.joints@[t]).name is Some,
                forall|t: int| 0 <= t < i ==> (#[trigger] bones@[t]).name@ == target[t].name@
                    && bones@[t].parent == target[t].parent,
            decreases n - i,
        {
            match &skin.joints[i].name {
                None => {
                    proof {
                        lemma_first_unnamed_joint(skin.joints@);
                    }
                    return Err(SkeletonParseError::UnnamedJoint);
                },
                Some(name) => {
                    let parent = joint_parent(skin, i);
                    bones.push(Bone { name: owned(name.as_str()), parent });
                },
            }
            i = i + 1;
        }
        assert(bone_names(bones@) =~= bone_names(target)) by {
            assert forall|t: int| 0 <= t < bones@.len() implies bone_names(bones@)[t] == bone_names(
                target,
            )[t] by {}
        }
        let ghost start = warnings@;
        match validate_bone_names(&bones, &mut warnings) {
            Err(e) => Err(e),
            Ok(()) => {
                let ghost names = bone_names(target);
                let ghost extra = unknown_warnings_upto(names, names.len() as int);
                let ghost want = skin_warnings(*skin) + extra;
                assert(warnings@.map_values(|w: String| w@) =~= want) by {
                    assert(start.map_values(|w: String| w@) == skin_warnings(*skin));
                    assert forall|t: int| 0 <= t < warnings@.len() implies warnings@.map_values(
                        |w: String| w@,
                    )[t] == want[t] by {
                        if t < start.len() {
                            assert(warnings@[t] == start[t]);
                            assert(start.map_values(|w: String| w@)[t] == start[t]@);
                        } else {
                            let u = t - start.len();
                            assert(warnings@[start.len() + u]@ == extra[u]);
                        }
                    }
                }
                Ok(Skeleton { name: owned(AVATAR_SKELETON_V1), bones, warnings })
            },
        }
    }

    /// `(parent, child)` for every bone whose parent index is in range, in
    /// bone order.
    pub fn line_segments(&self) -> (v: Vec<(BoneIndex, BoneIndex)>)
        ensures
            v@ == segments_upto(self.bones@, self.bones@.len() as int),
    {
        let mut out: Vec<(BoneIndex, BoneIndex)> = Vec::new();
        let mut i: usize = 0;
        while i < self.bones.len()
            invariant
                i <= self.bones.len(),
                out@ == segments_upto(self.bones@, i as int),
            decreases self.bones.len() - i,
        {
            if let Some(p) = self.bones[i].parent {
                if p.0 < self.bones.len() {
                    out.push((p, BoneIndex(i)));
                }
            }
            i = i + 1;
        }
        out
    }
}

/// Parent/child pairs among the first `k` bones.
pub open spec fn segments_upto(bones: Seq<Bone>, k: int) -> Seq<(BoneIndex, BoneIndex)>
    decreases k,
{
    if k <= 0 {
        Seq::empty()
    } else {
        let prev = segments_upto(bones, k - 1);
        match bones[k - 1].parent {
            Some(p) => if p.0 < bones.len() {
                prev.push((p, BoneIndex((k - 1) as usize)))
            } else {
                prev
            },
            None => prev,
        }
    }
}

impl Skeleton {
    /// Index of the first bone named `name`.
    pub fn bone_index(&self, name: &str) -> (r: Option<BoneIndex>)
        ensures
            r == (match first_bone_named(self.bones@, name@) {
                Some(i) => Some(BoneIndex(i as usize)),
                None => None,
            }),
    {
        proof {
            lemma_first_bone_named(self.bones@, name@);
        }
        let mut i: usize = 0;
        while i < self.bones.len()
            invariant
                i <= self.bones.len(),
                forall|k: int| 0 <= k < i ==> (#[trigger] self.bones@[k]).name@ != name@,
                first_bone_named(self.bones@, name@) matches Some(k) ==> 0 <= k < self.bones@.len()
                    && self.bones@[k].name@ == name@ && forall|j: int|
                    0 <= j < k ==> (#[trigger] self.bones@[j]).name@ != name@,
                first_bone_named(self.bones@, name@) is None ==> forall|j: int|
                    0 <= j < self.bones@.len() ==> (#[trigger] self.bones@[j]).name@ != name@,
            decreases self.bones.len() - i,
        {
            if str_eq(self.bones[i].name.as_str(), name) {
                assert(first_bone_named(self.bones@, name@) == Some(i as int));
                return Some(BoneIndex(i));
            }
            i = i + 1;
        }
        None
    }

    pub fn bone(&self, index: BoneIndex) -> (r: Option<&Bone>)
        ensures
            index.0 < self.bones@.len() ==> r == Some(&self.bones@[index.0 as int]),
            index.0 >= self.bones@.len() ==> r is None,
    {
        if index.0 < self.bones.len() {
            Some(&self.bones[index.0])
        } else {
            None
        }
    }
}

} // verus!
