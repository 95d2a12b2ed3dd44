//! Which GLB files a category accepts. The file itself is measured by the
//! caller; the report here records what was found and the rules decide.

use vstd::prelude::*;

use crate::metadata::{category_variant_name, is_wearable_category, variant_name, wearable_category, AssetCategory};
use crate::skeleton::{skeleton_error_message, SkinInput, Skeleton, AVATAR_SKELETON_V1};
use crate::text::{concat, decimal, decimal_string, owned, str_eq};

verus! {

/// What validation found in one GLB file.
///
/// `aabb` and `longest_axis_m` hold `f32` bit patterns: the bounding box
/// `(min, max)` in glTF coordinates, absent when the file has no geometry,
/// and its longest side in metres.
#[derive(Debug, Clone)]
pub struct ValidateReport {
    pub path: String,
    pub file_bytes: u64,
    pub mesh_count: u32,
    pub primitive_count: u32,
    pub vertex_count: u32,
    pub animation_count: u32,
    pub aabb: Option<([u32; 3], [u32; 3])>,
    pub longest_axis_m: u32,
    /// True iff the file contains a glTF skin.
    pub has_skin: bool,
    /// Name of the skin's skeleton root node, when it has one.
    pub skeleton_root: Option<String>,
    pub bone_names: Vec<String>,
    /// Why the skeleton could not be read, when a skin is present.
    pub skeleton_error: Option<String>,
    pub warnings: Vec<String>,
}

pub open spec fn views(v: Seq<String>) -> Seq<Seq<char>> {
    v.map_values(|s: String| s@)
}

/// `parts` joined by `", "`.
pub open spec fn comma_join(parts: Seq<Seq<char>>) -> Seq<char>
    decreases parts.len(),
{
    if parts.len() == 0 {
        Seq::empty()
    } else if parts.len() == 1 {
        parts[0]
    } else {
        comma_join(parts.drop_last()) + ", "@ + parts.last()
    }
}

/// Up to six names in full; beyond that the first five and how many more.
pub open spec fn bone_summary(names: Seq<Seq<char>>) -> Seq<char> {
    if names.len() <= 6 {
        comma_join(names)
    } else {
        comma_join(names.subrange(0, 5)) + ", … +"@ + decimal((names.len() - 5) as nat)
    }
}

fn join_comma(names: &Vec<String>, count: usize) -> (s: String)
    requires
        count <= names@.len(),
    ensures
        s@ == comma_join(views(names@).subrange(0, count as int)),
{
    let ghost vs = views(names@);
    if count == 0 {
        assert(vs.subrange(0, 0) =~= Seq::<Seq<char>>::empty());
        return String::new();
    }
    let mut out = owned(names[0].as_str());
    assert(vs.subrange(0, 1) =~= seq![vs[0]]);
    let mut i: usize = 1;
    while i < count
        invariant
            1 <= i <= count,
            count <= names@.len(),
            vs == views(names@),
            out@ == comma_join(vs.subrange(0, i as int)),
        decreases count - i,
    {
        let a = concat(out.as_str(), ", ");
        out = concat(a.as_str(), names[i].as_str());
        assert(vs.subrange(0, i + 1).drop_last() =~= vs.subrange(0, i as int));
        i = i + 1;
    }
    out
}

/// Bone names for a one-line summary: all of them up to six, otherwise the
/// first five and the count of the rest.
pub fn summarise_bones(names: &Vec<String>) -> (s: String)
    ensures
        s@ == bone_summary(views(names@)),
{
    let ghost vs = views(names@);
    if names.len() <= 6 {
        let s = join_comma(names, names.len());
        assert(vs.subrange(0, names@.len() as int) =~= vs);
        s
    } else {
        let head = join_comma(names, 5);
        let a = concat(head.as_str(), ", … +");
        let n = decimal_string((names.len() - 5) as u128);
        concat(a.as_str(), n.as_str())
    }
}

/// What a report says of a skin, given what the skeleton reader returns for
/// it.
pub open spec fn skin_fields_hold(r: ValidateReport, skin: Option<SkinInput>, old_warnings: Seq<String>) -> bool {
    match skin {
        None => {
            &&& !r.has_skin
            &&& r.skeleton_root is None
            &&& r.bone_names@.len() == 0
            &&& r.skeleton_error is None
            &&& r.warnings@ == old_warnings
        },
        Some(s) => {
            &&& r.has_skin
            &&& opt_views(r.skeleton_root) == opt_views(s.root_name)
            &&& exists|out: Result<Skeleton, crate::skeleton::SkeletonParseError>| {
                &&& #[trigger] crate::skeleton::skin_outcome(s, out)
                &&& match out {
                    Ok(k) => {
                        &&& r.skeleton_error is None
                        &&& views(r.bone_names@) == k.bones@.map_values(|b: crate::skeleton::Bone| b.name@)
                        &&& views(r.warnings@) == views(old_warnings) + views(k.warnings@).map_values(
                            |w: Seq<char>| "skeleton: "@ + w,
                        )
                    },
                    Err(e) => {
                        &&& r.bone_names@.len() == 0
                        &&& r.skeleton_error matches Some(m) && m@ == skeleton_error_message(e)
                        &&& r.warnings@ == old_warnings
                    },
                }
            }
        },
    }
}

pub open spec fn opt_views(o: Option<String>) -> Option<Seq<char>> {
    match o {
        Some(s) => Some(s@),
        None => None,
    }
}

fn copy_opt(o: &Option<String>) -> (r: Option<String>)
    ensures
        opt_views(r) == opt_views(*o),
{
    match o {
        Some(s) => Some(owned(s.as_str())),
        None => None,
    }
}

impl ValidateReport {
    /// Record what the skin of the file says: whether there is one, its
    /// root's name, and either the bones of its skeleton (with the
    /// skeleton's warnings added to the report's, each prefixed
    /// `skeleton: `) or why it could not be read.
    pub fn record_skin(&mut self, skin: Option<&SkinInput>)
        ensures
            skin_fields_hold(
                *final(self),
                match skin {
                    Some(s) => Some(*s),
                    None => None,
                },
                old(self).warnings@,
            ),
            final(self).path == old(self).path,
            final(self).file_bytes == old(self).file_bytes,
            final(self).mesh_count == old(self).mesh_count,
            final(self).primitive_count == old(self).primitive_count,
            final(self).vertex_count == old(self).vertex_count,
            final(self).animation_count == old(self).animation_count,
            final(self).aabb == old(self).aabb,
            final(self).longest_axis_m == old(self).longest_axis_m,
    {
        self.bone_names = Vec::new();
        self.skeleton_error = None;
        match skin {
            None => {
                self.has_skin = false;
                self.skeleton_root = None;
            },
            Some(s) => {
                self.has_skin = true;
                self.skeleton_root = copy_opt(&s.root_name);
                let ghost start = self.warnings@;
                let r = Skeleton::from_skin(Some(s));
                match r {
                    Ok(Some(k)) => {
                        let mut names: Vec<String> = Vec::new();
                        let mut i: usize = 0;
                        while i < k.bones.len()
                            invariant
                                i <= k.bones.len(),
                                names@.len() == i,
                                forall|t: int| 0 <= t < i ==> (#[trigger] names@[t])@ == k.bones@[t].name@,
                            decreases k.bones.len() - i,
                        {
                            names.push(owned(k.bones[i].name.as_str()));
                            i = i + 1;
                        }
                        assert(views(names@) =~= k.bones@.map_values(|b: crate::skeleton::Bone| b.name@));
                        self.bone_names = names;
                        let mut ws: Vec<String> = Vec::new();
                        std::mem::swap(&mut ws, &mut self.warnings);
                        let mut j: usize = 0;
                        while j < k.warnings.len()
                            invariant
                                j <= k.warnings.len(),
                                ws@.len() == start.len() + j,
                                forall|t: int| 0 <= t < start.len() ==> #[trigger] ws@[t] == start[t],
                                forall|t: int|
                                    0 <= t < j ==> (#[trigger] ws@[start.len() + t])@ == "skeleton: "@
                                        + k.warnings@[t]@,
                            decreases k.warnings.len() - j,
                        {
                            let w = concat("skeleton: ", k.warnings[j].as_str());
                            ws.push(w);
                            j = j + 1;
                        }
                        let ghost want = views(start) + views(k.warnings@).map_values(
                            |w: Seq<char>| "skeleton: "@ + w,
                        );
                        assert(views(ws@) =~= want) by {
                            assert forall|t: int| 0 <= t < ws@.len() implies views(ws@)[t] == want[t] by {
                                if t >= start.len() {
                                    let u = t - start.len();
                                    assert(ws@[start.len() + u]@ == "skeleton: "@ + k.warnings@[u]@);
                                }
                            }
                        }
                        self.warnings = ws;
                        let ghost out: Result<Skeleton, crate::skeleton::SkeletonParseError> = Ok(k);
                        assert(crate::skeleton::skin_outcome(*s, out));
                    },
                    Ok(None) => {},
                    Err(e) => {
                        self.skeleton_error = Some(e.message());
                        let ghost out: Result<Skeleton, crate::skeleton::SkeletonParseError> = Err(e);
                        assert(crate::skeleton::skin_outcome(*s, out));
                    },
                }
            },
        }
    }
}

/// The error that the category rules give for `report`, if any.
pub open spec fn category_rule_error(
    report: ValidateReport,
    category: AssetCategory,
    require_skeleton: bool,
) -> Option<Seq<char>> {
    if report.skeleton_error is Some {
        Some("skeleton parse failed: "@ + report.skeleton_error.unwrap()@)
    } else if is_wearable_category(category) && !report.has_skin {
        Some(
            "wearable category "@ + category_variant_name(category)
                + " requires a skinned mesh, but no skin is present"@,
        )
    } else if is_wearable_category(category) && report.skeleton_root is Some
        && report.skeleton_root.unwrap()@ != AVATAR_SKELETON_V1@ {
        Some(
            "wearable's skeleton root is '"@ + report.skeleton_root.unwrap()@ + "', expected '"@
                + AVATAR_SKELETON_V1@ + "'"@,
        )
    } else if !is_wearable_category(category) && category == AssetCategory::Body && require_skeleton
        && !report.has_skin {
        Some("--require-skeleton: body has no skin (use a rigged GLB)"@)
    } else if report.mesh_count == 0 {
        Some("no meshes in GLB"@)
    } else {
        None
    }
}

/// Apply the rules of `category` to a validated file. Wearables must be
/// skinned to `avatar_skeleton_v1` (an unnamed root is accepted); a body
/// must be skinned when `require_skeleton` is set; every asset needs a
/// mesh.
pub fn enforce_category_rules(report: &ValidateReport, category: AssetCategory, require_skeleton: bool) -> (r: Result<(), String>)
    ensures
        match category_rule_error(*report, category, require_skeleton) {
            None => r is Ok,
            Some(m) => r matches Err(e) && e@ == m,
        },
{
    if let Some(err) = &report.skeleton_error {
        return Err(concat("skeleton parse failed: ", err.as_str()));
    }
    let is_wearable = wearable_category(category);
    if is_wearable {
        if !report.has_skin {
            let a = concat("wearable category ", variant_name(category));
            return Err(concat(a.as_str(), " requires a skinned mesh, but no skin is present"));
        }
        if let Some(other) = &report.skeleton_root {
            if !str_eq(other.as_str(), AVATAR_SKELETON_V1) {
                let a = concat("wearable's skeleton root is '", other.as_str());
                let b = concat(a.as_str(), "', expected '");
                let c = concat(b.as_str(), AVATAR_SKELETON_V1);
                return Err(concat(c.as_str(), "'"));
            }
        }
    } else if category == AssetCategory::Body && require_skeleton && !report.has_skin {
        return Err(owned("--require-skeleton: body has no skin (use a rigged GLB)"));
    }
    if report.mesh_count == 0 {
        return Err(owned("no meshes in GLB"));
    }
    Ok(())
}

/// The decision of the `validate` command on a validated file: the
/// category's rules when a category is given, otherwise only the skin
/// requirement.
pub fn run_validate(report: &ValidateReport, category: Option<AssetCategory>, require_skeleton: bool) -> (r: Result<(), String>)
    ensures
        match category {
            Some(c) => match category_rule_error(*report, c, require_skeleton) {
                None => r is Ok,
                Some(m) => r matches Err(e) && e@ == m,
            },
            None => if require_skeleton && !report.has_skin {
                r matches Err(e) && e@ == "--require-skeleton: no skin in GLB"@
            } else {
                r is Ok
            },
        },
{
    match category {
        Some(c) => enforce_category_rules(report, c, require_skeleton),
        None => {
            if require_skeleton && !report.has_skin {
                Err(owned("--require-skeleton: no skin in GLB"))
            } else {
                Ok(())
            }
        },
    }
}

/// The sum of `s`.
pub open spec fn count_sum(s: Seq<u32>) -> nat
    decreases s.len(),
{
    if s.len() == 0 {
        0
    } else {
        count_sum(s.drop_last()) + s.last() as nat
    }
}

/// How many primitives the meshes hold (`meshes[i][j]` is the vertex count
/// of primitive `j` of mesh `i`).
pub open spec fn primitive_total(meshes: Seq<Seq<u32>>) -> nat
    decreases meshes.len(),
{
    if meshes.len() == 0 {
        0
    } else {
        primitive_total(meshes.drop_last()) + meshes.last().len()
    }
}

/// How many vertices the meshes hold.
pub open spec fn vertex_total(meshes: Seq<Seq<u32>>) -> nat
    decreases meshes.len(),
{
    if meshes.len() == 0 {
        0
    } else {
        vertex_total(meshes.drop_last()) + count_sum(meshes.last())
    }
}

proof fn lemma_count_sum_prefix(s: Seq<u32>, i: int)
    requires
        0 <= i <= s.len(),
    ensures
        count_sum(s.take(i)) <= count_sum(s),
    decreases s.len() - i,
{
    if i < s.len() {
        lemma_count_sum_prefix(s, i + 1);
        assert(s.take(i + 1).drop_last() =~= s.take(i));
    } else {
        assert(s.take(i) =~= s);
    }
}

proof fn lemma_totals_prefix(m: Seq<Seq<u32>>, i: int)
    requires
        0 <= i <= m.len(),
    ensures
        primitive_total(m.take(i)) <= primitive_total(m),
        vertex_total(m.take(i)) <= vertex_total(m),
    decreases m.len() - i,
{
    if i < m.len() {
        lemma_totals_prefix(m, i + 1);
        assert(m.take(i + 1).drop_last() =~= m.take(i));
    } else {
        assert(m.take(i) =~= m);
    }
}

/// Mesh, primitive and vertex counts of a model, given the vertex count of
/// each primitive of each mesh.
pub fn mesh_tally(meshes: &Vec<Vec<u32>>) -> (r: (u32, u32, u32))
    requires
        meshes@.len() <= u32::MAX,
        primitive_total(meshes@.map_values(|p: Vec<u32>| p@)) <= u32::MAX,
        vertex_total(meshes@.map_values(|p: Vec<u32>| p@)) <= u32::MAX,
    ensures
        r.0 == meshes@.len(),
        r.1 == primitive_total(meshes@.map_values(|p: Vec<u32>| p@)),
        r.2 == vertex_total(meshes@.map_values(|p: Vec<u32>| p@)),
{
    let ghost m = meshes@.map_values(|p: Vec<u32>| p@);
    let mut prims: u32 = 0;
    let mut verts: u32 = 0;
    let mut i: usize = 0;
    while i < meshes.len()
        invariant
            m == meshes@.map_values(|p: Vec<u32>| p@),
            i <= meshes.len(),
            primitive_total(m) <= u32::MAX,
            vertex_total(m) <= u32::MAX,
            prims == primitive_total(m.take(i as int)),
            verts == vertex_total(m.take(i as int)),
        decreases meshes.len() - i,
    {
        let ghost mi = m[i as int];
        assert(mi == meshes@[i as int]@);
        assert(m.take(i + 1).drop_last() =~= m.take(i as int));
        proof {
            lemma_totals_prefix(m, i + 1);
        }
        let prim = &meshes[i];
        let mut j: usize = 0;
        let mut sum: u32 = 0;
        while j < prim.len()
            invariant
                mi == prim@,
                j <= prim.len(),
                sum == count_sum(mi.take(j as int)),
                verts + count_sum(mi) <= u32::MAX,
            decreases prim.len() - j,
        {
            assert(mi.take(j + 1).drop_last() =~= mi.take(j as int));
            proof {
                lemma_count_sum_prefix(mi, j + 1);
            }
            sum = sum + prim[j];
            j = j + 1;
        }
        assert(mi.take(prim.len() as int) =~= mi);
        assert(prim.len() <= u32::MAX) by {
            assert(primitive_total(m.take(i + 1)) == primitive_total(m.take(i as int)) + mi.len());
        }
        prims = prims + prim.len() as u32;
        verts = verts + sum;
        i = i + 1;
    }
    assert(m.take(meshes.len() as int) =~= m);
    (meshes.len() as u32, prims, verts)
}

} // verus!
