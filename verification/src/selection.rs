//! The editor's selection, by scene-object id, and how it is cut down to
//! the objects a scene still has (after an undo, or a reload).

use vstd::prelude::*;

use crate::text::str_eq;

verus! {

/// Selected objects and bones in the order they were picked, the active
/// one of each, and the active animation clip.
#[derive(Debug, Clone)]
pub struct SelectionIds {
    pub selected_objects: Vec<String>,
    pub active_object: Option<String>,
    pub selected_bones: Vec<String>,
    pub active_bone: Option<String>,
    pub active_clip: Option<String>,
}

pub open spec fn ids_of(v: Seq<String>) -> Seq<Seq<char>> {
    v.map_values(|s: String| s@)
}

pub open spec fn id_of(o: Option<String>) -> Option<Seq<char>> {
    match o {
        Some(s) => Some(s@),
        None => None,
    }
}

/// The ids of `ids` that `present` holds, in their order.
pub open spec fn kept_ids(ids: Seq<Seq<char>>, present: Seq<Seq<char>>) -> Seq<Seq<char>> {
    ids.filter(|id: Seq<char>| present.contains(id))
}

/// The active id after the cut: kept if still present, else the first
/// kept selected id, if any.
pub open spec fn kept_active(active: Option<Seq<char>>, kept: Seq<Seq<char>>, present: Seq<Seq<char>>) -> Option<Seq<char>> {
    match active {
        Some(a) => if present.contains(a) {
            Some(a)
        } else if kept.len() > 0 {
            Some(kept[0])
        } else {
            None
        },
        None => None,
    }
}

/// The active clip after the cut: dropped unless still present.
pub open spec fn kept_clip(clip: Option<Seq<char>>, present: Seq<Seq<char>>) -> Option<Seq<char>> {
    match clip {
        Some(c) => if present.contains(c) {
            Some(c)
        } else {
            None
        },
        None => None,
    }
}

/// Whether `present` holds `id`.
pub fn contains_id(present: &Vec<String>, id: &str) -> (b: bool)
    ensures
        b == ids_of(present@).contains(id@),
{
    let ghost views = ids_of(present@);
    let mut i: usize = 0;
    while i < present.len()
        invariant
            views == ids_of(present@),
            i <= present.len(),
            forall|j: int| 0 <= j < i ==> views[j] != id@,
        decreases present.len() - i,
    {
        assert(views[i as int] == present@[i as int]@);
        if str_eq(present[i].as_str(), id) {
            assert(views.contains(id@));
            return true;
        }
        i = i + 1;
    }
    false
}

/// The ids of `ids` that `present` holds, in order.
pub fn retain_present(ids: &Vec<String>, present: &Vec<String>) -> (r: Vec<String>)
    ensures
        ids_of(r@) == kept_ids(ids_of(ids@), ids_of(present@)),
{
    let ghost all = ids_of(ids@);
    let ghost pv = ids_of(present@);
    let ghost keep = |id: Seq<char>| pv.contains(id);
    let mut out: Vec<String> = Vec::new();
    let mut k: usize = 0;
    assert(all.take(0).filter(keep) =~= Seq::<Seq<char>>::empty());
    while k < ids.len()
        invariant
            k <= ids.len(),
            all == ids_of(ids@),
            pv == ids_of(present@),
            keep == (|id: Seq<char>| pv.contains(id)),
            ids_of(out@) == all.take(k as int).filter(keep),
        decreases ids.len() - k,
    {
        proof {
            assert(all.take(k + 1) =~= all.take(k as int).push(all[k as int]));
            all.take(k as int).lemma_filter_push(all[k as int], keep);
            assert(all[k as int] == ids@[k as int]@);
        }
        if contains_id(present, ids[k].as_str()) {
            let ghost before = out@;
            out.push(ids[k].clone());
            assert(ids_of(out@) =~= ids_of(before).push(all[k as int]));
        }
        k = k + 1;
    }
    assert(all.take(ids.len() as int) =~= all);
    out
}

fn restricted_active(active: &Option<String>, kept: &Vec<String>, present: &Vec<String>) -> (r: Option<String>)
    ensures
        id_of(r) == kept_active(id_of(*active), ids_of(kept@), ids_of(present@)),
{
    match active {
        Some(a) => {
            if contains_id(present, a.as_str()) {
                Some(a.clone())
            } else if kept.len() > 0 {
                assert(ids_of(kept@)[0] == kept@[0]@);
                Some(kept[0].clone())
            } else {
                None
            }
        },
        None => None,
    }
}

/// `sel` cut down to the ids `present` holds: selections keep their order,
/// an active object or bone that went away is replaced by the first one
/// still selected, and an active clip that went away is dropped.
pub fn restrict_selection(sel: &SelectionIds, present: &Vec<String>) -> (r: SelectionIds)
    ensures
        ids_of(r.selected_objects@) == kept_ids(ids_of(sel.selected_objects@), ids_of(present@)),
        ids_of(r.selected_bones@) == kept_ids(ids_of(sel.selected_bones@), ids_of(present@)),
        id_of(r.active_object) == kept_active(
            id_of(sel.active_object),
            kept_ids(ids_of(sel.selected_objects@), ids_of(present@)),
            ids_of(present@),
        ),
        id_of(r.active_bone) == kept_active(
            id_of(sel.active_bone),
            kept_ids(ids_of(sel.selected_bones@), ids_of(present@)),
            ids_of(present@),
        ),
        id_of(r.active_clip) == kept_clip(id_of(sel.active_clip), ids_of(present@)),
{
    let objects = retain_present(&sel.selected_objects, present);
    let bones = retain_present(&sel.selected_bones, present);
    let active_object = restricted_active(&sel.active_object, &objects, present);
    let active_bone = restricted_active(&sel.active_bone, &bones, present);
    let active_clip = match &sel.active_clip {
        Some(c) => {
            if contains_id(present, c.as_str()) {
                Some(c.clone())
            } else {
                None
            }
        },
        None => None,
    };
    SelectionIds { selected_objects: objects, active_object, selected_bones: bones, active_bone, active_clip }
}

/// After the cut, everything selected or active is an id of the scene.
pub proof fn law_restricted_selection_is_in_scene(ids: Seq<Seq<char>>, active: Option<Seq<char>>, clip: Option<Seq<char>>, present: Seq<Seq<char>>)
    ensures
        forall|i: int| 0 <= i < kept_ids(ids, present).len() ==> present.contains(#[trigger] kept_ids(ids, present)[i]),
        kept_active(active, kept_ids(ids, present), present) matches Some(a) ==> present.contains(a),
        kept_clip(clip, present) matches Some(c) ==> present.contains(c),
{
    let keep = |id: Seq<char>| present.contains(id);
    assert forall|i: int| 0 <= i < kept_ids(ids, present).len() implies present.contains(
        #[trigger] kept_ids(ids, present)[i],
    ) by {
        ids.lemma_filter_pred(keep, i);
    }
    if kept_ids(ids, present).len() > 0 {
        ids.lemma_filter_pred(keep, 0);
    }
}

proof fn lemma_filter_keeps_all(ids: Seq<Seq<char>>, present: Seq<Seq<char>>)
    requires
        forall|i: int| 0 <= i < ids.len() ==> present.contains(#[trigger] ids[i]),
    ensures
        kept_ids(ids, present) == ids,
    decreases ids.len(),
{
    reveal(Seq::filter);
    if ids.len() > 0 {
        lemma_filter_keeps_all(ids.drop_last(), present);
        assert(present.contains(ids[ids.len() - 1]));
        assert(ids.drop_last().push(ids.last()) =~= ids);
    }
}

/// The cut drops only what the scene no longer holds: an id is kept
/// exactly when it was selected and the scene still holds it; a selection
/// that lies wholly in the scene is unchanged; an active object, bone or
/// clip that the scene still holds stays active; and a clip is never made
/// active by the cut.
pub proof fn law_restriction_keeps_what_is_present(
    ids: Seq<Seq<char>>,
    active: Option<Seq<char>>,
    clip: Option<Seq<char>>,
    present: Seq<Seq<char>>,
)
    ensures
        forall|id: Seq<char>| #[trigger] kept_ids(ids, present).contains(id) <==> (ids.contains(id) && present.contains(id)),
        (forall|i: int| 0 <= i < ids.len() ==> present.contains(#[trigger] ids[i])) ==> kept_ids(ids, present) == ids,
        active matches Some(a) ==> (present.contains(a) ==> kept_active(active, kept_ids(ids, present), present) == Some(a)),
        active is None ==> kept_active(active, kept_ids(ids, present), present) is None,
        clip matches Some(c) ==> (present.contains(c) ==> kept_clip(clip, present) == Some(c)),
        kept_clip(clip, present) matches Some(c) ==> clip == Some(c) && present.contains(c),
{
    let keep = |id: Seq<char>| present.contains(id);
    assert forall|id: Seq<char>| #[trigger] kept_ids(ids, present).contains(id) <==> (ids.contains(id) && present.contains(id)) by {
        if kept_ids(ids, present).contains(id) {
            ids.lemma_filter_contains_rev(keep, id);
            let j = choose|j: int| 0 <= j < kept_ids(ids, present).len() && kept_ids(ids, present)[j] == id;
            ids.lemma_filter_pred(keep, j);
        }
        if ids.contains(id) && present.contains(id) {
            let j = choose|j: int| 0 <= j < ids.len() && ids[j] == id;
            ids.lemma_filter_contains(keep, j);
        }
    }
    if forall|i: int| 0 <= i < ids.len() ==> present.contains(#[trigger] ids[i]) {
        lemma_filter_keeps_all(ids, present);
    }
}

} // verus!
