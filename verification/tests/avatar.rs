use avatar_studio::avatar::{Avatar, DEFAULT_BODY_TYPE, DEFAULT_SKIN_TONE};
use avatar_studio::expressions::Expression;
use avatar_studio::metadata::AssetCategory;
use avatar_studio::save::{
    clamp_name, new_character_id, sanitize_id, sort_newest_first, AvatarSave, CharacterStore, SaveError,
    SavedCharacterSummary, SAVE_SCHEMA_VERSION,
};
use avatar_studio::slots::{Slot, SlotMap};

fn rgb(v: [f32; 3]) -> [u32; 3] {
    [v[0].to_bits(), v[1].to_bits(), v[2].to_bits()]
}

#[test]
fn category_to_slot_round_trip() {
    assert_eq!(Slot::from_asset_category(AssetCategory::Body), Some(Slot::Body));
    assert_eq!(Slot::from_asset_category(AssetCategory::Top), Some(Slot::Top));
    assert_eq!(Slot::from_asset_category(AssetCategory::Accessory), Some(Slot::Accessory));
    assert_eq!(Slot::from_asset_category(AssetCategory::Animation), None);
    assert_eq!(Slot::from_asset_category(AssetCategory::Material), None);
}

#[test]
fn slot_all_has_every_variant() {
    assert_eq!(Slot::ALL.len(), 9);
    assert_eq!(Slot::ALL[0], Slot::Body);
}

#[test]
fn slot_index_and_labels() {
    for (i, s) in Slot::ALL.iter().enumerate() {
        assert_eq!(s.index(), i);
        assert_eq!(Slot::from_index(i), *s);
    }
    assert_eq!(Slot::Glasses.label(), "Glasses");
}

#[test]
fn all_matches_default_and_count() {
    assert_eq!(Expression::ALL.len(), 5);
    assert_eq!(Expression::default(), Expression::Neutral);
    assert_eq!(Expression::ALL[0], Expression::Neutral);
}

#[test]
fn label_and_save_str_are_distinct_per_variant() {
    let labels: Vec<_> = Expression::ALL.iter().map(|e| e.label()).collect();
    let saves: Vec<_> = Expression::ALL.iter().map(|e| e.as_save_str()).collect();
    let mut sorted = labels.clone();
    sorted.sort();
    sorted.dedup();
    assert_eq!(sorted.len(), 5);
    let mut sorted = saves.clone();
    sorted.sort();
    sorted.dedup();
    assert_eq!(sorted.len(), 5);
    assert_eq!(Expression::Surprised.as_save_str(), "surprised");
}

#[test]
fn equip_overwrites_previous_slot_contents() {
    let mut av = Avatar::default();
    av.equip(Slot::Top, "top_a".into());
    av.equip(Slot::Top, "top_b".into());
    assert_eq!(av.equipped(Slot::Top), Some("top_b"));
}

#[test]
fn unequip_removes_slot() {
    let mut av = Avatar::default();
    av.equip(Slot::Hair, "hair_001".into());
    av.unequip(Slot::Hair);
    assert_eq!(av.equipped(Slot::Hair), None);
}

#[test]
fn iter_visits_body_before_wearables() {
    let mut av = Avatar::default();
    av.equip(Slot::Top, "top_001".into());
    av.equip(Slot::Body, "body_001".into());
    let order: Vec<Slot> = av.iter().iter().map(|(s, _)| *s).collect();
    assert_eq!(order, vec![Slot::Body, Slot::Top]);
    assert_eq!(av.iter()[0].1, "body_001");
}

#[test]
fn clear_all_resets_body_type() {
    let mut av = Avatar { body_type: "phase4_rig".into(), ..Avatar::default() };
    av.equip(Slot::Body, "body_phase4_rig_001".into());
    av.equip(Slot::Top, "top_a".into());
    av.clear_all();
    assert_eq!(av.body_type, DEFAULT_BODY_TYPE);
    assert!(av.slots.is_empty());
}

#[test]
fn slot_color_round_trip() {
    let mut av = Avatar::default();
    av.set_slot_color(Slot::Top, rgb([0.9, 0.1, 0.2]));
    assert_eq!(av.slot_color(Slot::Top), Some(rgb([0.9, 0.1, 0.2])));
    assert_eq!(av.slot_color(Slot::Hair), None);
}

#[test]
fn clear_all_clears_colors() {
    let mut av = Avatar::default();
    av.set_slot_color(Slot::Body, rgb([0.5, 0.3, 0.2]));
    av.set_slot_color(Slot::Top, rgb([0.0, 0.0, 1.0]));
    av.clear_all();
    assert!(av.slot_colors.is_empty());
}

#[test]
fn slot_color_independent_of_slots_map() {
    let mut av = Avatar::default();
    av.set_slot_color(Slot::Top, rgb([0.5, 0.5, 0.5]));
    assert!(av.slots.is_empty());
    assert_eq!(av.slot_color(Slot::Top), Some(rgb([0.5, 0.5, 0.5])));
}

#[test]
fn default_avatar_has_the_default_skin_tone() {
    let av = Avatar::default();
    assert_eq!(av.skin_tone, DEFAULT_SKIN_TONE);
    assert_eq!(av.skin_tone, rgb([0.62, 0.41, 0.28]));
    assert_eq!(av.expression, Expression::Neutral);
}

#[test]
fn active_body_hooks_equip_the_body_slot() {
    let mut av = Avatar::default();
    av.set_active_body_asset("body_x".into());
    assert_eq!(av.equipped(Slot::Body), Some("body_x"));
    av.clear_active_body_asset();
    assert_eq!(av.equipped(Slot::Body), None);
}

#[test]
fn slot_map_counts_and_orders_entries() {
    let mut m: SlotMap<u32> = SlotMap::new();
    assert!(m.is_empty());
    m.insert(Slot::Accessory, 9);
    m.insert(Slot::Head, 2);
    assert_eq!(m.len(), 2);
    let e = m.entries();
    assert_eq!(e[0].0, Slot::Head);
    assert_eq!(*e[1].1, 9);
    assert!(m.contains_key(Slot::Head));
    m.remove(Slot::Head);
    assert_eq!(m.get(Slot::Head), None);
    assert_eq!(m.copied().len(), 1);
    m.clear();
    assert_eq!(m.len(), 0);
}

#[test]
fn save_round_trips_avatar_choices() {
    let mut avatar = Avatar { body_type: "body_phase4_rig_001".into(), ..Avatar::default() };
    avatar.equip(Slot::Body, "body_phase4_rig_001".into());
    avatar.equip(Slot::Top, "top_phase7_basic_001".into());
    avatar.set_slot_color(Slot::Top, rgb([0.1, 0.2, 0.3]));
    avatar.expression = Expression::Happy;

    let save = AvatarSave::from_parts("char_test", "Test", &avatar, Some("idle".into()), "1".into(), "2".into());
    assert_eq!(save.schema_version, SAVE_SCHEMA_VERSION);
    assert_eq!(save.base_body, "body_phase4_rig_001");
    assert_eq!(save.slots.len(), 1);
    let restored = save.into_avatar().unwrap();

    assert_eq!(restored.equipped(Slot::Body), Some("body_phase4_rig_001"));
    assert_eq!(restored.equipped(Slot::Top), Some("top_phase7_basic_001"));
    assert_eq!(restored.slot_color(Slot::Top), Some(rgb([0.1, 0.2, 0.3])));
    assert_eq!(restored.expression, Expression::Happy);
    assert_eq!(restored, avatar);
}

#[test]
fn save_without_body_records_default() {
    let avatar = Avatar::default();
    let save = AvatarSave::from_parts("c", "n", &avatar, None, "1".into(), "1".into());
    assert_eq!(save.base_body, "default");
    let restored = save.into_avatar().unwrap();
    assert_eq!(restored.equipped(Slot::Body), None);
}

#[test]
fn other_schema_versions_are_refused() {
    let mut save = AvatarSave::from_parts("c", "n", &Avatar::default(), None, "1".into(), "1".into());
    save.schema_version = 3;
    assert_eq!(save.validate_schema(), Err(SaveError::Schema { found: 3, expected: 1 }));
    assert!(matches!(save.into_avatar(), Err(SaveError::Schema { found: 3, expected: 1 })));
}

#[test]
fn gallery_summaries_sort_newest_first() {
    let s = |id: &str, name: &str, at: &str| SavedCharacterSummary {
        id: id.into(),
        name: name.into(),
        updated_at: at.into(),
        path: format!("/chars/{id}.json"),
    };
    let sorted = sort_newest_first(vec![s("older", "Older", "1"), s("newer", "Newer", "2")]);
    assert_eq!(sorted[0].id, "newer");
    assert_eq!(sorted[1].id, "older");
    let sorted = sort_newest_first(vec![s("b", "Bea", "5"), s("a", "Al", "5"), s("c", "Cy", "10"), s("d", "Di", "9")]);
    let ids: Vec<&str> = sorted.iter().map(|x| x.id.as_str()).collect();
    // string order, as the files record the stamps: "9" > "5" > "10"
    assert_eq!(ids, vec!["d", "a", "b", "c"]);
}

#[test]
fn ids_are_sanitized_for_file_names() {
    assert_eq!(sanitize_id("My Char-1!"), "My_Char-1");
    assert_eq!(sanitize_id("a\tb"), "a_b");
    let fresh = sanitize_id("!!!");
    assert!(fresh.starts_with("char_"));
    assert!(fresh["char_".len()..].chars().all(|c| c.is_ascii_digit()));
    let id = new_character_id();
    assert!(id.starts_with("char_") && id.len() > 5);
}

#[test]
fn names_default_and_are_cut_to_sixty_four_bytes() {
    assert_eq!(clamp_name("  \t "), "Untitled Avatar");
    assert_eq!(clamp_name("Ann"), "Ann");
    let long = "x".repeat(70);
    assert_eq!(clamp_name(&long), "x".repeat(64));
    let wide = format!("{}é", "y".repeat(62));
    assert_eq!(clamp_name(&wide).len(), 64);
}

#[test]
fn store_paths_use_sanitized_ids() {
    let store = CharacterStore::new("/data/chars".into());
    assert_eq!(store.root(), "/data/chars");
    assert_eq!(store.path_for("my char"), "/data/chars/my_char.json");
}

#[test]
fn list_returns_newest_first() {
    let avatar = Avatar::default();
    let older = AvatarSave::from_parts("old", "Older", &avatar, None, "1".into(), "1".into());
    let newer = AvatarSave::from_parts("new", "Newer", &avatar, None, "2".into(), "2".into());
    let summary = |s: &AvatarSave| SavedCharacterSummary {
        id: s.id.clone(),
        name: s.name.clone(),
        updated_at: s.updated_at.clone(),
        path: format!("/chars/{}.json", s.id),
    };
    let rows = sort_newest_first(vec![summary(&older), summary(&newer)]);
    assert!(rows.len() >= 2);
    assert_eq!(rows[0].id, "new");
    assert_eq!(rows[1].id, "old");
}
