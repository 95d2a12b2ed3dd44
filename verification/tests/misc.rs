use std::time::Duration;

use avatar_studio::catalog::{meta_from_row, row_from_meta};
use avatar_studio::editor::EditorMode;
use avatar_studio::metadata::{default_version, AssetCategory, AssetMeta};
use avatar_studio::perf::{FrameSample, FrameStats};
use avatar_studio::qa::{avatar_desktop_bin, baseline_dir, desktop_bin_candidates, golden_dir};
use avatar_studio::time::FrameClock;

fn sample(total_ms: f32) -> FrameSample {
    FrameSample { total_ms: total_ms.to_bits(), ..Default::default() }
}

fn average_ms(stats: &FrameStats) -> f32 {
    let v = stats.samples();
    v.iter().map(|s| f32::from_bits(s.total_ms)).sum::<f32>() / v.len() as f32
}

#[test]
fn rolling_window_drops_old_samples() {
    let mut stats = FrameStats::new(2);
    stats.push(sample(10.0));
    stats.push(sample(20.0));
    stats.push(sample(30.0));
    assert_eq!(stats.len(), 2);
    assert!((average_ms(&stats) - 25.0).abs() < 0.001);
    assert_eq!(stats.last(), Some(sample(30.0)));
}

#[test]
fn frame_window_has_at_least_one_slot() {
    let mut stats = FrameStats::new(0);
    assert!(stats.is_empty());
    stats.push(sample(1.0));
    stats.push(sample(2.0));
    assert_eq!(stats.len(), 1);
    assert_eq!(stats.last(), Some(sample(2.0)));
    stats.clear();
    assert_eq!(stats.last(), None);
}

#[test]
fn pinned_clock_returns_fixed_dt() {
    let mut clock = FrameClock::new();
    clock.pin_dt(Duration::from_secs_f32(1.0 / 60.0));
    let dt1 = clock.tick();
    let dt2 = clock.tick();
    assert_eq!(dt1, dt2);
    assert!((dt1.as_secs_f32() - 1.0 / 60.0).abs() < 1e-6);
    assert_eq!(clock.frame_index(), 2);
    assert!(clock.is_pinned());
    clock.unpin_dt();
    assert!(!clock.is_pinned());
    clock.reset();
    assert_eq!(clock.frame_index(), 0);
}

#[test]
fn qa_locations() {
    assert_eq!(golden_dir("/ws"), "/ws/tests/golden");
    assert_eq!(baseline_dir("/ws"), "/ws/tests/baselines");
    let c = desktop_bin_candidates("/ws", None, false);
    assert_eq!(c, vec!["/ws/target/debug/avatar_desktop".to_string(), "/ws/target/release/avatar_desktop".to_string()]);
    let c = desktop_bin_candidates("/ws", Some("/ws/target/tmp"), false);
    assert_eq!(c[0], "/ws/target/tmp/avatar_desktop");
    assert_eq!(c.len(), 3);
    assert_eq!(avatar_desktop_bin("/ws", true, None, &vec![false, true]), Ok("/ws/target/release/avatar_desktop.exe".to_string()));
    assert_eq!(
        avatar_desktop_bin("/ws", false, Some("/ws/target/tmp"), &vec![true, true, true]),
        Ok("/ws/target/tmp/avatar_desktop".to_string())
    );
    assert_eq!(
        avatar_desktop_bin("/ws", false, Some("/ws/target/tmp"), &vec![false, true, true]),
        Ok("/ws/target/debug/avatar_desktop".to_string())
    );
    assert!(avatar_desktop_bin("/ws", false, None, &vec![false, false]).unwrap_err().contains("not found"));
    assert!(avatar_desktop_bin("/ws", false, Some("/t"), &vec![false, false, false]).unwrap_err().contains("not found"));
}

#[test]
fn catalog_rows_round_trip() {
    let meta = AssetMeta {
        id: "top_a".into(),
        display_name: "Top A".into(),
        category: AssetCategory::Top,
        model: "avatars/tops/top_a.glb".into(),
        thumbnail: Some("thumbnails/top_a.png".into()),
        supports_color: true,
        default_color: Some([1, 2, 3]),
        compatible_body_types: vec!["body_x".into()],
        compatible_skeleton: Some("avatar_skeleton_v1".into()),
        tags: vec!["a".into(), "b \"q\"".into()],
        version: default_version(),
    };
    let row = row_from_meta(&meta);
    assert_eq!(row.category, "top");
    assert_eq!(row.supports_color, 1);
    assert_eq!(row.tags_json, r#"["a","b \"q\""]"#);
    let back = meta_from_row(&row).unwrap();
    assert_eq!(back, meta);
    let mut bad = row.clone();
    bad.category = "cape".into();
    assert_eq!(meta_from_row(&bad).unwrap_err(), "unknown asset category: cape");
    let mut odd = row;
    odd.tags_json = "not json".into();
    assert!(meta_from_row(&odd).unwrap().tags.is_empty());
}

#[test]
fn editor_modes_have_stable_names() {
    assert_eq!(EditorMode::default(), EditorMode::Character);
    let names: Vec<&str> = EditorMode::ALL.iter().map(|m| m.as_str()).collect();
    assert_eq!(names, vec!["character", "object", "material", "asset", "ai"]);
}
