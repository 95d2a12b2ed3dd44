use std::collections::HashMap;

use avatar_studio::commands::{
    AvatarEquipAssetPayload, CommandEnvelope, CommandError, CommandPayload, CommandRouter,
    CommandRuntime, CommandSource, EditorSetModePayload, MaterialSetColorPayload, MaterialTarget,
    SceneSetLockedPayload, SceneSetVisiblePayload, SelectionSetPayload,
    TransformApplyDeltaPayload, TransformResetPayload, TransformSetRotationPayload,
    TransformSetScalePayload, TransformSetTranslationPayload, ValidationResult,
};
use avatar_studio::editor::EditorMode;
use avatar_studio::slots::Slot;

fn bits3(v: [f32; 3]) -> [u32; 3] {
    [v[0].to_bits(), v[1].to_bits(), v[2].to_bits()]
}

fn bits4(v: [f32; 4]) -> [u32; 4] {
    [v[0].to_bits(), v[1].to_bits(), v[2].to_bits(), v[3].to_bits()]
}

fn floats3(v: [u32; 3]) -> [f32; 3] {
    [f32::from_bits(v[0]), f32::from_bits(v[1]), f32::from_bits(v[2])]
}

fn floats4(v: [u32; 4]) -> [f32; 4] {
    [f32::from_bits(v[0]), f32::from_bits(v[1]), f32::from_bits(v[2]), f32::from_bits(v[3])]
}

fn quat_mul(a: [f32; 4], b: [f32; 4]) -> [f32; 4] {
    let [ax, ay, az, aw] = a;
    let [bx, by, bz, bw] = b;
    [
        aw * bx + ax * bw + ay * bz - az * by,
        aw * by - ax * bz + ay * bw + az * bx,
        aw * bz + ax * by - ay * bx + az * bw,
        aw * bw - ax * bx - ay * by - az * bz,
    ]
}

fn quat_normalize(q: [f32; 4]) -> [f32; 4] {
    let len = (q[0] * q[0] + q[1] * q[1] + q[2] * q[2] + q[3] * q[3]).sqrt();
    [q[0] / len, q[1] / len, q[2] / len, q[3] / len]
}

fn quat_from_rotation_y(angle: f32) -> [f32; 4] {
    let (s, c) = (angle * 0.5).sin_cos();
    [0.0, s, 0.0, c]
}

fn quat_from_rotation_x(angle: f32) -> [f32; 4] {
    let (s, c) = (angle * 0.5).sin_cos();
    [s, 0.0, 0.0, c]
}

#[derive(Debug, Default, Clone, PartialEq)]
struct MemoryState {
    selection: Vec<String>,
    mode: EditorMode,
    slots: HashMap<Slot, String>,
    colors: HashMap<Slot, [f32; 3]>,
    visible: HashMap<String, bool>,
    locked: HashMap<String, bool>,
    translations: HashMap<String, [f32; 3]>,
    rotations: HashMap<String, [f32; 4]>,
    scales: HashMap<String, [f32; 3]>,
}

#[derive(Debug, Default, Clone)]
struct MemoryRuntime {
    state: MemoryState,
    valid_assets: Vec<String>,
}

impl MemoryRuntime {
    fn with_assets(ids: &[&str]) -> Self {
        Self {
            valid_assets: ids.iter().map(|id| (*id).to_string()).collect(),
            ..Self::default()
        }
    }
}

fn err(code: &str, message: &str) -> ValidationResult {
    ValidationResult::error(code.to_string(), message.to_string())
}

impl CommandRuntime for MemoryRuntime {
    type Snapshot = MemoryState;

    fn state(&self) -> Self::Snapshot {
        self.state.clone()
    }

    fn snapshot(&self) -> Self::Snapshot {
        self.state.clone()
    }

    fn validation_of(&self, payload: CommandPayload) -> ValidationResult {
        match &payload {
            CommandPayload::SelectionSet(p) => self.validate_selection_set(p),
            CommandPayload::AvatarEquipAsset(p) => self.validate_avatar_equip_asset(p),
            CommandPayload::MaterialSetColor(p) => self.validate_material_set_color(p),
            CommandPayload::SceneSetVisible(p) => self.validate_scene_set_visible(p),
            CommandPayload::SceneSetLocked(p) => self.validate_scene_set_locked(p),
            CommandPayload::TransformSetTranslation(p) => self.validate_transform_set_translation(p),
            CommandPayload::TransformSetRotation(p) => self.validate_transform_set_rotation(p),
            CommandPayload::TransformSetScale(p) => self.validate_transform_set_scale(p),
            CommandPayload::TransformApplyDelta(p) => self.validate_transform_apply_delta(p),
            CommandPayload::TransformReset(p) => self.validate_transform_reset(p),
            CommandPayload::EditorSetMode(p) => self.validate_editor_set_mode(p),
            _ => ValidationResult::valid(),
        }
    }

    fn restore_outcome(&self, _snapshot: MemoryState) -> Result<(), CommandError> {
        Ok(())
    }

    fn answers(&self, payload: CommandPayload, r: Result<(), CommandError>, after: &Self) -> bool {
        let mut probe = self.clone();
        let applied = match &payload {
            CommandPayload::SelectionSet(p) => probe.set_selection(p),
            CommandPayload::SelectionClear(_) => probe.clear_selection(),
            CommandPayload::AvatarEquipAsset(p) => probe.equip_asset(p),
            CommandPayload::MaterialSetColor(p) => probe.set_material_color(p),
            CommandPayload::SceneSetVisible(p) => probe.scene_set_visible(p),
            CommandPayload::SceneSetLocked(p) => probe.scene_set_locked(p),
            CommandPayload::TransformSetTranslation(p) => probe.transform_set_translation(p),
            CommandPayload::TransformSetRotation(p) => probe.transform_set_rotation(p),
            CommandPayload::TransformSetScale(p) => probe.transform_set_scale(p),
            CommandPayload::TransformApplyDelta(p) => probe.transform_apply_delta(p),
            CommandPayload::TransformReset(p) => probe.transform_reset(p),
            CommandPayload::EditorSetMode(p) => probe.set_editor_mode(p),
            _ => return false,
        };
        applied == r && probe.state == after.state
    }

    fn restore_snapshot(&mut self, snapshot: &Self::Snapshot) -> Result<(), CommandError> {
        self.state = snapshot.clone();
        Ok(())
    }

    fn validate_selection_set(&self, payload: &SelectionSetPayload) -> ValidationResult {
        if payload.object_ids.iter().any(|id| id.trim().is_empty()) {
            err("EMPTY_OBJECT_ID", "selection contains an empty object id")
        } else {
            ValidationResult::valid()
        }
    }

    fn set_selection(&mut self, payload: &SelectionSetPayload) -> Result<(), CommandError> {
        self.state.selection = payload.object_ids.clone();
        Ok(())
    }

    fn clear_selection(&mut self) -> Result<(), CommandError> {
        self.state.selection.clear();
        Ok(())
    }

    fn validate_avatar_equip_asset(&self, payload: &AvatarEquipAssetPayload) -> ValidationResult {
        if !matches!(payload.avatar_id.as_str(), "current" | "avatar_001") {
            return err("UNKNOWN_AVATAR", "unknown avatar id");
        }
        if self.valid_assets.contains(&payload.asset_id) {
            ValidationResult::valid()
        } else {
            err("ASSET_NOT_FOUND", "asset not found")
        }
    }

    fn equip_asset(&mut self, payload: &AvatarEquipAssetPayload) -> Result<(), CommandError> {
        self.state.slots.insert(payload.slot, payload.asset_id.clone());
        Ok(())
    }

    fn validate_material_set_color(&self, payload: &MaterialSetColorPayload) -> ValidationResult {
        let in_range = floats3(payload.color_srgb)
            .iter()
            .all(|c| c.is_finite() && (0.0..=1.0).contains(c));
        if in_range {
            ValidationResult::valid()
        } else {
            err("COLOR_OUT_OF_RANGE", "color must be finite 0..=1")
        }
    }

    fn set_material_color(&mut self, payload: &MaterialSetColorPayload) -> Result<(), CommandError> {
        let MaterialTarget::AvatarSlot { slot, .. } = payload.target;
        self.state.colors.insert(slot, floats3(payload.color_srgb));
        Ok(())
    }

    fn validate_scene_set_visible(&self, payload: &SceneSetVisiblePayload) -> ValidationResult {
        if payload.object_id.trim().is_empty() {
            err("EMPTY_OBJECT_ID", "object id is empty")
        } else {
            ValidationResult::valid()
        }
    }

    fn scene_set_visible(&mut self, payload: &SceneSetVisiblePayload) -> Result<(), CommandError> {
        self.state.visible.insert(payload.object_id.clone(), payload.visible);
        Ok(())
    }

    fn validate_scene_set_locked(&self, payload: &SceneSetLockedPayload) -> ValidationResult {
        if payload.object_id.trim().is_empty() {
            err("EMPTY_OBJECT_ID", "object id is empty")
        } else {
            ValidationResult::valid()
        }
    }

    fn scene_set_locked(&mut self, payload: &SceneSetLockedPayload) -> Result<(), CommandError> {
        self.state.locked.insert(payload.object_id.clone(), payload.locked);
        Ok(())
    }

    fn validate_transform_set_translation(
        &self,
        payload: &TransformSetTranslationPayload,
    ) -> ValidationResult {
        if payload.object_id.trim().is_empty() {
            return err("EMPTY_OBJECT_ID", "object id is empty");
        }
        if floats3(payload.translation).iter().all(|v| v.is_finite()) {
            ValidationResult::valid()
        } else {
            err("INVALID_TRANSLATION", "translation must be finite")
        }
    }

    fn transform_set_translation(
        &mut self,
        payload: &TransformSetTranslationPayload,
    ) -> Result<(), CommandError> {
        self.state
            .translations
            .insert(payload.object_id.clone(), floats3(payload.translation));
        Ok(())
    }

    fn validate_transform_set_rotation(
        &self,
        payload: &TransformSetRotationPayload,
    ) -> ValidationResult {
        if payload.object_id.trim().is_empty() {
            return err("EMPTY_OBJECT_ID", "object id is empty");
        }
        let rotation = floats4(payload.rotation);
        let length = rotation.iter().map(|v| v * v).sum::<f32>().sqrt();
        if !rotation.iter().all(|v| v.is_finite()) {
            err("INVALID_ROTATION", "rotation must be finite")
        } else if (length - 1.0).abs() > 1e-3 {
            err("NON_UNIT_ROTATION", "rotation must be unit length")
        } else {
            ValidationResult::valid()
        }
    }

    fn transform_set_rotation(
        &mut self,
        payload: &TransformSetRotationPayload,
    ) -> Result<(), CommandError> {
        self.state
            .rotations
            .insert(payload.object_id.clone(), floats4(payload.rotation));
        Ok(())
    }

    fn validate_transform_set_scale(&self, payload: &TransformSetScalePayload) -> ValidationResult {
        if payload.object_id.trim().is_empty() {
            return err("EMPTY_OBJECT_ID", "object id is empty");
        }
        if floats3(payload.scale).iter().all(|v| v.is_finite() && *v > 0.0) {
            ValidationResult::valid()
        } else {
            err("INVALID_SCALE", "scale must be finite and positive")
        }
    }

    fn transform_set_scale(&mut self, payload: &TransformSetScalePayload) -> Result<(), CommandError> {
        self.state
            .scales
            .insert(payload.object_id.clone(), floats3(payload.scale));
        Ok(())
    }

    fn validate_transform_apply_delta(
        &self,
        payload: &TransformApplyDeltaPayload,
    ) -> ValidationResult {
        if payload.object_id.trim().is_empty() {
            return err("EMPTY_OBJECT_ID", "object id is empty");
        }
        if let Some(delta) = payload.delta_translation {
            if !floats3(delta).iter().all(|v| v.is_finite()) {
                return err("INVALID_TRANSLATION", "delta translation must be finite");
            }
        }
        if let Some(delta) = payload.delta_rotation_quat {
            let delta = floats4(delta);
            let length = delta.iter().map(|v| v * v).sum::<f32>().sqrt();
            if !delta.iter().all(|v| v.is_finite()) || (length - 1.0).abs() > 1e-3 {
                return err(
                    "INVALID_ROTATION",
                    "delta rotation must be a finite unit quaternion",
                );
            }
        }
        if let Some(delta) = payload.delta_scale {
            if !floats3(delta).iter().all(|v| v.is_finite()) {
                return err("INVALID_SCALE", "delta scale must be finite");
            }
        }
        ValidationResult::valid()
    }

    fn transform_apply_delta(
        &mut self,
        payload: &TransformApplyDeltaPayload,
    ) -> Result<(), CommandError> {
        if let Some(delta) = payload.delta_translation {
            let current = self
                .state
                .translations
                .entry(payload.object_id.clone())
                .or_insert([0.0, 0.0, 0.0]);
            for (current, delta) in current.iter_mut().zip(floats3(delta)) {
                *current += delta;
            }
        }
        if let Some(delta) = payload.delta_rotation_quat {
            let current = self
                .state
                .rotations
                .entry(payload.object_id.clone())
                .or_insert([0.0, 0.0, 0.0, 1.0]);
            *current = quat_normalize(quat_mul(floats4(delta), *current));
        }
        if let Some(delta) = payload.delta_scale {
            let current = self
                .state
                .scales
                .entry(payload.object_id.clone())
                .or_insert([1.0, 1.0, 1.0]);
            for (current, delta) in current.iter_mut().zip(floats3(delta)) {
                *current += delta;
            }
        }
        Ok(())
    }

    fn validate_transform_reset(&self, payload: &TransformResetPayload) -> ValidationResult {
        if payload.object_id.trim().is_empty() {
            err("EMPTY_OBJECT_ID", "object id is empty")
        } else {
            ValidationResult::valid()
        }
    }

    fn transform_reset(&mut self, payload: &TransformResetPayload) -> Result<(), CommandError> {
        self.state.translations.remove(&payload.object_id);
        self.state.rotations.remove(&payload.object_id);
        self.state.scales.remove(&payload.object_id);
        Ok(())
    }

    fn validate_editor_set_mode(&self, _payload: &EditorSetModePayload) -> ValidationResult {
        ValidationResult::valid()
    }

    fn set_editor_mode(&mut self, payload: &EditorSetModePayload) -> Result<(), CommandError> {
        self.state.mode = payload.mode;
        Ok(())
    }
}

fn env(payload: CommandPayload) -> CommandEnvelope {
    CommandEnvelope::new(
        "cmd_test".to_string(),
        "2026-05-16T00:00:00Z".to_string(),
        CommandSource::Test,
        payload,
    )
}

#[test]
fn invalid_payload_validation_fails() {
    let runtime = MemoryRuntime::default();
    let router = CommandRouter::default();
    let command = env(CommandPayload::SelectionSet(SelectionSetPayload {
        object_ids: vec!["".into()],
    }));
    let validation = router.validate(&runtime, &command);
    assert!(!validation.valid);
}

#[test]
fn selection_commands_are_undoable() {
    let mut runtime = MemoryRuntime::default();
    let mut router = CommandRouter::default();
    router
        .execute(
            &mut runtime,
            env(CommandPayload::SelectionSet(SelectionSetPayload {
                object_ids: vec!["avatar_001".into()],
            })),
        )
        .unwrap();
    assert_eq!(runtime.state.selection, vec!["avatar_001"]);
    router
        .execute(&mut runtime, env(CommandPayload::HistoryUndo))
        .unwrap();
    assert!(runtime.state.selection.is_empty());
    router
        .execute(&mut runtime, env(CommandPayload::HistoryRedo))
        .unwrap();
    assert_eq!(runtime.state.selection, vec!["avatar_001"]);
}

#[test]
fn equip_asset_and_material_color_undo_redo() {
    let mut runtime = MemoryRuntime::with_assets(&["top_001"]);
    let mut router = CommandRouter::default();
    router
        .execute(
            &mut runtime,
            env(CommandPayload::AvatarEquipAsset(AvatarEquipAssetPayload {
                avatar_id: "current".into(),
                slot: Slot::Top,
                asset_id: "top_001".into(),
            })),
        )
        .unwrap();
    router
        .execute(
            &mut runtime,
            env(CommandPayload::MaterialSetColor(MaterialSetColorPayload {
                target: MaterialTarget::AvatarSlot {
                    avatar_id: "current".into(),
                    slot: Slot::Top,
                },
                color_srgb: bits3([0.2, 0.3, 0.4]),
            })),
        )
        .unwrap();
    assert_eq!(runtime.state.slots.get(&Slot::Top).unwrap(), "top_001");
    assert_eq!(runtime.state.colors.get(&Slot::Top), Some(&[0.2, 0.3, 0.4]));
    router
        .execute(&mut runtime, env(CommandPayload::HistoryUndo))
        .unwrap();
    assert!(!runtime.state.colors.contains_key(&Slot::Top));
    router
        .execute(&mut runtime, env(CommandPayload::HistoryUndo))
        .unwrap();
    assert!(!runtime.state.slots.contains_key(&Slot::Top));
    router
        .execute(&mut runtime, env(CommandPayload::HistoryRedo))
        .unwrap();
    assert_eq!(runtime.state.slots.get(&Slot::Top).unwrap(), "top_001");
}

#[test]
fn execute_batch_stops_on_first_error() {
    let mut runtime = MemoryRuntime::with_assets(&["top_001"]);
    let mut router = CommandRouter::default();
    let result = router.execute_batch(
        &mut runtime,
        vec![
            env(CommandPayload::AvatarEquipAsset(AvatarEquipAssetPayload {
                avatar_id: "current".into(),
                slot: Slot::Top,
                asset_id: "top_001".into(),
            })),
            env(CommandPayload::AvatarEquipAsset(AvatarEquipAssetPayload {
                avatar_id: "current".into(),
                slot: Slot::Hair,
                asset_id: "missing".into(),
            })),
        ],
    );
    assert!(result.is_err());
    assert_eq!(router.command_history().len(), 1);
    assert_eq!(runtime.state.slots.get(&Slot::Top).unwrap(), "top_001");
}

#[test]
fn dry_run_does_not_mutate_or_record_history() {
    let runtime = MemoryRuntime::with_assets(&["top_001"]);
    let router: CommandRouter<MemoryState> = CommandRouter::default();
    let command = env(CommandPayload::AvatarEquipAsset(AvatarEquipAssetPayload {
        avatar_id: "current".into(),
        slot: Slot::Top,
        asset_id: "top_001".into(),
    }));
    let result = router.dry_run(&runtime, &command).unwrap();
    assert!(result.dry_run);
    assert!(runtime.state.slots.is_empty());
    assert_eq!(router.command_history().len(), 0);
}

#[test]
fn scene_set_visible_undoable() {
    let mut runtime = MemoryRuntime::default();
    let mut router = CommandRouter::default();
    router
        .execute(
            &mut runtime,
            env(CommandPayload::SceneSetVisible(SceneSetVisiblePayload {
                object_id: "mesh_top_001".into(),
                visible: false,
            })),
        )
        .unwrap();
    assert_eq!(runtime.state.visible.get("mesh_top_001"), Some(&false));
    router
        .execute(&mut runtime, env(CommandPayload::HistoryUndo))
        .unwrap();
    assert!(!runtime.state.visible.contains_key("mesh_top_001"));
    router
        .execute(&mut runtime, env(CommandPayload::HistoryRedo))
        .unwrap();
    assert_eq!(runtime.state.visible.get("mesh_top_001"), Some(&false));
}

#[test]
fn transform_set_translation_is_undoable() {
    let mut runtime = MemoryRuntime::default();
    let mut router = CommandRouter::default();
    router
        .execute(
            &mut runtime,
            env(CommandPayload::TransformSetTranslation(
                TransformSetTranslationPayload {
                    object_id: "mesh_top_001".into(),
                    translation: bits3([0.0, 1.5, 0.0]),
                },
            )),
        )
        .unwrap();
    assert_eq!(
        runtime.state.translations.get("mesh_top_001"),
        Some(&[0.0, 1.5, 0.0])
    );
    router
        .execute(&mut runtime, env(CommandPayload::HistoryUndo))
        .unwrap();
    assert!(!runtime.state.translations.contains_key("mesh_top_001"));
}

#[test]
fn transform_set_scale_is_undoable() {
    let mut runtime = MemoryRuntime::default();
    let mut router = CommandRouter::default();
    router
        .execute(
            &mut runtime,
            env(CommandPayload::TransformSetScale(TransformSetScalePayload {
                object_id: "mesh_top_001".into(),
                scale: bits3([1.2, 0.9, 1.1]),
            })),
        )
        .unwrap();
    assert_eq!(
        runtime.state.scales.get("mesh_top_001"),
        Some(&[1.2, 0.9, 1.1])
    );
    router
        .execute(&mut runtime, env(CommandPayload::HistoryUndo))
        .unwrap();
    assert!(!runtime.state.scales.contains_key("mesh_top_001"));
    router
        .execute(&mut runtime, env(CommandPayload::HistoryRedo))
        .unwrap();
    assert_eq!(
        runtime.state.scales.get("mesh_top_001"),
        Some(&[1.2, 0.9, 1.1])
    );
}

#[test]
fn transform_apply_delta_composes_existing_state() {
    let mut runtime = MemoryRuntime::default();
    let mut router = CommandRouter::default();
    runtime
        .state
        .translations
        .insert("bone_head".into(), [1.0, 2.0, 3.0]);
    runtime
        .state
        .rotations
        .insert("bone_head".into(), [0.0, 0.0, 0.0, 1.0]);
    runtime
        .state
        .scales
        .insert("bone_head".into(), [1.0, 1.0, 1.0]);

    router
        .execute(
            &mut runtime,
            env(CommandPayload::TransformApplyDelta(TransformApplyDeltaPayload {
                object_id: "bone_head".into(),
                delta_translation: Some(bits3([0.5, -0.25, 1.0])),
                delta_rotation_quat: Some(bits4(quat_normalize(quat_from_rotation_y(0.5)))),
                delta_scale: Some(bits3([0.25, 0.0, -0.25])),
            })),
        )
        .unwrap();

    assert_eq!(
        runtime.state.translations.get("bone_head"),
        Some(&[1.5, 1.75, 4.0])
    );
    assert_eq!(
        runtime.state.scales.get("bone_head"),
        Some(&[1.25, 1.0, 0.75])
    );
    let rotation = runtime.state.rotations.get("bone_head").copied().unwrap();
    let length = rotation.iter().map(|v| v * v).sum::<f32>().sqrt();
    assert!((length - 1.0).abs() < 1e-4);
}

#[test]
fn transform_reset_restores_identity_via_undo_redo() {
    let mut runtime = MemoryRuntime::default();
    let mut router = CommandRouter::default();
    runtime
        .state
        .translations
        .insert("mesh_top_001".into(), [0.1, 0.2, 0.3]);
    runtime
        .state
        .rotations
        .insert("mesh_top_001".into(), quat_from_rotation_x(0.25));
    runtime
        .state
        .scales
        .insert("mesh_top_001".into(), [1.4, 0.8, 1.1]);

    router
        .execute(
            &mut runtime,
            env(CommandPayload::TransformReset(TransformResetPayload {
                object_id: "mesh_top_001".into(),
            })),
        )
        .unwrap();

    assert!(!runtime.state.translations.contains_key("mesh_top_001"));
    assert!(!runtime.state.rotations.contains_key("mesh_top_001"));
    assert!(!runtime.state.scales.contains_key("mesh_top_001"));

    router
        .execute(&mut runtime, env(CommandPayload::HistoryUndo))
        .unwrap();
    assert_eq!(
        runtime.state.translations.get("mesh_top_001"),
        Some(&[0.1, 0.2, 0.3])
    );
    assert_eq!(
        runtime.state.scales.get("mesh_top_001"),
        Some(&[1.4, 0.8, 1.1])
    );

    router
        .execute(&mut runtime, env(CommandPayload::HistoryRedo))
        .unwrap();
    assert!(!runtime.state.translations.contains_key("mesh_top_001"));
    assert!(!runtime.state.rotations.contains_key("mesh_top_001"));
    assert!(!runtime.state.scales.contains_key("mesh_top_001"));
}

#[test]
fn editor_set_mode_executes_without_recording_undo() {
    let mut runtime = MemoryRuntime::default();
    let mut router = CommandRouter::default();
    router
        .execute(
            &mut runtime,
            env(CommandPayload::EditorSetMode(EditorSetModePayload {
                mode: EditorMode::Object,
            })),
        )
        .unwrap();
    assert_eq!(runtime.state.mode, EditorMode::Object);
    assert_eq!(router.command_history().len(), 0);
}

#[test]
fn name_payload_mismatch_is_rejected_with_both_names() {
    let mut runtime = MemoryRuntime::default();
    let mut router = CommandRouter::default();
    let mut command = env(CommandPayload::SelectionClear(Default::default()));
    command.name = avatar_studio::commands::CommandName::HistoryUndo;
    let err = router.execute(&mut runtime, command).unwrap_err();
    match err {
        CommandError::Validation(m) => assert_eq!(
            m,
            "command name history.undo does not match payload selection.clear"
        ),
        other => panic!("unexpected error {other:?}"),
    }
    assert_eq!(router.command_history().len(), 0);
}

#[test]
fn undo_on_empty_history_reports_nothing_to_undo() {
    let mut runtime = MemoryRuntime::default();
    let mut router: CommandRouter<MemoryState> = CommandRouter::default();
    let err = router
        .execute(&mut runtime, env(CommandPayload::HistoryUndo))
        .unwrap_err();
    assert!(matches!(err, CommandError::NothingToUndo));
    let err = router
        .execute(&mut runtime, env(CommandPayload::HistoryRedo))
        .unwrap_err();
    assert!(matches!(err, CommandError::NothingToRedo));
}

#[test]
fn legacy_payload_cannot_be_executed_but_can_be_recorded() {
    let mut runtime = MemoryRuntime::default();
    let mut router = CommandRouter::default();
    let legacy = env(CommandPayload::LegacyUndoable { label: "drag".into() });
    match router.execute(&mut runtime, legacy.clone()).unwrap_err() {
        CommandError::Unsupported(m) => assert_eq!(m, "legacy.undoable"),
        other => panic!("unexpected error {other:?}"),
    }
    let before = runtime.snapshot();
    runtime.state.selection = vec!["avatar_001".into()];
    let after = runtime.snapshot();
    router.record_external(legacy, before, after).unwrap();
    assert!(router.can_undo());
    router
        .execute(&mut runtime, env(CommandPayload::HistoryUndo))
        .unwrap();
    assert!(runtime.state.selection.is_empty());

    let wrong = env(CommandPayload::HistoryRedo);
    match router.record_external(wrong, MemoryState::default(), MemoryState::default()) {
        Err(CommandError::Unsupported(m)) => assert_eq!(
            m,
            "external records must use legacy.undoable, got history.redo"
        ),
        other => panic!("unexpected result {other:?}"),
    }
}

#[test]
fn history_capacity_drops_oldest_record() {
    let mut runtime = MemoryRuntime::default();
    let mut router = CommandRouter::default();
    for id in ["a", "b", "c"] {
        router
            .execute(
                &mut runtime,
                env(CommandPayload::SelectionSet(SelectionSetPayload {
                    object_ids: vec![id.into()],
                })),
            )
            .unwrap();
    }
    assert_eq!(router.command_history().len(), 3);
    let mut history: avatar_studio::commands::CommandHistory<u32> =
        avatar_studio::commands::CommandHistory::with_capacity(2);
    for n in 0..3u32 {
        history.push(avatar_studio::commands::UndoRecord {
            command: env(CommandPayload::HistoryUndo),
            before: n,
            after: n + 1,
        });
    }
    assert_eq!(history.len(), 2);
    assert_eq!(history.command_history()[0].before, 1);
    assert_eq!(history.command_history()[1].before, 2);
}

#[test]
fn finishing_steps_follow_the_runtime_answer() {
    let mut router: CommandRouter<u32> = CommandRouter::default();
    let select = env(CommandPayload::SelectionSet(SelectionSetPayload { object_ids: vec!["a".into()] }));
    let failed = router.finish_recorded(select.clone(), 1, Err(CommandError::Runtime("disk".into())));
    assert_eq!(failed.unwrap_err(), CommandError::Runtime("disk".into()));
    assert_eq!(router.command_history().len(), 0);
    let done = router.finish_recorded(select.clone(), 1, Ok(2)).unwrap();
    assert!(done.executed && !done.dry_run);
    assert_eq!(done.message, "command executed");
    assert_eq!(router.command_history().len(), 1);
    let record = avatar_studio::commands::UndoRecord { command: select.clone(), before: 1, after: 2 };
    let undo = env(CommandPayload::HistoryUndo);
    let refused = router.finish_undo(record.clone(), Err(CommandError::Runtime("locked".into())), &undo);
    assert_eq!(refused.unwrap_err(), CommandError::Runtime("locked".into()));
    assert_eq!(router.command_history().undone_len(), 0);
    let undone = router.finish_undo(record.clone(), Ok(()), &undo).unwrap();
    assert_eq!(undone.message, "undo complete");
    assert_eq!(router.command_history().undone_len(), 1);
    let redo = env(CommandPayload::HistoryRedo);
    let redone = router.finish_redo(record, Ok(()), &redo).unwrap();
    assert_eq!(redone.message, "redo complete");
    assert_eq!(router.command_history().len(), 2);
    assert_eq!(router.command_history().undone_len(), 1);
    let mut bounded: CommandRouter<u32> = CommandRouter::default();
    for i in 0..70u32 {
        bounded.finish_recorded(select.clone(), i, Ok(i + 1)).unwrap();
    }
    assert_eq!(bounded.command_history().len(), 64);
}
