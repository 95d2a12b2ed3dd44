//! The interface an application implements so the router can validate,
//! apply, snapshot and restore its state.

use vstd::prelude::*;

use crate::commands::command::{
    AvatarEquipAssetPayload, CommandPayload, EditorSetModePayload, SelectionClearPayload, MaterialSetColorPayload,
    SceneSetLockedPayload, SceneSetVisiblePayload, SelectionSetPayload,
    TransformApplyDeltaPayload, TransformResetPayload, TransformSetRotationPayload,
    TransformSetScalePayload, TransformSetTranslationPayload,
};
use crate::commands::error::CommandError;
use crate::commands::validation::ValidationResult;

verus! {

/// An editable application state driven by commands.
///
/// Implementors promise that `snapshot` captures the current state, that
/// `restore_snapshot` answers what [`CommandRuntime::restore_outcome`] says
/// and on success brings the state back to the snapshot, that each
/// validator answers what [`CommandRuntime::validation_of`] says of its
/// payload, and that each mutator's answer and the state it leaves are
/// related to the state before by [`CommandRuntime::answers`]. A mutator
/// may depend on more than the state (an asset read from disk), so its
/// answer is a relation; a restore only puts a snapshot back, so its answer
/// is a function of the state and the snapshot.
pub trait CommandRuntime {
    type Snapshot: Clone;

    /// The state of the runtime, as a snapshot would capture it.
    spec fn state(&self) -> Self::Snapshot;

    /// The verdict the runtime's validator gives on `payload` in this state.
    spec fn validation_of(&self, payload: CommandPayload) -> ValidationResult;

    /// Whether the mutator for `payload`, run in this state, may answer `r`
    /// and leave `after`.
    spec fn answers(&self, payload: CommandPayload, r: Result<(), CommandError>, after: &Self) -> bool;

    /// What restoring `snapshot` in this state answers.
    spec fn restore_outcome(&self, snapshot: Self::Snapshot) -> Result<(), CommandError>;

    fn snapshot(&self) -> (s: Self::Snapshot)
        ensures
            s == self.state(),
    ;

    fn restore_snapshot(&mut self, snapshot: &Self::Snapshot) -> (r: Result<(), CommandError>)
        ensures
            r == old(self).restore_outcome(*snapshot),
            r is Ok ==> final(self).state() == *snapshot,
    ;

    fn validate_selection_set(&self, payload: &SelectionSetPayload) -> (r: ValidationResult)
        ensures
            r == self.validation_of(CommandPayload::SelectionSet(*payload)),
    ;

    fn set_selection(&mut self, payload: &SelectionSetPayload) -> (r: Result<(), CommandError>)
        ensures
            old(self).answers(CommandPayload::SelectionSet(*payload), r, &*final(self)),
    ;

    fn clear_selection(&mut self) -> (r: Result<(), CommandError>)
        ensures
            old(self).answers(CommandPayload::SelectionClear(SelectionClearPayload {}), r, &*final(self)),
    ;

    fn validate_avatar_equip_asset(&self, payload: &AvatarEquipAssetPayload) -> (r: ValidationResult)
        ensures
            r == self.validation_of(CommandPayload::AvatarEquipAsset(*payload)),
    ;

    fn equip_asset(&mut self, payload: &AvatarEquipAssetPayload) -> (r: Result<(), CommandError>)
        ensures
            old(self).answers(CommandPayload::AvatarEquipAsset(*payload), r, &*final(self)),
    ;

    fn validate_material_set_color(&self, payload: &MaterialSetColorPayload) -> (r: ValidationResult)
        ensures
            r == self.validation_of(CommandPayload::MaterialSetColor(*payload)),
    ;

    fn set_material_color(&mut self, payload: &MaterialSetColorPayload) -> (r: Result<(), CommandError>)
        ensures
            old(self).answers(CommandPayload::MaterialSetColor(*payload), r, &*final(self)),
    ;

    fn validate_scene_set_visible(&self, payload: &SceneSetVisiblePayload) -> (r: ValidationResult)
        ensures
            r == self.validation_of(CommandPayload::SceneSetVisible(*payload)),
    ;

    fn scene_set_visible(&mut self, payload: &SceneSetVisiblePayload) -> (r: Result<(), CommandError>)
        ensures
            old(self).answers(CommandPayload::SceneSetVisible(*payload), r, &*final(self)),
    ;

    fn validate_scene_set_locked(&self, payload: &SceneSetLockedPayload) -> (r: ValidationResult)
        ensures
            r == self.validation_of(CommandPayload::SceneSetLocked(*payload)),
    ;

    fn scene_set_locked(&mut self, payload: &SceneSetLockedPayload) -> (r: Result<(), CommandError>)
        ensures
            old(self).answers(CommandPayload::SceneSetLocked(*payload), r, &*final(self)),
    ;

    fn validate_transform_set_translation(&self, payload: &TransformSetTranslationPayload) -> (r: ValidationResult)
        ensures
            r == self.validation_of(CommandPayload::TransformSetTranslation(*payload)),
    ;

    fn transform_set_translation(&mut self, payload: &TransformSetTranslationPayload) -> (r: Result<(), CommandError>)
        ensures
            old(self).answers(CommandPayload::TransformSetTranslation(*payload), r, &*final(self)),
    ;

    fn validate_transform_set_rotation(&self, payload: &TransformSetRotationPayload) -> (r: ValidationResult)
        ensures
            r == self.validation_of(CommandPayload::TransformSetRotation(*payload)),
    ;

    fn transform_set_rotation(&mut self, payload: &TransformSetRotationPayload) -> (r: Result<(), CommandError>)
        ensures
            old(self).answers(CommandPayload::TransformSetRotation(*payload), r, &*final(self)),
    ;

    fn validate_transform_set_scale(&self, payload: &TransformSetScalePayload) -> (r: ValidationResult)
        ensures
            r == self.validation_of(CommandPayload::TransformSetScale(*payload)),
    ;

    fn transform_set_scale(&mut self, payload: &TransformSetScalePayload) -> (r: Result<(), CommandError>)
        ensures
            old(self).answers(CommandPayload::TransformSetScale(*payload), r, &*final(self)),
    ;

    fn validate_transform_apply_delta(&self, payload: &TransformApplyDeltaPayload) -> (r: ValidationResult)
        ensures
            r == self.validation_of(CommandPayload::TransformApplyDelta(*payload)),
    ;

    fn transform_apply_delta(&mut self, payload: &TransformApplyDeltaPayload) -> (r: Result<(), CommandError>)
        ensures
            old(self).answers(CommandPayload::TransformApplyDelta(*payload), r, &*final(self)),
    ;

    fn validate_transform_reset(&self, payload: &TransformResetPayload) -> (r: ValidationResult)
        ensures
            r == self.validation_of(CommandPayload::TransformReset(*payload)),
    ;

    fn transform_reset(&mut self, payload: &TransformResetPayload) -> (r: Result<(), CommandError>)
        ensures
            old(self).answers(CommandPayload::TransformReset(*payload), r, &*final(self)),
    ;

    fn validate_editor_set_mode(&self, payload: &EditorSetModePayload) -> (r: ValidationResult)
        ensures
            r == self.validation_of(CommandPayload::EditorSetMode(*payload)),
    ;

    fn set_editor_mode(&mut self, payload: &EditorSetModePayload) -> (r: Result<(), CommandError>)
        ensures
            old(self).answers(CommandPayload::EditorSetMode(*payload), r, &*final(self)),
    ;
}

} // verus!
