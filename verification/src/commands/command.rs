//! Command envelopes and payloads.
//!
//! Float-valued fields (colors, translations, rotations, scales) are carried
//! as the IEEE-754 bit patterns of their `f32` components: the command layer
//! stores and forwards them and never computes with them.

use vstd::prelude::*;

use crate::editor::EditorMode;
use crate::slots::Slot;

verus! {

/// Who issued a command.
#[derive(Debug, Clone, Copy, PartialEq, Eq, Structural)]
pub enum CommandSource {
    Ui,
    AiPrompt,
    Mcp,
    Script,
    Test,
    Replay,
}

/// The name of a command, as written on the wire.
#[derive(Debug, Clone, Copy, PartialEq, Eq, Structural)]
pub enum CommandName {
    SelectionSet,
    SelectionClear,
    AvatarEquipAsset,
    MaterialSetColor,
    SceneSetVisible,
    SceneSetLocked,
    TransformSetTranslation,
    TransformSetRotation,
    TransformSetScale,
    TransformApplyDelta,
    TransformReset,
    EditorSetMode,
    HistoryUndo,
    HistoryRedo,
    LegacyUndoable,
}

/// Wire name of a command.
pub open spec fn command_name_str(n: CommandName) -> Seq<char> {
    match n {
        CommandName::SelectionSet => "selection.set"@,
        CommandName::SelectionClear => "selection.clear"@,
        CommandName::AvatarEquipAsset => "avatar.equip_asset"@,
        CommandName::MaterialSetColor => "material.set_color"@,
        CommandName::SceneSetVisible => "scene.set_visible"@,
        CommandName::SceneSetLocked => "scene.set_locked"@,
        CommandName::TransformSetTranslation => "transform.set_translation"@,
        CommandName::TransformSetRotation => "transform.set_rotation"@,
        CommandName::TransformSetScale => "transform.set_scale"@,
        CommandName::TransformApplyDelta => "transform.apply_delta"@,
        CommandName::TransformReset => "transform.reset"@,
        CommandName::EditorSetMode => "editor.set_mode"@,
        CommandName::HistoryUndo => "history.undo"@,
        CommandName::HistoryRedo => "history.redo"@,
        CommandName::LegacyUndoable => "legacy.undoable"@,
    }
}

impl CommandName {
    pub fn as_str(self) -> (s: &'static str)
        ensures
            s@ == command_name_str(self),
    {
        match self {
            CommandName::SelectionSet => "selection.set",
            CommandName::SelectionClear => "selection.clear",
            CommandName::AvatarEquipAsset => "avatar.equip_asset",
            CommandName::MaterialSetColor => "material.set_color",
            CommandName::SceneSetVisible => "scene.set_visible",
            CommandName::SceneSetLocked => "scene.set_locked",
            CommandName::TransformSetTranslation => "transform.set_translation",
            CommandName::TransformSetRotation => "transform.set_rotation",
            CommandName::TransformSetScale => "transform.set_scale",
            CommandName::TransformApplyDelta => "transform.apply_delta",
            CommandName::TransformReset => "transform.reset",
            CommandName::EditorSetMode => "editor.set_mode",
            CommandName::HistoryUndo => "history.undo",
            CommandName::HistoryRedo => "history.redo",
            CommandName::LegacyUndoable => "legacy.undoable",
        }
    }
}

/// Wire names of different commands differ.
pub proof fn law_command_names_distinct(a: CommandName, b: CommandName)
    requires
        a != b,
    ensures
        command_name_str(a) != command_name_str(b),
{
    reveal_strlit("selection.set");
    reveal_strlit("selection.clear");
    reveal_strlit("avatar.equip_asset");
    reveal_strlit("material.set_color");
    reveal_strlit("scene.set_visible");
    reveal_strlit("scene.set_locked");
    reveal_strlit("transform.set_translation");
    reveal_strlit("transform.set_rotation");
    reveal_strlit("transform.set_scale");
    reveal_strlit("transform.apply_delta");
    reveal_strlit("transform.reset");
    reveal_strlit("editor.set_mode");
    reveal_strlit("history.undo");
    reveal_strlit("history.redo");
    reveal_strlit("legacy.undoable");
    assert("selection.set"@.len() == 13 && "selection.set"@[0] == 's' && "selection.set"@[10] == 's' && "selection.set"@[12] == 't' && "selection.set"@[11] == 'e');
    assert("selection.clear"@.len() == 15 && "selection.clear"@[0] == 's' && "selection.clear"@[10] == 'c' && "selection.clear"@[14] == 'r' && "selection.clear"@[14] == 'r');
    assert("avatar.equip_asset"@.len() == 18 && "avatar.equip_asset"@[0] == 'a' && "avatar.equip_asset"@[7] == 'e' && "avatar.equip_asset"@[17] == 't' && "avatar.equip_asset"@[11] == 'p');
    assert("material.set_color"@.len() == 18 && "material.set_color"@[0] == 'm' && "material.set_color"@[9] == 's' && "material.set_color"@[17] == 'r' && "material.set_color"@[13] == 'c');
    assert("scene.set_visible"@.len() == 17 && "scene.set_visible"@[0] == 's' && "scene.set_visible"@[6] == 's' && "scene.set_visible"@[16] == 'e' && "scene.set_visible"@[10] == 'v');
    assert("scene.set_locked"@.len() == 16 && "scene.set_locked"@[0] == 's' && "scene.set_locked"@[6] == 's' && "scene.set_locked"@[15] == 'd' && "scene.set_locked"@[10] == 'l');
    assert("transform.set_translation"@.len() == 25 && "transform.set_translation"@[0] == 't' && "transform.set_translation"@[10] == 's' && "transform.set_translation"@[24] == 'n' && "transform.set_translation"@[14] == 't');
    assert("transform.set_rotation"@.len() == 22 && "transform.set_rotation"@[0] == 't' && "transform.set_rotation"@[10] == 's' && "transform.set_rotation"@[21] == 'n' && "transform.set_rotation"@[14] == 'r');
    assert("transform.set_scale"@.len() == 19 && "transform.set_scale"@[0] == 't' && "transform.set_scale"@[10] == 's' && "transform.set_scale"@[18] == 'e' && "transform.set_scale"@[14] == 's');
    assert("transform.apply_delta"@.len() == 21 && "transform.apply_delta"@[0] == 't' && "transform.apply_delta"@[10] == 'a' && "transform.apply_delta"@[20] == 'a' && "transform.apply_delta"@[14] == 'y');
    assert("transform.reset"@.len() == 15 && "transform.reset"@[0] == 't' && "transform.reset"@[10] == 'r' && "transform.reset"@[14] == 't' && "transform.reset"@[14] == 't');
    assert("editor.set_mode"@.len() == 15 && "editor.set_mode"@[0] == 'e' && "editor.set_mode"@[7] == 's' && "editor.set_mode"@[14] == 'e' && "editor.set_mode"@[11] == 'm');
    assert("history.undo"@.len() == 12 && "history.undo"@[0] == 'h' && "history.undo"@[8] == 'u' && "history.undo"@[11] == 'o' && "history.undo"@[10] == 'd');
    assert("history.redo"@.len() == 12 && "history.redo"@[0] == 'h' && "history.redo"@[8] == 'r' && "history.redo"@[11] == 'o' && "history.redo"@[10] == 'd');
    assert("legacy.undoable"@.len() == 15 && "legacy.undoable"@[0] == 'l' && "legacy.undoable"@[7] == 'u' && "legacy.undoable"@[14] == 'e' && "legacy.undoable"@[11] == 'a');
}

#[derive(Debug, Clone)]
pub struct SelectionSetPayload {
    pub object_ids: Vec<String>,
}

#[derive(Debug, Clone, Copy, PartialEq, Eq, Structural)]
pub struct SelectionClearPayload {}

impl Default for SelectionClearPayload {
    fn default() -> (p: SelectionClearPayload)
        ensures
            p == (SelectionClearPayload {}),
    {
        SelectionClearPayload {}
    }
}

#[derive(Debug, Clone)]
pub struct AvatarEquipAssetPayload {
    pub avatar_id: String,
    pub slot: Slot,
    pub asset_id: String,
}

/// sRGB color, one `f32` bit pattern per channel.
#[derive(Debug, Clone)]
pub struct MaterialSetColorPayload {
    pub target: MaterialTarget,
    pub color_srgb: [u32; 3],
}

#[derive(Debug, Clone)]
pub enum MaterialTarget {
    AvatarSlot { avatar_id: String, slot: Slot },
}

#[derive(Debug, Clone)]
pub struct SceneSetVisiblePayload {
    pub object_id: String,
    pub visible: bool,
}

#[derive(Debug, Clone)]
pub struct SceneSetLockedPayload {
    pub object_id: String,
    pub locked: bool,
}

#[derive(Debug, Clone)]
pub struct TransformSetTranslationPayload {
    pub object_id: String,
    pub translation: [u32; 3],
}

/// Rotation quaternion `[x, y, z, w]`.
#[derive(Debug, Clone)]
pub struct TransformSetRotationPayload {
    pub object_id: String,
    pub rotation: [u32; 4],
}

#[derive(Debug, Clone)]
pub struct TransformSetScalePayload {
    pub object_id: String,
    pub scale: [u32; 3],
}

#[derive(Debug, Clone)]
pub struct TransformApplyDeltaPayload {
    pub object_id: String,
    pub delta_translation: Option<[u32; 3]>,
    pub delta_rotation_quat: Option<[u32; 4]>,
    pub delta_scale: Option<[u32; 3]>,
}

#[derive(Debug, Clone)]
pub struct TransformResetPayload {
    pub object_id: String,
}

#[derive(Debug, Clone, Copy, PartialEq, Eq, Structural)]
pub struct EditorSetModePayload {
    pub mode: EditorMode,
}

/// What a command asks for.
#[derive(Debug, Clone)]
pub enum CommandPayload {
    SelectionSet(SelectionSetPayload),
    SelectionClear(SelectionClearPayload),
    AvatarEquipAsset(AvatarEquipAssetPayload),
    MaterialSetColor(MaterialSetColorPayload),
    SceneSetVisible(SceneSetVisiblePayload),
    SceneSetLocked(SceneSetLockedPayload),
    TransformSetTranslation(TransformSetTranslationPayload),
    TransformSetRotation(TransformSetRotationPayload),
    TransformSetScale(TransformSetScalePayload),
    TransformApplyDelta(TransformApplyDeltaPayload),
    TransformReset(TransformResetPayload),
    EditorSetMode(EditorSetModePayload),
    HistoryUndo,
    HistoryRedo,
    LegacyUndoable { label: String },
}

/// The command name that matches a payload.
pub open spec fn payload_name(p: CommandPayload) -> CommandName {
    match p {
        CommandPayload::SelectionSet(_) => CommandName::SelectionSet,
        CommandPayload::SelectionClear(_) => CommandName::SelectionClear,
        CommandPayload::AvatarEquipAsset(_) => CommandName::AvatarEquipAsset,
        CommandPayload::MaterialSetColor(_) => CommandName::MaterialSetColor,
        CommandPayload::SceneSetVisible(_) => CommandName::SceneSetVisible,
        CommandPayload::SceneSetLocked(_) => CommandName::SceneSetLocked,
        CommandPayload::TransformSetTranslation(_) => CommandName::TransformSetTranslation,
        CommandPayload::TransformSetRotation(_) => CommandName::TransformSetRotation,
        CommandPayload::TransformSetScale(_) => CommandName::TransformSetScale,
        CommandPayload::TransformApplyDelta(_) => CommandName::TransformApplyDelta,
        CommandPayload::TransformReset(_) => CommandName::TransformReset,
        CommandPayload::EditorSetMode(_) => CommandName::EditorSetMode,
        CommandPayload::HistoryUndo => CommandName::HistoryUndo,
        CommandPayload::HistoryRedo => CommandName::HistoryRedo,
        CommandPayload::LegacyUndoable { .. } => CommandName::LegacyUndoable,
    }
}

impl CommandPayload {
    pub fn name(&self) -> (n: CommandName)
        ensures
            n == payload_name(*self),
    {
        match self {
            CommandPayload::SelectionSet(_) => CommandName::SelectionSet,
            CommandPayload::SelectionClear(_) => CommandName::SelectionClear,
            CommandPayload::AvatarEquipAsset(_) => CommandName::AvatarEquipAsset,
            CommandPayload::MaterialSetColor(_) => CommandName::MaterialSetColor,
            CommandPayload::SceneSetVisible(_) => CommandName::SceneSetVisible,
            CommandPayload::SceneSetLocked(_) => CommandName::SceneSetLocked,
            CommandPayload::TransformSetTranslation(_) => CommandName::TransformSetTranslation,
            CommandPayload::TransformSetRotation(_) => CommandName::TransformSetRotation,
            CommandPayload::TransformSetScale(_) => CommandName::TransformSetScale,
            CommandPayload::TransformApplyDelta(_) => CommandName::TransformApplyDelta,
            CommandPayload::TransformReset(_) => CommandName::TransformReset,
            CommandPayload::EditorSetMode(_) => CommandName::EditorSetMode,
            CommandPayload::HistoryUndo => CommandName::HistoryUndo,
            CommandPayload::HistoryRedo => CommandName::HistoryRedo,
            CommandPayload::LegacyUndoable { .. } => CommandName::LegacyUndoable,
        }
    }
}

/// A command with its identity, provenance and payload.
#[derive(Debug, Clone)]
pub struct CommandEnvelope {
    pub id: String,
    pub version: u32,
    pub name: CommandName,
    pub timestamp: String,
    pub source: CommandSource,
    pub payload: CommandPayload,
}

impl CommandEnvelope {
    /// A version-1 envelope whose name is the payload's.
    pub fn new(id: String, timestamp: String, source: CommandSource, payload: CommandPayload) -> (c: CommandEnvelope)
        ensures
            c.id == id,
            c.version == 1,
            c.name == payload_name(payload),
            c.timestamp == timestamp,
            c.source == source,
            c.payload == payload,
    {
        let name = payload.name();
        CommandEnvelope { id, version: 1, name, timestamp, source, payload }
    }

    /// Whether the envelope's name agrees with its payload.
    pub open spec fn name_matches(&self) -> bool {
        self.name == payload_name(self.payload)
    }
}

/// What running (or dry-running) a command reports back.
#[derive(Debug, Clone)]
pub struct CommandResult {
    pub command_id: String,
    pub command_name: CommandName,
    pub executed: bool,
    pub dry_run: bool,
    pub message: String,
}

impl CommandResult {
    /// Holds when this result reports `command` with the given flags and
    /// message.
    pub open spec fn reports(&self, command: CommandEnvelope, executed: bool, dry_run: bool, message: Seq<char>) -> bool {
        &&& self.command_id@ == command.id@
        &&& self.command_name == command.name
        &&& self.executed == executed
        &&& self.dry_run == dry_run
        &&& self.message@ == message
    }

    pub fn new(command: &CommandEnvelope, executed: bool, dry_run: bool, message: String) -> (r: CommandResult)
        ensures
            r.reports(*command, executed, dry_run, message@),
    {
        CommandResult {
            command_id: command.id.clone(),
            command_name: command.name,
            executed,
            dry_run,
            message,
        }
    }
}

} // verus!
