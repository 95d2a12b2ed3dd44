//! Serializable command layer for the UI, scripts and agents: every edit is
//! a command that is validated, run against a runtime, and recorded for
//! undo and redo.

pub mod command;
pub mod error;
pub mod history;
pub mod router;
pub mod runtime;
pub mod validation;

pub use command::{
    AvatarEquipAssetPayload, CommandEnvelope, CommandName, CommandPayload, CommandResult,
    CommandSource, EditorSetModePayload, MaterialSetColorPayload, MaterialTarget,
    SceneSetLockedPayload, SceneSetVisiblePayload, SelectionClearPayload, SelectionSetPayload,
    TransformApplyDeltaPayload, TransformResetPayload, TransformSetRotationPayload,
    TransformSetScalePayload, TransformSetTranslationPayload,
};
pub use error::CommandError;
pub use history::{CommandHistory, UndoRecord};
pub use router::CommandRouter;
pub use runtime::CommandRuntime;
pub use validation::{ValidationResult, ValidationSeverity, ValidationWarning};
