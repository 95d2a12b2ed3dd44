//! Errors of the command layer.

use vstd::prelude::*;

verus! {

#[derive(Debug, Clone, PartialEq)]
pub enum CommandError {
    /// The command failed validation; carries the first error message.
    Validation(String),
    NamePayloadMismatch { name: String, payload: String },
    Unsupported(String),
    /// The runtime refused to apply the command.
    Runtime(String),
    NothingToUndo,
    NothingToRedo,
    Serialize(String),
    Deserialize(String),
}

} // verus!
