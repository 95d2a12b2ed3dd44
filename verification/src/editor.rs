//! Editor modes the desktop shell can be in. The mode is stored in the
//! settings file and set through the `editor.set_mode` command.

use vstd::prelude::*;

verus! {

#[derive(Debug, Clone, Copy, PartialEq, Eq, Hash, Structural)]
pub enum EditorMode {
    Character,
    Object,
    Material,
    Asset,
    Ai,
}

pub open spec fn editor_mode_name(m: EditorMode) -> Seq<char> {
    match m {
        EditorMode::Character => "character"@,
        EditorMode::Object => "object"@,
        EditorMode::Material => "material"@,
        EditorMode::Asset => "asset"@,
        EditorMode::Ai => "ai"@,
    }
}

impl Default for EditorMode {
    fn default() -> (m: EditorMode)
        ensures
            m == EditorMode::Character,
    {
        EditorMode::Character
    }
}

impl EditorMode {
    /// Every mode, in the order the mode bar shows them.
    pub const ALL: [EditorMode; 5] = [
        EditorMode::Character,
        EditorMode::Object,
        EditorMode::Material,
        EditorMode::Asset,
        EditorMode::Ai,
    ];

    /// The snake_case name used in settings and command payloads.
    pub fn as_str(self) -> (s: &'static str)
        ensures
            s@ == editor_mode_name(self),
    {
        match self {
            EditorMode::Character => "character",
            EditorMode::Object => "object",
            EditorMode::Material => "material",
            EditorMode::Asset => "asset",
            EditorMode::Ai => "ai",
        }
    }
}

} // verus!
