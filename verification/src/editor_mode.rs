//! The editor's modes.

use vstd::prelude::*;

verus! {

/// The editor's mode.
#[derive(Debug, Clone, Copy, PartialEq, Eq, Structural)]
pub enum EditorMode {
    Form,
    Text,
    Preview,
}

pub open spec fn mode_name(mode: EditorMode) -> Seq<char> {
    match mode {
        EditorMode::Form => "Form"@,
        EditorMode::Text => "Text"@,
        EditorMode::Preview => "Preview"@,
    }
}

} // verus!
