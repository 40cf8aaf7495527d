//! The units of intent that the editor is asked to carry out.

use crate::movement::Movement;
use vstd::prelude::*;

verus! {

/// Where a pointer event fell in the text, and whether shift was held.
#[derive(Clone, Copy, Debug, PartialEq, Eq, Structural)]
pub struct MouseAction {
    /// The line of the position; always 0 for now.
    pub row: usize,
    /// The byte offset of the position.
    pub column: usize,
    /// Whether the shift modifier was down.
    pub shift: bool,
}

/// One edit, movement or pointer gesture.
#[derive(Clone, Debug)]
pub enum EditAction {
    /// Typed text.
    Insert(String),
    /// Text from the clipboard.
    Paste(String),
    /// Delete backward.
    Backspace,
    /// Delete forward.
    Delete,
    /// Delete forward as far as a movement goes.
    JumpDelete(Movement),
    /// Delete backward as far as a movement goes.
    JumpBackspace(Movement),
    /// Move the caret.
    Move(Movement),
    /// Move the active end of the selection.
    ModifySelection(Movement),
    /// A click.
    Click(MouseAction),
    /// A drag.
    Drag(MouseAction),
}

} // verus!
