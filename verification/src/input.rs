//! The key bindings: from a key press to the edit action that it stands for.

use crate::action::EditAction;
use crate::movement::Movement;
use vstd::prelude::*;

verus! {

/// The key that was pressed.
#[derive(Clone, Debug)]
pub enum KbKey {
    /// A key that produces text.
    Character(String),
    /// The backspace key.
    Backspace,
    /// The delete key.
    Delete,
    /// The left arrow.
    ArrowLeft,
    /// The right arrow.
    ArrowRight,
    /// The home key.
    Home,
    /// The end key.
    End,
    /// The tab key.
    Tab,
    /// Any other key.
    Other,
}

/// A key press with the modifiers that were down.
#[derive(Clone, Debug)]
pub struct KeyEvent {
    /// The key.
    pub key: KbKey,
    /// Whether shift was down.
    pub shift: bool,
    /// Whether the platform's command modifier was down.
    pub command: bool,
    /// Whether alt was down.
    pub alt: bool,
}

/// The action of an arrow, home or end key: shift extends the selection,
/// and alt binds nothing.
pub open spec fn motion(m: Movement, shift: bool, alt: bool) -> Option<EditAction> {
    if alt {
        None
    } else if shift {
        Some(EditAction::ModifySelection(m))
    } else {
        Some(EditAction::Move(m))
    }
}

/// The action bound to a key press whose key produces no text. The command
/// modifier turns an arrow into a movement by words and a delete into a
/// delete by words; home and end, and a delete with shift or alt, are not
/// bound with it.
pub open spec fn bound_action(event: KeyEvent) -> Option<EditAction> {
    match event.key {
        KbKey::ArrowLeft => motion(
            if event.command {
                Movement::LeftWord
            } else {
                Movement::Left
            },
            event.shift,
            event.alt,
        ),
        KbKey::ArrowRight => motion(
            if event.command {
                Movement::RightWord
            } else {
                Movement::Right
            },
            event.shift,
            event.alt,
        ),
        KbKey::Home => if event.command {
            None
        } else {
            motion(Movement::PrecedingLineBreak, event.shift, event.alt)
        },
        KbKey::End => if event.command {
            None
        } else {
            motion(Movement::NextLineBreak, event.shift, event.alt)
        },
        KbKey::Backspace => if event.shift || event.alt {
            None
        } else if event.command {
            Some(EditAction::JumpBackspace(Movement::LeftWord))
        } else {
            Some(EditAction::Backspace)
        },
        KbKey::Delete => if event.shift || event.alt {
            None
        } else if event.command {
            Some(EditAction::JumpDelete(Movement::RightWord))
        } else {
            Some(EditAction::Delete)
        },
        KbKey::Character(_) => None,
        KbKey::Tab => None,
        KbKey::Other => None,
    }
}

/// The text that a key press types: that of a character key pressed without
/// the command modifier.
pub open spec fn typed_text(event: KeyEvent) -> Option<Seq<char>> {
    match event.key {
        KbKey::Character(chars) => if event.command {
            None
        } else {
            Some(chars@)
        },
        _ => None,
    }
}

fn motion_action(m: Movement, shift: bool, alt: bool) -> (r: Option<EditAction>)
    ensures
        r == motion(m, shift, alt),
{
    if alt {
        None
    } else if shift {
        Some(EditAction::ModifySelection(m))
    } else {
        Some(EditAction::Move(m))
    }
}

/// The default key bindings.
#[derive(Clone, Copy, Debug)]
pub struct BasicTextInput {}

impl BasicTextInput {
    /// The default key bindings.
    pub fn new() -> (r: Self) {
        BasicTextInput {  }
    }

    /// The edit action that `event` stands for, if any: an insertion of the
    /// typed text, or the action bound to the key.
    pub fn handle_event(&self, event: &KeyEvent) -> (r: Option<EditAction>)
        ensures
            match typed_text(*event) {
                Some(chars) => r matches Some(EditAction::Insert(t)) && t@ == chars,
                None => r == bound_action(*event),
            },
    {
        match &event.key {
            KbKey::Character(chars) => {
                if event.command {
                    None
                } else {
                    Some(EditAction::Insert(chars.clone()))
                }
            },
            KbKey::ArrowLeft => {
                let m: Movement = if event.command {
                    Movement::LeftWord
                } else {
                    Movement::Left
                };
                motion_action(m, event.shift, event.alt)
            },
            KbKey::ArrowRight => {
                let m: Movement = if event.command {
                    Movement::RightWord
                } else {
                    Movement::Right
                };
                motion_action(m, event.shift, event.alt)
            },
            KbKey::Home => {
                if event.command {
                    None
                } else {
                    motion_action(Movement::PrecedingLineBreak, event.shift, event.alt)
                }
            },
            KbKey::End => {
                if event.command {
                    None
                } else {
                    motion_action(Movement::NextLineBreak, event.shift, event.alt)
                }
            },
            KbKey::Backspace => {
                if event.shift || event.alt {
                    None
                } else if event.command {
                    Some(EditAction::JumpBackspace(Movement::LeftWord))
                } else {
                    Some(EditAction::Backspace)
                }
            },
            KbKey::Delete => {
                if event.shift || event.alt {
                    None
                } else if event.command {
                    Some(EditAction::JumpDelete(Movement::RightWord))
                } else {
                    Some(EditAction::Delete)
                }
            },
            KbKey::Tab => None,
            KbKey::Other => None,
        }
    }
}

} // verus!
