//! The fixed key bindings.

use crate::commands::Operation;
use crossterm::event::KeyCode;
use crossterm::event::MediaKeyCode;
use crossterm::event::ModifierKeyCode;
use vstd::prelude::*;

verus! {

/// `crossterm::event::KeyCode`, with its variants open to the verifier.
#[verifier::external_type_specification]
pub struct ExKeyCode(KeyCode);

/// `crossterm::event::MediaKeyCode`, carried through unread.
#[verifier::external_type_specification]
#[verifier::external_body]
pub struct ExMediaKeyCode(MediaKeyCode);

/// `crossterm::event::ModifierKeyCode`, carried through unread.
#[verifier::external_type_specification]
#[verifier::external_body]
pub struct ExModifierKeyCode(ModifierKeyCode);

/// The binding of each key: `None` for a key that is bound to nothing.
pub open spec fn binding(key: KeyCode) -> Option<Operation> {
    match key {
        KeyCode::Char(c) => if c == 'q' {
            Some(Operation::Quit)
        } else if c == 'j' {
            Some(Operation::MoveDown)
        } else if c == 'k' {
            Some(Operation::MoveUp)
        } else if c == 'l' {
            Some(Operation::EnterDirectory)
        } else if c == 'h' {
            Some(Operation::GoToParent)
        } else {
            None
        },
        KeyCode::Enter => Some(Operation::OpenFile),
        _ => None,
    }
}

/// Looks a key up in the fixed table.
pub fn command_for(key: KeyCode) -> (op: Option<Operation>)
    ensures
        op == binding(key),
{
    match key {
        KeyCode::Char('q') => Some(Operation::Quit),
        KeyCode::Char('j') => Some(Operation::MoveDown),
        KeyCode::Char('k') => Some(Operation::MoveUp),
        KeyCode::Char('l') => Some(Operation::EnterDirectory),
        KeyCode::Char('h') => Some(Operation::GoToParent),
        KeyCode::Enter => Some(Operation::OpenFile),
        _ => None,
    }
}

} // verus!
