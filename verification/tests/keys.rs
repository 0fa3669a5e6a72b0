use crossterm::event::KeyCode;
use safm::commands::Operation;
use safm::keys::command_for;

#[test]
fn bound_keys() {
    assert_eq!(command_for(KeyCode::Char('q')), Some(Operation::Quit));
    assert_eq!(command_for(KeyCode::Char('j')), Some(Operation::MoveDown));
    assert_eq!(command_for(KeyCode::Char('k')), Some(Operation::MoveUp));
    assert_eq!(command_for(KeyCode::Char('l')), Some(Operation::EnterDirectory));
    assert_eq!(command_for(KeyCode::Char('h')), Some(Operation::GoToParent));
    assert_eq!(command_for(KeyCode::Enter), Some(Operation::OpenFile));
}

#[test]
fn unbound_keys_are_ignored() {
    assert_eq!(command_for(KeyCode::Char('x')), None);
    assert_eq!(command_for(KeyCode::Char('Q')), None);
    assert_eq!(command_for(KeyCode::Esc), None);
    assert_eq!(command_for(KeyCode::Up), None);
    assert_eq!(command_for(KeyCode::F(1)), None);
    assert_eq!(command_for(KeyCode::Tab), None);
}
