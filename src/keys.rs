use vstd::prelude::*;

verus! {

/// Direction for cursor movement.
#[derive(Debug, Clone, Copy, PartialEq, Eq, Structural)]
pub enum Direction {
    Up,
    Down,
    Left,
    Right,
}

/// The key of a keyboard event, as far as the editor distinguishes keys.
#[derive(Debug, Clone, Copy, PartialEq, Eq, Structural)]
pub enum Key {
    Char(char),
    Enter,
    Backspace,
    Delete,
    Home,
    End,
    Up,
    Down,
    Left,
    Right,
    Other,
}

/// A keyboard event: the key and whether Control or Shift was held.
#[derive(Debug, Clone, Copy, PartialEq, Eq, Structural)]
pub struct KeyPress {
    pub key: Key,
    pub control: bool,
    pub shift: bool,
}

/// Key action that should be performed.
#[derive(Debug, Clone, Copy, PartialEq, Eq, Structural)]
pub enum KeyAction {
    Quit,
    Save,
    Open,
    NewFile,
    InsertChar(char),
    InsertNewline,
    DeleteBackward,
    DeleteForward,
    MoveCursor(Direction),
    GoToLineStart,
    GoToLineEnd,
    GoToDocumentStart,
    GoToDocumentEnd,
    DuplicateLine,
    DeleteLine,
    ToggleSyntaxHighlighting,
    ToggleLinting,
    GoToLine,
    NoAction,
}

/// The action bound to a key press.
pub open spec fn action_for(press: KeyPress) -> KeyAction {
    if press.control {
        match press.key {
            Key::Char('q') => KeyAction::Quit,
            Key::Char('s') => KeyAction::Save,
            Key::Char('o') => KeyAction::Open,
            Key::Char('h') => KeyAction::ToggleSyntaxHighlighting,
            Key::Char('e') => KeyAction::ToggleLinting,
            Key::Char('n') => KeyAction::NewFile,
            Key::Home => KeyAction::GoToDocumentStart,
            Key::End => KeyAction::GoToDocumentEnd,
            Key::Char('l') => KeyAction::GoToLine,
            Key::Char('d') => KeyAction::DuplicateLine,
            Key::Char('k') => KeyAction::DeleteLine,
            _ => KeyAction::NoAction,
        }
    } else {
        match press.key {
            Key::Char(c) => KeyAction::InsertChar(c),
            Key::Enter => KeyAction::InsertNewline,
            Key::Backspace => KeyAction::DeleteBackward,
            Key::Delete => KeyAction::DeleteForward,
            Key::Home => KeyAction::GoToLineStart,
            Key::End => KeyAction::GoToLineEnd,
            Key::Up => KeyAction::MoveCursor(Direction::Up),
            Key::Down => KeyAction::MoveCursor(Direction::Down),
            Key::Left => KeyAction::MoveCursor(Direction::Left),
            Key::Right => KeyAction::MoveCursor(Direction::Right),
            Key::Other => KeyAction::NoAction,
        }
    }
}

/// Key handler for processing keyboard events.
pub struct KeyHandler;

impl KeyHandler {
    pub fn new() -> (r: Self) {
        KeyHandler
    }

    /// Maps a key press to the action bound to it.
    pub fn handle_key_event(&self, press: KeyPress) -> (r: KeyAction)
        ensures
            r == action_for(press),
    {
        if press.control {
            match press.key {
                Key::Char('q') => KeyAction::Quit,
                Key::Char('s') => KeyAction::Save,
                Key::Char('o') => KeyAction::Open,
                Key::Char('h') => KeyAction::ToggleSyntaxHighlighting,
                Key::Char('e') => KeyAction::ToggleLinting,
                Key::Char('n') => KeyAction::NewFile,
                Key::Home => KeyAction::GoToDocumentStart,
                Key::End => KeyAction::GoToDocumentEnd,
                Key::Char('l') => KeyAction::GoToLine,
                Key::Char('d') => KeyAction::DuplicateLine,
                Key::Char('k') => KeyAction::DeleteLine,
                _ => KeyAction::NoAction,
            }
        } else {
            match press.key {
                Key::Char(c) => KeyAction::InsertChar(c),
                Key::Enter => KeyAction::InsertNewline,
                Key::Backspace => KeyAction::DeleteBackward,
                Key::Delete => KeyAction::DeleteForward,
                Key::Home => KeyAction::GoToLineStart,
                Key::End => KeyAction::GoToLineEnd,
                Key::Up => KeyAction::MoveCursor(Direction::Up),
                Key::Down => KeyAction::MoveCursor(Direction::Down),
                Key::Left => KeyAction::MoveCursor(Direction::Left),
                Key::Right => KeyAction::MoveCursor(Direction::Right),
                Key::Other => KeyAction::NoAction,
            }
        }
    }
}

impl Default for KeyHandler {
    fn default() -> (r: Self) {
        KeyHandler
    }
}

} // verus!
