//! Key events and what they mean to the editor.

use vstd::prelude::*;

verus! {

/// One of the four ways the cursor can step.
#[derive(Clone, Copy, Debug, PartialEq, Eq, Structural)]
pub enum Direction {
    Up,
    Down,
    Left,
    Right,
}

impl Direction {
    /// Rows the cursor would travel if nothing stood in its way.
    pub open spec fn row_delta(self) -> int {
        match self {
            Direction::Up => -1,
            Direction::Down => 1,
            Direction::Left | Direction::Right => 0,
        }
    }

    /// Columns the cursor would travel if nothing stood in its way.
    pub open spec fn column_delta(self) -> int {
        match self {
            Direction::Left => -1,
            Direction::Right => 1,
            Direction::Up | Direction::Down => 0,
        }
    }
}

/// The key that was pressed.
#[derive(Clone, Copy, Debug, PartialEq, Eq, Structural)]
pub enum KeyCode {
    Char(char),
    Up,
    Down,
    Left,
    Right,
    Enter,
    Backspace,
    Delete,
    Tab,
    BackTab,
    Esc,
    Home,
    End,
    PageUp,
    PageDown,
    Insert,
    F(u8),
    Null,
    /// Any key the editor has no name for.
    Other,
}

/// The modifier keys held down while a key was pressed.
#[derive(Clone, Copy, Debug, PartialEq, Eq, Structural)]
pub struct KeyModifiers {
    pub shift: bool,
    pub control: bool,
    pub alt: bool,
}

impl KeyModifiers {
    /// No modifier held.
    pub fn none() -> (m: KeyModifiers)
        ensures
            m == (KeyModifiers { shift: false, control: false, alt: false }),
    {
        KeyModifiers { shift: false, control: false, alt: false }
    }

    /// Control alone.
    pub fn control() -> (m: KeyModifiers)
        ensures
            m == (KeyModifiers { shift: false, control: true, alt: false }),
    {
        KeyModifiers { shift: false, control: true, alt: false }
    }
}

/// One input event from the terminal.
#[derive(Clone, Copy, Debug, PartialEq, Eq, Structural)]
pub struct KeyEvent {
    pub code: KeyCode,
    pub modifiers: KeyModifiers,
}

impl KeyEvent {
    pub fn new(code: KeyCode, modifiers: KeyModifiers) -> (event: KeyEvent)
        ensures
            event == (KeyEvent { code, modifiers }),
    {
        KeyEvent { code, modifiers }
    }
}

/// What the editor is asked to do by one key event.
#[derive(Clone, Copy, Debug, PartialEq, Eq, Structural)]
pub enum Action {
    MoveCursor(Direction),
    InsertChar(char),
    RequestSave,
    RequestDiscardAndQuit,
    Noop,
}

/// With Control held, this character asks to save and leave.
pub const SAVE_KEY: char = 's';

/// With Control held, this character asks to leave without saving.
pub const QUIT_KEY: char = 'c';

/// The direction an arrow key stands for; `None` for every other key.
pub open spec fn arrow(code: KeyCode) -> Option<Direction> {
    match code {
        KeyCode::Up => Some(Direction::Up),
        KeyCode::Down => Some(Direction::Down),
        KeyCode::Left => Some(Direction::Left),
        KeyCode::Right => Some(Direction::Right),
        _ => None,
    }
}

/// The meaning of a key event. It depends on the event alone.
///
/// Control with the save or the quit character ends the session; an arrow moves
/// the cursor, with or without modifiers; a character typed without Control is
/// inserted; everything else means nothing.
pub open spec fn meaning(event: KeyEvent) -> Action {
    if event.modifiers.control && event.code == KeyCode::Char(SAVE_KEY) {
        Action::RequestSave
    } else if event.modifiers.control && event.code == KeyCode::Char(QUIT_KEY) {
        Action::RequestDiscardAndQuit
    } else if let Some(direction) = arrow(event.code) {
        Action::MoveCursor(direction)
    } else if let KeyCode::Char(c) = event.code {
        if event.modifiers.control {
            Action::Noop
        } else {
            Action::InsertChar(c)
        }
    } else {
        Action::Noop
    }
}

/// Decodes one key event.
pub fn interpret(event: KeyEvent) -> (action: Action)
    ensures
        action == meaning(event),
{
    match event.code {
        KeyCode::Up => Action::MoveCursor(Direction::Up),
        KeyCode::Down => Action::MoveCursor(Direction::Down),
        KeyCode::Left => Action::MoveCursor(Direction::Left),
        KeyCode::Right => Action::MoveCursor(Direction::Right),
        KeyCode::Char(c) => {
            if !event.modifiers.control {
                Action::InsertChar(c)
            } else if c == SAVE_KEY {
                Action::RequestSave
            } else if c == QUIT_KEY {
                Action::RequestDiscardAndQuit
            } else {
                Action::Noop
            }
        },
        _ => Action::Noop,
    }
}

} // verus!
