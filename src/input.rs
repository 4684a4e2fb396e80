//! Key and terminal events as the viewer sees them, and the intent each one
//! resolves to.
use vstd::prelude::*;

use crate::intent::{Action, Direction, DrawMarker, RenderMode, Vec2};

verus! {

/// A key, as far as the key map tells keys apart.
#[derive(Clone, Copy, Debug, PartialEq, Eq, Structural)]
pub enum Key {
    Char(char),
    /// A function key, by its number.
    F(u8),
    Left,
    Right,
    Up,
    Down,
    Other,
}

/// An event of the terminal.
#[derive(Clone, Copy, Debug, PartialEq, Eq, Structural)]
pub enum InputEvent {
    FocusGained,
    FocusLost,
    /// A key event; `pressed` is false for a release or a repeat.
    Key { code: Key, pressed: bool },
    Mouse,
    Paste,
    /// The terminal now has `columns` by `rows` cells.
    Resize { columns: u16, rows: u16 },
}

/// The intent of a pressed character key.
pub open spec fn char_action(c: char) -> Action {
    if c == 'Q' {
        Action::Quit
    } else if c == 'a' {
        Action::Move(Direction::Left)
    } else if c == 'd' {
        Action::Move(Direction::Right)
    } else if c == 'w' {
        Action::Move(Direction::Forward)
    } else if c == 's' {
        Action::Move(Direction::Backward)
    } else if c == ' ' || c == 'k' {
        Action::Move(Direction::Up)
    } else if c == 'j' {
        Action::Move(Direction::Down)
    } else {
        Action::Idle
    }
}

/// The intent of a pressed function key: the first five pick a draw marker,
/// the eighth and ninth a render mode.
pub open spec fn function_key_action(n: u8) -> Action {
    if n == 1 {
        Action::ChangeDrawMode(DrawMarker::Braille)
    } else if n == 2 {
        Action::ChangeDrawMode(DrawMarker::Dot)
    } else if n == 3 {
        Action::ChangeDrawMode(DrawMarker::HalfBlock)
    } else if n == 4 {
        Action::ChangeDrawMode(DrawMarker::Block)
    } else if n == 5 {
        Action::ChangeDrawMode(DrawMarker::Bar)
    } else if n == 8 {
        Action::ChangeRenderMode(RenderMode::Vertex)
    } else if n == 9 {
        Action::ChangeRenderMode(RenderMode::Raycast)
    } else {
        Action::Idle
    }
}

/// The intent of a pressed key: characters move, arrows look.
pub open spec fn key_action(k: Key) -> Action {
    match k {
        Key::Char(c) => char_action(c),
        Key::F(n) => function_key_action(n),
        Key::Left => Action::Look(Direction::Left),
        Key::Right => Action::Look(Direction::Right),
        Key::Up => Action::Look(Direction::Up),
        Key::Down => Action::Look(Direction::Down),
        Key::Other => Action::Idle,
    }
}

/// The intent of an event, or of no event within the poll's wait: only key
/// presses and resizes mean anything.
pub open spec fn event_action(e: Option<InputEvent>) -> Action {
    match e {
        Some(InputEvent::Key { code, pressed }) => if pressed {
            key_action(code)
        } else {
            Action::Idle
        },
        Some(InputEvent::Resize { columns, rows }) => Action::ChangeWindowSize(
            Vec2 { x: columns, y: rows },
        ),
        _ => Action::Idle,
    }
}

fn resolve_char(c: char) -> (r: Action)
    ensures
        r == char_action(c),
{
    match c {
        'Q' => Action::Quit,
        'a' => Action::Move(Direction::Left),
        'd' => Action::Move(Direction::Right),
        'w' => Action::Move(Direction::Forward),
        's' => Action::Move(Direction::Backward),
        ' ' | 'k' => Action::Move(Direction::Up),
        'j' => Action::Move(Direction::Down),
        _ => Action::Idle,
    }
}

fn resolve_function_key(n: u8) -> (r: Action)
    ensures
        r == function_key_action(n),
{
    match n {
        1 => Action::ChangeDrawMode(DrawMarker::Braille),
        2 => Action::ChangeDrawMode(DrawMarker::Dot),
        3 => Action::ChangeDrawMode(DrawMarker::HalfBlock),
        4 => Action::ChangeDrawMode(DrawMarker::Block),
        5 => Action::ChangeDrawMode(DrawMarker::Bar),
        8 => Action::ChangeRenderMode(RenderMode::Vertex),
        9 => Action::ChangeRenderMode(RenderMode::Raycast),
        _ => Action::Idle,
    }
}

pub fn resolve_key(k: Key) -> (r: Action)
    ensures
        r == key_action(k),
{
    match k {
        Key::Char(c) => resolve_char(c),
        Key::F(n) => resolve_function_key(n),
        Key::Left => Action::Look(Direction::Left),
        Key::Right => Action::Look(Direction::Right),
        Key::Up => Action::Look(Direction::Up),
        Key::Down => Action::Look(Direction::Down),
        Key::Other => Action::Idle,
    }
}

pub fn resolve_event(e: Option<InputEvent>) -> (r: Action)
    ensures
        r == event_action(e),
{
    match e {
        Some(InputEvent::Key { code, pressed }) => {
            if pressed {
                resolve_key(code)
            } else {
                Action::Idle
            }
        },
        Some(InputEvent::Resize { columns, rows }) => Action::ChangeWindowSize(
            Vec2 { x: columns, y: rows },
        ),
        _ => Action::Idle,
    }
}

} // verus!
