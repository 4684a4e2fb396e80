//! The closed set of user intents and the modes they select.
use vstd::prelude::*;

verus! {

/// A direction of travel or of turning the view.
#[derive(Clone, Copy, Debug, PartialEq, Eq, Structural)]
pub enum Direction {
    Forward,
    Backward,
    Left,
    Right,
    Up,
    Down,
}

/// How a frame is produced: edges of the shapes, or one ray per cell.
#[derive(Clone, Copy, Debug, PartialEq, Eq, Structural)]
pub enum RenderMode {
    Vertex,
    Raycast,
}

/// The glyph family that the display surface draws lines with.
#[derive(Clone, Copy, Debug, PartialEq, Eq, Structural)]
pub enum DrawMarker {
    Braille,
    Dot,
    HalfBlock,
    Block,
    Bar,
}

/// A size of the display surface, in character cells.
#[derive(Clone, Copy, Debug, PartialEq, Eq, Structural)]
pub struct Vec2 {
    pub x: u16,
    pub y: u16,
}

impl Vec2 {
    pub fn new(x: u16, y: u16) -> (r: Vec2)
        ensures
            r.x == x,
            r.y == y,
    {
        Vec2 { x, y }
    }
}

/// A resolved user intent.
#[derive(Clone, Copy, Debug, PartialEq, Eq, Structural)]
pub enum Action {
    Quit,
    Move(Direction),
    Look(Direction),
    ChangeDrawMode(DrawMarker),
    ChangeRenderMode(RenderMode),
    ChangeWindowSize(Vec2),
    Idle,
}

} // verus!
