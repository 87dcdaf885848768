use vstd::prelude::*;

verus! {

/// Whether a button or key went down or up.
#[derive(Debug, Clone, Copy, PartialEq, Eq, Structural)]
pub enum State {
    Pressed,
    Released,
}

#[derive(Debug, Clone, Copy, PartialEq, Eq, Structural)]
pub enum Button {
    Left,
    Right,
    Middle,
    Other(u16),
}

/// A mouse button changed state.
#[derive(Debug, Clone, Copy, PartialEq, Eq, Structural)]
pub struct MouseButton {
    pub state: State,
    pub button: Button,
}

/// The kinds of mouse input the engine tells apart.
#[derive(Debug, Clone, Copy, PartialEq, Eq, Structural)]
pub enum TypeOfMouseEvent {
    Button,
    Wheel,
    Movement,
}

/// A pair of coordinates.
#[derive(Debug, Clone, Copy, PartialEq, Eq)]
pub struct Coord<T> {
    pub x: T,
    pub y: T,
}

} // verus!
