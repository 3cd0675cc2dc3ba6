//! The input events that the screens react to.

use vstd::prelude::*;

verus! {

/// A key of the keyboard. Keys that no screen reacts to are `Other`.
#[derive(Clone, Copy, Debug, PartialEq, Eq, Structural)]
pub enum Key {
    W,
    A,
    S,
    D,
    Up,
    Down,
    Left,
    Right,
    Escape,
    P,
    R,
    Space,
    Enter,
    NumPadEnter,
    Other,
}

/// A button of the mouse. Buttons that no screen reacts to are `Other`.
#[derive(Clone, Copy, Debug, PartialEq, Eq, Structural)]
pub enum MouseButton {
    Left,
    Other,
}

/// Something that happened to the window. Events that no screen reacts to
/// are `Other`.
#[derive(Clone, Copy, Debug, PartialEq, Eq, Structural)]
pub enum Event {
    KeyPressed { key: Key },
    MouseButtonPressed { button: MouseButton },
    FocusLost,
    Other,
}

} // verus!
