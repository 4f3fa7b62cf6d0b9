use vstd::prelude::*;

verus! {

/// A direction for moving the focus between the editor's regions.
#[derive(Clone, Copy, PartialEq, Eq, Structural, Debug)]
pub enum Direction {
    Up,
    Down,
    Left,
    Right,
}

/// The key events that the editing workflow understands. Everything else
/// that a terminal can produce is mapped to one of these, or dropped, by
/// the hosting program before it reaches the editor.
#[derive(Clone, Copy, PartialEq, Eq, Structural, Debug)]
pub enum MyKey {
    /// A directional key: moves the focus (see the navigation table).
    Nav(Direction),
    /// Alt plus a character: submission shortcuts.
    Alt(char),
    /// A plain character: appended to whichever text field has focus.
    Char(char),
    /// Removes the last character of the focused text field.
    Backspace,
}

} // verus!
