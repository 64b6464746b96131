//! The logical mouse-button vocabulary and the raw-to-logical button table.

use vstd::prelude::*;

verus! {

/// The logical mouse buttons this backend can report.
#[derive(Copy, Clone, PartialEq, Eq, Structural, Debug)]
pub enum MouseButton {
    Left,
    Right,
    Middle,
    X1,
    X2,
    Button6,
    Button7,
    Button8,
    Unknown,
}

/// A raw mouse button as the platform reports it: the three standard buttons,
/// the two navigation buttons, or a numbered extra button.
#[derive(Copy, Clone, PartialEq, Eq, Structural, Debug)]
pub enum RawMouseButton {
    Left,
    Right,
    Middle,
    Back,
    Forward,
    Other(u16),
}

/// The mapping table for mouse buttons: the three standard buttons and the
/// first five numbered extra buttons resolve to logical buttons, everything
/// else to [`MouseButton::Unknown`].
pub open spec fn spec_map_mouse(b: RawMouseButton) -> MouseButton {
    match b {
        RawMouseButton::Left => MouseButton::Left,
        RawMouseButton::Right => MouseButton::Right,
        RawMouseButton::Middle => MouseButton::Middle,
        RawMouseButton::Other(n) => if n == 0 {
            MouseButton::X1
        } else if n == 1 {
            MouseButton::X2
        } else if n == 2 {
            MouseButton::Button6
        } else if n == 3 {
            MouseButton::Button7
        } else if n == 4 {
            MouseButton::Button8
        } else {
            MouseButton::Unknown
        },
        _ => MouseButton::Unknown,
    }
}

/// Maps a raw mouse button to the logical button it stands for.
pub fn map_mouse(mouse_button: RawMouseButton) -> (r: MouseButton)
    ensures
        r == spec_map_mouse(mouse_button),
{
    match mouse_button {
        RawMouseButton::Left => MouseButton::Left,
        RawMouseButton::Right => MouseButton::Right,
        RawMouseButton::Middle => MouseButton::Middle,
        RawMouseButton::Other(n) => if n == 0 {
            MouseButton::X1
        } else if n == 1 {
            MouseButton::X2
        } else if n == 2 {
            MouseButton::Button6
        } else if n == 3 {
            MouseButton::Button7
        } else if n == 4 {
            MouseButton::Button8
        } else {
            MouseButton::Unknown
        },
        _ => MouseButton::Unknown,
    }
}

} // verus!
