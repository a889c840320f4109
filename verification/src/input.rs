//! Captured key presses and what each one asks of the loop.

use vstd::prelude::*;

verus! {

/// What a key press asks of the loop.
#[derive(Clone, Copy, Debug, PartialEq, Eq, Structural)]
pub enum Control {
    /// One row towards the top of the surface.
    Up,
    /// One row towards the bottom of the surface.
    Down,
    /// One column to the left.
    Left,
    /// One column to the right.
    Right,
    /// Leave the loop.
    Quit,
    /// Any other key: no effect and no error.
    Ignored,
}

/// The control bound to a key.
pub open spec fn control_for(key: char) -> Control {
    if key == 'w' {
        Control::Up
    } else if key == 's' {
        Control::Down
    } else if key == 'a' {
        Control::Left
    } else if key == 'd' {
        Control::Right
    } else if key == 'q' {
        Control::Quit
    } else {
        Control::Ignored
    }
}

/// Looks up the control bound to `key`.
pub fn control_of(key: char) -> (control: Control)
    ensures
        control == control_for(key),
{
    match key {
        'w' => Control::Up,
        's' => Control::Down,
        'a' => Control::Left,
        'd' => Control::Right,
        'q' => Control::Quit,
        _ => Control::Ignored,
    }
}

/// The input event carried by one raw byte: the character whose code point
/// is the byte's value.
pub fn event_of_byte(byte: u8) -> (event: char)
    ensures
        event as int == byte as int,
{
    byte as char
}

} // verus!
