//! Pointer events as the interaction logic sees them.
use vstd::prelude::*;

verus! {

/// A mouse button.
#[derive(Debug, Clone, Copy, PartialEq, Eq, Structural)]
pub enum MouseButton {
    Left,
    Middle,
    Right,
}

/// The keyboard modifiers held during an event.
#[derive(Debug, Clone, Copy, PartialEq, Eq, Structural)]
pub struct KeyModifiers {
    pub shift: bool,
    pub ctrl: bool,
    pub alt: bool,
}

impl Default for KeyModifiers {
    /// No modifier held.
    fn default() -> (m: Self)
        ensures
            !m.shift && !m.ctrl && !m.alt,
    {
        KeyModifiers { shift: false, ctrl: false, alt: false }
    }
}

/// What happened to the pointer. The wheel delta is held as the bit pattern
/// of a single-precision number.
#[derive(Debug, Clone, Copy, PartialEq, Eq, Structural)]
pub enum MouseEventKind {
    Move,
    Down(MouseButton),
    Up(MouseButton),
    Wheel { delta_bits: u32 },
    Enter(MouseButton),
    Leave(MouseButton),
}

} // verus!
