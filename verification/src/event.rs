//! Input events as the state machines see them: a key and its modifiers.

use vstd::prelude::*;
use crate::fixed::SCALE_ONE;

verus! {

/// The key that was pressed.
#[derive(Clone, Copy, Debug, PartialEq, Eq, Structural)]
pub enum KeyCode {
    Char(char),
    Up,
    Down,
    Left,
    Right,
    Enter,
    Esc,
    Backspace,
    Tab,
    /// Any key that no state machine of this crate reads.
    Other,
}

/// The modifier keys held with it.
#[derive(Clone, Copy, Debug, PartialEq, Eq, Structural)]
pub struct KeyModifiers {
    pub shift: bool,
    pub control: bool,
    pub alt: bool,
}

/// One key press.
#[derive(Clone, Copy, Debug, PartialEq, Eq, Structural)]
pub struct KeyEvent {
    pub code: KeyCode,
    pub modifiers: KeyModifiers,
}

/// A terminal event.
#[derive(Clone, Copy, Debug, PartialEq, Eq, Structural)]
pub enum Event {
    Key(KeyEvent),
    /// The terminal was resized to this many columns and rows.
    Resize(u16, u16),
    /// Mouse, focus or paste: nothing reads them.
    Other,
}

impl KeyModifiers {
    /// The step multiplier that the modifiers select, in thousandths: ten
    /// for shift alone, five for control alone, a fifth for alt alone, one
    /// for none and for any combination.
    pub open spec fn magnitude_spec(self) -> u32 {
        if self.shift && !self.control && !self.alt {
            10_000
        } else if !self.shift && self.control && !self.alt {
            5_000
        } else if !self.shift && !self.control && self.alt {
            200
        } else {
            1_000
        }
    }

    /// The step multiplier that the modifiers select, in thousandths.
    pub fn magnitude(&self) -> (factor: u32)
        ensures
            factor == self.magnitude_spec(),
    {
        if self.shift && !self.control && !self.alt {
            10 * SCALE_ONE
        } else if !self.shift && self.control && !self.alt {
            5 * SCALE_ONE
        } else if !self.shift && !self.control && self.alt {
            SCALE_ONE / 5
        } else {
            SCALE_ONE
        }
    }

    /// No modifier held.
    pub fn none() -> (modifiers: Self)
        ensures
            !modifiers.shift && !modifiers.control && !modifiers.alt,
    {
        KeyModifiers { shift: false, control: false, alt: false }
    }
}

} // verus!
