//! The colours of the interface: the terminal's own, so that its theme holds.

use vstd::prelude::*;
use crate::display::Color;

verus! {

pub const PIPBOY_GREEN: Color = Color::Green;

pub const PIPBOY_DARK: Color = Color::Black;

/// The terminal's own background.
pub const PIPBOY_BG: Color = Color::Reset;

pub const COLOR_YELLOW: Color = Color::Yellow;

pub const COLOR_RED: Color = Color::Red;

} // verus!
