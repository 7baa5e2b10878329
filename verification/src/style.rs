//! The palette the core chooses from. The core decides which color every
//! piece of the screen gets; the binary maps each name onto the terminal
//! backend's own color type.

use vstd::prelude::*;

verus! {

/// A terminal color by name.
#[derive(Clone, Copy, PartialEq, Eq, Structural, Debug)]
pub enum UiColor {
    Black,
    White,
    DarkGray,
    Cyan,
    LightBlue,
    LightGreen,
    LightCyan,
    LightYellow,
    LightRed,
}

} // verus!
