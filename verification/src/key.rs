//! The keys the core reacts to. The binary decodes the terminal's own key
//! events, keeps only presses, and maps each to one of these; every other
//! key becomes `Other`.

use vstd::prelude::*;

verus! {

/// A pressed key, as the core sees it.
#[derive(Clone, Copy, PartialEq, Eq, Structural, Debug)]
pub enum Key {
    /// A printable character, `'q'`, `'j'` and the like.
    Char(char),
    Up,
    Down,
    Enter,
    Tab,
    Esc,
    Delete,
    Backspace,
    /// Any key the application gives no meaning to.
    Other,
}

} // verus!
