//! A single-line text input field. While it is focused and the
//! application is in writing mode, printable keys append to its value and
//! backspace deletes the last character.

use vstd::prelude::*;
use crate::key::Key;
use crate::style::UiColor;

verus! {

/// Relies on `String::push`: it appends the given character to the end of
/// the string.
#[verifier::external_body]
fn push_char(s: &mut String, c: char)
    ensures
        final(s)@ == old(s)@.push(c),
{
    s.push(c)
}

/// Relies on `String::pop`: it removes and returns the last character of
/// the string, or returns nothing and leaves an empty string alone.
#[verifier::external_body]
fn pop_char(s: &mut String) -> (r: Option<char>)
    ensures
        old(s)@.len() == 0 ==> final(s)@ == old(s)@ && r is None,
        old(s)@.len() > 0 ==> final(s)@ == old(s)@.drop_last() && r == Some(old(s)@.last()),
{
    s.pop()
}

/// An editable text field with a focus flag.
pub struct Input {
    pub value: String,
    pub focused: bool,
}

impl Input {
    /// How one editing key changes a field: a printable character is
    /// appended, backspace drops the last character (of a non-empty
    /// value), and every other key leaves the field alone. Focus never
    /// changes while editing.
    pub open spec fn edit_rel(i0: Input, i1: Input, key: Key) -> bool {
        match key {
            Key::Char(c) => i1.value@ == i0.value@.push(c) && i1.focused == i0.focused,
            Key::Backspace => {
                &&& i1.value@ == (if i0.value@.len() > 0 {
                    i0.value@.drop_last()
                } else {
                    i0.value@
                })
                &&& i1.focused == i0.focused
            },
            _ => i1 == i0,
        }
    }

    /// A fresh field: empty and unfocused.
    pub fn new() -> (r: Input)
        ensures
            r.value@ == Seq::<char>::empty(),
            !r.focused,
    {
        Input { value: String::new(), focused: false }
    }

    /// Whether the field currently has focus.
    pub fn focused(&self) -> (r: bool)
        ensures
            r == self.focused,
    {
        self.focused
    }

    /// Flips the focus flag; the value stays.
    pub fn toggle_focus(&mut self)
        ensures
            final(self).focused == !old(self).focused,
            final(self).value == old(self).value,
    {
        self.focused = !self.focused;
    }

    /// Applies one editing key to the field.
    pub fn handle_edit_key(&mut self, key: Key)
        ensures
            Input::edit_rel(*old(self), *final(self), key),
    {
        match key {
            Key::Char(c) => {
                push_char(&mut self.value, c);
            },
            Key::Backspace => {
                let _ = pop_char(&mut self.value);
            },
            _ => {},
        }
    }

    /// The border color of the field's box: light blue while focused,
    /// white otherwise.
    pub fn border_color(&self) -> (r: UiColor)
        ensures
            r == (if self.focused {
                UiColor::LightBlue
            } else {
                UiColor::White
            }),
    {
        if self.focused {
            UiColor::LightBlue
        } else {
            UiColor::White
        }
    }
}

} // verus!
