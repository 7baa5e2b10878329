//! Core of a terminal todo-list application: the todo model with its
//! selection cursor, the timed overlay-notification stack, the view and
//! mode state machine of the application shell, and the layout arithmetic
//! that places every widget. Terminal setup and the actual drawing are
//! left to the binary around this library; everything here is pure data
//! and carries a verified contract.

pub mod app;
pub mod input;
pub mod key;
pub mod layout;
pub mod notification;
pub mod style;
pub mod text;
pub mod todo;
pub mod views;
