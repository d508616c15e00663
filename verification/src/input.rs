//! Key presses and follow-up actions.
//!
//! The terminal loop maps raw key events to `InputKey` and hands them to the
//! playback engine or the settings menu; the engine answers with a
//! `ReaderAction` naming the outside work the caller still has to do.

use vstd::prelude::*;

verus! {

/// A key press, as the library's state machines see it.
#[derive(Clone, Copy, PartialEq, Eq, Structural, Debug)]
pub enum InputKey {
    Esc,
    Space,
    Q,
    S,
    B,
    CapitalB,
    Enter,
    Up,
    Down,
    Left,
    Right,
    Other,
}

/// What the caller must do after the playback engine handled a key:
/// nothing, open the settings menu, or persist the settings.
#[derive(Clone, Copy, PartialEq, Eq, Structural, Debug)]
pub enum ReaderAction {
    NoAction,
    OpenSettings,
    Save,
}

} // verus!
