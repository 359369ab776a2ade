//! Dialogs and menus of the user interface: their settings and the logic of
//! their selection loops.

pub mod info;
pub mod input;
pub mod menu;

use crate::event::{Event, Key, KeyEvent};
use vstd::prelude::*;

verus! {

/// What a selection loop does after reacting to an event.
#[derive(Debug, Clone, Copy, PartialEq, Eq, Structural)]
pub enum Reaction {
    /// The selection is over.
    Exit,
    /// The state changed: render the dialog again and keep listening.
    Render,
    /// Nothing changed: keep listening.
    Idle,
}

/// Whether the event is the given key pressed with no modifier.
pub open spec fn is_plain_key(event: Option<Event>, key: Key) -> bool {
    event == Some(Event::Key(KeyEvent { main_key: key, ctrl: false, alt: false, shift: false }))
}

/// Whether the event is the given key pressed with no modifier.
pub(crate) fn plain_key(event: &Option<Event>, key: Key) -> (r: bool)
    ensures
        r == is_plain_key(*event, key),
{
    match event {
        Some(Event::Key(k)) => k.main_key == key && !k.ctrl && !k.alt && !k.shift,
        _ => false,
    }
}

} // verus!
