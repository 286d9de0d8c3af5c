//! The decision part of input handling.
//!
//! Reading terminal events is outside work; the terminal layer hands
//! a pressed key in as a plain [`Key`] value and this module decides
//! which [`Action`] it asks for, given the focused section.

use vstd::prelude::*;

use crate::app::Action;
use crate::app::Section;

verus! {

/// A pressed key, as the terminal layer reports it: the keys the
/// console distinguishes, a printable character, or anything else.
#[derive(Debug, Clone, Copy, PartialEq, Eq, Structural)]
pub enum Key {
    Enter,
    Right,
    Up,
    Down,
    Char(char),
    Other,
}

/// The action a key press asks for in the given section: arrows move
/// the bus-name selection, `q` quits, everything else does nothing.
pub open spec fn spec_key_action(focus: Section, key: Key) -> Action {
    match focus {
        Section::BusFrame => match key {
            Key::Up => Action::SelectLastBusName,
            Key::Down => Action::SelectNextBusName,
            Key::Char(c) => if c == 'q' {
                Action::Quit
            } else {
                Action::NoOp
            },
            _ => Action::NoOp,
        },
    }
}

/// Maps a pressed key to the action it asks for.  `Enter` and `Right`
/// are reserved for unimplemented moves and are not accepted here; the
/// caller screens them off, as the console does.
pub fn key_to_action(focus: &Section, key: Key) -> (r: Action)
    requires
        !(key is Enter),
        !(key is Right),
    ensures
        r == spec_key_action(*focus, key),
{
    match focus {
        Section::BusFrame => match key {
            Key::Up => Action::SelectLastBusName,
            Key::Down => Action::SelectNextBusName,
            Key::Char(c) => if c == 'q' {
                Action::Quit
            } else {
                Action::NoOp
            },
            _ => Action::NoOp,
        },
    }
}

} // verus!
