//! Mapping of key events to game signals.

use crate::game::Direction;
use vstd::prelude::*;

verus! {

/// The keys the game reacts to. Anything else arrives as `Other`.
#[derive(Clone, Copy, PartialEq, Eq, Structural, Debug)]
pub enum Key {
    ArrowRight,
    ArrowLeft,
    ArrowUp,
    ArrowDown,
    Escape,
    Character(char),
    Other,
}

/// What kind of key event the terminal reported. Only presses count.
#[derive(Clone, Copy, PartialEq, Eq, Structural, Debug)]
pub enum PressKind {
    Press,
    Release,
    Repeat,
}

/// What a keypress asks of the game: steer, or quit.
#[derive(Clone, Copy, PartialEq, Eq, Structural, Debug)]
pub enum Signal {
    SetDirection(Direction),
    Quit,
}

/// The keymap: arrows steer, `Esc` and `q`/`Q` quit, anything else is
/// ignored, as is any event that is not a press. A direction opposite
/// to the current movement is not rejected here; reversal is resolved
/// by the self-collision check on the next tick.
pub open spec fn signal_of(key: Key, kind: PressKind) -> Option<Signal> {
    if kind != PressKind::Press {
        None
    } else {
        match key {
            Key::ArrowRight => Some(Signal::SetDirection(Direction::Right)),
            Key::ArrowLeft => Some(Signal::SetDirection(Direction::Left)),
            Key::ArrowUp => Some(Signal::SetDirection(Direction::Up)),
            Key::ArrowDown => Some(Signal::SetDirection(Direction::Down)),
            Key::Escape => Some(Signal::Quit),
            Key::Character(c) => if c == 'q' || c == 'Q' {
                Some(Signal::Quit)
            } else {
                None
            },
            Key::Other => None,
        }
    }
}

/// Turns one key event into the signal the game should act on, if any.
pub fn map_key_event(key: Key, kind: PressKind) -> (r: Option<Signal>)
    ensures
        r == signal_of(key, kind),
{
    match kind {
        PressKind::Press => match key {
            Key::ArrowRight => Some(Signal::SetDirection(Direction::Right)),
            Key::ArrowLeft => Some(Signal::SetDirection(Direction::Left)),
            Key::ArrowUp => Some(Signal::SetDirection(Direction::Up)),
            Key::ArrowDown => Some(Signal::SetDirection(Direction::Down)),
            Key::Escape => Some(Signal::Quit),
            Key::Character(c) => {
                if c == 'q' || c == 'Q' {
                    Some(Signal::Quit)
                } else {
                    None
                }
            },
            Key::Other => None,
        },
        PressKind::Release => None,
        PressKind::Repeat => None,
    }
}

} // verus!
