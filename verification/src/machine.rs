//! The payload-oriented state machine.
//!
//! This variant reacts to a bare identifier byte per click instead of
//! a press/release frame pair: a meta key latches until the next
//! non-meta key arrives, a second meta press while latched is
//! ignored, and every non-meta key resolves immediately to a media
//! action or a shortcut slot.

use vstd::prelude::*;

use crate::catalog::{media_event, meta_shortcut, spec_media_event, spec_meta_shortcut,
    MediaControl};
use crate::{M1, M2};

verus! {

/// What a resolved click asks the HID sender to do: emit a
/// media-control report or type the shortcut letter in a slot.
#[derive(Clone, Copy, Debug, PartialEq, Eq, Structural)]
pub enum Action {
    Media(MediaControl),
    Short(u8),
}

/// What arrived last: a meta key waiting for its partner (`Meta`), a
/// regular key on its own (`Key`), or a meta/regular pair (`Combo`).
#[derive(Clone, Copy, Debug, PartialEq, Eq, Structural)]
pub enum State {
    Combo(u8, u8),
    Key(u8),
    Meta(u8),
}

/// Next state for an identifier byte. A meta byte latches unless one
/// is already latched (the first wins); any other byte either
/// completes a combo with the latched meta key or stands alone.
pub open spec fn spec_next(s: State, id: u8) -> State {
    if id == M1 || id == M2 {
        match s {
            State::Meta(held) => State::Meta(held),
            _ => State::Meta(id),
        }
    } else {
        match s {
            State::Meta(held) => State::Combo(held, id),
            _ => State::Key(id),
        }
    }
}

/// Action read off the state just entered: a combo consults the meta
/// tables, a lone key the media table, a latched meta key waits.
pub open spec fn spec_action(s: State) -> Option<Action> {
    match s {
        State::Combo(meta, id) => match spec_meta_shortcut(meta, id) {
            Some(slot) => Some(Action::Short(slot)),
            None => None,
        },
        State::Key(id) => match spec_media_event(id) {
            Some(control) => Some(Action::Media(control)),
            None => None,
        },
        State::Meta(_) => None,
    }
}

impl State {
    /// Consume one identifier byte: advance the state and return the
    /// action it resolves to, if any. Total: unknown bytes and lone
    /// meta presses resolve to `None`.
    pub fn transition(&mut self, next: u8) -> (r: Option<Action>)
        ensures
            *final(self) == spec_next(*old(self), next),
            r == spec_action(*final(self)),
    {
        *self = if next == M1 || next == M2 {
            match *self {
                State::Meta(held) => State::Meta(held),
                _ => State::Meta(next),
            }
        } else {
            match *self {
                State::Meta(held) => State::Combo(held, next),
                _ => State::Key(next),
            }
        };

        match *self {
            State::Combo(meta, id) => match meta_shortcut(meta, id) {
                Some(slot) => Some(Action::Short(slot)),
                None => None,
            },
            State::Key(id) => match media_event(id) {
                Some(control) => Some(Action::Media(control)),
                None => None,
            },
            State::Meta(_) => None,
        }
    }
}

impl Default for State {
    /// A fresh machine: a lone idle sentinel, no meta key latched.
    fn default() -> (s: Self)
        ensures
            s == State::Key(0u8),
    {
        State::Key(0)
    }
}

/// A latched meta key survives further meta presses unchanged: the
/// first meta key wins and later ones are ignored until a regular key
/// completes the combo.
pub proof fn lemma_meta_latch_holds(held: u8, id: u8)
    requires
        id == M1 || id == M2,
    ensures
        spec_next(State::Meta(held), id) == State::Meta(held),
        spec_action(spec_next(State::Meta(held), id)) is None,
{
}

} // verus!
