//! The press-tracking state machine.
//!
//! [`State`] records whether a key is currently held and which key was
//! last relevant. [`State::transition`] is total: every state paired
//! with every possible frame yields a next state and an optional
//! output event, and nothing ever panics. The output is resolved from
//! the pair of previous and next state, so a meta key released just
//! before a press is consulted retroactively.

use vstd::prelude::*;

use crate::catalog::{meta_lookup, regular_lookup, spec_meta_lookup, spec_regular_lookup};
use crate::types::BLEEvent;
use crate::{ClickEvent, M1, M2};

verus! {

/// Whether a key is held (`Down`) or not (`Up`), together with the
/// identifier of the last relevant key; 0 is the idle sentinel a
/// fresh machine starts from.
#[derive(Clone, Copy, Debug, PartialEq, Eq, Structural)]
pub enum State {
    Down(u8),
    Up(u8),
}

/// Next state from the current one and the frame's third byte: a zero
/// byte releases a held key, a nonzero byte presses one when none is
/// held. A press while held and a release while idle change nothing.
pub open spec fn spec_update(s: State, id: u8) -> State {
    match s {
        State::Down(held) => if id == 0 {
            State::Up(held)
        } else {
            State::Down(held)
        },
        State::Up(last) => if id == 0 {
            State::Up(last)
        } else {
            State::Down(id)
        },
    }
}

/// Output event of a transition, resolved from the previous and next
/// state. Only a fresh press (`Up` to `Down`) produces an event: the
/// meta table of the meta key released last, or the regular table
/// otherwise. Releases and ignored re-presses stay silent.
pub open spec fn spec_output(prev: State, next: State) -> Option<BLEEvent> {
    match (prev, next) {
        (State::Up(last), State::Down(id)) => if last == M1 {
            spec_meta_lookup(M1, id)
        } else if last == M2 {
            spec_meta_lookup(M2, id)
        } else {
            spec_regular_lookup(id)
        },
        _ => None,
    }
}

/// The full transition: next state and output event.
pub open spec fn spec_transition(s: State, id: u8) -> (State, Option<BLEEvent>) {
    (spec_update(s, id), spec_output(s, spec_update(s, id)))
}

impl State {
    /// Next state for a raw click frame; only the third byte decides.
    pub fn update(&self, event: &ClickEvent) -> (next: State)
        ensures
            next == spec_update(*self, event[2]),
    {
        match *self {
            State::Down(held) => if event[2] == 0 {
                State::Up(held)
            } else {
                State::Down(held)
            },
            State::Up(last) => if event[2] == 0 {
                State::Up(last)
            } else {
                State::Down(event[2])
            },
        }
    }

    /// Consume one click frame: the next state plus the event to hand
    /// to the HID sender, if any. Defined for every state and every
    /// frame; unmapped lookups degrade to `None`.
    pub fn transition(&self, event: &ClickEvent) -> (r: (State, Option<BLEEvent>))
        ensures
            r == spec_transition(*self, event[2]),
    {
        let next_state = self.update(event);
        let next_event = match (*self, next_state) {
            (State::Up(last), State::Down(id)) => if last == M1 {
                meta_lookup(M1, id)
            } else if last == M2 {
                meta_lookup(M2, id)
            } else {
                regular_lookup(id)
            },
            _ => None,
        };
        (next_state, next_event)
    }
}

impl Default for State {
    /// A fresh machine: nothing held, idle sentinel stored.
    fn default() -> (s: Self)
        ensures
            s == State::Up(0u8),
    {
        State::Up(0)
    }
}

/// The machine is total: every state paired with every possible
/// third byte steps to a defined pair, and the next state is again
/// one of the two variants — the state space is closed under
/// transitions. The executable `transition` carries no precondition,
/// so no input can make it panic.
pub proof fn lemma_transition_total(s: State, id: u8)
    ensures
        spec_transition(s, id) == (spec_update(s, id), spec_output(s, spec_update(s, id))),
        spec_update(s, id) is Up || spec_update(s, id) is Down,
{
}

/// An event is only ever produced by a fresh press: whenever a
/// transition yields `Some`, the machine moved from `Up` into `Down`.
/// Together with `transition` carrying no precondition, this pins the
/// machine's behaviour over the whole input space.
pub proof fn lemma_output_only_on_press(s: State, id: u8)
    ensures
        spec_transition(s, id).1 is Some ==> s is Up && spec_transition(s, id).0 is Down,
{
}

/// Releasing while already released changes nothing and emits
/// nothing, whatever identifier the idle state remembers.
pub proof fn lemma_release_idempotent(id: u8)
    ensures
        spec_transition(State::Up(id), 0) == (State::Up(id), None::<BLEEvent>),
{
}

/// A second press while a key is held is ignored: the held key stays
/// held and no event is emitted.
pub proof fn lemma_press_while_down_ignored(held: u8, other: u8)
    requires
        other != 0,
    ensures
        spec_transition(State::Down(held), other) == (State::Down(held), None::<BLEEvent>),
{
}

} // verus!
