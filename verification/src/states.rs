//! The press-tracking machine with one struct per state.
//!
//! [`Up`] and [`Down`] each carry the last relevant identifier and
//! step to a [`Transition`] that names what happened: the state was
//! kept, or the machine moved. A closed sum is used for the result —
//! cheaper than boxed trait objects, and the verifier can check the
//! step function total. The [`CurrentState`] trait gives the states a
//! common face for callers that hold either.

use vstd::prelude::*;

use crate::catalog::LETTER_SLOTS;
use crate::event::{spec_update, State};
use crate::types::BLEEvent;
use crate::ClickEvent;

verus! {

/// No key held; the identifier of the last key released.
#[derive(Clone, Copy, Debug, PartialEq, Eq, Structural)]
pub struct Up(pub u8);

/// A key held; its identifier.
#[derive(Clone, Copy, Debug, PartialEq, Eq, Structural)]
pub struct Down(pub u8);

/// Outcome of one step: the state did not change, or the machine
/// moved up (a release) or down (a press).
#[derive(Clone, Copy, Debug, PartialEq, Eq, Structural)]
pub enum Transition {
    Stay(State),
    MoveToUp(Up),
    MoveToDown(Down),
}

/// One step of this machine, named by what happened. It agrees with
/// the plain machine: a press moves down, a release moves up, and the
/// two no-op pairs stay.
pub open spec fn spec_step(s: State, id: u8) -> Transition {
    match s {
        State::Up(last) => if id == 0 {
            Transition::Stay(State::Up(last))
        } else {
            Transition::MoveToDown(Down(id))
        },
        State::Down(held) => if id == 0 {
            Transition::MoveToUp(Up(held))
        } else {
            Transition::Stay(State::Down(held))
        },
    }
}

/// The event a state reports on its own, without transition context:
/// a held identifier inside the letter space reads as its shortcut
/// letter; wire identifiers resolve only through the catalog at
/// transition time, so they report nothing here, and an idle state
/// never reports.
pub open spec fn spec_state_event(s: State) -> Option<BLEEvent> {
    match s {
        State::Up(_) => None,
        State::Down(held) => if held < LETTER_SLOTS {
            Some(BLEEvent::Letter(held))
        } else {
            None
        },
    }
}

impl Up {
    /// Step out of the idle state: a press moves down, a redundant
    /// release stays.
    pub fn transition(self, event: &ClickEvent) -> (t: Transition)
        ensures
            t == spec_step(State::Up(self.0), event[2]),
    {
        if event[2] == 0 {
            Transition::Stay(State::Up(self.0))
        } else {
            Transition::MoveToDown(Down(event[2]))
        }
    }
}

impl Down {
    /// Step out of the held state: a release moves up, a second press
    /// stays.
    pub fn transition(self, event: &ClickEvent) -> (t: Transition)
        ensures
            t == spec_step(State::Down(self.0), event[2]),
    {
        if event[2] == 0 {
            Transition::MoveToUp(Up(self.0))
        } else {
            Transition::Stay(State::Down(self.0))
        }
    }
}

/// Common face of the per-state structs: which plain state a value
/// stands for, what it reports on its own, and how it steps.
pub trait CurrentState: Sized {
    /// The plain-machine state this value stands for.
    spec fn as_state(&self) -> State;

    /// The event the state reports without transition context.
    fn to_event(&self) -> (r: Option<BLEEvent>)
        ensures
            r == spec_state_event(self.as_state()),
    ;

    /// One step for a raw click frame.
    fn transition(&self, event: &ClickEvent) -> (t: Transition)
        ensures
            t == spec_step(self.as_state(), event[2]),
    ;
}

impl CurrentState for Up {
    open spec fn as_state(&self) -> State {
        State::Up(self.0)
    }

    fn to_event(&self) -> (r: Option<BLEEvent>) {
        None
    }

    fn transition(&self, event: &ClickEvent) -> (t: Transition) {
        if event[2] == 0 {
            Transition::Stay(State::Up(self.0))
        } else {
            Transition::MoveToDown(Down(event[2]))
        }
    }
}

impl CurrentState for Down {
    open spec fn as_state(&self) -> State {
        State::Down(self.0)
    }

    fn to_event(&self) -> (r: Option<BLEEvent>) {
        if self.0 < LETTER_SLOTS {
            Some(BLEEvent::Letter(self.0))
        } else {
            None
        }
    }

    fn transition(&self, event: &ClickEvent) -> (t: Transition) {
        if event[2] == 0 {
            Transition::MoveToUp(Up(self.0))
        } else {
            Transition::Stay(State::Down(self.0))
        }
    }
}

impl CurrentState for State {
    open spec fn as_state(&self) -> State {
        *self
    }

    fn to_event(&self) -> (r: Option<BLEEvent>) {
        match *self {
            State::Up(_) => None,
            State::Down(held) => if held < LETTER_SLOTS {
                Some(BLEEvent::Letter(held))
            } else {
                None
            },
        }
    }

    fn transition(&self, event: &ClickEvent) -> (t: Transition) {
        match *self {
            State::Up(last) => if event[2] == 0 {
                Transition::Stay(State::Up(last))
            } else {
                Transition::MoveToDown(Down(event[2]))
            },
            State::Down(held) => if event[2] == 0 {
                Transition::MoveToUp(Up(held))
            } else {
                Transition::Stay(State::Down(held))
            },
        }
    }
}

/// Step whichever state is held and fold the outcome back into a
/// plain state. Agrees exactly with the plain machine's update.
pub fn process_event<S: CurrentState>(state: &S, event: &ClickEvent) -> (next: State)
    ensures
        next == spec_update(state.as_state(), event[2]),
{
    match state.transition(event) {
        Transition::Stay(s) => s,
        Transition::MoveToUp(u) => State::Up(u.0),
        Transition::MoveToDown(d) => State::Down(d.0),
    }
}

} // verus!
