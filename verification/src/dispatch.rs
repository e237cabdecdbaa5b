//! Producer and consumer around the queue.
//!
//! The producer side validates a raw notification and submits its
//! identifier byte — releases included, since release detection lives
//! in the state machine, not here. The consumer side owns the
//! press-tracking state: it drains the queue in order and collects
//! the events the transitions resolve to.

use vstd::prelude::*;

use crate::event::{spec_transition, State};
use crate::queue::{spec_submit, EventQueue};
use crate::types::BLEEvent;
use crate::ClickEvent;

verus! {

/// A notification payload is a frame exactly when it is four bytes
/// long; anything shorter or longer is malformed and rejected.
pub fn parse_frame(data: &[u8]) -> (r: Option<ClickEvent>)
    ensures
        data@.len() == 4 ==> (r matches Some(f) && f@ =~= data@),
        data@.len() != 4 ==> r is None,
{
    if data.len() == 4 {
        Some([data[0], data[1], data[2], data[3]])
    } else {
        None
    }
}

/// Producer entry, run in the notification callback's context: hand
/// the frame's identifier byte to the queue. Zero bytes (releases)
/// are forwarded like any other; a missing frame is ignored. Never
/// blocks: on a full queue the click is dropped and the queue keeps
/// its accepted items.
pub fn on_event(queue: &mut EventQueue, event: Option<&ClickEvent>)
    requires
        old(queue).wf(),
    ensures
        final(queue).wf(),
        final(queue).cap() == old(queue).cap(),
        event matches Some(e) ==> final(queue)@ == spec_submit(
            old(queue)@,
            old(queue).cap(),
            e[2],
        ).0,
        event is None ==> final(queue)@ == old(queue)@,
{
    match event {
        Some(frame) => {
            let _ = queue.submit(frame[2]);
        },
        None => {},
    }
}

/// Consumer work for one queued identifier: feed it through the
/// press-tracking machine as the frame it stood for.
pub fn dispatch_step(state: State, id: u8) -> (r: (State, Option<BLEEvent>))
    ensures
        r == spec_transition(state, id),
{
    let frame: ClickEvent = [0, 0, id, 0];
    state.transition(&frame)
}

/// Folding a whole run of identifiers through the machine: the state
/// after the last transition, and every event the run produced, in
/// submission order.
pub open spec fn spec_run(s: State, ids: Seq<u8>) -> (State, Seq<BLEEvent>)
    decreases ids.len(),
{
    if ids.len() == 0 {
        (s, Seq::empty())
    } else {
        let step = spec_transition(s, ids[0]);
        let rest = spec_run(step.0, ids.drop_first());
        (
            rest.0,
            match step.1 {
                Some(e) => seq![e] + rest.1,
                None => rest.1,
            },
        )
    }
}

/// Consumer loop body: drain the queue in order, threading the
/// press-tracking state, and collect the events to forward to the
/// HID sender. The queue is left empty; state and events are exactly
/// the fold of the drained identifiers.
pub fn dispatch_drain(queue: &mut EventQueue, state: &mut State) -> (out: Vec<BLEEvent>)
    requires
        old(queue).wf(),
    ensures
        final(queue).wf(),
        final(queue).cap() == old(queue).cap(),
        final(queue)@.len() == 0,
        *final(state) == spec_run(*old(state), old(queue)@).0,
        out@ == spec_run(*old(state), old(queue)@).1,
{
    let mut out: Vec<BLEEvent> = Vec::new();
    while queue.len() > 0
        invariant
            queue.wf(),
            queue.cap() == old(queue).cap(),
            spec_run(*old(state), old(queue)@).0 == spec_run(*state, queue@).0,
            spec_run(*old(state), old(queue)@).1 == out@ + spec_run(*state, queue@).1,
        decreases queue@.len(),
    {
        let ghost q0 = queue@;
        let id = queue.pop().unwrap();
        let (next, ev) = dispatch_step(*state, id);
        *state = next;
        match ev {
            Some(e) => {
                out.push(e);
            },
            None => {},
        }
        proof {
            assert(queue@ =~= q0.drop_first());
        }
    }
    out
}

} // verus!
