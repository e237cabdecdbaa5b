//! The role-level state machine.
//!
//! This variant works over semantic roles instead of wire bytes: a
//! small index names each key, and a transition is judged from the
//! role that arrived before to the role arriving now. A meta key
//! followed by another meta key, and any transition into the
//! undefined state, are rejected with an error instead of an event.

use vstd::prelude::*;

use crate::types::{BluetoothEvent, ButtonIdentifier, InputState, InvalidButtonTransitionError,
    MediaControlKey, MetaButton};

verus! {

/// Role table: the media-control event of each regular key.
pub open spec fn spec_regular_button_events(id: ButtonIdentifier) -> Option<BluetoothEvent> {
    match id {
        ButtonIdentifier::A2 => Some(BluetoothEvent::MediaControlKey(MediaControlKey(64, 0))),
        ButtonIdentifier::A3 => Some(BluetoothEvent::MediaControlKey(MediaControlKey(2, 0))),
        ButtonIdentifier::A4 => Some(BluetoothEvent::MediaControlKey(MediaControlKey(8, 0))),
        ButtonIdentifier::B2 => Some(BluetoothEvent::MediaControlKey(MediaControlKey(32, 0))),
        ButtonIdentifier::B3 => Some(BluetoothEvent::MediaControlKey(MediaControlKey(1, 0))),
        ButtonIdentifier::B4 => Some(BluetoothEvent::MediaControlKey(MediaControlKey(16, 0))),
    }
}

/// Media-control event of a regular key pressed with no preceding
/// meta key. Every regular key is mapped; the `Option` keeps the
/// lookup shape defensive.
pub fn regular_button_events(id: ButtonIdentifier) -> (r: Option<BluetoothEvent>)
    ensures
        r == spec_regular_button_events(id),
{
    match id {
        ButtonIdentifier::A2 => Some(BluetoothEvent::MediaControlKey(MediaControlKey(64, 0))),
        ButtonIdentifier::A3 => Some(BluetoothEvent::MediaControlKey(MediaControlKey(2, 0))),
        ButtonIdentifier::A4 => Some(BluetoothEvent::MediaControlKey(MediaControlKey(8, 0))),
        ButtonIdentifier::B2 => Some(BluetoothEvent::MediaControlKey(MediaControlKey(32, 0))),
        ButtonIdentifier::B3 => Some(BluetoothEvent::MediaControlKey(MediaControlKey(1, 0))),
        ButtonIdentifier::B4 => Some(BluetoothEvent::MediaControlKey(MediaControlKey(16, 0))),
    }
}

/// Role table: the letter event of each regular key under the first
/// meta key.
pub open spec fn spec_meta_button_events_one(id: ButtonIdentifier) -> Option<BluetoothEvent> {
    match id {
        ButtonIdentifier::A2 => Some(BluetoothEvent::Letter(2)),
        ButtonIdentifier::A3 => Some(BluetoothEvent::Letter(3)),
        ButtonIdentifier::A4 => Some(BluetoothEvent::Letter(4)),
        ButtonIdentifier::B2 => Some(BluetoothEvent::Letter(6)),
        ButtonIdentifier::B3 => Some(BluetoothEvent::Letter(7)),
        ButtonIdentifier::B4 => Some(BluetoothEvent::Letter(8)),
    }
}

/// Letter event of `id` under the first meta key.
pub fn meta_button_events_one(id: ButtonIdentifier) -> (r: Option<BluetoothEvent>)
    ensures
        r == spec_meta_button_events_one(id),
{
    match id {
        ButtonIdentifier::A2 => Some(BluetoothEvent::Letter(2)),
        ButtonIdentifier::A3 => Some(BluetoothEvent::Letter(3)),
        ButtonIdentifier::A4 => Some(BluetoothEvent::Letter(4)),
        ButtonIdentifier::B2 => Some(BluetoothEvent::Letter(6)),
        ButtonIdentifier::B3 => Some(BluetoothEvent::Letter(7)),
        ButtonIdentifier::B4 => Some(BluetoothEvent::Letter(8)),
    }
}

/// Role table: the letter event of each regular key under the second
/// meta key.
pub open spec fn spec_meta_button_events_two(id: ButtonIdentifier) -> Option<BluetoothEvent> {
    match id {
        ButtonIdentifier::A2 => Some(BluetoothEvent::Letter(10)),
        ButtonIdentifier::A3 => Some(BluetoothEvent::Letter(11)),
        ButtonIdentifier::A4 => Some(BluetoothEvent::Letter(12)),
        ButtonIdentifier::B2 => Some(BluetoothEvent::Letter(14)),
        ButtonIdentifier::B3 => Some(BluetoothEvent::Letter(15)),
        ButtonIdentifier::B4 => Some(BluetoothEvent::Letter(16)),
    }
}

/// Letter event of `id` under the second meta key.
pub fn meta_button_events_two(id: ButtonIdentifier) -> (r: Option<BluetoothEvent>)
    ensures
        r == spec_meta_button_events_two(id),
{
    match id {
        ButtonIdentifier::A2 => Some(BluetoothEvent::Letter(10)),
        ButtonIdentifier::A3 => Some(BluetoothEvent::Letter(11)),
        ButtonIdentifier::A4 => Some(BluetoothEvent::Letter(12)),
        ButtonIdentifier::B2 => Some(BluetoothEvent::Letter(14)),
        ButtonIdentifier::B3 => Some(BluetoothEvent::Letter(15)),
        ButtonIdentifier::B4 => Some(BluetoothEvent::Letter(16)),
    }
}

/// The two role-level meta tables never assign the same letter.
pub proof fn lemma_meta_button_events_disjoint(a: ButtonIdentifier, b: ButtonIdentifier)
    ensures
        spec_meta_button_events_one(a) matches Some(x)
            ==> spec_meta_button_events_two(b) matches Some(y) ==> x != y,
{
}

/// The role a physical button number names, if any. The numbering is
/// one-based: buttons 1 and 5 are the meta keys, the numbers between
/// and after them the six regular keys. Byte 0 is the reserved
/// no-key sentinel of release frames and is rejected like any other
/// unknown byte, never silently mapped.
pub open spec fn spec_input_state_from(id: u8) -> Option<InputState> {
    if id == 1 {
        Some(InputState::Meta(MetaButton::M1))
    } else if id == 2 {
        Some(InputState::Regular(ButtonIdentifier::A2))
    } else if id == 3 {
        Some(InputState::Regular(ButtonIdentifier::A3))
    } else if id == 4 {
        Some(InputState::Regular(ButtonIdentifier::A4))
    } else if id == 5 {
        Some(InputState::Meta(MetaButton::M2))
    } else if id == 6 {
        Some(InputState::Regular(ButtonIdentifier::B2))
    } else if id == 7 {
        Some(InputState::Regular(ButtonIdentifier::B3))
    } else if id == 8 {
        Some(InputState::Regular(ButtonIdentifier::B4))
    } else {
        None
    }
}

/// What a role-level transition yields: the event to send and the
/// state to keep, or the error that names the rejected pair.
pub open spec fn spec_transition_to(prev: InputState, next: InputState) -> Result<
    (Option<BluetoothEvent>, InputState),
    InvalidButtonTransitionError,
> {
    match (prev, next) {
        (InputState::Meta(_), InputState::Meta(_)) => Err(
            InvalidButtonTransitionError::InvalidButton(prev, next),
        ),
        (_, InputState::Undefined) => Err(InvalidButtonTransitionError::InvalidButton(prev, next)),
        (InputState::Meta(MetaButton::M1), InputState::Regular(button)) => Ok(
            (spec_meta_button_events_one(button), next),
        ),
        (InputState::Meta(MetaButton::M2), InputState::Regular(button)) => Ok(
            (spec_meta_button_events_two(button), next),
        ),
        (_, InputState::Regular(button)) => Ok((spec_regular_button_events(button), next)),
        (_, InputState::Meta(_)) => Ok((None, next)),
    }
}

impl InputState {
    /// Decode a physical button number into its role. Exactly the
    /// numbers 1 through 8 decode; 0 — the no-key sentinel of release
    /// frames — and every other byte are rejected rather than mapped.
    pub fn from(id: u8) -> (r: Option<InputState>)
        ensures
            r == spec_input_state_from(id),
            r is Some <==> 1 <= id <= 8,
    {
        if id == 1 {
            Some(InputState::Meta(MetaButton::M1))
        } else if id == 2 {
            Some(InputState::Regular(ButtonIdentifier::A2))
        } else if id == 3 {
            Some(InputState::Regular(ButtonIdentifier::A3))
        } else if id == 4 {
            Some(InputState::Regular(ButtonIdentifier::A4))
        } else if id == 5 {
            Some(InputState::Meta(MetaButton::M2))
        } else if id == 6 {
            Some(InputState::Regular(ButtonIdentifier::B2))
        } else if id == 7 {
            Some(InputState::Regular(ButtonIdentifier::B3))
        } else if id == 8 {
            Some(InputState::Regular(ButtonIdentifier::B4))
        } else {
            None
        }
    }

    /// Advance from this role to `next`. A regular key resolves
    /// through the table selected by the preceding meta key, if any;
    /// a meta key arriving after a regular one latches silently. Two
    /// meta keys in a row, and any move into the undefined state, are
    /// rejected with the offending pair; state desync must never
    /// crash the bridge, so the error is a value, not a panic.
    pub fn transition_to(self, next: Self) -> (r: Result<
        (Option<BluetoothEvent>, Self),
        InvalidButtonTransitionError,
    >)
        ensures
            r == spec_transition_to(self, next),
    {
        match (self, next) {
            (InputState::Meta(_), InputState::Meta(_)) => Err(
                InvalidButtonTransitionError::InvalidButton(self, next),
            ),
            (_, InputState::Undefined) => Err(
                InvalidButtonTransitionError::InvalidButton(self, next),
            ),
            (InputState::Meta(MetaButton::M1), InputState::Regular(button)) => Ok(
                (meta_button_events_one(button), next),
            ),
            (InputState::Meta(MetaButton::M2), InputState::Regular(button)) => Ok(
                (meta_button_events_two(button), next),
            ),
            (_, InputState::Regular(button)) => Ok((regular_button_events(button), next)),
            (_, InputState::Meta(_)) => Ok((None, next)),
        }
    }
}

} // verus!
