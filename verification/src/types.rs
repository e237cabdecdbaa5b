//! Data carried through the pipeline: output events, button roles,
//! and the error raised on an invalid role transition.

use vstd::prelude::*;

verus! {

/// Two-byte consumer-control bitmask pair, the payload of a media-key
/// HID report.
#[derive(Clone, Copy, Debug, PartialEq, Eq, Structural)]
pub struct MediaControlKey(pub u8, pub u8);

impl MediaControlKey {
    /// The two bytes as they are written into a report.
    pub fn into_bytes(self) -> (r: [u8; 2])
        ensures
            r@ =~= seq![self.0, self.1],
    {
        [self.0, self.1]
    }
}

/// Two-byte consumer-control bitmask pair under the name the
/// press-tracking machine uses.
#[derive(Clone, Copy, Debug, PartialEq, Eq, Structural)]
pub struct MediaKeyReport(pub u8, pub u8);

/// Output of the press-tracking machine: either a media-control
/// report or a shortcut letter selected by index.
#[derive(Clone, Copy, Debug, PartialEq, Eq, Structural)]
pub enum BLEEvent {
    MediaKey(MediaKeyReport),
    Letter(u8),
}

/// The six regular keys, by semantic role.
#[derive(Clone, Copy, Debug, PartialEq, Eq, Structural)]
pub enum ButtonIdentifier {
    A2,
    A3,
    A4,
    B2,
    B3,
    B4,
}

/// The two meta keys.
#[derive(Clone, Copy, Debug, PartialEq, Eq, Structural)]
pub enum MetaButton {
    M1,
    M2,
}

/// Role-level input state: which kind of key arrived last.
#[derive(Clone, Copy, Debug, PartialEq, Eq, Structural)]
pub enum InputState {
    Meta(MetaButton),
    Regular(ButtonIdentifier),
    Undefined,
}

/// Role-level output event: a media-control report or a shortcut
/// letter selected by index.
#[derive(Clone, Copy, Debug, PartialEq, Eq, Structural)]
pub enum BluetoothEvent {
    MediaControlKey(MediaControlKey),
    Letter(u8),
}

/// Raised when the role-level machine is asked for a transition that
/// the design rules out.
#[derive(Clone, Copy, Debug, PartialEq, Eq, Structural)]
pub enum InvalidButtonTransitionError {
    InvalidButton(InputState, InputState),
}

} // verus!
