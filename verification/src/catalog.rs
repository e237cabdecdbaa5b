//! The button catalog: closed, immutable mappings from key
//! identifiers to output events.
//!
//! Two independent keyings exist side by side. The wire tables are
//! keyed by the raw identifier byte and feed the press-tracking
//! machine; the role tables are keyed by [`ButtonIdentifier`] and feed
//! the role-level machine. Each is written as a total match so the
//! whole mapping is visible to the verifier.

use vstd::prelude::*;

use crate::types::{BLEEvent, MediaControlKey, MediaKeyReport};
use crate::{A2, A3, A4, B2, B3, B4, M1, M2};

verus! {

/// Size of the shortcut letter space the two meta tables partition.
pub const LETTER_SLOTS: u8 = 12;

/// The media-control actions the six regular keys can trigger.
#[derive(Clone, Copy, Debug, PartialEq, Eq, Structural)]
pub enum MediaControl {
    VolumeDown,
    NextTrack,
    PrevTrack,
    PlayPause,
    VolumeUp,
    Eject,
}

/// The consumer-control bitmask pair of each media action.
pub open spec fn spec_media_report(control: MediaControl) -> MediaControlKey {
    match control {
        MediaControl::VolumeDown => MediaControlKey(64, 0),
        MediaControl::NextTrack => MediaControlKey(1, 0),
        MediaControl::PrevTrack => MediaControlKey(2, 0),
        MediaControl::PlayPause => MediaControlKey(8, 0),
        MediaControl::VolumeUp => MediaControlKey(32, 0),
        MediaControl::Eject => MediaControlKey(16, 0),
    }
}

impl MediaControl {
    /// The report payload for this action.
    pub fn report(self) -> (r: MediaControlKey)
        ensures
            r == spec_media_report(self),
    {
        match self {
            MediaControl::VolumeDown => MediaControlKey(64, 0),
            MediaControl::NextTrack => MediaControlKey(1, 0),
            MediaControl::PrevTrack => MediaControlKey(2, 0),
            MediaControl::PlayPause => MediaControlKey(8, 0),
            MediaControl::VolumeUp => MediaControlKey(32, 0),
            MediaControl::Eject => MediaControlKey(16, 0),
        }
    }
}

/// Wire table: media action of a regular key, `None` for any byte
/// that is not a regular key (meta keys and unknown bytes included).
pub open spec fn spec_media_event(id: u8) -> Option<MediaControl> {
    if id == A2 {
        Some(MediaControl::VolumeDown)
    } else if id == A3 {
        Some(MediaControl::PrevTrack)
    } else if id == A4 {
        Some(MediaControl::PlayPause)
    } else if id == B2 {
        Some(MediaControl::VolumeUp)
    } else if id == B3 {
        Some(MediaControl::NextTrack)
    } else if id == B4 {
        Some(MediaControl::Eject)
    } else {
        None
    }
}

/// Media action of a regular key identifier.
pub fn media_event(id: u8) -> (r: Option<MediaControl>)
    ensures
        r == spec_media_event(id),
{
    if id == A2 {
        Some(MediaControl::VolumeDown)
    } else if id == A3 {
        Some(MediaControl::PrevTrack)
    } else if id == A4 {
        Some(MediaControl::PlayPause)
    } else if id == B2 {
        Some(MediaControl::VolumeUp)
    } else if id == B3 {
        Some(MediaControl::NextTrack)
    } else if id == B4 {
        Some(MediaControl::Eject)
    } else {
        None
    }
}

/// Wire table: shortcut slot of a (meta, regular) pair. The first
/// meta key owns slots 0 through 5, the second slots 6 through 11,
/// so the two tables partition a 12-slot letter space.
pub open spec fn spec_meta_shortcut(meta: u8, id: u8) -> Option<u8> {
    if meta == M1 {
        if id == A2 {
            Some(0)
        } else if id == A3 {
            Some(1)
        } else if id == A4 {
            Some(2)
        } else if id == B2 {
            Some(3)
        } else if id == B3 {
            Some(4)
        } else if id == B4 {
            Some(5)
        } else {
            None
        }
    } else if meta == M2 {
        if id == A2 {
            Some(6)
        } else if id == A3 {
            Some(7)
        } else if id == A4 {
            Some(8)
        } else if id == B2 {
            Some(9)
        } else if id == B3 {
            Some(10)
        } else if id == B4 {
            Some(11)
        } else {
            None
        }
    } else {
        None
    }
}

/// Shortcut slot assigned to `id` under the meta key `meta`.
pub fn meta_shortcut(meta: u8, id: u8) -> (r: Option<u8>)
    ensures
        r == spec_meta_shortcut(meta, id),
{
    if meta == M1 {
        if id == A2 {
            Some(0)
        } else if id == A3 {
            Some(1)
        } else if id == A4 {
            Some(2)
        } else if id == B2 {
            Some(3)
        } else if id == B3 {
            Some(4)
        } else if id == B4 {
            Some(5)
        } else {
            None
        }
    } else if meta == M2 {
        if id == A2 {
            Some(6)
        } else if id == A3 {
            Some(7)
        } else if id == A4 {
            Some(8)
        } else if id == B2 {
            Some(9)
        } else if id == B3 {
            Some(10)
        } else if id == B4 {
            Some(11)
        } else {
            None
        }
    } else {
        None
    }
}

/// Wire table as the press-tracking machine consumes it: the event of
/// a regular key pressed with no preceding meta key.
pub open spec fn spec_regular_lookup(id: u8) -> Option<BLEEvent> {
    match spec_media_event(id) {
        Some(control) => {
            let key = spec_media_report(control);
            Some(BLEEvent::MediaKey(MediaKeyReport(key.0, key.1)))
        },
        None => None,
    }
}

/// Event of a regular key pressed with no preceding meta key.
pub fn regular_lookup(id: u8) -> (r: Option<BLEEvent>)
    ensures
        r == spec_regular_lookup(id),
{
    match media_event(id) {
        Some(control) => {
            let key = control.report();
            Some(BLEEvent::MediaKey(MediaKeyReport(key.0, key.1)))
        },
        None => None,
    }
}

/// Wire table as the press-tracking machine consumes it: the letter
/// event of a regular key pressed after the meta key `meta` was
/// released.
pub open spec fn spec_meta_lookup(meta: u8, id: u8) -> Option<BLEEvent> {
    match spec_meta_shortcut(meta, id) {
        Some(slot) => Some(BLEEvent::Letter(slot)),
        None => None,
    }
}

/// Letter event of `id` under the meta key `meta`.
pub fn meta_lookup(meta: u8, id: u8) -> (r: Option<BLEEvent>)
    ensures
        r == spec_meta_lookup(meta, id),
{
    match meta_shortcut(meta, id) {
        Some(slot) => Some(BLEEvent::Letter(slot)),
        None => None,
    }
}

/// The two meta tables never assign the same shortcut slot: whatever
/// regular keys are looked up, a slot granted by the first meta key
/// differs from any slot granted by the second.
pub proof fn lemma_meta_tables_disjoint(a: u8, b: u8)
    ensures
        spec_meta_shortcut(M1, a) matches Some(x)
            ==> spec_meta_shortcut(M2, b) matches Some(y) ==> x != y,
        spec_meta_shortcut(M1, a) matches Some(x) ==> x < 6,
        spec_meta_shortcut(M2, b) matches Some(y) ==> 6 <= y < LETTER_SLOTS,
{
}

} // verus!
