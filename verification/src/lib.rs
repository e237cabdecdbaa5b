//! Button-event core of a BLE media-key bridge.
//!
//! A wireless keypad reports clicks as 4-byte frames `[0, 0, id, 0]`;
//! this crate tracks press/release state, resolves meta-key
//! combinations against fixed lookup tables, and queues identifiers
//! between the notification callback and the dispatcher that renders
//! HID output. Everything radio- or hardware-facing lives outside the
//! crate; the logic here is pure and fully verified.

use vstd::prelude::*;

pub mod catalog;
pub mod dispatch;
pub mod event;
pub mod input;
pub mod machine;
pub mod queue;
pub mod report;
pub mod states;
pub mod types;

verus! {

/// Raw 4-byte notification payload. Only the third byte carries
/// information: zero means "released", a key identifier means
/// "pressed". All four bytes are kept for wire compatibility.
pub type ClickEvent = [u8; 4];

/// The press-tracking machine under the name the firmware's callers
/// use for it.
pub type PushState = crate::event::State;

// Wire identifiers of the eight physical keys, as the keypad reports
// them in the third frame byte. Two red keys act as meta modifiers;
// the remaining six are regular keys.
pub const M1: u8 = 0x04;
pub const A2: u8 = 0x50;
pub const A3: u8 = 0x51;
pub const A4: u8 = 0x52;
pub const M2: u8 = 0x29;
pub const B2: u8 = 0x4F;
pub const B3: u8 = 0x05;
pub const B4: u8 = 0x28;

// The same identifiers under the keypad's physical button numbering.
pub const BUTTON_1: u8 = M1;
pub const BUTTON_2: u8 = A2;
pub const BUTTON_3: u8 = A3;
pub const BUTTON_4: u8 = A4;
pub const BUTTON_5: u8 = M2;
pub const BUTTON_6: u8 = B2;
pub const BUTTON_7: u8 = B3;
pub const BUTTON_8: u8 = B4;
pub const META_1: u8 = M1;
pub const META_2: u8 = M2;

} // verus!
