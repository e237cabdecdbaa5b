//! Contents of the HID reports the dispatcher's events render to.
//!
//! The sending itself is hardware work and stays outside the crate;
//! what is computed here is the byte content handed to the sender: a
//! keyboard report that types the shortcut letter of a slot as an
//! uppercase character.

use vstd::prelude::*;

verus! {

/// Modifier bit of the left shift key in a keyboard report, also the
/// high bit that turns a key usage into its shifted form.
pub const SHIFT: u8 = 0x80;

/// Key usage of the letter `a`; the letter of slot `n` is `a + n`.
pub const LOWERCASE_A: u8 = 0x04;

/// Keyboard report that types the shortcut letter of `offset` as an
/// uppercase character: shift held, one key down, the key being the
/// letter's usage raised by the shifted bit.
pub fn shortcut_report(offset: u8) -> (r: [u8; 6])
    requires
        offset <= 0x7B,
    ensures
        r@ =~= seq![SHIFT, 0u8, 0u8, 0u8, 0u8, ((LOWERCASE_A + SHIFT) + offset) as u8],
{
    let uppercase_a: u8 = LOWERCASE_A + SHIFT;
    let uppercase_shortcut_letter: u8 = uppercase_a + offset;
    [SHIFT, 0, 0, 0, 0, uppercase_shortcut_letter]
}

/// Keyboard report with no key held, sent after a tap to release it.
pub fn clear_report() -> (r: [u8; 6])
    ensures
        r@ =~= seq![0u8, 0u8, 0u8, 0u8, 0u8, 0u8],
{
    [0, 0, 0, 0, 0, 0]
}

} // verus!
