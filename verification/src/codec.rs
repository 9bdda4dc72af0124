//! Bit-field codec for the one-byte button report.
//!
//! The wire format packs both button states into a single byte: bit 0 is
//! button 1, bit 1 is button 2, and bits 2-7 are reserved padding that must
//! stay zero in every byte sent to the host. These functions are the one
//! place that knows which bit means what.

use vstd::prelude::*;

verus! {

/// Bit for button 1 in the report byte.
pub const BUTTON1_BIT: u8 = 0x01;

/// Bit for button 2 in the report byte.
pub const BUTTON2_BIT: u8 = 0x02;

/// Mask of the bits that carry button state.
pub const BUTTON_MASK: u8 = 0x03;

/// Mask of the reserved padding bits, which must be zero on the wire.
pub const PADDING_MASK: u8 = 0xFC;

/// Whether bit 0 (button 1) is set in a report byte.
pub open spec fn spec_button1_pressed(byte: u8) -> bool {
    byte & BUTTON1_BIT != 0
}

/// Whether bit 1 (button 2) is set in a report byte.
pub open spec fn spec_button2_pressed(byte: u8) -> bool {
    byte & BUTTON2_BIT != 0
}

/// The report byte for the given button states: bit 0 iff `button1`,
/// bit 1 iff `button2`, all other bits zero.
pub open spec fn spec_button_byte(button1: bool, button2: bool) -> u8 {
    (if button1 { BUTTON1_BIT } else { 0u8 }) | (if button2 { BUTTON2_BIT } else { 0u8 })
}

/// Whether a byte keeps all reserved padding bits clear.
pub open spec fn spec_valid_button_byte(byte: u8) -> bool {
    byte & PADDING_MASK == 0
}

/// Round trip: packing two button states and reading them back yields the
/// same states, and the packed byte never sets a reserved padding bit.
pub proof fn lemma_button_byte_round_trip(button1: bool, button2: bool)
    by (bit_vector)
    ensures
        spec_button1_pressed(spec_button_byte(button1, button2)) == button1,
        spec_button2_pressed(spec_button_byte(button1, button2)) == button2,
        spec_valid_button_byte(spec_button_byte(button1, button2)),
{
}

/// Masking a byte to the button bits clears every reserved padding bit while
/// leaving both button bits as they were.
pub proof fn lemma_masked_byte_valid(byte: u8)
    by (bit_vector)
    ensures
        spec_valid_button_byte(byte & BUTTON_MASK),
        spec_button1_pressed(byte & BUTTON_MASK) == spec_button1_pressed(byte),
        spec_button2_pressed(byte & BUTTON_MASK) == spec_button2_pressed(byte),
{
}

/// Create the report byte from the two button states.
pub fn create_button_byte(button1: bool, button2: bool) -> (byte: u8)
    ensures
        byte == spec_button_byte(button1, button2),
        spec_button1_pressed(byte) == button1,
        spec_button2_pressed(byte) == button2,
        spec_valid_button_byte(byte),
{
    let low: u8 = if button1 {
        BUTTON1_BIT
    } else {
        0
    };
    let high: u8 = if button2 {
        BUTTON2_BIT
    } else {
        0
    };
    let byte = low | high;
    proof {
        lemma_button_byte_round_trip(button1, button2);
    }
    byte
}

/// Extract `(button1, button2)` from a raw report byte. Reserved padding
/// bits are ignored, not rejected.
pub fn extract_buttons(raw_byte: u8) -> (buttons: (bool, bool))
    ensures
        buttons.0 == spec_button1_pressed(raw_byte),
        buttons.1 == spec_button2_pressed(raw_byte),
{
    let button1 = (raw_byte & BUTTON1_BIT) != 0;
    let button2 = (raw_byte & BUTTON2_BIT) != 0;
    (button1, button2)
}

/// Check that a byte only has valid button bits set: true iff every
/// reserved padding bit is clear.
pub fn is_valid_button_byte(byte: u8) -> (valid: bool)
    ensures
        valid == spec_valid_button_byte(byte),
{
    (byte & PADDING_MASK) == 0
}

} // verus!
