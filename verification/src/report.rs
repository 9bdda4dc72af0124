//! The in-memory HID report for the two-button box.
//!
//! A report owns exactly one packed byte. Every constructor and mutator keeps
//! the reserved padding bits (bits 2-7) clear, so each report serialized onto
//! the wire satisfies the padding invariant the descriptor advertises.

use vstd::prelude::*;

use crate::codec::BUTTON1_BIT;
use crate::codec::BUTTON2_BIT;
use crate::codec::BUTTON_MASK;
use crate::codec::PADDING_MASK;
use crate::codec::spec_button1_pressed;
use crate::codec::spec_button2_pressed;
use crate::codec::spec_valid_button_byte;

verus! {

/// One of the two physical buttons. The cardinality is fixed: the report
/// descriptor advertises exactly two 1-bit button fields.
#[derive(Debug, Clone, Copy, PartialEq, Eq, Structural)]
pub enum ButtonIndex {
    Button1,
    Button2,
}

/// Why deserialization of externally supplied bytes failed.
#[derive(Debug, Clone, Copy, PartialEq, Eq, Structural)]
pub enum DeserializeError {
    /// The input buffer held no bytes at all.
    InsufficientLength,
    /// A reserved padding bit was set. The lenient masking policy this
    /// library applies never raises it: `deserialize` discards reserved
    /// bits instead. The kind names the rejection a caller that checks
    /// external bytes strictly (with [`crate::codec::is_valid_button_byte`])
    /// reports at its own ingestion boundary.
    InvalidPadding,
}

/// A single HID report from the button box.
///
/// Bit 0 of `buttons` is button 1 (1 = pressed), bit 1 is button 2, and
/// bits 2-7 are padding that stays zero in every well-formed report.
#[derive(Debug, Clone, Copy, PartialEq, Eq, Structural)]
pub struct ButtonBoxHidReport {
    /// Button states packed into a single byte.
    pub buttons: u8,
}

/// Turning `byte` into `if pressed { byte | bit } else { byte & !bit }`
/// changes the selected bit alone: the other button bit and all padding
/// bits keep their old values, and well-formedness is preserved.
proof fn lemma_set_bit(byte: u8, bit: u8, pressed: bool)
    by (bit_vector)
    requires
        bit == BUTTON1_BIT || bit == BUTTON2_BIT,
    ensures
        ((if pressed { byte | bit } else { byte & !bit }) & bit != 0) == pressed,
        bit != BUTTON1_BIT ==> ((if pressed { byte | bit } else { byte & !bit }) & BUTTON1_BIT != 0)
            == (byte & BUTTON1_BIT != 0),
        bit != BUTTON2_BIT ==> ((if pressed { byte | bit } else { byte & !bit }) & BUTTON2_BIT != 0)
            == (byte & BUTTON2_BIT != 0),
        (if pressed { byte | bit } else { byte & !bit }) & PADDING_MASK == byte & PADDING_MASK,
{
}

impl ButtonBoxHidReport {
    /// Whether this report is well formed: no reserved padding bit is set.
    pub open spec fn wf(self) -> bool {
        spec_valid_button_byte(self.buttons)
    }

    /// The state of button 1 in this report.
    pub open spec fn spec_button1(self) -> bool {
        spec_button1_pressed(self.buttons)
    }

    /// The state of button 2 in this report.
    pub open spec fn spec_button2(self) -> bool {
        spec_button2_pressed(self.buttons)
    }

    /// The byte sequence this report serializes to: its packed byte, verbatim.
    pub open spec fn spec_bytes(self) -> Seq<u8> {
        seq![self.buttons]
    }

    /// Create a new report with no buttons pressed.
    pub fn new() -> (report: Self)
        ensures
            report.buttons == 0,
            !report.spec_button1(),
            !report.spec_button2(),
            report.wf(),
    {
        proof {
            assert(0u8 & BUTTON1_BIT == 0 && 0u8 & BUTTON2_BIT == 0 && 0u8 & PADDING_MASK == 0)
                by (bit_vector);
        }
        Self { buttons: 0 }
    }

    /// Set the state of button 1, leaving every other bit untouched.
    pub fn set_button1(&mut self, pressed: bool)
        ensures
            final(self).spec_button1() == pressed,
            final(self).spec_button2() == old(self).spec_button2(),
            final(self).buttons & PADDING_MASK == old(self).buttons & PADDING_MASK,
            old(self).wf() ==> final(self).wf(),
    {
        proof {
            lemma_set_bit(self.buttons, BUTTON1_BIT, pressed);
        }
        if pressed {
            self.buttons = self.buttons | BUTTON1_BIT;
        } else {
            self.buttons = self.buttons & !BUTTON1_BIT;
        }
    }

    /// Set the state of button 2, leaving every other bit untouched.
    pub fn set_button2(&mut self, pressed: bool)
        ensures
            final(self).spec_button2() == pressed,
            final(self).spec_button1() == old(self).spec_button1(),
            final(self).buttons & PADDING_MASK == old(self).buttons & PADDING_MASK,
            old(self).wf() ==> final(self).wf(),
    {
        proof {
            lemma_set_bit(self.buttons, BUTTON2_BIT, pressed);
        }
        if pressed {
            self.buttons = self.buttons | BUTTON2_BIT;
        } else {
            self.buttons = self.buttons & !BUTTON2_BIT;
        }
    }

    /// The state of the button selected by `index` in this report.
    pub open spec fn spec_pressed(self, index: ButtonIndex) -> bool {
        match index {
            ButtonIndex::Button1 => self.spec_button1(),
            ButtonIndex::Button2 => self.spec_button2(),
        }
    }

    /// Set the state of the button selected by `index`, leaving the other
    /// button and every padding bit untouched.
    pub fn set_button(&mut self, index: ButtonIndex, pressed: bool)
        ensures
            final(self).spec_pressed(index) == pressed,
            final(self).spec_button1() == (if index is Button1 {
                pressed
            } else {
                old(self).spec_button1()
            }),
            final(self).spec_button2() == (if index is Button2 {
                pressed
            } else {
                old(self).spec_button2()
            }),
            final(self).buttons & PADDING_MASK == old(self).buttons & PADDING_MASK,
            old(self).wf() ==> final(self).wf(),
    {
        match index {
            ButtonIndex::Button1 => self.set_button1(pressed),
            ButtonIndex::Button2 => self.set_button2(pressed),
        }
    }

    /// Read the state of the button selected by `index`.
    pub fn is_pressed(&self, index: ButtonIndex) -> (pressed: bool)
        ensures
            pressed == self.spec_pressed(index),
    {
        match index {
            ButtonIndex::Button1 => self.button1_pressed(),
            ButtonIndex::Button2 => self.button2_pressed(),
        }
    }

    /// Get the state of button 1.
    pub fn button1_pressed(&self) -> (pressed: bool)
        ensures
            pressed == self.spec_button1(),
    {
        (self.buttons & BUTTON1_BIT) != 0
    }

    /// Get the state of button 2.
    pub fn button2_pressed(&self) -> (pressed: bool)
        ensures
            pressed == self.spec_button2(),
    {
        (self.buttons & BUTTON2_BIT) != 0
    }

    /// Convert to a byte array for transmission: the packed byte, verbatim.
    pub fn as_bytes(&self) -> (bytes: [u8; 1])
        ensures
            bytes@ == self.spec_bytes(),
    {
        let bytes = [self.buttons];
        proof {
            assert(bytes@ =~= self.spec_bytes());
        }
        bytes
    }

    /// Deserialize a report from externally supplied bytes.
    ///
    /// Fails with `InsufficientLength` if and only if the input holds no
    /// bytes; otherwise masks the first byte to the two button bits
    /// (lenient policy: reserved bits are discarded, not rejected) and so
    /// always yields a well-formed report.
    pub fn deserialize(bytes: &[u8]) -> (report: Result<Self, DeserializeError>)
        ensures
            report is Ok <==> bytes@.len() >= 1,
            bytes@.len() >= 1 ==> report == Result::<Self, DeserializeError>::Ok(
                ButtonBoxHidReport { buttons: bytes@[0] & BUTTON_MASK },
            ),
            bytes@.len() == 0 ==> report == Result::<Self, DeserializeError>::Err(
                DeserializeError::InsufficientLength,
            ),
            report matches Ok(r) ==> r.wf(),
    {
        if bytes.len() >= 1 {
            proof {
                crate::codec::lemma_masked_byte_valid(bytes@[0]);
            }
            Ok(Self { buttons: bytes[0] & BUTTON_MASK })
        } else {
            Err(DeserializeError::InsufficientLength)
        }
    }

    /// Create a report from raw bytes: [`Self::deserialize`] with the one
    /// possible failure, an empty input, encoded as `None`.
    pub fn from_bytes(bytes: &[u8]) -> (report: Option<Self>)
        ensures
            report is Some <==> bytes@.len() >= 1,
            bytes@.len() >= 1 ==> report == Some(ButtonBoxHidReport {
                buttons: bytes@[0] & BUTTON_MASK,
            }),
            report matches Some(r) ==> r.wf(),
    {
        match Self::deserialize(bytes) {
            Ok(report) => Some(report),
            Err(_) => None,
        }
    }
}

impl Default for ButtonBoxHidReport {
    /// The default report has both buttons released.
    fn default() -> (report: Self)
        ensures
            report.buttons == 0,
            report.wf(),
    {
        Self::new()
    }
}

/// Padding invariant: every well-formed report serializes to a byte whose
/// reserved bits 2-7 are all zero.
pub proof fn lemma_serialized_padding_zero(report: ButtonBoxHidReport)
    requires
        report.wf(),
    ensures
        report.spec_bytes()[0] & PADDING_MASK == 0,
{
}

} // verus!
