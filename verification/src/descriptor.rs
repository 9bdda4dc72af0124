//! The HID report descriptor and the USB identity of the button box.
//!
//! The descriptor is a compile-time-fixed byte sequence advertised to the
//! host once, at device registration; it declares a gamepad whose report is
//! one byte: two 1-bit variable button fields followed by six constant
//! padding bits. Beside the raw bytes stands a table of human-readable
//! field descriptions, used only for logs and diagnostics, never for
//! protocol logic.

use vstd::prelude::*;

verus! {

/// USB vendor id of the device.
pub const USB_VENDOR_ID: u16 = 0x16C0;

/// USB product id of the device.
pub const USB_PRODUCT_ID: u16 = 0x27DD;

/// USB device class: interface-specific.
pub const USB_DEVICE_CLASS: u8 = 0x00;

/// Number of entries in the field-description table.
pub const FIELD_DESCRIPTION_COUNT: usize = 18;

/// The raw HID report descriptor: a Generic Desktop gamepad holding a
/// physical pointer collection with buttons 1 and 2 as 1-bit variable
/// inputs and six 1-bit constant padding inputs.
pub open spec fn spec_hid_report_descriptor() -> Seq<u8> {
    seq![
        0x05u8, 0x01u8,  // Usage Page (Generic Desktop)
        0x09u8, 0x05u8,  // Usage (Gamepad)
        0xA1u8, 0x01u8,  // Collection (Application)
        0x09u8, 0x01u8,  // Usage (Pointer)
        0xA1u8, 0x00u8,  // Collection (Physical)
        0x05u8, 0x09u8,  // Usage Page (Button)
        0x19u8, 0x01u8,  // Usage Minimum (Button 1)
        0x29u8, 0x02u8,  // Usage Maximum (Button 2)
        0x15u8, 0x00u8,  // Logical Minimum (0)
        0x25u8, 0x01u8,  // Logical Maximum (1)
        0x95u8, 0x02u8,  // Report Count (2)
        0x75u8, 0x01u8,  // Report Size (1 bit)
        0x81u8, 0x02u8,  // Input (Data, Variable, Absolute)
        0x95u8, 0x06u8,  // Report Count (6 padding bits)
        0x75u8, 0x01u8,  // Report Size (1 bit)
        0x81u8, 0x01u8,  // Input (Constant, Variable, Absolute)
        0xC0u8,  // End Collection (Physical)
        0xC0u8,  // End Collection (Application)
    ]
}

/// The raw HID report descriptor bytes, for registration with the USB
/// transport: exactly the advertised sequence, byte for byte.
pub fn hid_report_descriptor() -> (descriptor: Vec<u8>)
    ensures
        descriptor@ == spec_hid_report_descriptor(),
        descriptor@.len() == 34,
{
    let mut descriptor: Vec<u8> = Vec::new();
    descriptor.push(0x05);
    descriptor.push(0x01);
    descriptor.push(0x09);
    descriptor.push(0x05);
    descriptor.push(0xA1);
    descriptor.push(0x01);
    descriptor.push(0x09);
    descriptor.push(0x01);
    descriptor.push(0xA1);
    descriptor.push(0x00);
    descriptor.push(0x05);
    descriptor.push(0x09);
    descriptor.push(0x19);
    descriptor.push(0x01);
    descriptor.push(0x29);
    descriptor.push(0x02);
    descriptor.push(0x15);
    descriptor.push(0x00);
    descriptor.push(0x25);
    descriptor.push(0x01);
    descriptor.push(0x95);
    descriptor.push(0x02);
    descriptor.push(0x75);
    descriptor.push(0x01);
    descriptor.push(0x81);
    descriptor.push(0x02);
    descriptor.push(0x95);
    descriptor.push(0x06);
    descriptor.push(0x75);
    descriptor.push(0x01);
    descriptor.push(0x81);
    descriptor.push(0x01);
    descriptor.push(0xC0);
    descriptor.push(0xC0);
    proof {
        assert(descriptor@ =~= spec_hid_report_descriptor());
    }
    descriptor
}

/// Human-readable descriptions of the descriptor's fields, one entry per
/// descriptor item, in descriptor order: the item's bytes beside its
/// meaning. Diagnostics only; protocol logic never reads this table.
pub fn descriptor_field_descriptions() -> (fields: Vec<(&'static str, &'static str)>)
    ensures
        fields@.len() == FIELD_DESCRIPTION_COUNT,
        fields@[0].0@ == "0x05, 0x01"@,
        fields@[0].1@ == "Usage Page (Generic Desktop)"@,
        fields@[1].0@ == "0x09, 0x05"@,
        fields@[1].1@ == "Usage (Gamepad)"@,
        fields@[2].0@ == "0xA1, 0x01"@,
        fields@[2].1@ == "Collection (Application)"@,
        fields@[3].0@ == "0x09, 0x01"@,
        fields@[3].1@ == "Usage (Pointer)"@,
        fields@[4].0@ == "0xA1, 0x00"@,
        fields@[4].1@ == "Collection (Physical)"@,
        fields@[5].0@ == "0x05, 0x09"@,
        fields@[5].1@ == "Usage Page (Button)"@,
        fields@[6].0@ == "0x19, 0x01"@,
        fields@[6].1@ == "Usage Minimum (Button 1)"@,
        fields@[7].0@ == "0x29, 0x02"@,
        fields@[7].1@ == "Usage Maximum (Button 2)"@,
        fields@[8].0@ == "0x15, 0x00"@,
        fields@[8].1@ == "Logical Minimum (0)"@,
        fields@[9].0@ == "0x25, 0x01"@,
        fields@[9].1@ == "Logical Maximum (1)"@,
        fields@[10].0@ == "0x95, 0x02"@,
        fields@[10].1@ == "Report Count (2 buttons)"@,
        fields@[11].0@ == "0x75, 0x01"@,
        fields@[11].1@ == "Report Size (1 bit each)"@,
        fields@[12].0@ == "0x81, 0x02"@,
        fields@[12].1@ == "Input (Data, Variable, Absolute)"@,
        fields@[13].0@ == "0x95, 0x06"@,
        fields@[13].1@ == "Report Count (6 padding bits)"@,
        fields@[14].0@ == "0x75, 0x01"@,
        fields@[14].1@ == "Report Size (1 bit each)"@,
        fields@[15].0@ == "0x81, 0x01"@,
        fields@[15].1@ == "Input (Constant, Variable, Absolute)"@,
        fields@[16].0@ == "0xC0"@,
        fields@[16].1@ == "End Collection (Physical)"@,
        fields@[17].0@ == "0xC0"@,
        fields@[17].1@ == "End Collection (Application)"@,
{
    let mut fields: Vec<(&'static str, &'static str)> = Vec::new();
    fields.push(("0x05, 0x01", "Usage Page (Generic Desktop)"));
    fields.push(("0x09, 0x05", "Usage (Gamepad)"));
    fields.push(("0xA1, 0x01", "Collection (Application)"));
    fields.push(("0x09, 0x01", "Usage (Pointer)"));
    fields.push(("0xA1, 0x00", "Collection (Physical)"));
    fields.push(("0x05, 0x09", "Usage Page (Button)"));
    fields.push(("0x19, 0x01", "Usage Minimum (Button 1)"));
    fields.push(("0x29, 0x02", "Usage Maximum (Button 2)"));
    fields.push(("0x15, 0x00", "Logical Minimum (0)"));
    fields.push(("0x25, 0x01", "Logical Maximum (1)"));
    fields.push(("0x95, 0x02", "Report Count (2 buttons)"));
    fields.push(("0x75, 0x01", "Report Size (1 bit each)"));
    fields.push(("0x81, 0x02", "Input (Data, Variable, Absolute)"));
    fields.push(("0x95, 0x06", "Report Count (6 padding bits)"));
    fields.push(("0x75, 0x01", "Report Size (1 bit each)"));
    fields.push(("0x81, 0x01", "Input (Constant, Variable, Absolute)"));
    fields.push(("0xC0", "End Collection (Physical)"));
    fields.push(("0xC0", "End Collection (Application)"));
    fields
}

/// Human-readable explanation of the one-byte report layout, for logs and
/// diagnostics: which bit carries which button, and example byte values.
pub fn report_structure_notes() -> (notes: &'static str)
    ensures
        notes@ == (
        "\nReport Structure (1 byte total):\n================================\nByte 0:\n  Bit 0: Button 1 state (1 = pressed, 0 = released)\n  Bit 1: Button 2 state (1 = pressed, 0 = released)\n  Bits 2-7: Padding (constant 0)\n\nExamples:\n- No buttons pressed: 0x00\n- Button 1 pressed: 0x01\n- Button 2 pressed: 0x02\n- Both buttons pressed: 0x03\n"
        )@,
{
    "\nReport Structure (1 byte total):\n================================\nByte 0:\n  Bit 0: Button 1 state (1 = pressed, 0 = released)\n  Bit 1: Button 2 state (1 = pressed, 0 = released)\n  Bits 2-7: Padding (constant 0)\n\nExamples:\n- No buttons pressed: 0x00\n- Button 1 pressed: 0x01\n- Button 2 pressed: 0x02\n- Both buttons pressed: 0x03\n"
}

/// Manufacturer string of the USB identity.
pub fn manufacturer() -> (name: &'static str)
    ensures
        name@ == "Button Box Co"@,
{
    "Button Box Co"
}

/// Product string of the USB identity.
pub fn product() -> (name: &'static str)
    ensures
        name@ == "2-Button Box"@,
{
    "2-Button Box"
}

/// Serial-number string of the USB identity.
pub fn serial_number() -> (serial: &'static str)
    ensures
        serial@ == "001"@,
{
    "001"
}

} // verus!
