use button_box::descriptor::descriptor_field_descriptions;
use button_box::descriptor::hid_report_descriptor;
use button_box::descriptor::report_structure_notes;
use button_box::descriptor::manufacturer;
use button_box::descriptor::product;
use button_box::descriptor::serial_number;
use button_box::descriptor::FIELD_DESCRIPTION_COUNT;
use button_box::descriptor::USB_DEVICE_CLASS;
use button_box::descriptor::USB_PRODUCT_ID;
use button_box::descriptor::USB_VENDOR_ID;

#[test]
fn descriptor_bytes_match_the_advertised_layout() {
    let expected: Vec<u8> = vec![
        0x05, 0x01, // Usage Page (Generic Desktop)
        0x09, 0x05, // Usage (Gamepad)
        0xA1, 0x01, // Collection (Application)
        0x09, 0x01, // Usage (Pointer)
        0xA1, 0x00, // Collection (Physical)
        0x05, 0x09, // Usage Page (Button)
        0x19, 0x01, // Usage Minimum (Button 1)
        0x29, 0x02, // Usage Maximum (Button 2)
        0x15, 0x00, // Logical Minimum (0)
        0x25, 0x01, // Logical Maximum (1)
        0x95, 0x02, // Report Count (2)
        0x75, 0x01, // Report Size (1 bit)
        0x81, 0x02, // Input (Data, Variable, Absolute)
        0x95, 0x06, // Report Count (6 padding bits)
        0x75, 0x01, // Report Size (1 bit)
        0x81, 0x01, // Input (Constant, Variable, Absolute)
        0xC0, // End Collection (Physical)
        0xC0, // End Collection (Application)
    ];
    assert_eq!(hid_report_descriptor(), expected);
}

#[test]
fn descriptor_has_thirty_four_bytes() {
    assert_eq!(hid_report_descriptor().len(), 34);
}

#[test]
fn field_descriptions_cover_every_descriptor_item() {
    let expected = vec![
        ("0x05, 0x01", "Usage Page (Generic Desktop)"),
        ("0x09, 0x05", "Usage (Gamepad)"),
        ("0xA1, 0x01", "Collection (Application)"),
        ("0x09, 0x01", "Usage (Pointer)"),
        ("0xA1, 0x00", "Collection (Physical)"),
        ("0x05, 0x09", "Usage Page (Button)"),
        ("0x19, 0x01", "Usage Minimum (Button 1)"),
        ("0x29, 0x02", "Usage Maximum (Button 2)"),
        ("0x15, 0x00", "Logical Minimum (0)"),
        ("0x25, 0x01", "Logical Maximum (1)"),
        ("0x95, 0x02", "Report Count (2 buttons)"),
        ("0x75, 0x01", "Report Size (1 bit each)"),
        ("0x81, 0x02", "Input (Data, Variable, Absolute)"),
        ("0x95, 0x06", "Report Count (6 padding bits)"),
        ("0x75, 0x01", "Report Size (1 bit each)"),
        ("0x81, 0x01", "Input (Constant, Variable, Absolute)"),
        ("0xC0", "End Collection (Physical)"),
        ("0xC0", "End Collection (Application)"),
    ];
    assert_eq!(expected.len(), FIELD_DESCRIPTION_COUNT);
    assert_eq!(descriptor_field_descriptions(), expected);
}

#[test]
fn report_structure_notes_explain_the_packed_byte() {
    let notes = report_structure_notes();
    assert_eq!(
        notes,
        "\nReport Structure (1 byte total):\n================================\nByte 0:\n  Bit 0: Button 1 state (1 = pressed, 0 = released)\n  Bit 1: Button 2 state (1 = pressed, 0 = released)\n  Bits 2-7: Padding (constant 0)\n\nExamples:\n- No buttons pressed: 0x00\n- Button 1 pressed: 0x01\n- Button 2 pressed: 0x02\n- Both buttons pressed: 0x03\n"
    );
    assert!(notes.contains("Bit 0: Button 1 state"));
    assert!(notes.contains("Bits 2-7: Padding (constant 0)"));
}

#[test]
fn field_description_bytes_follow_descriptor_order() {
    let descriptor = hid_report_descriptor();
    let fields = descriptor_field_descriptions();
    let mut offset: usize = 0;
    for (bytes_text, _meaning) in fields {
        for byte_text in bytes_text.split(", ") {
            assert_eq!(byte_text, format!("{:#04X}", descriptor[offset]));
            offset += 1;
        }
    }
    assert_eq!(offset, descriptor.len());
}

#[test]
fn usb_identity_is_fixed() {
    assert_eq!(USB_VENDOR_ID, 0x16C0);
    assert_eq!(USB_PRODUCT_ID, 0x27DD);
    assert_eq!(USB_DEVICE_CLASS, 0x00);
    assert_eq!(manufacturer(), "Button Box Co");
    assert_eq!(product(), "2-Button Box");
    assert_eq!(serial_number(), "001");
}
