//! Hex formatting.

use aurora::hex::format_hex_bytes;

#[test]
fn hex_lines() {
    let bytes = [0x00u8, 0x01, 0xab, 0xff, 0x10];
    assert_eq!(format_hex_bytes(2, 3, &bytes), "   00:01:\n   ab:ff:\n   10");
    assert_eq!(format_hex_bytes(16, 0, &bytes), "00:01:ab:ff:10");
    assert_eq!(format_hex_bytes(1, 1, &[0x0a]), " 0a");
    assert_eq!(format_hex_bytes(4, 2, &[]), "");
}
