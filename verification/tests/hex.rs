use breakout_common::hex::i16_to_hex_bytes;
use breakout_common::hex::nibble_to_hex_byte;
use breakout_common::hex::u32_to_hex_bytes;

fn text(val: i16) -> String {
    let mut buf = [0xEEu8; 9];
    let written = i16_to_hex_bytes(val, &mut buf).to_vec();
    assert_eq!(&buf[..written.len()], written.as_slice());
    for b in &buf[written.len()..] {
        assert_eq!(*b, 0xEE);
    }
    String::from_utf8(written).unwrap()
}

#[test]
fn nibbles_become_upper_case_digits() {
    let digits = b"0123456789ABCDEF";
    for n in 0..16u8 {
        assert_eq!(nibble_to_hex_byte(n), digits[n as usize]);
    }
    assert_eq!(nibble_to_hex_byte(16), b'?');
    assert_eq!(nibble_to_hex_byte(255), b'?');
}

#[test]
fn signed_values_are_written_with_sign_and_prefix() {
    assert_eq!(text(0), "0x0");
    assert_eq!(text(1), "0x1");
    assert_eq!(text(15), "0xF");
    assert_eq!(text(16), "0x10");
    assert_eq!(text(255), "0xFF");
    assert_eq!(text(0x1234), "0x1234");
    assert_eq!(text(728), "0x2D8");
    assert_eq!(text(i16::MAX), "0x7FFF");
    assert_eq!(text(-1), "-0x1");
    assert_eq!(text(-256), "-0x100");
    assert_eq!(text(-0x7FFF), "-0x7FFF");
    assert_eq!(text(i16::MIN), "-0x8000");
}

#[test]
fn signed_text_matches_the_standard_formatter() {
    for val in i16::MIN..=i16::MAX {
        let expected = if val < 0 {
            format!("-0x{:X}", -(val as i32))
        } else {
            format!("0x{:X}", val)
        };
        assert_eq!(text(val), expected);
    }
}

#[test]
fn a_buffer_of_just_the_needed_length_is_enough() {
    let mut three = [0u8; 3];
    assert_eq!(i16_to_hex_bytes(0, &mut three), b"0x0");
    assert_eq!(&three, b"0x0");
    assert_eq!(i16_to_hex_bytes(9, &mut three), b"0x9");
    assert_eq!(&three, b"0x9");
    let mut seven = [0u8; 7];
    assert_eq!(i16_to_hex_bytes(i16::MIN, &mut seven), b"-0x8000");
    assert_eq!(&seven, b"-0x8000");
    assert_eq!(i16_to_hex_bytes(-0x1ABC, &mut seven), b"-0x1ABC");
    assert_eq!(&seven, b"-0x1ABC");
}

#[test]
fn line_numbers_get_eight_digits() {
    assert_eq!(u32_to_hex_bytes(0), b"00000000".to_vec());
    assert_eq!(u32_to_hex_bytes(1), b"00000001".to_vec());
    assert_eq!(u32_to_hex_bytes(0x2A), b"0000002A".to_vec());
    assert_eq!(u32_to_hex_bytes(0x1234_ABCD), b"1234ABCD".to_vec());
    assert_eq!(u32_to_hex_bytes(u32::MAX), b"FFFFFFFF".to_vec());
    assert_eq!(u32_to_hex_bytes(0xF000_0000), b"F0000000".to_vec());
}
