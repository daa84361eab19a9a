use breakout_common::pin::pins_as_bitmask;
use breakout_common::pin::pmux_is_odd;
use breakout_common::pin::pmux_register;
use breakout_common::pin::PINS_PER_BANK;

#[test]
fn bank_masks_have_one_bit_per_listed_pin() {
    assert_eq!(pins_as_bitmask(&[]), 0);
    assert_eq!(pins_as_bitmask(&[0]), 1);
    assert_eq!(pins_as_bitmask(&[31]), 0x8000_0000);
    assert_eq!(pins_as_bitmask(&[16, 17, 19]), 0x000B_0000);
    assert_eq!(pins_as_bitmask(&[4, 14, 18, 20]), 0x0014_4010);
    assert_eq!(pins_as_bitmask(&[7, 7, 7]), 0x80);
    assert_eq!(pins_as_bitmask(&[20, 4]), pins_as_bitmask(&[4, 20]));
    let all: Vec<u8> = (0..32).collect();
    assert_eq!(pins_as_bitmask(&all), u32::MAX);
}

#[test]
fn two_pins_share_a_multiplexer_register() {
    assert_eq!(PINS_PER_BANK, 32);
    assert_eq!(pmux_register(0), 0);
    assert_eq!(pmux_register(1), 0);
    assert_eq!(pmux_register(16), 8);
    assert_eq!(pmux_register(17), 8);
    assert_eq!(pmux_register(19), 9);
    assert_eq!(pmux_register(31), 15);
    assert!(!pmux_is_odd(0));
    assert!(pmux_is_odd(1));
    assert!(!pmux_is_odd(16));
    assert!(pmux_is_odd(23));
}
