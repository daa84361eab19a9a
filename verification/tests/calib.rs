use breakout_common::calib::adc_bias;
use breakout_common::calib::adc_linearity;
use breakout_common::calib::dfll48m_coarse;
use breakout_common::calib::osc32k;
use breakout_common::calib::usb_transn;
use breakout_common::calib::usb_transp;
use breakout_common::calib::usb_trim;
use breakout_common::timer::delay_done;
use breakout_common::timer::delay_target;
use breakout_common::timer::MILLIS_PER_TICK;

fn all(word: u64) -> [u8; 7] {
    [
        adc_linearity(word),
        adc_bias(word),
        osc32k(word),
        usb_transn(word),
        usb_transp(word),
        usb_trim(word),
        dfll48m_coarse(word),
    ]
}

#[test]
fn each_field_reads_its_own_bits() {
    assert_eq!(all(0), [0; 7]);
    assert_eq!(all(u64::MAX), [0xFF, 0b111, 0x7F, 0x1F, 0x1F, 0b111, 0x3F]);
    assert_eq!(all(0xFFu64 << 27), [0xFF, 0, 0, 0, 0, 0, 0]);
    assert_eq!(all(0b111u64 << 35), [0, 0b111, 0, 0, 0, 0, 0]);
    assert_eq!(all(0x7Fu64 << 38), [0, 0, 0x7F, 0, 0, 0, 0]);
    assert_eq!(all(0x1Fu64 << 45), [0, 0, 0, 0x1F, 0, 0, 0]);
    assert_eq!(all(0x1Fu64 << 50), [0, 0, 0, 0, 0x1F, 0, 0]);
    assert_eq!(all(0b111u64 << 55), [0, 0, 0, 0, 0, 0b111, 0]);
    assert_eq!(all(0x3Fu64 << 58), [0, 0, 0, 0, 0, 0, 0x3F]);
    // the reserved low bits belong to no field
    assert_eq!(all((1u64 << 27) - 1), [0; 7]);
}

#[test]
fn fields_are_read_from_a_packed_word() {
    let word = (0xA5u64 << 27)
        | (0b010u64 << 35)
        | (0x55u64 << 38)
        | (0x0Au64 << 45)
        | (0x15u64 << 50)
        | (0b101u64 << 55)
        | (0x2Au64 << 58);
    assert_eq!(all(word), [0xA5, 0b010, 0x55, 0x0A, 0x15, 0b101, 0x2A]);
}

#[test]
fn delays_count_whole_ticks() {
    assert_eq!(MILLIS_PER_TICK, 10);
    assert_eq!(delay_target(0, 0), Some(0));
    assert_eq!(delay_target(100, 9), Some(100));
    assert_eq!(delay_target(100, 10), Some(101));
    assert_eq!(delay_target(100, 1999), Some(299));
    assert_eq!(delay_target(u32::MAX, 9), Some(u32::MAX));
    assert_eq!(delay_target(u32::MAX - 1, 10), Some(u32::MAX));
}

#[test]
fn delays_past_the_end_of_the_counter_have_no_target() {
    assert_eq!(delay_target(u32::MAX, 10), None);
    assert_eq!(delay_target(1, u32::MAX as u128 * 10), None);
    assert_eq!(delay_target(0, u32::MAX as u128 * 10), Some(u32::MAX));
    assert_eq!(delay_target(0, (u32::MAX as u128 + 1) * 10), None);
    assert_eq!(delay_target(0, u128::MAX), None);
}

#[test]
fn a_delay_is_done_once_the_counter_reaches_the_target() {
    assert!(!delay_done(4, 5));
    assert!(delay_done(5, 5));
    assert!(delay_done(6, 5));
    assert!(delay_done(0, 0));
}
