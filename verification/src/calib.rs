//! Fields of the calibration word burned into the microcontroller at manufacture.
//!
//! The non-reserved calibration values all lie in the low 64 bits of the
//! calibration area, so one 64-bit read delivers the word these functions
//! take apart:
//!
//! | bits    | field              |
//! |---------|--------------------|
//! | 27..=34 | ADC linearity      |
//! | 35..=37 | ADC bias           |
//! | 38..=44 | OSC32K             |
//! | 45..=49 | USB TRANSN         |
//! | 50..=54 | USB TRANSP         |
//! | 55..=57 | USB TRIM           |
//! | 58..=63 | DFLL48M coarse     |

use vstd::arithmetic::power2::lemma2_to64;
use vstd::arithmetic::power2::lemma2_to64_rest;
use vstd::arithmetic::power2::pow2;
use vstd::prelude::*;

verus! {

/// The field of `width` bits whose lowest bit is bit `low` of `word`.
pub open spec fn bit_field(word: u64, low: nat, width: nat) -> int {
    (word as int / pow2(low) as int) % pow2(width) as int
}

/// The ADC linearity calibration value: bits 27 to 34 of the calibration word.
/// Store it in `ADC.calib.linearity_cal`.
pub fn adc_linearity(calibration: u64) -> (r: u8)
    ensures
        r == bit_field(calibration, 27, 8),
{
    let field: u64 = (calibration >> 27) & 0b11111111;
    assert(field == (calibration / 0x8000000) % 0x100) by (bit_vector)
        requires
            field == (calibration >> 27) & 0b11111111,
    ;
    proof {
        lemma2_to64();
        lemma2_to64_rest();
    }
    field as u8
}

/// The ADC bias calibration value: bits 35 to 37 of the calibration word.
/// Store it in `ADC.calib.bias_cal`.
pub fn adc_bias(calibration: u64) -> (r: u8)
    ensures
        r == bit_field(calibration, 35, 3),
{
    let field: u64 = (calibration >> 35) & 0b111;
    assert(field == (calibration / 0x800000000) % 0x8) by (bit_vector)
        requires
            field == (calibration >> 35) & 0b111,
    ;
    proof {
        lemma2_to64();
        lemma2_to64_rest();
    }
    field as u8
}

/// The OSC32K calibration value: bits 38 to 44 of the calibration word.
/// Store it in `SYSCTRL.osc32k.calib`.
pub fn osc32k(calibration: u64) -> (r: u8)
    ensures
        r == bit_field(calibration, 38, 7),
{
    let field: u64 = (calibration >> 38) & 0b1111111;
    assert(field == (calibration / 0x4000000000) % 0x80) by (bit_vector)
        requires
            field == (calibration >> 38) & 0b1111111,
    ;
    proof {
        lemma2_to64();
        lemma2_to64_rest();
    }
    field as u8
}

/// The USB TRANSN calibration value: bits 45 to 49 of the calibration word.
/// Store it in `USB.padcal.transn`.
pub fn usb_transn(calibration: u64) -> (r: u8)
    ensures
        r == bit_field(calibration, 45, 5),
{
    let field: u64 = (calibration >> 45) & 0b11111;
    assert(field == (calibration / 0x200000000000) % 0x20) by (bit_vector)
        requires
            field == (calibration >> 45) & 0b11111,
    ;
    proof {
        lemma2_to64();
        lemma2_to64_rest();
    }
    field as u8
}

/// The USB TRANSP calibration value: bits 50 to 54 of the calibration word.
/// Store it in `USB.padcal.transp`.
pub fn usb_transp(calibration: u64) -> (r: u8)
    ensures
        r == bit_field(calibration, 50, 5),
{
    let field: u64 = (calibration >> 50) & 0b11111;
    assert(field == (calibration / 0x4000000000000) % 0x20) by (bit_vector)
        requires
            field == (calibration >> 50) & 0b11111,
    ;
    proof {
        lemma2_to64();
        lemma2_to64_rest();
    }
    field as u8
}

/// The USB TRIM calibration value: bits 55 to 57 of the calibration word.
/// Store it in `USB.padcal.trim`.
pub fn usb_trim(calibration: u64) -> (r: u8)
    ensures
        r == bit_field(calibration, 55, 3),
{
    let field: u64 = (calibration >> 55) & 0b111;
    assert(field == (calibration / 0x80000000000000) % 0x8) by (bit_vector)
        requires
            field == (calibration >> 55) & 0b111,
    ;
    proof {
        lemma2_to64();
        lemma2_to64_rest();
    }
    field as u8
}

/// The DFLL48M coarse calibration value: bits 58 to 63 of the calibration word.
/// Store it in `SYSCTRL.dfllval.coarse`.
pub fn dfll48m_coarse(calibration: u64) -> (r: u8)
    ensures
        r == bit_field(calibration, 58, 6),
{
    let field: u64 = (calibration >> 58) & 0b111111;
    assert(field == (calibration / 0x400000000000000) % 0x40) by (bit_vector)
        requires
            field == (calibration >> 58) & 0b111111,
    ;
    proof {
        lemma2_to64();
        lemma2_to64_rest();
    }
    field as u8
}

} // verus!
