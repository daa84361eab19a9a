//! Digital I/O pins: bit masks for a bank's set and clear registers, and
//! peripheral selection for the pin multiplexer.

use vstd::prelude::*;

verus! {

/// One of the peripheral functions that the multiplexer can route to a pin.
#[derive(Clone, Copy, Debug, PartialEq, Eq, Structural, Hash, PartialOrd, Ord)]
pub enum Peripheral {
    A,
    B,
    C,
    D,
    E,
    F,
    G,
    H,
}

impl Peripheral {
    /// The multiplexer's selector value: the letters count up from zero.
    pub open spec fn bits(self) -> u8 {
        match self {
            Peripheral::A => 0x0,
            Peripheral::B => 0x1,
            Peripheral::C => 0x2,
            Peripheral::D => 0x3,
            Peripheral::E => 0x4,
            Peripheral::F => 0x5,
            Peripheral::G => 0x6,
            Peripheral::H => 0x7,
        }
    }

    /// The selector value to write into the multiplexer register field.
    pub fn as_bits(&self) -> (r: u8)
        ensures
            r == self.bits(),
            r < 8,
    {
        match self {
            Self::A => 0x0,
            Self::B => 0x1,
            Self::C => 0x2,
            Self::D => 0x3,
            Self::E => 0x4,
            Self::F => 0x5,
            Self::G => 0x6,
            Self::H => 0x7,
        }
    }
}

/// Number of pins in a bank.
pub const PINS_PER_BANK: u8 = 32;

/// Whether bit `pin` of `mask` is set.
pub open spec fn has_pin(mask: u32, pin: u8) -> bool {
    mask & (1u32 << pin) != 0
}

/// The word to write to a bank's set, clear or direction register so that it
/// acts on exactly the listed pins: one bit per pin, whatever the order and
/// however often a pin is listed.
pub fn pins_as_bitmask(pins: &[u8]) -> (mask: u32)
    requires
        forall|i: int| 0 <= i < pins@.len() ==> pins@[i] < PINS_PER_BANK,
    ensures
        forall|pin: u8| pin < PINS_PER_BANK ==> (#[trigger] has_pin(mask, pin) <==> pins@.contains(pin)),
{
    let mut mask: u32 = 0;
    let mut i: usize = 0;
    assert forall|pin: u8| pin < PINS_PER_BANK implies !#[trigger] has_pin(0u32, pin) by {
        assert(0u32 & (1u32 << pin) == 0) by (bit_vector);
    }
    while i < pins.len()
        invariant
            i <= pins@.len(),
            forall|k: int| 0 <= k < pins@.len() ==> pins@[k] < PINS_PER_BANK,
            forall|pin: u8|
                pin < PINS_PER_BANK ==> (#[trigger] has_pin(mask, pin) <==> pins@.subrange(
                    0,
                    i as int,
                ).contains(pin)),
        decreases pins@.len() - i,
    {
        let next: u8 = pins[i];
        let ghost before = mask;
        mask = mask | (1u32 << next);
        assert forall|pin: u8| pin < PINS_PER_BANK implies (#[trigger] has_pin(mask, pin)
            <==> pins@.subrange(0, i + 1).contains(pin)) by {
            assert(((before | (1u32 << next)) & (1u32 << pin) != 0) <==> ((before & (1u32 << pin)
                != 0) || pin == next)) by (bit_vector)
                requires
                    pin < 32,
                    next < 32,
            ;
            let earlier = pins@.subrange(0, i as int);
            let now = pins@.subrange(0, i + 1);
            assert(has_pin(before, pin) <==> earlier.contains(pin));
            assert(now =~= earlier.push(next));
            if earlier.contains(pin) {
                let at = choose|at: int| 0 <= at < earlier.len() && earlier[at] == pin;
                assert(now[at] == pin);
            }
            if pin == next {
                assert(now[i as int] == pin);
            }
            if now.contains(pin) && pin != next {
                let at = choose|at: int| 0 <= at < now.len() && now[at] == pin;
                assert(earlier[at] == pin);
            }
        }
        i += 1;
    }
    assert(pins@.subrange(0, i as int) =~= pins@);
    mask
}

/// The multiplexer register that holds the selection for `pin`: each register
/// serves two neighbouring pins.
pub fn pmux_register(pin: u8) -> (index: usize)
    ensures
        index == pin / 2,
{
    (pin / 2) as usize
}

/// Whether `pin` is selected through the odd half of its multiplexer
/// register, rather than the even half.
pub fn pmux_is_odd(pin: u8) -> (odd: bool)
    ensures
        odd == (pin % 2 == 1),
{
    pin % 2 != 0
}

/// Distinct peripherals have distinct selector values.
pub proof fn lemma_peripheral_bits_injective(a: Peripheral, b: Peripheral)
    requires
        a.bits() == b.bits(),
    ensures
        a == b,
{
}

} // verus!
