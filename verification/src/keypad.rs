//! State of the sixteen-key matrix keypad.
//!
//! The keypad's shift registers deliver one bit per key, sixteen in all, and
//! a key that is held down reads as zero.

use vstd::prelude::*;

verus! {

/// Bit of the `1` key.
pub const MASK_1: u16 = 0x0001;

/// Bit of the `2` key.
pub const MASK_2: u16 = 0x0002;

/// Bit of the `3` key.
pub const MASK_3: u16 = 0x0004;

/// Bit of the `A` key.
pub const MASK_A: u16 = 0x0008;

/// Bit of the `4` key.
pub const MASK_4: u16 = 0x0010;

/// Bit of the `5` key.
pub const MASK_5: u16 = 0x0020;

/// Bit of the `6` key.
pub const MASK_6: u16 = 0x0040;

/// Bit of the `B` key.
pub const MASK_B: u16 = 0x0080;

/// Bit of the `7` key.
pub const MASK_7: u16 = 0x0100;

/// Bit of the `8` key.
pub const MASK_8: u16 = 0x0200;

/// Bit of the `9` key.
pub const MASK_9: u16 = 0x0400;

/// Bit of the `C` key.
pub const MASK_C: u16 = 0x0800;

/// Bit of the `0` key.
pub const MASK_0: u16 = 0x1000;

/// Bit of the `#` key.
pub const MASK_HASH: u16 = 0x2000;

/// Bit of the `D` key.
pub const MASK_D: u16 = 0x4000;

/// Bit of the `*` key.
pub const MASK_ASTERISK: u16 = 0x8000;

/// Number of keys.
pub const KEY_COUNT: usize = 16;

/// Whether the key with the given mask is held down in `state`: its bit is clear.
pub open spec fn key_down(state: u16, mask: u16) -> bool {
    state & mask == 0
}

/// The keys in the order in which a log line names them, each with its mask
/// and its label: digits first, then `*` and `#`, then the letters.
pub open spec fn key_order() -> Seq<(u16, u8)> {
    seq![
        (MASK_0, 0x30),  // '0'
        (MASK_1, 0x31),  // '1'
        (MASK_2, 0x32),  // '2'
        (MASK_3, 0x33),  // '3'
        (MASK_4, 0x34),  // '4'
        (MASK_5, 0x35),  // '5'
        (MASK_6, 0x36),  // '6'
        (MASK_7, 0x37),  // '7'
        (MASK_8, 0x38),  // '8'
        (MASK_9, 0x39),  // '9'
        (MASK_ASTERISK, 0x2A),  // '*'
        (MASK_HASH, 0x23),  // '#'
        (MASK_A, 0x41),  // 'A'
        (MASK_B, 0x42),  // 'B'
        (MASK_C, 0x43),  // 'C'
        (MASK_D, 0x44),  // 'D'
    ]
}

/// The labels of those among the first `count` keys of [`key_order`] that are
/// held down in `state`, in that order.
pub open spec fn pressed_prefix(state: u16, count: nat) -> Seq<u8>
    recommends
        count <= KEY_COUNT,
    decreases count,
{
    if count == 0 {
        Seq::empty()
    } else {
        let key = key_order()[count - 1];
        let before = pressed_prefix(state, (count - 1) as nat);
        if key_down(state, key.0) {
            before.push(key.1)
        } else {
            before
        }
    }
}

/// The labels of all keys held down in `state`, in the order of [`key_order`].
pub open spec fn pressed_text(state: u16) -> Seq<u8> {
    pressed_prefix(state, KEY_COUNT as nat)
}

/// One reading of the keypad.
pub struct KeypadState {
    state: u16,
}

impl View for KeypadState {
    type V = u16;

    /// The sixteen bits as read, one per key.
    closed spec fn view(&self) -> u16 {
        self.state
    }
}

impl KeypadState {
    /// Assembles a reading from the two bytes in the order the keypad shifts
    /// them out: high byte first.
    pub fn from_bytes(high: u8, low: u8) -> (r: KeypadState)
        ensures
            r@ == high * 256 + low,
    {
        let state: u16 = ((high as u16) << 8) | (low as u16);
        assert(state == high * 256 + low) by (bit_vector)
            requires
                state == ((high as u16) << 8) | (low as u16),
        ;
        KeypadState { state }
    }

    /// Whether the `1` key is held down.
    pub fn is_1_pressed(&self) -> (r: bool)
        ensures
            r == key_down(self@, MASK_1),
    {
        (self.state & MASK_1) == 0
    }

    /// Whether the `2` key is held down.
    pub fn is_2_pressed(&self) -> (r: bool)
        ensures
            r == key_down(self@, MASK_2),
    {
        (self.state & MASK_2) == 0
    }

    /// Whether the `3` key is held down.
    pub fn is_3_pressed(&self) -> (r: bool)
        ensures
            r == key_down(self@, MASK_3),
    {
        (self.state & MASK_3) == 0
    }

    /// Whether the `A` key is held down.
    pub fn is_a_pressed(&self) -> (r: bool)
        ensures
            r == key_down(self@, MASK_A),
    {
        (self.state & MASK_A) == 0
    }

    /// Whether the `4` key is held down.
    pub fn is_4_pressed(&self) -> (r: bool)
        ensures
            r == key_down(self@, MASK_4),
    {
        (self.state & MASK_4) == 0
    }

    /// Whether the `5` key is held down.
    pub fn is_5_pressed(&self) -> (r: bool)
        ensures
            r == key_down(self@, MASK_5),
    {
        (self.state & MASK_5) == 0
    }

    /// Whether the `6` key is held down.
    pub fn is_6_pressed(&self) -> (r: bool)
        ensures
            r == key_down(self@, MASK_6),
    {
        (self.state & MASK_6) == 0
    }

    /// Whether the `B` key is held down.
    pub fn is_b_pressed(&self) -> (r: bool)
        ensures
            r == key_down(self@, MASK_B),
    {
        (self.state & MASK_B) == 0
    }

    /// Whether the `7` key is held down.
    pub fn is_7_pressed(&self) -> (r: bool)
        ensures
            r == key_down(self@, MASK_7),
    {
        (self.state & MASK_7) == 0
    }

    /// Whether the `8` key is held down.
    pub fn is_8_pressed(&self) -> (r: bool)
        ensures
            r == key_down(self@, MASK_8),
    {
        (self.state & MASK_8) == 0
    }

    /// Whether the `9` key is held down.
    pub fn is_9_pressed(&self) -> (r: bool)
        ensures
            r == key_down(self@, MASK_9),
    {
        (self.state & MASK_9) == 0
    }

    /// Whether the `C` key is held down.
    pub fn is_c_pressed(&self) -> (r: bool)
        ensures
            r == key_down(self@, MASK_C),
    {
        (self.state & MASK_C) == 0
    }

    /// Whether the `0` key is held down.
    pub fn is_0_pressed(&self) -> (r: bool)
        ensures
            r == key_down(self@, MASK_0),
    {
        (self.state & MASK_0) == 0
    }

    /// Whether the `#` key is held down.
    pub fn is_hash_pressed(&self) -> (r: bool)
        ensures
            r == key_down(self@, MASK_HASH),
    {
        (self.state & MASK_HASH) == 0
    }

    /// Whether the `D` key is held down.
    pub fn is_d_pressed(&self) -> (r: bool)
        ensures
            r == key_down(self@, MASK_D),
    {
        (self.state & MASK_D) == 0
    }

    /// Whether the `*` key is held down.
    pub fn is_asterisk_pressed(&self) -> (r: bool)
        ensures
            r == key_down(self@, MASK_ASTERISK),
    {
        (self.state & MASK_ASTERISK) == 0
    }

    /// Appends the label of the key at `index` of [`key_order`] if that key is
    /// held down.
    fn append_pressed(&self, buf: &mut Vec<u8>, index: usize, mask: u16, label: u8)
        requires
            index < KEY_COUNT,
            key_order()[index as int] == (mask, label),
            old(buf)@ == pressed_prefix(self@, index as nat),
        ensures
            final(buf)@ == pressed_prefix(self@, (index + 1) as nat),
    {
        if (self.state & mask) == 0 {
            buf.push(label);
        }
    }

    /// The labels of the keys that are held down, as text for a log line.
    pub fn pressed_keys(&self) -> (r: Vec<u8>)
        ensures
            r@ == pressed_text(self@),
    {
        let mut buf: Vec<u8> = Vec::new();
        proof {
            lemma_key_order();
        }
        self.append_pressed(&mut buf, 0, MASK_0, 0x30);  // '0'
        self.append_pressed(&mut buf, 1, MASK_1, 0x31);  // '1'
        self.append_pressed(&mut buf, 2, MASK_2, 0x32);  // '2'
        self.append_pressed(&mut buf, 3, MASK_3, 0x33);  // '3'
        self.append_pressed(&mut buf, 4, MASK_4, 0x34);  // '4'
        self.append_pressed(&mut buf, 5, MASK_5, 0x35);  // '5'
        self.append_pressed(&mut buf, 6, MASK_6, 0x36);  // '6'
        self.append_pressed(&mut buf, 7, MASK_7, 0x37);  // '7'
        self.append_pressed(&mut buf, 8, MASK_8, 0x38);  // '8'
        self.append_pressed(&mut buf, 9, MASK_9, 0x39);  // '9'
        self.append_pressed(&mut buf, 10, MASK_ASTERISK, 0x2A);  // '*'
        self.append_pressed(&mut buf, 11, MASK_HASH, 0x23);  // '#'
        self.append_pressed(&mut buf, 12, MASK_A, 0x41);  // 'A'
        self.append_pressed(&mut buf, 13, MASK_B, 0x42);  // 'B'
        self.append_pressed(&mut buf, 14, MASK_C, 0x43);  // 'C'
        self.append_pressed(&mut buf, 15, MASK_D, 0x44);  // 'D'
        buf
    }
}

/// The entries of [`key_order`], one by one.
proof fn lemma_key_order()
    ensures
        key_order().len() == KEY_COUNT,
        key_order()[0] == (MASK_0, 0x30u8),
        key_order()[1] == (MASK_1, 0x31u8),
        key_order()[2] == (MASK_2, 0x32u8),
        key_order()[3] == (MASK_3, 0x33u8),
        key_order()[4] == (MASK_4, 0x34u8),
        key_order()[5] == (MASK_5, 0x35u8),
        key_order()[6] == (MASK_6, 0x36u8),
        key_order()[7] == (MASK_7, 0x37u8),
        key_order()[8] == (MASK_8, 0x38u8),
        key_order()[9] == (MASK_9, 0x39u8),
        key_order()[10] == (MASK_ASTERISK, 0x2Au8),
        key_order()[11] == (MASK_HASH, 0x23u8),
        key_order()[12] == (MASK_A, 0x41u8),
        key_order()[13] == (MASK_B, 0x42u8),
        key_order()[14] == (MASK_C, 0x43u8),
        key_order()[15] == (MASK_D, 0x44u8),
{
}

/// A log line names at most one label per key, so it never exceeds
/// [`KEY_COUNT`] bytes.
pub proof fn lemma_pressed_prefix_len(state: u16, count: nat)
    ensures
        pressed_prefix(state, count).len() <= count,
    decreases count,
{
    if count > 0 {
        lemma_pressed_prefix_len(state, (count - 1) as nat);
    }
}

} // verus!
