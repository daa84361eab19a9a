//! Hexadecimal text for the serial log.

use vstd::arithmetic::power2::pow2;
use vstd::bits::lemma_u32_shr_is_div;
use vstd::prelude::*;
use vstd::slice::slice_subrange;

verus! {

/// The upper-case hexadecimal digit for a value below sixteen, and `?` for
/// anything else.
pub open spec fn hex_digit(nibble: int) -> u8 {
    if 0 <= nibble <= 9 {
        (nibble + 0x30) as u8
    } else if 10 <= nibble <= 15 {
        (nibble - 10 + 0x41) as u8
    } else {
        0x3F
    }
}

/// The hexadecimal digits of `n`, most significant first, without leading
/// zeros; zero has no digits at all.
pub open spec fn hex_digits(n: nat) -> Seq<u8>
    decreases n,
{
    if n == 0 {
        Seq::empty()
    } else {
        hex_digits(n / 16).push(hex_digit((n % 16) as int))
    }
}

/// The text of a signed value: a minus sign if it is negative, then `0x`,
/// then the digits of its magnitude; zero is written `0x0`.
pub open spec fn hex_text(val: int) -> Seq<u8> {
    if val == 0 {
        seq![0x30u8, 0x78u8, 0x30u8]
    } else if val < 0 {
        seq![0x2Du8, 0x30u8, 0x78u8] + hex_digits((-val) as nat)
    } else {
        seq![0x30u8, 0x78u8] + hex_digits(val as nat)
    }
}

/// The eight hexadecimal digits of a 32-bit value, most significant first,
/// leading zeros included.
pub open spec fn hex_fixed(val: u32) -> Seq<u8> {
    Seq::new(8, |k: int| hex_digit((val as int / pow2((4 * (7 - k)) as nat) as int) % 16))
}

/// The hexadecimal digit for the low four bits' worth of value.
pub fn nibble_to_hex_byte(nibble: u8) -> (r: u8)
    ensures
        r == hex_digit(nibble as int),
{
    if nibble <= 0x9 {
        nibble + 0x30
    } else if nibble <= 0xF {
        nibble - 10 + 0x41
    } else {
        0x3F
    }
}

/// Reverses the first `len` bytes of `buf` in place.
fn reverse_prefix(buf: &mut [u8], len: usize)
    requires
        len <= old(buf)@.len(),
    ensures
        final(buf)@.len() == old(buf)@.len(),
        final(buf)@.subrange(0, len as int) == old(buf)@.subrange(0, len as int).reverse(),
        final(buf)@.subrange(len as int, old(buf)@.len() as int) == old(buf)@.subrange(
            len as int,
            old(buf)@.len() as int,
        ),
{
    let mut low: usize = 0;
    let mut high: usize = len;
    while low + 1 < high
        invariant
            buf@.len() == old(buf)@.len(),
            low <= high <= len <= buf@.len(),
            low + high == len,
            forall|k: int| 0 <= k < low ==> buf@[k] == old(buf)@[len - 1 - k],
            forall|k: int| high <= k < len ==> buf@[k] == old(buf)@[len - 1 - k],
            forall|k: int| low <= k < high ==> buf@[k] == old(buf)@[k],
            forall|k: int| len <= k < buf@.len() ==> buf@[k] == old(buf)@[k],
        decreases high - low,
    {
        let front: u8 = buf[low];
        let back: u8 = buf[high - 1];
        buf[low] = back;
        buf[high - 1] = front;
        low += 1;
        high -= 1;
    }
    assert(buf@.subrange(0, len as int) =~= old(buf)@.subrange(0, len as int).reverse());
    assert(buf@.subrange(len as int, old(buf)@.len() as int) =~= old(buf)@.subrange(
        len as int,
        old(buf)@.len() as int,
    ));
}

/// The eight digits of `val`, most significant first: the form in which a
/// fault report gives a line number.
pub fn u32_to_hex_bytes(val: u32) -> (r: Vec<u8>)
    ensures
        r@ == hex_fixed(val),
{
    let mut out: Vec<u8> = Vec::new();
    let mut nibble_index: u32 = 0;
    while nibble_index < 8
        invariant
            nibble_index <= 8,
            out@.len() == nibble_index,
            forall|k: int|
                0 <= k < nibble_index ==> #[trigger] out@[k] == hex_digit(
                    (val as int / pow2((4 * (7 - k)) as nat) as int) % 16,
                ),
        decreases 8 - nibble_index,
    {
        let shift_count: u32 = (7 - nibble_index) * 4;
        let shifted: u32 = val >> shift_count;
        let nibble: u8 = (shifted & 0xF) as u8;
        proof {
            lemma_u32_shr_is_div(val, shift_count);
            assert(nibble == shifted % 16) by (bit_vector)
                requires
                    nibble == (shifted & 0xF) as u8,
            ;
        }
        out.push(nibble_to_hex_byte(nibble));
        nibble_index += 1;
    }
    assert(out@ =~= hex_fixed(val));
    out
}

/// The text of a sixteen-bit value is three to seven bytes long.
pub proof fn lemma_hex_text_len(val: i16)
    ensures
        3 <= hex_text(val as int).len() <= 7,
{
    if val != 0 {
        let mag: nat = if val < 0 {
            (-val) as nat
        } else {
            val as nat
        };
        lemma_hex_digits_len(mag);
    }
}

/// A positive number below 65536 has one to four hexadecimal digits.
proof fn lemma_hex_digits_len(n: nat)
    requires
        0 < n < 65536,
    ensures
        1 <= hex_digits(n).len() <= 4,
{
    reveal_with_fuel(hex_digits, 5);
}

/// Writes the text of `val` to the front of `buf` and returns that part of
/// the buffer: a minus sign if `val` is negative, then `0x`, then the
/// upper-case digits of the magnitude without leading zeros. The rest of
/// `buf` is left alone.
pub fn i16_to_hex_bytes<'a>(val: i16, buf: &'a mut [u8]) -> (text: &'a [u8])
    requires
        old(buf)@.len() >= hex_text(val as int).len(),
    ensures
        text@ == hex_text(val as int),
        final(buf)@.len() == old(buf)@.len(),
        final(buf)@.subrange(0, text@.len() as int) == text@,
        final(buf)@.subrange(text@.len() as int, old(buf)@.len() as int) == old(buf)@.subrange(
            text@.len() as int,
            old(buf)@.len() as int,
        ),
{
    let ghost size = buf@.len() as int;
    if val == i16::MIN {
        // this value has no positive counterpart to take digits from
        proof {
            reveal_with_fuel(hex_digits, 5);
            assert(hex_text(val as int) =~= seq![
                0x2Du8,
                0x30u8,
                0x78u8,
                0x38u8,
                0x30u8,
                0x30u8,
                0x30u8,
            ]);
        }
        buf[0] = 0x2D;  // '-'
        buf[1] = 0x30;  // '0'
        buf[2] = 0x78;  // 'x'
        buf[3] = 0x38;  // '8'
        buf[4] = 0x30;  // '0'
        buf[5] = 0x30;  // '0'
        buf[6] = 0x30;  // '0'
        assert(buf@.subrange(0, 7) =~= hex_text(val as int));
        assert(buf@.subrange(7, size) =~= old(buf)@.subrange(7, size));
        let written: &'a [u8] = buf;
        return slice_subrange(written, 0, 7);
    }
    if val == 0 {
        // a number without digits still gets one
        buf[0] = 0x30;  // '0'
        buf[1] = 0x78;  // 'x'
        buf[2] = 0x30;  // '0'
        assert(buf@.subrange(0, 3) =~= hex_text(val as int));
        assert(buf@.subrange(3, size) =~= old(buf)@.subrange(3, size));
        let written: &'a [u8] = buf;
        return slice_subrange(written, 0, 3);
    }
    let minus: bool = val < 0;
    let magnitude: i16 = if minus {
        -val
    } else {
        val
    };
    let ghost digits = hex_digits(magnitude as nat);
    proof {
        lemma_hex_digits_len(magnitude as nat);
    }

    let mut rest: i16 = magnitude;
    let mut i: usize = 0;
    while rest > 0
        invariant
            buf@.len() == size,
            size == old(buf)@.len(),
            0 <= rest <= magnitude,
            digits == hex_digits(magnitude as nat),
            digits.len() + 2 + (if minus {
                1int
            } else {
                0int
            }) <= size,
            i <= digits.len(),
            digits == hex_digits(rest as nat) + buf@.subrange(0, i as int).reverse(),
            buf@.subrange(i as int, size) == old(buf)@.subrange(i as int, size),
        decreases rest,
    {
        let nibble: u8 = (rest & 0xF) as u8;
        let next: i16 = rest >> 4;
        assert(nibble == rest % 16 && next == rest / 16) by (bit_vector)
            requires
                rest > 0,
                nibble == (rest & 0xF) as u8,
                next == rest >> 4,
        ;
        let ghost before = buf@;
        let digit: u8 = nibble_to_hex_byte(nibble);
        assert(hex_digits(rest as nat) == hex_digits(next as nat).push(digit));
        assert(hex_digits(rest as nat).len() >= 1);
        buf[i] = digit;
        assert(buf@.subrange(0, i + 1).reverse() =~= seq![digit] + before.subrange(
            0,
            i as int,
        ).reverse());
        assert(digits =~= hex_digits(next as nat) + buf@.subrange(0, i + 1).reverse());
        assert(buf@.subrange(i + 1, size) =~= old(buf)@.subrange(i + 1, size)) by {
            assert(forall|k: int|
                i + 1 <= k < size ==> buf@[k] == before.subrange(i as int, size)[k - i]);
        }
        i += 1;
        rest = next;
    }
    assert(digits =~= buf@.subrange(0, i as int).reverse());
    let ghost reversed_digits = buf@.subrange(0, i as int);

    let ghost before_tail = buf@;
    buf[i] = 0x78;  // 'x'
    i += 1;
    buf[i] = 0x30;  // '0'
    i += 1;

    if minus {
        buf[i] = 0x2D;  // '-'
        i += 1;
    }
    let ghost unreversed = buf@;
    assert(unreversed.subrange(i as int, size) =~= old(buf)@.subrange(i as int, size)) by {
        assert(forall|k: int|
            i <= k < size ==> unreversed[k] == before_tail.subrange(
                digits.len() as int,
                size,
            )[k - digits.len()]);
    }
    assert(unreversed.subrange(0, i as int) =~= reversed_digits + (if minus {
        seq![0x78u8, 0x30u8, 0x2Du8]
    } else {
        seq![0x78u8, 0x30u8]
    }));

    reverse_prefix(buf, i);

    assert(buf@.subrange(0, i as int) =~= hex_text(val as int));
    let written: &'a [u8] = buf;
    slice_subrange(written, 0, i)
}

} // verus!
