//! Signed Q8.8 fixed-point arithmetic.
//!
//! A [`FixedPoint`] is a 16-bit two's-complement word whose low eight bits are
//! the fraction. Its view is the word itself, as a mathematical integer; the
//! number it stands for is that integer divided by 256. Every operation is
//! specified over the view, and none of them can fail except division by zero,
//! which is excluded by precondition.

use std::cmp::Ordering;
use vstd::prelude::*;
use vstd::std_specs::cmp::PartialOrdSpecImpl;
use vstd::std_specs::ops::AddSpecImpl;
use vstd::std_specs::ops::DivSpecImpl;
use vstd::std_specs::ops::MulSpecImpl;
use vstd::std_specs::ops::NegSpecImpl;
use vstd::std_specs::ops::SubSpecImpl;

verus! {

/// The raw word of a value.
pub type FixedPointValue = i16;

/// An integer that a value can be built from or truncated to: half the width
/// of the raw word.
pub type FixedPointIntegerValue = i8;

/// The type in which products and scaled dividends are formed: twice the
/// width of the raw word.
pub type FixedPointMulResult = i32;

/// Number of fractional bits.
pub const EXPONENT: u8 = 8;

/// Keeps the bits of a double-width result that fit the raw word.
const MUL_RESULT_MASK: FixedPointMulResult = 0xFFFF;

/// The weight of the integer part: two to the power [`EXPONENT`].
pub open spec fn scale() -> int {
    256
}

/// The 16-bit two's-complement reading of an integer: the one value in
/// `[-32768, 32768)` that differs from `x` by a multiple of 65536.
pub open spec fn wrap16(x: int) -> int {
    let m = x % 65536;
    if m >= 32768 {
        m - 65536
    } else {
        m
    }
}

/// The 8-bit two's-complement reading of an integer.
pub open spec fn wrap8(x: int) -> int {
    let m = x % 256;
    if m >= 128 {
        m - 256
    } else {
        m
    }
}

/// Integer division that rounds toward zero, as the hardware divides.
pub open spec fn trunc_div(n: int, d: int) -> int
    recommends
        d != 0,
{
    if n >= 0 && d > 0 {
        n / d
    } else if n >= 0 {
        -(n / (-d))
    } else if d > 0 {
        -((-n) / d)
    } else {
        (-n) / (-d)
    }
}

/// A signed 16-bit value read as Q8.8: eight integer bits, eight fractional bits.
#[derive(Clone, Copy, Debug, PartialEq, Eq, Structural, Hash, Ord)]
pub struct FixedPoint {
    value: FixedPointValue,
}

impl View for FixedPoint {
    type V = int;

    /// The raw word, as a mathematical integer.
    closed spec fn view(&self) -> int {
        self.value as int
    }
}

impl FixedPoint {
    /// The value whose raw word is `raw`.
    pub closed spec fn from_view(raw: int) -> FixedPoint
        recommends
            -32768 <= raw < 32768,
    {
        FixedPoint { value: raw as i16 }
    }

    /// The fixed-point value of the integer `n`.
    pub open spec fn of_integer(n: int) -> FixedPoint
        recommends
            -128 <= n < 128,
    {
        Self::from_view(n * scale())
    }

    /// The sum, wrapped to sixteen bits.
    pub open spec fn plus(self, rhs: FixedPoint) -> FixedPoint {
        Self::from_view(wrap16(self@ + rhs@))
    }

    /// The difference, wrapped to sixteen bits.
    pub open spec fn minus(self, rhs: FixedPoint) -> FixedPoint {
        Self::from_view(wrap16(self@ - rhs@))
    }

    /// The negation, wrapped to sixteen bits: the most negative word negates to itself.
    pub open spec fn negated(self) -> FixedPoint {
        Self::from_view(wrap16(-self@))
    }

    /// The product: the full product of the raw words, floored to a multiple of
    /// the scale, divided by it, and wrapped to sixteen bits.
    pub open spec fn times(self, rhs: FixedPoint) -> FixedPoint {
        Self::from_view(wrap16((self@ * rhs@) / scale()))
    }

    /// The quotient: the dividend scaled up first, divided toward zero, and
    /// wrapped to sixteen bits.
    pub open spec fn over(self, rhs: FixedPoint) -> FixedPoint
        recommends
            rhs@ != 0,
    {
        Self::from_view(wrap16(trunc_div(self@ * scale(), rhs@)))
    }

    /// The integer part, rounded toward negative infinity.
    pub open spec fn floor(self) -> int {
        self@ / scale()
    }

    /// Whether all fractional bits are zero.
    pub open spec fn integral(self) -> bool {
        self@ % scale() == 0
    }

    /// The raw word of any value fits sixteen bits, and distinct values have
    /// distinct words: the view says all there is to say about a value.
    pub broadcast proof fn lemma_view(self)
        ensures
            -32768 <= #[trigger] self@ < 32768,
            Self::from_view(self@) == self,
    {
    }

    /// A word in range is the view of the value built from it.
    pub broadcast proof fn lemma_from_view(raw: int)
        requires
            -32768 <= raw < 32768,
        ensures
            (#[trigger] Self::from_view(raw))@ == raw,
    {
    }

    /// Scales an integer up by the fractional bit count.
    pub fn new_integer(n: FixedPointIntegerValue) -> (r: Self)
        ensures
            r@ == n * scale(),
            r == Self::of_integer(n as int),
    {
        let wide: FixedPointValue = n as FixedPointValue;
        let value: FixedPointValue = wide << EXPONENT;
        assert(value == wide * 256) by (bit_vector)
            requires
                value == wide << 8u8,
                -128 <= wide < 128,
        ;
        FixedPoint { value }
    }

    /// Wraps a raw 16-bit pattern without scaling.
    pub fn new_raw(value: FixedPointValue) -> (r: Self)
        ensures
            r@ == value,
            r == Self::from_view(value as int),
    {
        FixedPoint { value }
    }

    /// The additive identity.
    pub fn zero() -> (r: FixedPoint)
        ensures
            r@ == 0,
            r == Self::of_integer(0),
    {
        FixedPoint { value: 0 }
    }

    /// The multiplicative identity.
    pub fn one() -> (r: FixedPoint)
        ensures
            r@ == scale(),
            r == Self::of_integer(1),
    {
        FixedPoint::new_integer(1)
    }

    /// The integer part: the raw word shifted right arithmetically by the
    /// fractional bit count, so negative values round toward negative infinity.
    pub fn as_integer(&self) -> (r: FixedPointIntegerValue)
        ensures
            r == self.floor(),
    {
        let v: i16 = self.value;
        let shifted: i16 = v >> EXPONENT;
        assert(shifted == v / 256 && -128 <= shifted < 128) by (bit_vector)
            requires
                shifted == v >> 8u8,
        ;
        shifted as FixedPointIntegerValue
    }

    /// The underlying raw pattern.
    pub fn as_raw(&self) -> (r: FixedPointValue)
        ensures
            r == self@,
    {
        self.value
    }

    /// True iff the fractional bits are all zero.
    pub fn is_integer(&self) -> (r: bool)
        ensures
            r == self.integral(),
    {
        let v: i16 = self.value;
        let frac: i16 = v & 0xFF;
        assert((frac == 0) == (v % 256 == 0)) by (bit_vector)
            requires
                frac == v & 0xFF,
        ;
        frac == 0
    }
}

impl std::ops::Add for FixedPoint {
    type Output = FixedPoint;

    /// Adds the raw words, wrapping silently on overflow.
    fn add(self, rhs: FixedPoint) -> (r: FixedPoint) {
        FixedPoint { value: self.value.wrapping_add(rhs.value) }
    }
}

impl AddSpecImpl for FixedPoint {
    open spec fn obeys_add_spec() -> bool {
        true
    }

    open spec fn add_req(self, rhs: FixedPoint) -> bool {
        true
    }

    open spec fn add_spec(self, rhs: FixedPoint) -> FixedPoint {
        self.plus(rhs)
    }
}

impl std::ops::Sub for FixedPoint {
    type Output = FixedPoint;

    /// Subtracts the raw words, wrapping silently on overflow.
    fn sub(self, rhs: FixedPoint) -> (r: FixedPoint) {
        FixedPoint { value: self.value.wrapping_sub(rhs.value) }
    }
}

impl SubSpecImpl for FixedPoint {
    open spec fn obeys_sub_spec() -> bool {
        true
    }

    open spec fn sub_req(self, rhs: FixedPoint) -> bool {
        true
    }

    open spec fn sub_spec(self, rhs: FixedPoint) -> FixedPoint {
        self.minus(rhs)
    }
}

impl std::ops::Neg for FixedPoint {
    type Output = FixedPoint;

    /// Negates the raw word; the most negative word is its own negation.
    fn neg(self) -> (r: FixedPoint) {
        FixedPoint { value: 0i16.wrapping_sub(self.value) }
    }
}

impl NegSpecImpl for FixedPoint {
    open spec fn obeys_neg_spec() -> bool {
        true
    }

    open spec fn neg_req(self) -> bool {
        true
    }

    open spec fn neg_spec(self) -> FixedPoint {
        self.negated()
    }
}

impl std::ops::Mul for FixedPoint {
    type Output = FixedPoint;

    /// Multiplies in double width, shifts the product right by the fractional
    /// bit count and keeps the low sixteen bits.
    fn mul(self, rhs: FixedPoint) -> (r: FixedPoint) {
        let left: FixedPointMulResult = self.value as FixedPointMulResult;
        let right: FixedPointMulResult = rhs.value as FixedPointMulResult;
        assert(-0x4000_0000 < left * right <= 0x4000_0000) by (nonlinear_arith)
            requires
                -0x8000 <= left < 0x8000,
                -0x8000 <= right < 0x8000,
        ;
        let product: FixedPointMulResult = left * right;
        let masked: FixedPointMulResult = (product >> EXPONENT) & MUL_RESULT_MASK;
        let low: FixedPointValue = #[verifier::truncate] (masked as FixedPointValue);
        assert(low == wrap16(product / 256)) by (bit_vector)
            requires
                masked == (product >> 8u8) & 0xFFFF,
                low == masked as i16,
        ;
        FixedPoint { value: low }
    }
}

impl MulSpecImpl for FixedPoint {
    open spec fn obeys_mul_spec() -> bool {
        true
    }

    open spec fn mul_req(self, rhs: FixedPoint) -> bool {
        true
    }

    open spec fn mul_spec(self, rhs: FixedPoint) -> FixedPoint {
        self.times(rhs)
    }
}

impl std::ops::Div for FixedPoint {
    type Output = FixedPoint;

    /// Scales the dividend up in double width, divides toward zero and keeps
    /// the low sixteen bits. The divisor must not be zero.
    fn div(self, rhs: FixedPoint) -> (r: FixedPoint) {
        let wide: FixedPointMulResult = self.value as FixedPointMulResult;
        let dividend: FixedPointMulResult = wide << EXPONENT;
        assert(dividend == wide * 256) by (bit_vector)
            requires
                dividend == wide << 8u8,
                -0x8000 <= wide < 0x8000,
        ;
        let divisor: FixedPointMulResult = rhs.value as FixedPointMulResult;
        let quotient: FixedPointMulResult = dividend.checked_div(divisor).unwrap();
        let masked: FixedPointMulResult = quotient & MUL_RESULT_MASK;
        let low: FixedPointValue = #[verifier::truncate] (masked as FixedPointValue);
        assert(low == wrap16(quotient as int)) by (bit_vector)
            requires
                masked == quotient & 0xFFFF,
                low == masked as i16,
        ;
        FixedPoint { value: low }
    }
}

impl DivSpecImpl for FixedPoint {
    open spec fn obeys_div_spec() -> bool {
        true
    }

    open spec fn div_req(self, rhs: FixedPoint) -> bool {
        rhs@ != 0
    }

    open spec fn div_spec(self, rhs: FixedPoint) -> FixedPoint {
        self.over(rhs)
    }
}

impl std::ops::AddAssign for FixedPoint {
    fn add_assign(&mut self, rhs: FixedPoint)
        ensures
            *final(self) == old(self).plus(rhs),
    {
        *self = *self + rhs;
    }
}

impl std::ops::SubAssign for FixedPoint {
    fn sub_assign(&mut self, rhs: FixedPoint)
        ensures
            *final(self) == old(self).minus(rhs),
    {
        *self = *self - rhs;
    }
}

impl std::ops::MulAssign for FixedPoint {
    fn mul_assign(&mut self, rhs: FixedPoint)
        ensures
            *final(self) == old(self).times(rhs),
    {
        *self = *self * rhs;
    }
}

impl std::ops::DivAssign for FixedPoint {
    fn div_assign(&mut self, rhs: FixedPoint)
        requires
            rhs@ != 0,
        ensures
            *final(self) == old(self).over(rhs),
    {
        *self = *self / rhs;
    }
}

impl Default for FixedPoint {
    /// The additive identity.
    fn default() -> (r: FixedPoint)
        ensures
            r@ == 0,
    {
        FixedPoint { value: 0 }
    }
}

impl PartialOrd for FixedPoint {
    /// Orders two values by their raw words.
    fn partial_cmp(&self, other: &FixedPoint) -> (r: Option<Ordering>) {
        if self.value < other.value {
            Some(Ordering::Less)
        } else if self.value > other.value {
            Some(Ordering::Greater)
        } else {
            Some(Ordering::Equal)
        }
    }
}

impl PartialOrdSpecImpl for FixedPoint {
    open spec fn obeys_partial_cmp_spec() -> bool {
        true
    }

    open spec fn partial_cmp_spec(&self, other: &FixedPoint) -> Option<Ordering> {
        if self@ < other@ {
            Some(Ordering::Less)
        } else if self@ > other@ {
            Some(Ordering::Greater)
        } else {
            Some(Ordering::Equal)
        }
    }
}

/// Equality is that of the raw words: two values are equal exactly when
/// their words are.
pub proof fn lemma_equal_by_word(a: FixedPoint, b: FixedPoint)
    ensures
        (a == b) <==> (a@ == b@),
{
    a.lemma_view();
    b.lemma_view();
}

/// Adding the fixed-point forms of two integers gives the form of their sum,
/// as long as that sum is itself an eight-bit integer.
pub proof fn lemma_add_integers(a: i8, b: i8)
    requires
        -128 <= a + b < 128,
    ensures
        FixedPoint::of_integer(a as int).plus(FixedPoint::of_integer(b as int))
            == FixedPoint::of_integer(a + b),
{
}

/// Subtracting the fixed-point forms of two integers gives the form of their
/// difference, taken in eight-bit two's complement; where the difference is an
/// eight-bit integer, that is the difference itself.
pub proof fn lemma_sub_integers(a: i8, b: i8)
    ensures
        FixedPoint::of_integer(a as int).minus(FixedPoint::of_integer(b as int))
            == FixedPoint::of_integer(wrap8(a - b)),
        -128 <= a - b < 128 ==> wrap8(a - b) == a - b,
{
}

/// Multiplying the fixed-point forms of two integers gives the form of their
/// product, as long as that product is itself an eight-bit integer.
pub proof fn lemma_mul_integers(a: i8, b: i8)
    requires
        -128 <= a * b < 128,
    ensures
        FixedPoint::of_integer(a as int).times(FixedPoint::of_integer(b as int))
            == FixedPoint::of_integer(a * b),
{
    let x = a as int;
    let y = b as int;
    assert((x * 256) * (y * 256) == (x * y) * 65536) by (nonlinear_arith);
    assert(((x * y) * 65536) / 256 == (x * y) * 256) by (nonlinear_arith);
}

/// The fixed-point form of an integer is integral and truncates back to that
/// integer; and any integral value is the form of the integer it truncates to.
pub proof fn lemma_integer_round_trip(n: i8, v: FixedPoint)
    ensures
        FixedPoint::of_integer(n as int).integral(),
        FixedPoint::of_integer(n as int).floor() == n,
        v.integral() ==> FixedPoint::of_integer(v.floor()) == v,
{
}

} // verus!
