//! Single-precision numbers, held as the 32 bits of the IEEE 754 binary32
//! interchange format.
//!
//! A colour component is such a number. What this module states about one is
//! what the format itself fixes: which number the bits encode, if any, and
//! how two of them compare. The comparisons are made on the bits and proved
//! to be those of the numbers.
use vstd::arithmetic::mul::{lemma_mul_inequality, lemma_mul_strict_inequality};
use vstd::arithmetic::power2::{
    lemma_pow2_pos, lemma_pow2_strictly_increases, lemma_pow2_unfold, pow2,
};
use vstd::prelude::*;
use vstd::std_specs::cmp::PartialEqSpecImpl;

verus! {

/// The sign bit of the format.
pub const SIGN_BIT: u32 = 0x8000_0000;

/// The bits of positive infinity: the largest magnitude that is not a NaN.
pub const INFINITY_BITS: u32 = 0x7f80_0000;

/// Two to the power 23: the weight of the lowest exponent bit, and the
/// implicit leading bit of a normal number's significand.
pub const HIDDEN_BIT: u32 = 0x0080_0000;

/// A single-precision number as its 32 bits: one sign bit, eight exponent
/// bits, twenty-three fraction bits, from the top.
#[derive(Clone, Copy, Debug)]
pub struct Binary32 {
    pub bits: u32,
}

/// What 32 bits encode in the format.
pub enum Value {
    /// No number.
    NaN,
    /// An infinity.
    Infinite { negative: bool },
    /// The number `scaled`·2^−149. Every finite number of the format is such
    /// a multiple of the smallest one, and both zeros are the multiple 0.
    Finite { scaled: int },
}

impl Value {
    /// Whether `self` is a number and less than the number `other`.
    pub open spec fn less(self, other: Value) -> bool {
        match (self, other) {
            (Value::Finite { scaled: a }, Value::Finite { scaled: b }) => a < b,
            (Value::Infinite { negative: true }, Value::Finite { .. }) => true,
            (Value::Finite { .. }, Value::Infinite { negative: false }) => true,
            (Value::Infinite { negative: true }, Value::Infinite { negative: false }) => true,
            _ => false,
        }
    }
}

impl View for Binary32 {
    type V = Value;

    /// A magnitude above that of infinity is a NaN. Below it, the exponent
    /// bits `e` and the fraction bits `f` give `f`·2^−149 where `e` is 0,
    /// and (2^23 + `f`)·2^(`e` − 150) elsewhere.
    open spec fn view(&self) -> Value {
        if self.magnitude() > INFINITY_BITS {
            Value::NaN
        } else if self.magnitude() == INFINITY_BITS {
            Value::Infinite { negative: self.negative() }
        } else if self.negative() {
            Value::Finite { scaled: 0 - scaled(self.magnitude()) }
        } else {
            Value::Finite { scaled: scaled(self.magnitude()) }
        }
    }
}

/// The finite number with the bits `magnitude`, as a multiple of 2^−149.
pub open spec fn scaled(magnitude: u32) -> int {
    let exponent = magnitude / HIDDEN_BIT;
    let fraction = magnitude % HIDDEN_BIT;
    if exponent == 0 {
        fraction as int
    } else {
        (HIDDEN_BIT + fraction) * pow2((exponent - 1) as nat)
    }
}

impl Binary32 {
    /// Whether the sign bit is set.
    pub open spec fn negative(self) -> bool {
        self.bits >= SIGN_BIT
    }

    /// The bits with the sign cleared.
    pub open spec fn magnitude(self) -> u32 {
        if self.bits >= SIGN_BIT {
            (self.bits - SIGN_BIT) as u32
        } else {
            self.bits
        }
    }

    /// Whether the bits encode no number.
    pub open spec fn spec_is_nan(self) -> bool {
        self@ is NaN
    }

    /// Whether the bits encode zero, of either sign.
    pub open spec fn spec_is_zero(self) -> bool {
        self@ == (Value::Finite { scaled: 0 })
    }

    /// The comparison `==` of the format: both are numbers, and the same
    /// number. A NaN equals nothing, itself included, and the two zeros are
    /// equal.
    pub open spec fn same(self, other: Binary32) -> bool {
        !(self@ is NaN) && self@ == other@
    }

    /// The comparison `<` of the format: both are numbers and `self` is the
    /// lesser.
    pub open spec fn below(self, other: Binary32) -> bool {
        self@.less(other@)
    }

    /// The comparison `<=` of the format: both are numbers and `self` is not
    /// the greater.
    pub open spec fn at_most(self, other: Binary32) -> bool {
        self.below(other) || self.same(other)
    }

    /// Where the bits stand when all bits that encode a number are put in
    /// the order of the numbers: the magnitude, negative under a sign bit.
    pub open spec fn place(self) -> int {
        if self.negative() {
            0 - self.magnitude()
        } else {
            0 + self.magnitude()
        }
    }

    /// The number with the given bits.
    pub fn from_bits(bits: u32) -> (x: Binary32)
        ensures
            x.bits == bits,
    {
        Binary32 { bits }
    }

    /// The bits of the number.
    pub fn to_bits(self) -> (bits: u32)
        ensures
            bits == self.bits,
    {
        self.bits
    }

    /// The bits with the sign cleared.
    fn abs_bits(self) -> (m: u32)
        ensures
            m == self.magnitude(),
    {
        if self.bits >= SIGN_BIT {
            self.bits - SIGN_BIT
        } else {
            self.bits
        }
    }

    /// The place of the bits in the order of the numbers.
    fn ordinal(self) -> (p: i64)
        ensures
            p == self.place(),
    {
        let m: u32 = self.abs_bits();
        if self.bits >= SIGN_BIT {
            0 - (m as i64)
        } else {
            m as i64
        }
    }

    /// Whether the bits encode no number.
    #[verifier::when_used_as_spec(spec_is_nan)]
    pub fn is_nan(self) -> (r: bool)
        ensures
            r == (self@ is NaN),
    {
        self.abs_bits() > INFINITY_BITS
    }

    /// Whether the number is zero, of either sign.
    #[verifier::when_used_as_spec(spec_is_zero)]
    pub fn is_zero(self) -> (r: bool)
        ensures
            r == (self@ == (Value::Finite { scaled: 0 })),
    {
        proof {
            if self.magnitude() < INFINITY_BITS {
                lemma_zero_alone_is_zero(self.magnitude());
            }
        }
        self.abs_bits() == 0
    }

    /// `self < other` as the format defines it.
    pub fn lt(self, other: Binary32) -> (r: bool)
        ensures
            r == self.below(other),
    {
        proof {
            if !self.is_nan() && !other.is_nan() {
                lemma_places_order_as_numbers(self, other);
            }
        }
        !self.is_nan() && !other.is_nan() && self.ordinal() < other.ordinal()
    }

    /// `self <= other` as the format defines it.
    pub fn le(self, other: Binary32) -> (r: bool)
        ensures
            r == self.at_most(other),
    {
        proof {
            if !self.is_nan() && !other.is_nan() {
                lemma_places_order_as_numbers(self, other);
            }
        }
        !self.is_nan() && !other.is_nan() && self.ordinal() <= other.ordinal()
    }
}

impl PartialEq for Binary32 {
    /// `self == other` as the format defines it.
    fn eq(&self, other: &Binary32) -> (r: bool) {
        proof {
            if !self.is_nan() && !other.is_nan() {
                lemma_places_order_as_numbers(*self, *other);
            }
        }
        !self.is_nan() && !other.is_nan() && self.ordinal() == other.ordinal()
    }
}

impl PartialEqSpecImpl for Binary32 {
    open spec fn obeys_eq_spec() -> bool {
        true
    }

    open spec fn eq_spec(&self, other: &Binary32) -> bool {
        self.same(*other)
    }
}

impl Default for Binary32 {
    /// Positive zero.
    fn default() -> (x: Binary32)
        ensures
            x.bits == 0,
    {
        Binary32 { bits: 0 }
    }
}

/// Among finite magnitudes, more bits are more number.
pub proof fn lemma_scaled_increases(low: u32, high: u32)
    requires
        low < high < INFINITY_BITS,
    ensures
        scaled(low) < scaled(high),
{
    let e1 = low / HIDDEN_BIT;
    let f1 = low % HIDDEN_BIT;
    let e2 = high / HIDDEN_BIT;
    let f2 = high % HIDDEN_BIT;
    assert(e1 <= e2);
    if e2 == 0 {
    } else {
        let p2 = pow2((e2 - 1) as nat);
        lemma_pow2_pos((e2 - 1) as nat);
        if e1 == e2 {
            lemma_mul_strict_inequality(HIDDEN_BIT + f1, HIDDEN_BIT + f2, p2 as int);
        } else {
            // The whole binade of `low` lies under the least number of the
            // binade of `high`.
            assert(HIDDEN_BIT * p2 <= (HIDDEN_BIT + f2) * p2) by {
                lemma_mul_inequality(HIDDEN_BIT as int, HIDDEN_BIT + f2, p2 as int);
            }
            if e1 == 0 {
                assert(HIDDEN_BIT * 1 <= HIDDEN_BIT * p2) by {
                    lemma_mul_inequality(1, p2 as int, HIDDEN_BIT as int);
                }
            } else {
                let p1 = pow2((e1 - 1) as nat);
                lemma_pow2_pos((e1 - 1) as nat);
                lemma_pow2_unfold(e1 as nat);
                if e1 < e2 - 1 {
                    lemma_pow2_strictly_increases(e1 as nat, (e2 - 1) as nat);
                }
                assert((HIDDEN_BIT + f1) * p1 < (2 * HIDDEN_BIT) * p1) by {
                    lemma_mul_strict_inequality(HIDDEN_BIT + f1, 2 * HIDDEN_BIT, p1 as int);
                }
                assert((2 * HIDDEN_BIT) * p1 == HIDDEN_BIT * pow2(e1 as nat)) by (nonlinear_arith)
                    requires
                        pow2(e1 as nat) == 2 * p1,
                ;
                assert(HIDDEN_BIT * pow2(e1 as nat) <= HIDDEN_BIT * p2) by {
                    lemma_mul_inequality(pow2(e1 as nat) as int, p2 as int, HIDDEN_BIT as int);
                }
            }
        }
    }
}

/// Among finite magnitudes, only the bits of zero encode zero.
pub proof fn lemma_zero_alone_is_zero(magnitude: u32)
    requires
        magnitude < INFINITY_BITS,
    ensures
        scaled(magnitude) == 0 <==> magnitude == 0,
{
    if magnitude > 0 {
        lemma_scaled_increases(0, magnitude);
    }
}

/// Bits that encode numbers stand in the order of their numbers, and at one
/// place exactly when they encode one number.
pub proof fn lemma_places_order_as_numbers(a: Binary32, b: Binary32)
    requires
        !a.is_nan(),
        !b.is_nan(),
    ensures
        a.place() < b.place() <==> a.below(b),
        a.place() == b.place() <==> a.same(b),
        a.place() <= b.place() <==> a.at_most(b),
{
    let m = a.magnitude();
    let n = b.magnitude();
    if m < INFINITY_BITS {
        lemma_zero_alone_is_zero(m);
    }
    if n < INFINITY_BITS {
        lemma_zero_alone_is_zero(n);
    }
    if m < n && n < INFINITY_BITS {
        lemma_scaled_increases(m, n);
    }
    if n < m && m < INFINITY_BITS {
        lemma_scaled_increases(n, m);
    }
}

} // verus!
