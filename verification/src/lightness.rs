//! The segments of the CIE lightness law.
//!
//! Lightness L\* is a function of the luminance Y in two pieces: a straight
//! line near black, L\* = κ·Y, and a cube root above it,
//! L\* = 116·Y^(1/3) − 16. They meet at Y = ε = 216/24389, where L\* = κ·ε = 8.
//! No light at all is a piece of its own. This module decides which piece
//! applies to a given number; the arithmetic on the piece is the caller's.
use crate::binary32::{
    lemma_scaled_increases, lemma_zero_alone_is_zero, scaled, Binary32, Value,
};
use vstd::arithmetic::power2::{lemma2_to64, lemma_pow2_adds, lemma_pow2_pos, pow2};
use vstd::prelude::*;

verus! {

/// The bits of zero.
pub const ZERO_BITS: u32 = 0;

/// The bits of ε = 216/24389, rounded to the nearest single-precision number:
/// the luminance at which the two pieces of the law meet.
pub const EPSILON_BITS: u32 = 0x3c11_1aa7;

/// The bits of κ·ε = 8: the lightness at which the two pieces of the law
/// meet.
pub const KAPPA_EPSILON_BITS: u32 = 0x4100_0000;

/// A piece of the lightness law.
#[derive(Clone, Copy, Debug, PartialEq, Eq, Structural)]
pub enum Segment {
    /// No light: the colour is black and its chromaticity carries no
    /// meaning.
    Black,
    /// The straight line near black.
    Linear,
    /// The cube root.
    CubeRoot,
}

impl Segment {
    /// The piece that takes the luminance `y` to a lightness: black up to
    /// zero, the line up to ε, the cube root above it. A NaN is up to
    /// nothing, so it falls to the cube root.
    pub open spec fn spec_of_luminance(y: Binary32) -> Segment {
        if y.at_most(Binary32 { bits: ZERO_BITS }) {
            Segment::Black
        } else if y.at_most(Binary32 { bits: EPSILON_BITS }) {
            Segment::Linear
        } else {
            Segment::CubeRoot
        }
    }

    /// The piece that takes the lightness `l` back to a luminance: black up
    /// to zero, the cube root above κ·ε, the line between them. A NaN is
    /// neither up to nor above anything, so it falls to the line.
    pub open spec fn spec_of_lightness(l: Binary32) -> Segment {
        if l.at_most(Binary32 { bits: ZERO_BITS }) {
            Segment::Black
        } else if (Binary32 { bits: KAPPA_EPSILON_BITS }).below(l) {
            Segment::CubeRoot
        } else {
            Segment::Linear
        }
    }

    /// The piece of the law that takes the luminance `y` to a lightness.
    #[verifier::when_used_as_spec(spec_of_luminance)]
    pub fn of_luminance(y: Binary32) -> (segment: Segment)
        ensures
            segment == Segment::spec_of_luminance(y),
    {
        if y.le(Binary32::from_bits(ZERO_BITS)) {
            Segment::Black
        } else if y.le(Binary32::from_bits(EPSILON_BITS)) {
            Segment::Linear
        } else {
            Segment::CubeRoot
        }
    }

    /// The piece of the law that takes the lightness `l` back to a
    /// luminance.
    #[verifier::when_used_as_spec(spec_of_lightness)]
    pub fn of_lightness(l: Binary32) -> (segment: Segment)
        ensures
            segment == Segment::spec_of_lightness(l),
    {
        if l.le(Binary32::from_bits(ZERO_BITS)) {
            Segment::Black
        } else if Binary32::from_bits(KAPPA_EPSILON_BITS).lt(l) {
            Segment::CubeRoot
        } else {
            Segment::Linear
        }
    }
}

/// How far the number `scaled`·2^−149 is from 216/24389, as a multiple of
/// 2^−149/24389.
pub open spec fn off_epsilon(scaled: int) -> int {
    let over = 24389 * scaled - 216 * pow2(149);
    if over < 0 {
        -over
    } else {
        over
    }
}

/// The thresholds encode zero, 9509543·2^−30, and eight.
pub proof fn lemma_thresholds()
    ensures
        (Binary32 { bits: ZERO_BITS })@ == (Value::Finite { scaled: 0 }),
        (Binary32 { bits: EPSILON_BITS })@ == (Value::Finite { scaled: 9_509_543int * pow2(119) }),
        (Binary32 { bits: KAPPA_EPSILON_BITS })@ == (Value::Finite { scaled: 8int * pow2(149) }),
{
    lemma2_to64();
    lemma_pow2_adds(3, 20);
    lemma_pow2_adds(20, 129);
    lemma_pow2_adds(3, 149);
    assert(pow2(23) * pow2(129) == pow2(3) * pow2(149)) by (nonlinear_arith)
        requires
            pow2(23) == pow2(3) * pow2(20),
            pow2(149) == pow2(20) * pow2(129),
    ;
}

/// No finite single-precision number is nearer to ε = 216/24389 than the
/// one that the threshold encodes.
pub proof fn lemma_epsilon_is_nearest(x: Binary32)
    requires
        x@ is Finite,
    ensures
        off_epsilon((Binary32 { bits: EPSILON_BITS })@->scaled) <= off_epsilon(x@->scaled),
{
    let step = pow2(119) as int;
    let s = x@->scaled;
    let m = x.magnitude();
    lemma_thresholds();
    lemma2_to64();
    lemma_pow2_adds(30, 119);
    lemma_pow2_pos(119);
    assert(off_epsilon(9_509_543 * step) == 10_243 * step) by (nonlinear_arith)
        requires
            pow2(149) == 0x4000_0000 * step,
            step > 0,
    ;
    if x.negative() || m == 0 {
        // Zero and what lies below it are further off than ε is from zero.
        lemma_zero_alone_is_zero(0);
        if m > 0 {
            lemma_scaled_increases(0, m);
        }
        assert(off_epsilon(s) >= 10_243 * step) by (nonlinear_arith)
            requires
                s <= 0,
                pow2(149) == 0x4000_0000 * step,
                step > 0,
        ;
    } else if m > EPSILON_BITS {
        let up: u32 = (EPSILON_BITS + 1) as u32;
        if m > up {
            lemma_scaled_increases(up, m);
        }
        assert(scaled(up) == 9_509_544 * step);
        assert(off_epsilon(s) >= 10_243 * step) by (nonlinear_arith)
            requires
                s >= 9_509_544 * step,
                pow2(149) == 0x4000_0000 * step,
                step > 0,
        ;
    } else if m < EPSILON_BITS {
        let down: u32 = (EPSILON_BITS - 1) as u32;
        if m < down {
            lemma_scaled_increases(m, down);
        }
        assert(scaled(down) == 9_509_542 * step);
        assert(off_epsilon(s) >= 10_243 * step) by (nonlinear_arith)
            requires
                s <= 9_509_542 * step,
                pow2(149) == 0x4000_0000 * step,
                step > 0,
        ;
    }
}

} // verus!
