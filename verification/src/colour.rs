//! The two colour types and their equality.
use crate::binary32::{Binary32, Value};
use crate::rule::{lch_equal, luv_eq, LChTests, LuvTests};
use vstd::prelude::*;
use vstd::std_specs::cmp::PartialEqSpecImpl;

verus! {

/// A colour in the CIE L\*u\*v\* space, with D65 as the reference white.
#[derive(Clone, Copy, Debug)]
pub struct Luv {
    /// The luminance L\*, nominally from 0 to 100.
    pub l: Binary32,
    /// The u\* component of the chromaticity.
    pub u: Binary32,
    /// The v\* component of the chromaticity.
    pub v: Binary32,
}

/// What `==` keeps of an L\*u\*v\* colour.
pub enum Shade {
    /// No light: whatever the chromaticity components hold.
    Black,
    /// Some light, with the numbers that the three components encode.
    Lit { l: Value, u: Value, v: Value },
}

impl Luv {
    /// The shade of the colour, or `None` where a NaN stands in a component
    /// that counts: such a colour equals no colour, itself included.
    pub open spec fn shade(self) -> Option<Shade> {
        if self.l.is_nan() {
            None
        } else if self.l.is_zero() {
            Some(Shade::Black)
        } else if self.u.is_nan() || self.v.is_nan() {
            None
        } else {
            Some(Shade::Lit { l: self.l@, u: self.u@, v: self.v@ })
        }
    }

    /// What `==` means on colours: both have a shade, and it is the same.
    pub open spec fn same(self, other: Luv) -> bool {
        self.shade() is Some && self.shade() == other.shade()
    }
}

impl PartialEq for Luv {
    /// Compares two colours, ignoring the chromaticity where the luminance
    /// is zero.
    fn eq(&self, other: &Luv) -> (r: bool) {
        luv_eq(
            LuvTests {
                l: self.l == other.l,
                black: self.l.is_zero(),
                u: self.u == other.u,
                v: self.v == other.v,
            },
        )
    }
}

impl PartialEqSpecImpl for Luv {
    open spec fn obeys_eq_spec() -> bool {
        true
    }

    open spec fn eq_spec(&self, other: &Luv) -> bool {
        self.same(*other)
    }
}

impl Default for Luv {
    /// Black, with every component at positive zero.
    fn default() -> (black: Luv)
        ensures
            black.l.bits == 0,
            black.u.bits == 0,
            black.v.bits == 0,
    {
        Luv { l: Binary32::from_bits(0), u: Binary32::from_bits(0), v: Binary32::from_bits(0) }
    }
}

/// A colour in the cylindrical form LCh(uv) of the CIE L\*u\*v\* space.
#[derive(Clone, Copy, Debug)]
pub struct LCh {
    /// The luminance L\*, the same number as in [`Luv`].
    pub l: Binary32,
    /// The chroma C\*, zero for a shade of grey.
    pub c: Binary32,
    /// The hue in radians. It is an angle: hues a whole turn apart are one
    /// hue, and it is not reduced to one turn when the colour is made.
    pub h: Binary32,
}

/// What two LCh(uv) colours are to each other before their hues are looked
/// at.
#[derive(Clone, Copy, Debug, PartialEq, Eq, Structural)]
pub enum Likeness {
    /// The colours are equal, whatever their hues.
    Same,
    /// The colours differ, whatever their hues.
    Different,
    /// The colours are equal exactly when their hues, each reduced to one
    /// turn, are equal.
    HueDecides,
}

impl Likeness {
    /// Whether the colours are equal, given whether their hues, each reduced
    /// to one turn, are.
    pub open spec fn given(self, hues_agree: bool) -> bool {
        match self {
            Likeness::Same => true,
            Likeness::Different => false,
            Likeness::HueDecides => hues_agree,
        }
    }
}

/// What equality keeps of an LCh(uv) colour besides its hue.
pub enum Tone {
    /// No light: whatever chroma and hue hold.
    Black,
    /// Some light and no chroma: whatever the hue holds.
    Grey { l: Value },
    /// Some light and some chroma.
    Hued { l: Value, c: Value },
}

impl LCh {
    /// The tone of the colour, or `None` where a NaN stands in a component
    /// that counts: such a colour equals no colour, itself included.
    pub open spec fn tone(self) -> Option<Tone> {
        if self.l.is_nan() {
            None
        } else if self.l.is_zero() {
            Some(Tone::Black)
        } else if self.c.is_nan() {
            None
        } else if self.c.is_zero() {
            Some(Tone::Grey { l: self.l@ })
        } else {
            Some(Tone::Hued { l: self.l@, c: self.c@ })
        }
    }

    /// Colours of different tones differ; two of one tone are the same
    /// unless the tone has a hue, which then decides.
    pub open spec fn spec_likeness(&self, other: &LCh) -> Likeness {
        if self.tone() is None || self.tone() != other.tone() {
            Likeness::Different
        } else if self.tone() matches Some(Tone::Hued { .. }) {
            Likeness::HueDecides
        } else {
            Likeness::Same
        }
    }

    /// Compares two colours as far as luminance and chroma go: the
    /// chromaticity is ignored where the luminance is zero, and the hue
    /// where the chroma is zero.
    #[verifier::when_used_as_spec(spec_likeness)]
    pub fn likeness(&self, other: &LCh) -> (r: Likeness)
        ensures
            r == self.spec_likeness(other),
    {
        if self.l != other.l {
            Likeness::Different
        } else if self.l.is_zero() {
            Likeness::Same
        } else if self.c != other.c {
            Likeness::Different
        } else if self.c.is_zero() {
            Likeness::Same
        } else {
            Likeness::HueDecides
        }
    }
}

impl Default for LCh {
    /// Black, with every component at positive zero.
    fn default() -> (black: LCh)
        ensures
            black.l.bits == 0,
            black.c.bits == 0,
            black.h.bits == 0,
    {
        LCh { l: Binary32::from_bits(0), c: Binary32::from_bits(0), h: Binary32::from_bits(0) }
    }
}

/// Two colours without light are equal, whatever their chromaticity
/// components hold, a NaN included.
pub proof fn lemma_luv_black_equal(a: Luv, b: Luv)
    requires
        a.l.is_zero(),
        b.l.is_zero(),
    ensures
        a.same(b),
{
}

/// Equality of L\*u\*v\* colours is symmetric and transitive, and a colour
/// equals itself exactly when it has a shade.
pub proof fn lemma_luv_equality(a: Luv, b: Luv, c: Luv)
    ensures
        a.same(b) == b.same(a),
        a.same(b) && b.same(c) ==> a.same(c),
        a.same(a) == (a.shade() is Some),
{
}

/// Two colours without light are the same, whatever chroma and hue hold.
pub proof fn lemma_lch_black_same(a: LCh, b: LCh)
    requires
        a.l.is_zero(),
        b.l.is_zero(),
    ensures
        a.likeness(&b) == Likeness::Same,
{
}

/// Two colours of equal luminance and without chroma are the same, whatever
/// their hues hold.
pub proof fn lemma_lch_grey_same(a: LCh, b: LCh)
    requires
        a.l.same(b.l),
        a.c.is_zero(),
        b.c.is_zero(),
    ensures
        a.likeness(&b) == Likeness::Same,
{
}

/// Colours that agree in luminance and in chroma are not told apart before
/// their hues are compared, whatever the hues hold.
pub proof fn lemma_hue_is_compared_last(a: LCh, b: LCh)
    requires
        a.l.same(b.l),
        a.c.same(b.c),
    ensures
        a.likeness(&b) != Likeness::Different,
{
}

/// The likeness of two colours is what the rule of equality gives on the
/// exact comparison of their components, for either outcome of the
/// comparison of their hues.
pub proof fn lemma_likeness_is_rule(a: LCh, b: LCh, hues_agree: bool)
    ensures
        lch_equal(
            (LChTests {
                l: a.l.same(b.l),
                black: a.l.is_zero(),
                c: a.c.same(b.c),
                grey: a.c.is_zero(),
                h: hues_agree,
            }),
        ) == a.likeness(&b).given(hues_agree),
{
}

} // verus!
