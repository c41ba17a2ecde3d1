//! The rule by which two colours count as equal, over the outcomes of the
//! component tests.
//!
//! Exact and approximate equality share it: they differ only in the test
//! that is put to each pair of components.
use vstd::prelude::*;

verus! {

/// The outcomes of the tests on two L\*u\*v\* colours.
#[derive(Clone, Copy, Debug)]
pub struct LuvTests {
    /// The two luminances pass the test.
    pub l: bool,
    /// A luminance passes the test against zero.
    pub black: bool,
    /// The two u\* components pass the test.
    pub u: bool,
    /// The two v\* components pass the test.
    pub v: bool,
}

/// The outcomes of the tests on two LCh(uv) colours.
#[derive(Clone, Copy, Debug)]
pub struct LChTests {
    /// The two luminances pass the test.
    pub l: bool,
    /// A luminance passes the test against zero.
    pub black: bool,
    /// The two chromas pass the test.
    pub c: bool,
    /// A chroma passes the test against zero.
    pub grey: bool,
    /// The two hues, each reduced to one turn, pass the test.
    pub h: bool,
}

/// Two L\*u\*v\* colours are equal when their luminances agree and either
/// that luminance is zero, where chromaticity means nothing, or both
/// chromaticity components agree.
pub open spec fn luv_equal(t: LuvTests) -> bool {
    t.l && (t.black || (t.u && t.v))
}

/// Two LCh(uv) colours are equal when their luminances agree and either that
/// luminance is zero, or their chromas agree and either that chroma is zero,
/// where hue means nothing, or their hues agree.
pub open spec fn lch_equal(t: LChTests) -> bool {
    t.l && (t.black || (t.c && (t.grey || t.h)))
}

/// Decides the equality of two L\*u\*v\* colours from the outcomes of the
/// component tests.
pub fn luv_eq(t: LuvTests) -> (equal: bool)
    ensures
        equal == luv_equal(t),
{
    if !t.l {
        false
    } else if t.black {
        true
    } else {
        t.u && t.v
    }
}

/// Decides the equality of two LCh(uv) colours from the outcomes of the
/// component tests.
pub fn lch_eq(t: LChTests) -> (equal: bool)
    ensures
        equal == lch_equal(t),
{
    if !t.l {
        false
    } else if t.black {
        true
    } else if !t.c {
        false
    } else if t.grey {
        true
    } else {
        t.h
    }
}

} // verus!
