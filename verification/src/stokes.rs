//! Normalized samples and the Stokes triple of one super-pixel.
//!
//! A sample `v` of 8 bits stands for the intensity `v / 255`. Intensities
//! and everything computed from them are kept exactly, as whole counts of
//! `1 / 255`: the count 255 is the intensity one, the count 510 is two.

use crate::mosaic::Quad;
use vstd::prelude::*;

verus! {

/// The count that stands for the intensity one.
pub const UNIT: u8 = 255;

/// The intensity of a sample, as a count of `1 / 255`: `v / 255`.
pub open spec fn normalized(v: u8) -> int {
    v as int
}

/// A sample scaled to the unit interval.
#[derive(Clone, Copy, Debug, PartialEq, Eq, Structural)]
pub struct Normalized {
    numer: u8,
}

impl View for Normalized {
    type V = int;

    /// The intensity as a count of `1 / 255`.
    closed spec fn view(&self) -> int {
        self.numer as int
    }
}

impl Normalized {
    /// The numerator of the intensity over the denominator 255.
    pub fn numer(&self) -> (n: u8)
        ensures
            n == self@,
    {
        self.numer
    }
}

/// Maps a sample to the unit interval: `v / 255`.
pub fn normalize(v: u8) -> (n: Normalized)
    ensures
        n@ == normalized(v),
        0 <= n@ <= UNIT,
{
    Normalized { numer: v }
}

/// The ends of the sample range go to the ends of the unit interval: 0 to
/// zero and 255 to one.
pub proof fn lemma_normalized_ends()
    ensures
        normalized(0) == 0,
        normalized(255) == UNIT,
{
}

/// A larger sample never has a smaller intensity.
pub proof fn lemma_normalized_monotone(a: u8, b: u8)
    requires
        a <= b,
    ensures
        normalized(a) <= normalized(b),
{
}

/// The mathematical content of a Stokes triple, each component a count of
/// `1 / 255`.
pub struct StokesView {
    pub s0: int,
    pub s1: int,
    pub s2: int,
}

impl StokesView {
    /// The ranges that intensities of the unit interval give: S0 between
    /// zero and two, S1 and S2 between minus one and one.
    pub open spec fn in_range(self) -> bool {
        &&& 0 <= self.s0 <= 2 * UNIT
        &&& -UNIT <= self.s1 <= UNIT
        &&& -UNIT <= self.s2 <= UNIT
    }
}

/// The Stokes triple of four intensities: S0 is the total along the 0°/90°
/// pair, S1 the excess of 0° over 90°, S2 the excess of 45° over 135°.
pub open spec fn stokes_of(n000: int, n045: int, n090: int, n135: int) -> StokesView {
    StokesView { s0: n000 + n090, s1: n000 - n090, s2: n045 - n135 }
}

/// The Stokes triple of the four samples of a super-pixel.
pub open spec fn stokes_of_quad(quad: Quad) -> StokesView {
    stokes_of(normalized(quad.i000), normalized(quad.i045), normalized(quad.i090), normalized(quad.i135))
}

/// The byte that shows the total intensity `s0`, a count of `1 / 255`: the
/// intensity times 127.5, rounded to the nearest whole number with halves
/// going up, and held to the range of a byte. It spreads the range from zero
/// to two over the range from 0 to 255.
pub open spec fn intensity_byte(s0: int) -> int {
    let rounded = (s0 + 1) / 2;
    if rounded < 0 {
        0
    } else if rounded > 255 {
        255
    } else {
        rounded
    }
}

/// One Stokes triple (S0, S1, S2).
#[derive(Clone, Copy, Debug, PartialEq, Eq)]
pub struct StokesSample {
    s0: u16,
    s1: i16,
    s2: i16,
}

impl View for StokesSample {
    type V = StokesView;

    closed spec fn view(&self) -> StokesView {
        StokesView { s0: self.s0 as int, s1: self.s1 as int, s2: self.s2 as int }
    }
}

impl StokesSample {
    #[verifier::type_invariant]
    spec fn inv(self) -> bool {
        self@.in_range()
    }

    /// Combines four normalized samples into their Stokes triple.
    pub fn from_normalized(n000: Normalized, n045: Normalized, n090: Normalized, n135: Normalized) -> (sample:
        StokesSample)
        ensures
            sample@ == stokes_of(n000@, n045@, n090@, n135@),
            sample@.in_range(),
    {
        let a: u8 = n000.numer();
        let b: u8 = n045.numer();
        let c: u8 = n090.numer();
        let d: u8 = n135.numer();
        StokesSample {
            s0: (a as u16) + (c as u16),
            s1: (a as i16) - (c as i16),
            s2: (b as i16) - (d as i16),
        }
    }

    /// The Stokes triple of one super-pixel.
    pub fn from_quad(quad: Quad) -> (sample: StokesSample)
        ensures
            sample@ == stokes_of_quad(quad),
            sample@.in_range(),
    {
        StokesSample::from_normalized(
            normalize(quad.i000),
            normalize(quad.i045),
            normalize(quad.i090),
            normalize(quad.i135),
        )
    }

    /// S0, the numerator over 255: the total intensity, between zero and
    /// two.
    pub fn s0(&self) -> (n: u16)
        ensures
            n == self@.s0,
            self@.in_range(),
    {
        proof {
            use_type_invariant(self);
        }
        self.s0
    }

    /// S1, the numerator over 255: 0° against 90°, between minus one and
    /// one.
    pub fn s1(&self) -> (n: i16)
        ensures
            n == self@.s1,
            self@.in_range(),
    {
        proof {
            use_type_invariant(self);
        }
        self.s1
    }

    /// S2, the numerator over 255: 45° against 135°, between minus one and
    /// one.
    pub fn s2(&self) -> (n: i16)
        ensures
            n == self@.s2,
            self@.in_range(),
    {
        proof {
            use_type_invariant(self);
        }
        self.s2
    }

    /// The byte that shows this sample's total intensity.
    pub fn intensity(&self) -> (byte: u8)
        ensures
            byte == intensity_byte(self@.s0),
    {
        proof {
            use_type_invariant(self);
        }
        let rounded: u16 = (self.s0 + 1) / 2;
        if rounded > 255 {
            255
        } else {
            rounded as u8
        }
    }
}

/// Four equal samples give twice their intensity as S0 and no polarization
/// at all: S1 and S2 are zero.
pub proof fn lemma_uniform_quad(v: u8)
    ensures
        stokes_of_quad(Quad { i000: v, i045: v, i090: v, i135: v }) == (StokesView {
            s0: 2 * normalized(v),
            s1: 0,
            s2: 0,
        }),
{
}

/// The sign convention: S1 is 0° minus 90° and S2 is 45° minus 135°.
/// Exchanging the two intensities of a pair keeps S0 and turns the sign of
/// that pair's difference, and of nothing else.
pub proof fn lemma_stokes_signs(n000: int, n045: int, n090: int, n135: int)
    ensures
        stokes_of(n090, n045, n000, n135) == (StokesView {
            s0: stokes_of(n000, n045, n090, n135).s0,
            s1: -stokes_of(n000, n045, n090, n135).s1,
            s2: stokes_of(n000, n045, n090, n135).s2,
        }),
        stokes_of(n000, n135, n090, n045) == (StokesView {
            s0: stokes_of(n000, n045, n090, n135).s0,
            s1: stokes_of(n000, n045, n090, n135).s1,
            s2: -stokes_of(n000, n045, n090, n135).s2,
        }),
        n000 > n090 ==> stokes_of(n000, n045, n090, n135).s1 > 0,
        n045 > n135 ==> stokes_of(n000, n045, n090, n135).s2 > 0,
{
}

/// Intensities of the unit interval give a triple inside the ranges of
/// `in_range`.
pub proof fn lemma_stokes_in_range(n000: int, n045: int, n090: int, n135: int)
    requires
        0 <= n000 <= UNIT,
        0 <= n045 <= UNIT,
        0 <= n090 <= UNIT,
        0 <= n135 <= UNIT,
    ensures
        stokes_of(n000, n045, n090, n135).in_range(),
{
}

/// The byte of the total intensity is a byte, shows zero as 0 and two as
/// 255, and never falls when the intensity rises.
pub proof fn lemma_intensity_byte(a: int, b: int)
    requires
        a <= b,
    ensures
        0 <= intensity_byte(a) <= 255,
        intensity_byte(a) <= intensity_byte(b),
        intensity_byte(0) == 0,
        intensity_byte(2 * UNIT) == 255,
{
}

} // verus!
