//! Exact fractions in the unit interval.
//!
//! Scroll progress, fade thresholds, cross-fade alphas and texture
//! coordinates are all values in `[0, 1]`. They are kept as exact integer
//! fractions so that every comparison and interpolation in the library is
//! free of floating-point drift; the renderer converts them to floats only
//! at the very edge.

use vstd::prelude::*;

verus! {

/// An exact non-negative fraction `num / den`.
#[derive(Clone, Copy, Debug, PartialEq, Eq, Structural)]
pub struct Frac {
    pub num: u128,
    pub den: u128,
}

impl Frac {
    /// A well-formed fraction has a non-zero denominator and lies in `[0, 1]`.
    pub open spec fn wf(self) -> bool {
        1 <= self.den && self.num <= self.den
    }

    /// Both components fit in 64 bits, so products of two such components
    /// cannot overflow `u128`.
    pub open spec fn small(self) -> bool {
        self.num < 0x1_0000_0000_0000_0000 && self.den < 0x1_0000_0000_0000_0000
    }

    /// `self` and `other` denote the same rational value.
    pub open spec fn same_value(self, other: Frac) -> bool {
        self.num * other.den == other.num * self.den
    }

    /// `self` denotes a value no greater than `other`.
    pub open spec fn value_le(self, other: Frac) -> bool {
        self.num * other.den <= other.num * self.den
    }

    pub fn zero() -> (r: Frac)
        ensures
            r == (Frac { num: 0u128, den: 1u128 }),
    {
        Frac { num: 0, den: 1 }
    }

    pub fn one() -> (r: Frac)
        ensures
            r == (Frac { num: 1u128, den: 1u128 }),
    {
        Frac { num: 1, den: 1 }
    }

    /// Builds the fraction `num / den` from 64-bit parts.
    pub fn new(num: u64, den: u64) -> (r: Frac)
        requires
            1 <= den,
            num <= den,
        ensures
            r.num == num,
            r.den == den,
            r.wf(),
            r.small(),
    {
        Frac { num: num as u128, den: den as u128 }
    }

    /// Exact value comparison by cross multiplication.
    pub fn eq_value(&self, other: &Frac) -> (r: bool)
        requires
            self.num * other.den <= u128::MAX,
            other.num * self.den <= u128::MAX,
        ensures
            r == self.same_value(*other),
    {
        self.num * other.den == other.num * self.den
    }

    /// Exact order comparison by cross multiplication.
    pub fn le_value(&self, other: &Frac) -> (r: bool)
        requires
            self.num * other.den <= u128::MAX,
            other.num * self.den <= u128::MAX,
        ensures
            r == self.value_le(*other),
    {
        self.num * other.den <= other.num * self.den
    }
}

/// The product of two factors below `2^32` stays below `2^64`.
pub proof fn lemma_mul_u32_fits(a: int, b: int)
    requires
        0 <= a < 0x1_0000_0000,
        0 <= b < 0x1_0000_0000,
    ensures
        a * b <= 0xffff_fffe_0000_0001,
{
    assert(a * b <= 0xffff_fffe_0000_0001) by (nonlinear_arith)
        requires
            0 <= a <= 0xffff_ffff,
            0 <= b <= 0xffff_ffff,
    ;
}

/// The product of two factors below `2^64` stays below `2^128`.
pub proof fn lemma_mul_u64_fits(a: int, b: int)
    requires
        0 <= a < 0x1_0000_0000_0000_0000,
        0 <= b < 0x1_0000_0000_0000_0000,
    ensures
        a * b <= 0xffff_ffff_ffff_fffe_0000_0000_0000_0001,
{
    assert(a * b <= 0xffff_ffff_ffff_fffe_0000_0000_0000_0001) by (nonlinear_arith)
        requires
            0 <= a <= 0xffff_ffff_ffff_ffff,
            0 <= b <= 0xffff_ffff_ffff_ffff,
    ;
}

/// The product of two positive factors is positive.
pub proof fn lemma_mul_ge_one(a: int, b: int)
    requires
        1 <= a,
        1 <= b,
    ensures
        1 <= a * b,
{
    assert(1 <= a * b) by (nonlinear_arith)
        requires
            1 <= a,
            1 <= b,
    ;
}

/// Multiplication preserves `<=` on non-negative values.
pub proof fn lemma_mul_le_mono(a: int, b: int, c: int)
    requires
        0 <= a,
        a <= b,
        0 <= c,
    ensures
        a * c <= b * c,
{
    assert(a * c <= b * c) by (nonlinear_arith)
        requires
            0 <= a,
            a <= b,
            0 <= c,
    ;
}

} // verus!
