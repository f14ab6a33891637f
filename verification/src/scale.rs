//! The factor by which a frame is shrunk before detection, and its inverse.

use vstd::prelude::*;
use crate::geometry::Size;

verus! {

/// The quotient `a / b` rounded to the nearest integer, a tie going to the
/// even neighbour.
pub open spec fn round_half_even(a: int, b: int) -> int
    recommends
        0 <= a,
        0 < b,
{
    let q = a / b;
    let r = a % b;
    if 2 * r < b {
        q
    } else if 2 * r > b {
        q + 1
    } else if q % 2 == 0 {
        q
    } else {
        q + 1
    }
}

/// A scale factor in `(0, 1]`, kept as the exact fraction
/// `numerator / denominator`.
#[derive(Clone, Copy, Debug, PartialEq, Eq)]
pub struct ScaleFactor {
    numerator: u32,
    denominator: u32,
}

impl ScaleFactor {
    /// Numerator of the fraction.
    pub closed spec fn num(self) -> int {
        self.numerator as int
    }

    /// Denominator of the fraction.
    pub closed spec fn den(self) -> int {
        self.denominator as int
    }

    /// The fraction lies in `(0, 1]` and its denominator fits in `i32`.
    pub open spec fn wf(self) -> bool {
        0 < self.num() <= self.den() <= i32::MAX
    }

    #[verifier::type_invariant]
    spec fn well_formed(self) -> bool {
        self.wf()
    }

    /// `floor(1 / factor)`: what a coordinate of the reduced frame is
    /// multiplied by to get back to the original frame.
    pub open spec fn inverse(self) -> int {
        self.den() / self.num()
    }

    /// The length that `original` pixels shrink to.
    pub open spec fn reduced(self, original: int) -> int {
        round_half_even(original * self.num(), self.den())
    }

    /// The fraction `numerator / denominator`, if it lies in `(0, 1]` and
    /// the denominator fits in `i32`.
    pub fn new(numerator: u32, denominator: u32) -> (r: Option<ScaleFactor>)
        ensures
            r is Some <==> 0 < numerator <= denominator <= i32::MAX,
            r matches Some(f) ==> f.num() == numerator && f.den() == denominator && f.wf(),
    {
        if 0 < numerator && numerator <= denominator && denominator <= 0x7fff_ffff {
            Some(ScaleFactor { numerator, denominator })
        } else {
            None
        }
    }

    /// One quarter, the factor the tool runs with.
    pub fn quarter() -> (f: ScaleFactor)
        ensures
            f.num() == 1,
            f.den() == 4,
            f.wf(),
    {
        ScaleFactor { numerator: 1, denominator: 4 }
    }

    /// Numerator of the fraction.
    pub fn numerator(&self) -> (n: u32)
        ensures
            n == self.num(),
            self.wf(),
    {
        proof {
            use_type_invariant(self);
        }
        self.numerator
    }

    /// Denominator of the fraction.
    pub fn denominator(&self) -> (d: u32)
        ensures
            d == self.den(),
            self.wf(),
    {
        proof {
            use_type_invariant(self);
        }
        self.denominator
    }

    /// The length, in pixels, that `original` pixels shrink to: the product
    /// `original * factor` rounded to the nearest integer, a tie going to the
    /// even neighbour.
    pub fn reduced_dimension(&self, original: u32) -> (r: u32)
        ensures
            r == self.reduced(original as int),
            r <= original,
            self.wf(),
    {
        proof {
            use_type_invariant(self);
            lemma_reduced_bounds(*self, original as int);
        }
        let n: u64 = self.numerator as u64;
        let d: u64 = self.denominator as u64;
        assert(original as u64 * n <= 0xffff_ffff * 0x7fff_ffff) by (nonlinear_arith)
            requires
                original as u64 <= 0xffff_ffff,
                n <= 0x7fff_ffff,
        ;
        let product: u64 = original as u64 * n;
        let q: u64 = product / d;
        let r: u64 = product % d;
        let rounded: u64 = if 2 * r < d {
            q
        } else if 2 * r > d {
            q + 1
        } else if q % 2 == 0 {
            q
        } else {
            q + 1
        };
        rounded as u32
    }

    /// The size of the reduced frame: both sides of `original` shrunk by
    /// the factor.
    pub fn reduced_size(&self, original: Size) -> (r: Size)
        ensures
            r.width == self.reduced(original.width as int),
            r.height == self.reduced(original.height as int),
            self.wf(),
    {
        Size {
            width: self.reduced_dimension(original.width),
            height: self.reduced_dimension(original.height),
        }
    }

    /// The integer multiplier that undoes the reduction: `1 / factor`,
    /// truncated.
    pub fn inverse_multiplier(&self) -> (inv: i32)
        ensures
            inv == self.inverse(),
            1 <= inv,
            self.wf(),
    {
        proof {
            use_type_invariant(self);
            lemma_inverse_bounds(*self);
        }
        let q: u32 = self.denominator / self.numerator;
        q as i32
    }
}

/// The truncated inverse of a valid factor is at least one, and is the
/// largest integer whose product with the numerator stays within the
/// denominator.
pub proof fn lemma_inverse_bounds(f: ScaleFactor)
    requires
        f.wf(),
    ensures
        1 <= f.inverse() <= f.den(),
        f.inverse() * f.num() <= f.den() < (f.inverse() + 1) * f.num(),
        f.inverse() * f.num() + f.den() % f.num() == f.den(),
{
    let n = f.num();
    let d = f.den();
    vstd::arithmetic::div_mod::lemma_fundamental_div_mod(d, n);
    vstd::arithmetic::div_mod::lemma_mod_bound(d, n);
    assert(d == n * (d / n) + d % n);
    assert(n * (d / n) == (d / n) * n) by (nonlinear_arith);
    assert((d / n + 1) * n == (d / n) * n + n) by (nonlinear_arith);
    assert(1 <= d / n) by (nonlinear_arith)
        requires
            0 < n <= d,
            d < (d / n + 1) * n,
    ;
    assert(d / n <= d) by (nonlinear_arith)
        requires
            0 < n,
            1 <= d / n,
            (d / n) * n <= d,
    ;
}

/// Rounding to nearest lands within half a unit of the exact quotient, and
/// on an even integer when the quotient lies exactly between two integers.
pub proof fn lemma_round_half_even_is_nearest(a: int, b: int)
    requires
        0 <= a,
        0 < b,
    ensures
        ({
            let n = round_half_even(a, b);
            let miss = n * b - a;
            &&& -b <= 2 * miss <= b
            &&& (2 * miss == b || 2 * miss == -b) ==> n % 2 == 0
            &&& a / b <= n <= a / b + 1
        }),
{
    let q = a / b;
    let r = a % b;
    vstd::arithmetic::div_mod::lemma_fundamental_div_mod(a, b);
    vstd::arithmetic::div_mod::lemma_mod_bound(a, b);
    assert(b * q == q * b) by (nonlinear_arith);
    assert((q + 1) * b == q * b + b) by (nonlinear_arith);
}

/// A frame never grows under a factor of at most one, and a length of
/// `original` pixels shrinks to the nearest integer to `original * factor`.
pub proof fn lemma_reduced_bounds(f: ScaleFactor, original: int)
    requires
        f.wf(),
        0 <= original,
    ensures
        0 <= f.reduced(original) <= original,
        ({
            let miss = f.reduced(original) * f.den() - original * f.num();
            &&& -f.den() <= 2 * miss <= f.den()
            &&& (2 * miss == f.den() || 2 * miss == -f.den()) ==> f.reduced(original) % 2 == 0
        }),
{
    let n = f.num();
    let d = f.den();
    let a = original * n;
    assert(0 <= a <= original * d) by (nonlinear_arith)
        requires
            0 <= original,
            0 < n <= d,
            a == original * n,
    ;
    lemma_round_half_even_is_nearest(a, d);
    let q = a / d;
    let r = a % d;
    vstd::arithmetic::div_mod::lemma_fundamental_div_mod(a, d);
    vstd::arithmetic::div_mod::lemma_mod_bound(a, d);
    assert(0 <= q) by (nonlinear_arith)
        requires
            0 <= a,
            0 < d,
            a == d * q + r,
            r < d,
    ;
    if 2 * r >= d {
        assert(q < original) by (nonlinear_arith)
            requires
                a == d * q + r,
                r >= 1,
                a <= original * d,
                0 < d,
        ;
    } else {
        assert(q <= original) by (nonlinear_arith)
            requires
                a == d * q + r,
                r >= 0,
                a <= original * d,
                0 < d,
        ;
    }
}

/// Mapping a reduced coordinate back with the truncated inverse falls short
/// of scaling it by the exact reciprocal `den / num` by exactly
/// `coordinate * (den mod num) / num`.
///
/// So the two agree when the reciprocal is a whole number, and otherwise the
/// mapped value of a positive coordinate is too small by less than the
/// coordinate itself.
pub proof fn lemma_truncated_inverse_error(f: ScaleFactor, coordinate: int)
    requires
        f.wf(),
    ensures
        coordinate * f.den() - (coordinate * f.inverse()) * f.num() == coordinate * (f.den()
            % f.num()),
        0 <= f.den() % f.num() < f.num(),
        f.den() % f.num() == 0 ==> (coordinate * f.inverse()) * f.num() == coordinate * f.den(),
        coordinate > 0 ==> (coordinate * f.inverse()) * f.num() <= coordinate * f.den() < (
        coordinate * f.inverse() + coordinate) * f.num(),
        coordinate > 0 && f.den() % f.num() != 0 ==> (coordinate * f.inverse()) * f.num()
            < coordinate * f.den(),
{
    let n = f.num();
    let d = f.den();
    let inv = f.inverse();
    let rem = d % n;
    lemma_inverse_bounds(f);
    vstd::arithmetic::div_mod::lemma_mod_bound(d, n);
    assert(coordinate * d - (coordinate * inv) * n == coordinate * rem) by (nonlinear_arith)
        requires
            inv * n + rem == d,
    ;
    assert(coordinate * 0 == 0);
    if coordinate > 0 {
        assert(0 <= coordinate * rem < coordinate * n) by (nonlinear_arith)
            requires
                coordinate > 0,
                0 <= rem < n,
        ;
        assert((coordinate * inv + coordinate) * n == (coordinate * inv) * n + coordinate * n)
            by (nonlinear_arith);
        if rem != 0 {
            assert(0 < coordinate * rem) by (nonlinear_arith)
                requires
                    coordinate > 0,
                    rem > 0,
            ;
        }
    }
}

} // verus!
