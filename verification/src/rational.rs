//! Exact rational scalars: an integer numerator over a positive integer
//! denominator. These are the component values of a quaternion and the
//! scalar operands of scalar multiplication and division.

use vstd::prelude::*;

verus! {

/// Mathematical value of a rational scalar: the fraction `num / den`.
/// Well-formed values keep `den > 0`; the representation is not reduced,
/// so equality of values is cross-multiplication, see [`rv_eq`].
pub struct RatView {
    pub num: int,
    pub den: int,
}

/// A well-formed view has a positive denominator.
pub open spec fn rv_wf(a: RatView) -> bool {
    a.den > 0
}

/// Value equality of two fractions: `a.num / a.den == b.num / b.den`,
/// stated by cross-multiplication (exact for any non-zero denominators).
pub open spec fn rv_eq(a: RatView, b: RatView) -> bool {
    a.num * b.den == b.num * a.den
}

/// Sum of two fractions, unreduced.
pub open spec fn rv_add(a: RatView, b: RatView) -> RatView {
    RatView { num: a.num * b.den + b.num * a.den, den: a.den * b.den }
}

/// Product of two fractions, unreduced.
pub open spec fn rv_mul(a: RatView, b: RatView) -> RatView {
    RatView { num: a.num * b.num, den: a.den * b.den }
}

/// Negation of a fraction.
pub open spec fn rv_neg(a: RatView) -> RatView {
    RatView { num: -a.num, den: a.den }
}

/// Quotient `a / b`, unreduced, with the sign moved into the numerator so
/// that the denominator stays positive when `a` and `b` are well-formed
/// and `b.num != 0`.
pub open spec fn rv_div(a: RatView, b: RatView) -> RatView {
    if b.num >= 0 {
        RatView { num: a.num * b.den, den: a.den * b.num }
    } else {
        RatView { num: -(a.num * b.den), den: -(a.den * b.num) }
    }
}

/// The cross products formed by [`Rat::div`] stay in `i64` range, with
/// either sign.
pub open spec fn rat_div_fits(a: RatView, b: RatView) -> bool {
    &&& fits_i64(a.num * b.den)
    &&& fits_i64(a.den * b.num)
    &&& fits_i64(-(a.num * b.den))
    &&& fits_i64(-(a.den * b.num))
}

/// `x` is representable as an `i64`.
pub open spec fn fits_i64(x: int) -> bool {
    i64::MIN <= x <= i64::MAX
}

/// `x` is representable as an `i128`.
pub open spec fn fits_i128(x: int) -> bool {
    i128::MIN <= x <= i128::MAX
}

/// The product of two `i64`-range values always fits in an `i128`.
pub proof fn lemma_i64_mul_fits_i128(x: int, y: int)
    by (nonlinear_arith)
    requires
        fits_i64(x),
        fits_i64(y),
    ensures
        -0x4000_0000_0000_0000_0000_0000_0000_0000 <= x * y
            <= 0x4000_0000_0000_0000_0000_0000_0000_0000,
        fits_i128(x * y),
{
}

/// A square is never negative.
pub proof fn lemma_square_nonneg(x: int)
    by (nonlinear_arith)
    ensures
        x * x >= 0,
{
}

/// Exact product of two `i64` values, widened so that it cannot overflow.
pub(crate) fn wide_mul(x: i64, y: i64) -> (r: i128)
    ensures
        r == x * y,
{
    proof {
        lemma_i64_mul_fits_i128(x as int, y as int);
    }
    (x as i128) * (y as i128)
}

/// An exact rational scalar. The denominator is kept positive ([`Rat::wf`]);
/// the fraction is not reduced, and equality compares values, not
/// representations: `Rat::new(1, 2) == Rat::new(2, 4)`.
#[derive(Debug, Clone, Copy)]
pub struct Rat {
    pub num: i64,
    pub den: i64,
}

impl View for Rat {
    type V = RatView;

    open spec fn view(&self) -> RatView {
        RatView { num: self.num as int, den: self.den as int }
    }
}

impl Rat {
    /// Well-formedness: the denominator is positive.
    pub open spec fn wf(&self) -> bool {
        rv_wf(self@)
    }

    /// Builds the fraction `num / den`. A negative denominator is
    /// normalized by moving the sign into the numerator.
    pub fn new(num: i64, den: i64) -> (r: Rat)
        requires
            den != 0,
            den < 0 ==> num != i64::MIN && den != i64::MIN,
        ensures
            r.wf(),
            r@ == (if den < 0 {
                RatView { num: -(num as int), den: -(den as int) }
            } else {
                RatView { num: num as int, den: den as int }
            }),
    {
        if den < 0 {
            Rat { num: -num, den: -den }
        } else {
            Rat { num, den }
        }
    }

    /// The numerator of the stored (unreduced) representation.
    pub fn numerator(&self) -> (r: i64)
        ensures
            r == self@.num,
    {
        self.num
    }

    /// The denominator of the stored (unreduced) representation.
    pub fn denominator(&self) -> (r: i64)
        ensures
            r == self@.den,
    {
        self.den
    }

    /// Negation, `-self`.
    pub fn neg(&self) -> (r: Rat)
        requires
            self@.num != i64::MIN,
        ensures
            r@ == rv_neg(self@),
            self.wf() ==> r.wf(),
    {
        Rat { num: -self.num, den: self.den }
    }

    /// Quotient `self / other`, exact and unreduced, with the result's
    /// denominator kept positive. Defined only for a non-zero divisor.
    pub fn div(&self, other: &Rat) -> (r: Rat)
        requires
            self.wf(),
            other.wf(),
            other@.num != 0,
            rat_div_fits(self@, other@),
        ensures
            r.wf(),
            r@ == rv_div(self@, other@),
    {
        let n = wide_mul(self.num, other.den);
        let d = wide_mul(self.den, other.num);
        if other.num >= 0 {
            proof {
                lemma_pos_mul_pos(self@.den, other@.num);
            }
            Rat { num: n as i64, den: d as i64 }
        } else {
            proof {
                lemma_pos_mul_neg(self@.den, other@.num);
                lemma_i64_mul_fits_i128(self@.num, other@.den);
                lemma_i64_mul_fits_i128(self@.den, other@.num);
            }
            Rat { num: (-n) as i64, den: (-d) as i64 }
        }
    }
}

/// The product of two positives is positive.
pub proof fn lemma_pos_mul_pos(x: int, y: int)
    by (nonlinear_arith)
    requires
        x > 0,
        y > 0,
    ensures
        x * y > 0,
{
}

/// The product of a positive and a negative is negative.
pub proof fn lemma_pos_mul_neg(x: int, y: int)
    by (nonlinear_arith)
    requires
        x > 0,
        y < 0,
    ensures
        x * y < 0,
{
}

impl PartialEq for Rat {
    /// Exact value equality of the fractions, by cross-multiplication.
    fn eq(&self, other: &Rat) -> (r: bool) {
        proof {
            lemma_i64_mul_fits_i128(self@.num, other@.den);
            lemma_i64_mul_fits_i128(other@.num, self@.den);
        }
        (self.num as i128) * (other.den as i128) == (other.num as i128) * (self.den as i128)
    }
}

impl vstd::std_specs::cmp::PartialEqSpecImpl for Rat {
    open spec fn obeys_eq_spec() -> bool {
        true
    }

    open spec fn eq_spec(&self, other: &Rat) -> bool {
        rv_eq(self@, other@)
    }
}

} // verus!
