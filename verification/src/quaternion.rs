//! The quaternion type and its operation set.
//!
//! A value represents the quaternion
//! `(qr + qi*i + qj*j + qk*k) / den`
//! with integer numerators over one shared positive denominator, so every
//! operation below is exact: the contracts state the resulting components
//! as literal integer formulas over the operands' components.

use vstd::prelude::*;

use crate::rational::fits_i128;
use crate::rational::fits_i64;
use crate::rational::lemma_i64_mul_fits_i128;
use crate::rational::lemma_pos_mul_pos;
use crate::rational::lemma_square_nonneg;
use crate::rational::rat_div_fits;
use crate::rational::rv_div;
use crate::rational::rv_eq;
use crate::rational::rv_neg;
use crate::rational::wide_mul;
use crate::rational::Rat;
use crate::rational::RatView;

verus! {

/// Mathematical value of a quaternion: four integer numerators over one
/// shared denominator. Well-formed values keep `den > 0`.
pub struct QuatView {
    pub qr: int,
    pub qi: int,
    pub qj: int,
    pub qk: int,
    pub den: int,
}

/// A well-formed view has a positive denominator.
pub open spec fn qv_wf(q: QuatView) -> bool {
    q.den > 0
}

/// The zero quaternion: every component is zero (whatever the denominator).
pub open spec fn qv_is_zero(q: QuatView) -> bool {
    q.qr == 0 && q.qi == 0 && q.qj == 0 && q.qk == 0
}

/// Component-wise sum: numerators are cross-multiplied onto the common
/// denominator `a.den * b.den`.
pub open spec fn qv_add(a: QuatView, b: QuatView) -> QuatView {
    QuatView {
        qr: a.qr * b.den + b.qr * a.den,
        qi: a.qi * b.den + b.qi * a.den,
        qj: a.qj * b.den + b.qj * a.den,
        qk: a.qk * b.den + b.qk * a.den,
        den: a.den * b.den,
    }
}

/// Conjugation: the three imaginary numerators are negated, the real part
/// and the denominator are kept.
pub open spec fn qv_conjugate(a: QuatView) -> QuatView {
    QuatView { qr: a.qr, qi: -a.qi, qj: -a.qj, qk: -a.qk, den: a.den }
}

/// Numerator of the square norm over the denominator `a.den * a.den`:
/// the sum of the squares of the four numerators.
pub open spec fn qv_square_norm_num(a: QuatView) -> int {
    a.qr * a.qr + a.qi * a.qi + a.qj * a.qj + a.qk * a.qk
}

/// Real numerator of the Hamilton product `a * b`.
pub open spec fn qv_mul_qr(a: QuatView, b: QuatView) -> int {
    a.qr * b.qr - a.qi * b.qi - a.qj * b.qj - a.qk * b.qk
}

/// `i` numerator of the Hamilton product `a * b`.
pub open spec fn qv_mul_qi(a: QuatView, b: QuatView) -> int {
    a.qr * b.qi + a.qi * b.qr + a.qj * b.qk - a.qk * b.qj
}

/// `j` numerator of the Hamilton product `a * b`.
pub open spec fn qv_mul_qj(a: QuatView, b: QuatView) -> int {
    a.qr * b.qj - a.qi * b.qk + a.qj * b.qr + a.qk * b.qi
}

/// `k` numerator of the Hamilton product `a * b`.
pub open spec fn qv_mul_qk(a: QuatView, b: QuatView) -> int {
    a.qr * b.qk + a.qi * b.qj - a.qj * b.qi + a.qk * b.qr
}

/// The Hamilton product `a * b`, on the common denominator
/// `a.den * b.den`. The operand order matters: the product is not
/// commutative.
pub open spec fn qv_mul(a: QuatView, b: QuatView) -> QuatView {
    QuatView {
        qr: qv_mul_qr(a, b),
        qi: qv_mul_qi(a, b),
        qj: qv_mul_qj(a, b),
        qk: qv_mul_qk(a, b),
        den: a.den * b.den,
    }
}

/// Scalar multiplication: every numerator is scaled by `s.num`, the
/// denominator by `s.den`.
pub open spec fn qv_scale(a: QuatView, s: RatView) -> QuatView {
    QuatView {
        qr: a.qr * s.num,
        qi: a.qi * s.num,
        qj: a.qj * s.num,
        qk: a.qk * s.num,
        den: a.den * s.den,
    }
}

/// The multiplicative inverse: the conjugate scaled by the reciprocal of
/// the square norm. `(conj numerator * den)` over the square-norm
/// numerator. Meaningful only for a non-zero quaternion.
pub open spec fn qv_inverse(a: QuatView) -> QuatView {
    QuatView {
        qr: a.qr * a.den,
        qi: -(a.qi * a.den),
        qj: -(a.qj * a.den),
        qk: -(a.qk * a.den),
        den: qv_square_norm_num(a),
    }
}

/// Exact value equality, component by component: each of the four
/// component fractions of `a` equals the corresponding fraction of `b`,
/// by cross-multiplication.
pub open spec fn qv_eq(a: QuatView, b: QuatView) -> bool {
    &&& a.qr * b.den == b.qr * a.den
    &&& a.qi * b.den == b.qi * a.den
    &&& a.qj * b.den == b.qj * a.den
    &&& a.qk * b.den == b.qk * a.den
}

/// The multiplicative identity `(1, 0, 0, 0)`.
pub open spec fn qv_one() -> QuatView {
    QuatView { qr: 1, qi: 0, qj: 0, qk: 0, den: 1 }
}

/// All additions performed by [`Quaternion::add`] stay in `i64` range.
pub open spec fn add_fits(a: QuatView, b: QuatView) -> bool {
    &&& fits_i64(a.qr * b.den + b.qr * a.den)
    &&& fits_i64(a.qi * b.den + b.qi * a.den)
    &&& fits_i64(a.qj * b.den + b.qj * a.den)
    &&& fits_i64(a.qk * b.den + b.qk * a.den)
    &&& fits_i64(a.den * b.den)
}

/// The negated imaginary numerators of [`Quaternion::conjugate`] stay in
/// `i64` range (this excludes only `i64::MIN`).
pub open spec fn conjugate_fits(a: QuatView) -> bool {
    &&& fits_i64(-a.qi)
    &&& fits_i64(-a.qj)
    &&& fits_i64(-a.qk)
}

/// All products and sums performed by [`Quaternion::mul`] stay in range:
/// the two-term halves of each Hamilton numerator in `i128`, the four
/// numerators and the denominator in `i64`.
pub open spec fn mul_fits(a: QuatView, b: QuatView) -> bool {
    &&& fits_i128(a.qr * b.qr - a.qi * b.qi)
    &&& fits_i128(a.qj * b.qj + a.qk * b.qk)
    &&& fits_i128(a.qr * b.qi + a.qi * b.qr)
    &&& fits_i128(a.qj * b.qk - a.qk * b.qj)
    &&& fits_i128(a.qr * b.qj - a.qi * b.qk)
    &&& fits_i128(a.qj * b.qr + a.qk * b.qi)
    &&& fits_i128(a.qr * b.qk + a.qi * b.qj)
    &&& fits_i128(a.qk * b.qr - a.qj * b.qi)
    &&& fits_i64(qv_mul_qr(a, b))
    &&& fits_i64(qv_mul_qi(a, b))
    &&& fits_i64(qv_mul_qj(a, b))
    &&& fits_i64(qv_mul_qk(a, b))
    &&& fits_i64(a.den * b.den)
}

/// All products performed by [`Quaternion::mul_scalar`] stay in `i64`
/// range.
pub open spec fn scale_fits(a: QuatView, s: RatView) -> bool {
    &&& fits_i64(a.qr * s.num)
    &&& fits_i64(a.qi * s.num)
    &&& fits_i64(a.qj * s.num)
    &&& fits_i64(a.qk * s.num)
    &&& fits_i64(a.den * s.den)
}

/// All values computed by [`Quaternion::inverse`] stay in `i64` range:
/// the square-norm numerator and the four scaled conjugate numerators.
pub open spec fn inverse_fits(a: QuatView) -> bool {
    &&& fits_i64(qv_square_norm_num(a))
    &&& fits_i64(a.qr * a.den)
    &&& fits_i64(-(a.qi * a.den))
    &&& fits_i64(-(a.qj * a.den))
    &&& fits_i64(-(a.qk * a.den))
}

/// Four component fractions brought onto one common denominator: each
/// numerator is scaled by the denominators of the three other components,
/// the common denominator is the product of all four.
pub open spec fn qv_combine(c0: RatView, c1: RatView, c2: RatView, c3: RatView) -> QuatView {
    QuatView {
        qr: c0.num * (c1.den * (c2.den * c3.den)),
        qi: c1.num * (c0.den * (c2.den * c3.den)),
        qj: c2.num * (c0.den * (c1.den * c3.den)),
        qk: c3.num * (c0.den * (c1.den * c2.den)),
        den: c0.den * (c1.den * (c2.den * c3.den)),
    }
}

/// All products performed by [`Quaternion::from_components`] stay in `i64`
/// range: the three-denominator products and the five entries of
/// [`qv_combine`].
pub open spec fn combine_fits(c0: RatView, c1: RatView, c2: RatView, c3: RatView) -> bool {
    &&& fits_i64(c1.den * (c2.den * c3.den))
    &&& fits_i64(c0.den * (c2.den * c3.den))
    &&& fits_i64(c0.den * (c1.den * c3.den))
    &&& fits_i64(c0.den * (c1.den * c2.den))
    &&& fits_i64(c0.num * (c1.den * (c2.den * c3.den)))
    &&& fits_i64(c1.num * (c0.den * (c2.den * c3.den)))
    &&& fits_i64(c2.num * (c0.den * (c1.den * c3.den)))
    &&& fits_i64(c3.num * (c0.den * (c1.den * c2.den)))
    &&& fits_i64(c0.den * (c1.den * (c2.den * c3.den)))
}

/// The values divided by in [`Quaternion::div`] and the entries of its
/// combined result stay in `i64` range.
pub open spec fn div_fits(s: RatView, q: QuatView) -> bool {
    let c0 = rv_div(s, RatView { num: q.qr, den: q.den });
    let c1 = rv_div(rv_neg(s), RatView { num: q.qi, den: q.den });
    let c2 = rv_div(rv_neg(s), RatView { num: q.qj, den: q.den });
    let c3 = rv_div(rv_neg(s), RatView { num: q.qk, den: q.den });
    &&& fits_i64(-s.num)
    &&& rat_div_fits(s, RatView { num: q.qr, den: q.den })
    &&& rat_div_fits(rv_neg(s), RatView { num: q.qi, den: q.den })
    &&& rat_div_fits(rv_neg(s), RatView { num: q.qj, den: q.den })
    &&& rat_div_fits(rv_neg(s), RatView { num: q.qk, den: q.den })
    &&& combine_fits(c0, c1, c2, c3)
}

/// A product of values at least one is at least either factor.
proof fn lemma_mul_ge_operand(x: int, y: int)
    by (nonlinear_arith)
    requires
        x >= 1,
        y >= 1,
    ensures
        y <= x * y,
        x <= x * y,
        x * y >= 1,
{
}

/// Scaling a numerator by the other components' denominators and the
/// common denominator by the own denominator leaves the fraction's value
/// unchanged: `(n * t) / (d * t) == n / d`, by cross-multiplication.
proof fn lemma_combine_slot(n: int, t: int, d: int)
    by (nonlinear_arith)
    ensures
        (n * t) * d == n * (d * t),
{
}

/// The product of four factors, rotated so that each factor in turn
/// stands outside.
proof fn lemma_four_product_rotations(d0: int, d1: int, d2: int, d3: int)
    by (nonlinear_arith)
    ensures
        d0 * (d1 * (d2 * d3)) == d1 * (d0 * (d2 * d3)),
        d0 * (d1 * (d2 * d3)) == d2 * (d0 * (d1 * d3)),
        d0 * (d1 * (d2 * d3)) == d3 * (d0 * (d1 * d2)),
{
}

/// Ten to the power `n`.
pub open spec fn pow10(n: nat) -> int
    decreases n,
{
    if n == 0 {
        1
    } else {
        10 * pow10((n - 1) as nat)
    }
}

/// Rounding of the fraction `n / d` (for `d > 0`) to the nearest integer,
/// halves away from zero: `rhafz(5, 2) == 3` and `rhafz(-5, 2) == -3`.
pub open spec fn rhafz(n: int, d: int) -> int
    recommends
        d > 0,
{
    if n >= 0 {
        (2 * n + d) / (2 * d)
    } else {
        -((2 * (-n) + d) / (2 * d))
    }
}

/// The rounding performed by [`Quaternion::round`]: every component
/// fraction is rounded to `decimals` decimal digits, onto the common
/// denominator `10^decimals`.
pub open spec fn qv_round(q: QuatView, decimals: nat) -> QuatView {
    QuatView {
        qr: rhafz(q.qr * pow10(decimals), q.den),
        qi: rhafz(q.qi * pow10(decimals), q.den),
        qj: rhafz(q.qj * pow10(decimals), q.den),
        qk: rhafz(q.qk * pow10(decimals), q.den),
        den: pow10(decimals),
    }
}

/// The four rounded numerators of [`Quaternion::round`] stay in `i64`
/// range.
pub open spec fn round_fits(q: QuatView, decimals: nat) -> bool {
    &&& fits_i64(rhafz(q.qr * pow10(decimals), q.den))
    &&& fits_i64(rhafz(q.qi * pow10(decimals), q.den))
    &&& fits_i64(rhafz(q.qj * pow10(decimals), q.den))
    &&& fits_i64(rhafz(q.qk * pow10(decimals), q.den))
}

/// Powers of ten are at least one.
proof fn lemma_pow10_pos(n: nat)
    ensures
        pow10(n) >= 1,
    decreases n,
{
    if n > 0 {
        lemma_pow10_pos((n - 1) as nat);
    }
}

/// Powers of ten grow with the exponent.
proof fn lemma_pow10_mono(m: nat, n: nat)
    requires
        m <= n,
    ensures
        pow10(m) <= pow10(n),
    decreases n,
{
    if m < n {
        lemma_pow10_mono(m, (n - 1) as nat);
        lemma_pow10_pos((n - 1) as nat);
    }
}

/// The largest power of ten that an `i64` denominator accommodates here.
proof fn lemma_pow10_18()
    ensures
        pow10(18) == 1000000000000000000,
{
    reveal_with_fuel(pow10, 19);
}

/// The magnitude products formed while rounding stay in `u128` range.
proof fn lemma_round_magnitude(a: int, b: int)
    by (nonlinear_arith)
    requires
        0 <= a <= 0x8000_0000_0000_0000,
        0 <= b <= 1000000000000000000,
    ensures
        0 <= a * b <= 9223372036854775808000000000000000000,
{
}

/// A product of a non-positive and a positive value is non-positive, and
/// its negation is the product of the magnitudes.
proof fn lemma_neg_mul(a: int, b: int)
    by (nonlinear_arith)
    requires
        a < 0,
        b >= 1,
    ensures
        a * b < 0,
        -(a * b) == (-a) * b,
{
}

/// A sum of four squares is non-negative, and zero exactly when every
/// summand is zero.
pub proof fn lemma_sum_of_squares(a: int, b: int, c: int, d: int)
    by (nonlinear_arith)
    ensures
        a * a + b * b + c * c + d * d >= 0,
        a * a + b * b + c * c + d * d == 0 <==> (a == 0 && b == 0 && c == 0 && d == 0),
{
}

/// The error returned in place of a non-finite result: the operation
/// divides by a quantity of its quaternion operand that is zero.
#[derive(Debug, Clone, Copy, PartialEq, Eq, Structural)]
pub struct DegenerateQuaternion;

/// A quaternion with exact rational components: four integer numerators
/// over one shared positive denominator. Values are immutable; every
/// operation returns a new value. Equality compares component values, not
/// representations.
#[derive(Debug, Clone, Copy)]
pub struct Quaternion {
    pub qr: i64,
    pub qi: i64,
    pub qj: i64,
    pub qk: i64,
    pub den: i64,
}

impl View for Quaternion {
    type V = QuatView;

    open spec fn view(&self) -> QuatView {
        QuatView {
            qr: self.qr as int,
            qi: self.qi as int,
            qj: self.qj as int,
            qk: self.qk as int,
            den: self.den as int,
        }
    }
}

impl Quaternion {
    /// Well-formedness: the shared denominator is positive.
    pub open spec fn wf(&self) -> bool {
        qv_wf(self@)
    }

    /// Builds the quaternion `qr + qi*i + qj*j + qk*k` with integer
    /// components. Total: stores the four components verbatim, over the
    /// denominator 1.
    pub fn new(qr: i64, qi: i64, qj: i64, qk: i64) -> (r: Quaternion)
        ensures
            r.wf(),
            r@ == (QuatView {
                qr: qr as int,
                qi: qi as int,
                qj: qj as int,
                qk: qk as int,
                den: 1,
            }),
    {
        Quaternion { qr, qi, qj, qk, den: 1 }
    }

    /// Builds the quaternion `(qr + qi*i + qj*j + qk*k) / den` from integer
    /// numerators over one shared positive denominator.
    pub fn with_denominator(qr: i64, qi: i64, qj: i64, qk: i64, den: i64) -> (r: Quaternion)
        requires
            den > 0,
        ensures
            r.wf(),
            r@ == (QuatView {
                qr: qr as int,
                qi: qi as int,
                qj: qj as int,
                qk: qk as int,
                den: den as int,
            }),
    {
        Quaternion { qr, qi, qj, qk, den }
    }

    /// The real (scalar) part, as an exact rational.
    pub fn real_part(&self) -> (r: Rat)
        requires
            self.wf(),
        ensures
            r.wf(),
            r@ == (RatView { num: self@.qr, den: self@.den }),
    {
        Rat { num: self.qr, den: self.den }
    }

    /// The three imaginary parts along `i`, `j`, `k`, in that fixed order,
    /// as exact rationals.
    pub fn imaginary(&self) -> (r: (Rat, Rat, Rat))
        requires
            self.wf(),
        ensures
            r.0.wf() && r.0@ == (RatView { num: self@.qi, den: self@.den }),
            r.1.wf() && r.1@ == (RatView { num: self@.qj, den: self@.den }),
            r.2.wf() && r.2@ == (RatView { num: self@.qk, den: self@.den }),
    {
        (
            Rat { num: self.qi, den: self.den },
            Rat { num: self.qj, den: self.den },
            Rat { num: self.qk, den: self.den },
        )
    }

    /// Component-wise sum. Commutative: see
    /// [`crate::laws::lemma_add_commutative`].
    pub fn add(&self, other: &Quaternion) -> (r: Quaternion)
        requires
            self.wf(),
            other.wf(),
            add_fits(self@, other@),
        ensures
            r.wf(),
            r@ == qv_add(self@, other@),
    {
        proof {
            lemma_pos_mul_pos(self@.den, other@.den);
        }
        let qr = wide_mul(self.qr, other.den) + wide_mul(other.qr, self.den);
        let qi = wide_mul(self.qi, other.den) + wide_mul(other.qi, self.den);
        let qj = wide_mul(self.qj, other.den) + wide_mul(other.qj, self.den);
        let qk = wide_mul(self.qk, other.den) + wide_mul(other.qk, self.den);
        let den = wide_mul(self.den, other.den);
        Quaternion {
            qr: qr as i64,
            qi: qi as i64,
            qj: qj as i64,
            qk: qk as i64,
            den: den as i64,
        }
    }

    /// The conjugate: the real part is kept, the three imaginary parts are
    /// negated. An involution: see
    /// [`crate::laws::lemma_conjugate_involution`].
    pub fn conjugate(&self) -> (r: Quaternion)
        requires
            self.wf(),
            conjugate_fits(self@),
        ensures
            r.wf(),
            r@ == qv_conjugate(self@),
    {
        Quaternion { qr: self.qr, qi: -self.qi, qj: -self.qj, qk: -self.qk, den: self.den }
    }

    /// The square-norm numerator `qr*qr + qi*qi + qj*qj + qk*qk`, shared by
    /// [`Quaternion::square_norm`] and [`Quaternion::inverse`].
    fn square_norm_num(&self) -> (r: i64)
        requires
            fits_i64(qv_square_norm_num(self@)),
        ensures
            r == qv_square_norm_num(self@),
            r >= 0,
            r == 0 <==> qv_is_zero(self@),
    {
        proof {
            lemma_sum_of_squares(self@.qr, self@.qi, self@.qj, self@.qk);
            lemma_square_nonneg(self@.qr);
            lemma_square_nonneg(self@.qi);
            lemma_square_nonneg(self@.qj);
            lemma_square_nonneg(self@.qk);
        }
        let s = wide_mul(self.qr, self.qr) + wide_mul(self.qi, self.qi)
            + wide_mul(self.qj, self.qj) + wide_mul(self.qk, self.qk);
        s as i64
    }

    /// The square norm `qr*qr + qi*qi + qj*qj + qk*qk` of the quaternion's
    /// value: the sum of the squares of the four component fractions.
    /// Never negative, and zero exactly for the zero quaternion.
    pub fn square_norm(&self) -> (r: Rat)
        requires
            self.wf(),
            fits_i64(qv_square_norm_num(self@)),
            fits_i64(self@.den * self@.den),
        ensures
            r.wf(),
            r@ == (RatView { num: qv_square_norm_num(self@), den: self@.den * self@.den }),
            r@.num >= 0,
            r@.num == 0 <==> qv_is_zero(self@),
    {
        proof {
            lemma_pos_mul_pos(self@.den, self@.den);
            lemma_sum_of_squares(self@.qr, self@.qi, self@.qj, self@.qk);
        }
        let num = self.square_norm_num();
        let den = wide_mul(self.den, self.den);
        Rat { num, den: den as i64 }
    }

    /// The Hamilton product `self * other`. The operand order matters:
    /// the product is not commutative (`i * j == k` but `j * i == -k`).
    pub fn mul(&self, other: &Quaternion) -> (r: Quaternion)
        requires
            self.wf(),
            other.wf(),
            mul_fits(self@, other@),
        ensures
            r.wf(),
            r@ == qv_mul(self@, other@),
    {
        proof {
            lemma_pos_mul_pos(self@.den, other@.den);
        }
        let qr = prod_sub(self.qr, other.qr, self.qi, other.qi)
            - prod_add(self.qj, other.qj, self.qk, other.qk);
        let qi = prod_add(self.qr, other.qi, self.qi, other.qr)
            + prod_sub(self.qj, other.qk, self.qk, other.qj);
        let qj = prod_sub(self.qr, other.qj, self.qi, other.qk)
            + prod_add(self.qj, other.qr, self.qk, other.qi);
        let qk = prod_add(self.qr, other.qk, self.qi, other.qj)
            + prod_sub(self.qk, other.qr, self.qj, other.qi);
        let den = wide_mul(self.den, other.den);
        Quaternion {
            qr: qr as i64,
            qi: qi as i64,
            qj: qj as i64,
            qk: qk as i64,
            den: den as i64,
        }
    }

    /// Scalar multiplication: every component fraction is scaled by the
    /// rational `scalar`.
    pub fn mul_scalar(&self, scalar: &Rat) -> (r: Quaternion)
        requires
            self.wf(),
            scalar.wf(),
            scale_fits(self@, scalar@),
        ensures
            r.wf(),
            r@ == qv_scale(self@, scalar@),
    {
        proof {
            lemma_pos_mul_pos(self@.den, scalar@.den);
        }
        let qr = wide_mul(self.qr, scalar.num);
        let qi = wide_mul(self.qi, scalar.num);
        let qj = wide_mul(self.qj, scalar.num);
        let qk = wide_mul(self.qk, scalar.num);
        let den = wide_mul(self.den, scalar.den);
        Quaternion {
            qr: qr as i64,
            qi: qi as i64,
            qj: qj as i64,
            qk: qk as i64,
            den: den as i64,
        }
    }

    /// The multiplicative inverse: the conjugate scaled by the reciprocal
    /// of the square norm. The zero quaternion has no inverse and is
    /// rejected with [`DegenerateQuaternion`]; for every other operand the
    /// call succeeds, and `self * self.inverse()` is exactly the identity
    /// (see [`crate::laws::lemma_mul_inverse_identity`]).
    pub fn inverse(&self) -> (r: Result<Quaternion, DegenerateQuaternion>)
        requires
            self.wf(),
            inverse_fits(self@),
        ensures
            r is Err <==> qv_is_zero(self@),
            r matches Ok(q) ==> q.wf() && q@ == qv_inverse(self@),
    {
        let n = self.square_norm_num();
        if n == 0 {
            Err(DegenerateQuaternion)
        } else {
            proof {
                lemma_i64_mul_fits_i128(self@.qi, self@.den);
                lemma_i64_mul_fits_i128(self@.qj, self@.den);
                lemma_i64_mul_fits_i128(self@.qk, self@.den);
            }
            let qr = wide_mul(self.qr, self.den);
            let qi = -wide_mul(self.qi, self.den);
            let qj = -wide_mul(self.qj, self.den);
            let qk = -wide_mul(self.qk, self.den);
            Ok(Quaternion {
                qr: qr as i64,
                qi: qi as i64,
                qj: qj as i64,
                qk: qk as i64,
                den: n,
            })
        }
    }

    /// Builds a quaternion from four independent component fractions,
    /// brought onto one common denominator. Each component of the result
    /// has exactly the value of the corresponding argument.
    pub fn from_components(c0: &Rat, c1: &Rat, c2: &Rat, c3: &Rat) -> (r: Quaternion)
        requires
            c0.wf(),
            c1.wf(),
            c2.wf(),
            c3.wf(),
            combine_fits(c0@, c1@, c2@, c3@),
        ensures
            r.wf(),
            r@ == qv_combine(c0@, c1@, c2@, c3@),
            rv_eq(RatView { num: r@.qr, den: r@.den }, c0@),
            rv_eq(RatView { num: r@.qi, den: r@.den }, c1@),
            rv_eq(RatView { num: r@.qj, den: r@.den }, c2@),
            rv_eq(RatView { num: r@.qk, den: r@.den }, c3@),
    {
        proof {
            lemma_pos_mul_pos(c2@.den, c3@.den);
            lemma_pos_mul_pos(c1@.den, c3@.den);
            lemma_pos_mul_pos(c1@.den, c2@.den);
            lemma_mul_ge_operand(c1@.den, c2@.den * c3@.den);
            lemma_mul_ge_operand(c0@.den, c2@.den * c3@.den);
            lemma_mul_ge_operand(c0@.den, c1@.den * c3@.den);
            lemma_mul_ge_operand(c0@.den, c1@.den * c2@.den);
            lemma_mul_ge_operand(c0@.den, c1@.den * (c2@.den * c3@.den));
        }
        let p23 = pos_mul(c2.den, c3.den);
        let p13 = pos_mul(c1.den, c3.den);
        let p12 = pos_mul(c1.den, c2.den);
        let t0 = pos_mul(c1.den, p23);
        let t1 = pos_mul(c0.den, p23);
        let t2 = pos_mul(c0.den, p13);
        let t3 = pos_mul(c0.den, p12);
        let den = pos_mul(c0.den, t0);
        let qr = wide_mul(c0.num, t0);
        let qi = wide_mul(c1.num, t1);
        let qj = wide_mul(c2.num, t2);
        let qk = wide_mul(c3.num, t3);
        let r = Quaternion {
            qr: qr as i64,
            qi: qi as i64,
            qj: qj as i64,
            qk: qk as i64,
            den,
        };
        proof {
            lemma_combine_slot(c0@.num, t0 as int, c0@.den);
            lemma_combine_slot(c1@.num, t1 as int, c1@.den);
            lemma_combine_slot(c2@.num, t2 as int, c2@.den);
            lemma_combine_slot(c3@.num, t3 as int, c3@.den);
            lemma_four_product_rotations(c0@.den, c1@.den, c2@.den, c3@.den);
        }
        r
    }

    /// Every component fraction rounded to `decimals` decimal digits,
    /// halves away from zero: each component becomes
    /// `rhafz(component * 10^decimals) / 10^decimals`.
    pub fn round(&self, decimals: usize) -> (r: Quaternion)
        requires
            self.wf(),
            decimals <= 18,
            round_fits(self@, decimals as nat),
        ensures
            r.wf(),
            r@ == qv_round(self@, decimals as nat),
    {
        let mut f: i64 = 1;
        let mut i: usize = 0;
        while i < decimals
            invariant
                i <= decimals,
                decimals <= 18,
                f == pow10(i as nat),
                1 <= f,
            decreases decimals - i,
        {
            proof {
                lemma_pow10_mono((i + 1) as nat, 18);
                lemma_pow10_18();
            }
            f = f * 10;
            i = i + 1;
        }
        proof {
            lemma_pow10_mono(decimals as nat, 18);
            lemma_pow10_18();
        }
        let qr = round_component(self.qr, self.den, f);
        let qi = round_component(self.qi, self.den, f);
        let qj = round_component(self.qj, self.den, f);
        let qk = round_component(self.qk, self.den, f);
        Quaternion { qr, qi, qj, qk, den: f }
    }

    /// The scalar-over-quaternion division
    /// `(scalar/qr, -scalar/qi, -scalar/qj, -scalar/qk)`, component by
    /// component. This is deliberately not the algebraic quotient
    /// `scalar * q.inverse()`: each slot is the scalar divided by that
    /// component fraction alone, with the three imaginary slots negated.
    /// A quaternion with any zero component is rejected with
    /// [`DegenerateQuaternion`]; for every other operand the call
    /// succeeds.
    pub fn div(scalar: &Rat, q: &Quaternion) -> (r: Result<Quaternion, DegenerateQuaternion>)
        requires
            scalar.wf(),
            q.wf(),
            div_fits(scalar@, q@),
        ensures
            r is Err <==> (q@.qr == 0 || q@.qi == 0 || q@.qj == 0 || q@.qk == 0),
            r matches Ok(d) ==> {
                &&& d.wf()
                &&& rv_eq(
                    RatView { num: d@.qr, den: d@.den },
                    rv_div(scalar@, RatView { num: q@.qr, den: q@.den }),
                )
                &&& rv_eq(
                    RatView { num: d@.qi, den: d@.den },
                    rv_div(rv_neg(scalar@), RatView { num: q@.qi, den: q@.den }),
                )
                &&& rv_eq(
                    RatView { num: d@.qj, den: d@.den },
                    rv_div(rv_neg(scalar@), RatView { num: q@.qj, den: q@.den }),
                )
                &&& rv_eq(
                    RatView { num: d@.qk, den: d@.den },
                    rv_div(rv_neg(scalar@), RatView { num: q@.qk, den: q@.den }),
                )
            },
    {
        if q.qr == 0 || q.qi == 0 || q.qj == 0 || q.qk == 0 {
            Err(DegenerateQuaternion)
        } else {
            let neg_scalar = scalar.neg();
            let c0 = scalar.div(&Rat { num: q.qr, den: q.den });
            let c1 = neg_scalar.div(&Rat { num: q.qi, den: q.den });
            let c2 = neg_scalar.div(&Rat { num: q.qj, den: q.den });
            let c3 = neg_scalar.div(&Rat { num: q.qk, den: q.den });
            Ok(Quaternion::from_components(&c0, &c1, &c2, &c3))
        }
    }
}

/// Rounds the fraction `(c * f) / d` to the nearest integer, halves away
/// from zero, over unsigned magnitudes.
fn round_component(c: i64, d: i64, f: i64) -> (r: i64)
    requires
        d >= 1,
        1 <= f <= 1000000000000000000,
        fits_i64(rhafz(c * f, d as int)),
    ensures
        r == rhafz(c * f, d as int),
{
    let dd = d as u128;
    if c >= 0 {
        proof {
            lemma_round_magnitude(c as int, f as int);
        }
        let mag = (c as u128) * (f as u128);
        let q = (2 * mag + dd) / (2 * dd);
        assert(q == rhafz(c * f, d as int));
        q as i64
    } else {
        proof {
            lemma_neg_mul(c as int, f as int);
            lemma_round_magnitude(-(c as int), f as int);
        }
        let mag = (-(c as i128)) as u128 * (f as u128);
        let q = (2 * mag + dd) / (2 * dd);
        assert(-(q as int) == rhafz(c * f, d as int));
        let qi = -(q as i128);
        qi as i64
    }
}

/// Exact product of two positive `i64` values that is known to stay in
/// range.
fn pos_mul(x: i64, y: i64) -> (r: i64)
    requires
        x >= 1,
        y >= 1,
        fits_i64(x * y),
    ensures
        r == x * y,
        r >= 1,
{
    proof {
        lemma_pos_mul_pos(x as int, y as int);
    }
    wide_mul(x, y) as i64
}

/// Exact `x1 * y1 + x2 * y2` over widened products.
fn prod_add(x1: i64, y1: i64, x2: i64, y2: i64) -> (r: i128)
    requires
        fits_i128(x1 * y1 + x2 * y2),
    ensures
        r == x1 * y1 + x2 * y2,
{
    wide_mul(x1, y1) + wide_mul(x2, y2)
}

/// Exact `x1 * y1 - x2 * y2` over widened products.
fn prod_sub(x1: i64, y1: i64, x2: i64, y2: i64) -> (r: i128)
    requires
        fits_i128(x1 * y1 - x2 * y2),
    ensures
        r == x1 * y1 - x2 * y2,
{
    wide_mul(x1, y1) - wide_mul(x2, y2)
}

impl PartialEq for Quaternion {
    /// Exact value equality: each of the four component fractions of
    /// `self` equals the corresponding fraction of `other`, compared by
    /// cross-multiplication (no tolerance).
    fn eq(&self, other: &Quaternion) -> (r: bool) {
        proof {
            lemma_i64_mul_fits_i128(self@.qr, other@.den);
            lemma_i64_mul_fits_i128(self@.qi, other@.den);
            lemma_i64_mul_fits_i128(self@.qj, other@.den);
            lemma_i64_mul_fits_i128(self@.qk, other@.den);
            lemma_i64_mul_fits_i128(other@.qr, self@.den);
            lemma_i64_mul_fits_i128(other@.qi, self@.den);
            lemma_i64_mul_fits_i128(other@.qj, self@.den);
            lemma_i64_mul_fits_i128(other@.qk, self@.den);
        }
        (self.qr as i128) * (other.den as i128) == (other.qr as i128) * (self.den as i128)
            && (self.qi as i128) * (other.den as i128) == (other.qi as i128) * (self.den as i128)
            && (self.qj as i128) * (other.den as i128) == (other.qj as i128) * (self.den as i128)
            && (self.qk as i128) * (other.den as i128) == (other.qk as i128) * (self.den as i128)
    }
}

impl vstd::std_specs::cmp::PartialEqSpecImpl for Quaternion {
    open spec fn obeys_eq_spec() -> bool {
        true
    }

    open spec fn eq_spec(&self, other: &Quaternion) -> bool {
        qv_eq(self@, other@)
    }
}

} // verus!
