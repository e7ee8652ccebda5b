//! Algebraic laws of the quaternion operations, proved once and for all
//! values, not merely checked on samples.

use vstd::prelude::*;

use crate::quaternion::qv_add;
use crate::quaternion::qv_conjugate;
use crate::quaternion::qv_eq;
use crate::quaternion::qv_inverse;
use crate::quaternion::qv_is_zero;
use crate::quaternion::qv_mul;
use crate::quaternion::qv_one;
use crate::quaternion::qv_square_norm_num;
use crate::quaternion::QuatView;
use crate::quaternion::Quaternion;

verus! {

/// Addition is commutative: `a.add(b)` and `b.add(a)` are the same value,
/// component by component — not merely equal fractions, the same stored
/// representation.
pub proof fn lemma_add_commutative(a: Quaternion, b: Quaternion)
    ensures
        qv_add(a@, b@) == qv_add(b@, a@),
{
    assert(a@.den * b@.den == b@.den * a@.den) by (nonlinear_arith);
}

/// Conjugation is an involution: conjugating twice gives back exactly the
/// starting value.
pub proof fn lemma_conjugate_involution(a: Quaternion)
    ensures
        qv_conjugate(qv_conjugate(a@)) == a@,
{
}

/// The four Hamilton-product numerators of `q * conjugate(q) * den`,
/// written out over free integers: the real one collapses to the square
/// norm scaled by `d`, the three imaginary ones cancel to zero.
proof fn lemma_inverse_numerators(r: int, i: int, j: int, k: int, d: int)
    ensures
        r * (r * d) - i * (-(i * d)) - j * (-(j * d)) - k * (-(k * d)) == d * (r * r + i * i + j
            * j + k * k),
        r * (-(i * d)) + i * (r * d) + j * (-(k * d)) - k * (-(j * d)) == 0,
        r * (-(j * d)) - i * (-(k * d)) + j * (r * d) + k * (-(i * d)) == 0,
        r * (-(k * d)) + i * (-(j * d)) - j * (-(i * d)) + k * (r * d) == 0,
{
    assert(r * (r * d) == d * (r * r)) by (nonlinear_arith);
    assert(i * (-(i * d)) == -(d * (i * i))) by (nonlinear_arith);
    assert(j * (-(j * d)) == -(d * (j * j))) by (nonlinear_arith);
    assert(k * (-(k * d)) == -(d * (k * k))) by (nonlinear_arith);
    assert(d * (r * r + i * i + j * j + k * k) == d * (r * r) + d * (i * i) + d * (j * j) + d * (k
        * k)) by (nonlinear_arith);
    assert(r * (-(i * d)) + i * (r * d) + j * (-(k * d)) - k * (-(j * d)) == 0)
        by (nonlinear_arith);
    assert(r * (-(j * d)) - i * (-(k * d)) + j * (r * d) + k * (-(i * d)) == 0)
        by (nonlinear_arith);
    assert(r * (-(k * d)) + i * (-(j * d)) - j * (-(i * d)) + k * (r * d) == 0)
        by (nonlinear_arith);
}

/// A non-zero quaternion multiplied by its inverse is exactly the
/// multiplicative identity `(1, 0, 0, 0)` — exact in rational arithmetic,
/// with no tolerance: the real part is one and the three imaginary parts
/// are zero.
pub proof fn lemma_mul_inverse_identity(a: Quaternion)
    requires
        a.wf(),
        !qv_is_zero(a@),
    ensures
        qv_eq(qv_mul(a@, qv_inverse(a@)), qv_one()),
{
    let r = a@.qr;
    let i = a@.qi;
    let j = a@.qj;
    let k = a@.qk;
    let d = a@.den;
    let n = qv_square_norm_num(a@);
    let inv = qv_inverse(a@);
    assert(inv == (QuatView { qr: r * d, qi: -(i * d), qj: -(j * d), qk: -(k * d), den: n }));
    let m = qv_mul(a@, inv);
    lemma_inverse_numerators(r, i, j, k, d);
    assert(m.qr == d * n && m.den == d * n && m.qi == 0 && m.qj == 0 && m.qk == 0);
    assert(m.qr * 1 == m.qr && 1 * m.den == m.den && m.qi * 1 == m.qi && m.qj * 1 == m.qj
        && m.qk * 1 == m.qk && 0 * m.den == 0) by (nonlinear_arith);
    assert(qv_eq(m, qv_one()));
}

} // verus!
