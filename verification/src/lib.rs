//! Quaternion arithmetic over exact rational components.
//!
//! A quaternion is a four-component hypercomplex number `(qr, qi, qj, qk)`
//! over the bases `1, i, j, k` with `i*i == j*j == k*k == -1`, `i*j == k`,
//! `j*k == i`, `k*i == j`. This crate provides the algebraic operation set —
//! construction, addition, the non-commutative Hamilton product, scalar
//! multiplication, conjugation, norm-based inversion, scalar-over-quaternion
//! division, rounding, equality and a canonical string form — with every
//! operation's result pinned down by its contract.
//!
//! Components are exact rationals (an integer numerator over a positive
//! integer denominator), so the algebraic laws hold exactly: `q * q.inverse()`
//! is the identity, not merely close to it. Division by a zero quantity is
//! rejected with [`DegenerateQuaternion`] instead of silently producing a
//! non-finite value.

pub mod display;
pub mod laws;
pub mod quaternion;
pub mod rational;

pub use quaternion::DegenerateQuaternion;
pub use quaternion::Quaternion;
pub use rational::Rat;
