//! The canonical string form of a quaternion with integer components:
//! `"{qr}{qi:+}i{qj:+}j{qk:+}k"` — the real part with no forced sign, each
//! imaginary part with an explicit leading `+` or `-` and its basis letter.
//! `(1, 2, 3, 4)` renders as `"1+2i+3j+4k"`, `(1, -2, 3, -4)` as
//! `"1-2i+3j-4k"`.

use vstd::prelude::*;
use vstd::string::StringExecFns;

use crate::quaternion::QuatView;
use crate::quaternion::Quaternion;

verus! {

/// The character for one decimal digit.
pub open spec fn decimal_digit(d: int) -> char
    recommends
        0 <= d <= 9,
{
    if d == 0 {
        '0'
    } else if d == 1 {
        '1'
    } else if d == 2 {
        '2'
    } else if d == 3 {
        '3'
    } else if d == 4 {
        '4'
    } else if d == 5 {
        '5'
    } else if d == 6 {
        '6'
    } else if d == 7 {
        '7'
    } else if d == 8 {
        '8'
    } else {
        '9'
    }
}

/// The decimal digits of a non-negative integer, most significant first,
/// without leading zeros (a single `'0'` for zero).
pub open spec fn decimal_digits(n: int) -> Seq<char>
    recommends
        n >= 0,
    decreases n,
{
    if n <= 9 {
        seq![decimal_digit(n)]
    } else {
        decimal_digits(n / 10) + seq![decimal_digit(n % 10)]
    }
}

/// The plain decimal rendering of an integer: a leading `'-'` for a
/// negative value, no sign otherwise.
pub open spec fn spec_decimal(n: int) -> Seq<char> {
    if n < 0 {
        seq!['-'] + decimal_digits(-n)
    } else {
        decimal_digits(n)
    }
}

/// The decimal rendering with a forced sign: a leading `'+'` for a
/// non-negative value, the plain rendering (with its `'-'`) otherwise.
pub open spec fn spec_decimal_signed(n: int) -> Seq<char> {
    if n >= 0 {
        seq!['+'] + spec_decimal(n)
    } else {
        spec_decimal(n)
    }
}

/// The canonical form of a quaternion with integer components: the real
/// numerator unsigned, each imaginary numerator with a forced sign and its
/// basis letter.
pub open spec fn qv_canonical(q: QuatView) -> Seq<char> {
    spec_decimal(q.qr) + spec_decimal_signed(q.qi) + seq!['i'] + spec_decimal_signed(q.qj)
        + seq!['j'] + spec_decimal_signed(q.qk) + seq!['k']
}

/// Relies on `i64`'s `Display` implementation through `format!`: it writes
/// exactly the decimal digits of `n`, most significant first, with no
/// leading zeros and a leading `-` for a negative value, and nothing else.
#[verifier::external_body]
fn decimal_string(n: i64) -> (r: String)
    ensures
        r@ == spec_decimal(n as int),
{
    format!("{}", n)
}

/// Appends the forced-sign decimal rendering of `n`.
fn push_decimal_signed(s: &mut String, n: i64)
    ensures
        final(s)@ == old(s)@ + spec_decimal_signed(n as int),
{
    proof {
        reveal_strlit("+");
    }
    if n >= 0 {
        s.append("+");
    }
    let t = decimal_string(n);
    s.append(t.as_str());
}

impl Quaternion {
    /// The canonical string form `"{qr}{qi:+}i{qj:+}j{qk:+}k"` of a
    /// quaternion with integer components (denominator one).
    pub fn to_display_string(&self) -> (r: String)
        requires
            self@.den == 1,
        ensures
            r@ == qv_canonical(self@),
    {
        proof {
            reveal_strlit("i");
            reveal_strlit("j");
            reveal_strlit("k");
        }
        let mut s = decimal_string(self.qr);
        push_decimal_signed(&mut s, self.qi);
        s.append("i");
        push_decimal_signed(&mut s, self.qj);
        s.append("j");
        push_decimal_signed(&mut s, self.qk);
        s.append("k");
        s
    }
}

} // verus!
