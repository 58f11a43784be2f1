//! Division that rounds toward zero, and what the operators compute.

use vstd::arithmetic::div_mod::{
    lemma_div_is_ordered, lemma_div_pos_is_pos, lemma_fundamental_div_mod,
};
use vstd::prelude::*;

use crate::math::Op;

verus! {

/// The quotient of `x` by `d`, rounded toward zero.
pub open spec fn quot(x: int, d: int) -> int {
    if x >= 0 {
        if d > 0 {
            x / d
        } else {
            -(x / (-d))
        }
    } else {
        if d > 0 {
            -((-x) / d)
        } else {
            (-x) / (-d)
        }
    }
}

/// What is left of `x` after division by `d`; it has the sign of `x`.
pub open spec fn rem(x: int, d: int) -> int {
    let abs_d = if d > 0 {
        d
    } else {
        -d
    };
    if x >= 0 {
        x % abs_d
    } else {
        -((-x) % abs_d)
    }
}

pub open spec fn abs(x: int) -> int {
    if x < 0 {
        -x
    } else {
        x
    }
}

pub open spec fn max(x: int, y: int) -> int {
    if x < y {
        y
    } else {
        x
    }
}

pub open spec fn min(x: int, y: int) -> int {
    if y < x {
        y
    } else {
        x
    }
}

/// One for true and zero for false.
pub open spec fn truth(b: bool) -> int {
    if b {
        1
    } else {
        0
    }
}

/// `x` and `y` lie on the same side of zero, or one of them is zero.
pub open spec fn same_side(x: int, y: int) -> bool {
    !(x < 0 && y > 0) && !(x > 0 && y < 0)
}

/// What a binary operator computes on the integers; `None` where it divides by
/// zero. Comparisons and connectives compute one or zero. A conjunction holds
/// where neither side is zero, and a disjunction where one side is one.
pub open spec fn apply(op: Op, x: int, y: int) -> Option<int> {
    match op {
        Op::Add => Some(x + y),
        Op::Sub => Some(x - y),
        Op::Mul => Some(x * y),
        Op::Div => if y == 0 {
            None
        } else {
            Some(quot(x, y))
        },
        Op::Mod => if y == 0 {
            None
        } else {
            Some(rem(x, y))
        },
        Op::Max => Some(max(x, y)),
        Op::Min => Some(min(x, y)),
        Op::Lt => Some(truth(x < y)),
        Op::Gt => Some(truth(x > y)),
        Op::Let => Some(truth(x <= y)),
        Op::Get => Some(truth(x >= y)),
        Op::Eq => Some(truth(x == y)),
        Op::IEq => Some(truth(x != y)),
        Op::And => Some(truth(x != 0 && y != 0)),
        Op::Or => Some(truth(x == 1 || y == 1)),
    }
}

/// What negation computes: one for zero, and zero for everything else.
pub open spec fn negate(x: int) -> int {
    truth(x == 0)
}

/// `x` is a value of 64 bits.
pub open spec fn fits(x: int) -> bool {
    i64::MIN <= x <= i64::MAX
}

/// The value of 64 bits that `x` wraps around to.
pub open spec fn wrap(x: int) -> i64 {
    vstd::wrapping::i64_specs::signed_crop(x)
}

/// What a binary operator computes on 64-bit values: the value on the integers,
/// wrapped around.
pub open spec fn apply64(op: Op, x: i64, y: i64) -> Option<i64> {
    match apply(op, x as int, y as int) {
        Some(v) => Some(wrap(v)),
        None => None,
    }
}

/// The machine computes the quotient or remainder without overflow.
pub open spec fn divides_safely(op: Op, x: i64, y: i64) -> bool {
    (op == Op::Div || op == Op::Mod) ==> !(x == i64::MIN && y == -1)
}

/// A value that fits is not changed by wrapping.
pub proof fn lemma_wrap(x: int)
    requires
        fits(x),
    ensures
        wrap(x) == x,
{
    if x < 0 {
        assert(x % 0x1_0000_0000_0000_0000 == x + 0x1_0000_0000_0000_0000) by (nonlinear_arith)
            requires
                -0x1_0000_0000_0000_0000 < x < 0,
        ;
    } else {
        assert(x % 0x1_0000_0000_0000_0000 == x) by (nonlinear_arith)
            requires
                0 <= x < 0x1_0000_0000_0000_0000,
        ;
    }
}

/// Quotient and remainder make up the dividend; the remainder is smaller than
/// the divisor and has the sign of the dividend.
pub proof fn lemma_quot_rem(x: int, d: int)
    requires
        d != 0,
    ensures
        x == quot(x, d) * d + rem(x, d),
        abs(rem(x, d)) < abs(d),
        x >= 0 ==> rem(x, d) >= 0,
        x <= 0 ==> rem(x, d) <= 0,
{
    let n = abs(x);
    let m = abs(d);
    lemma_fundamental_div_mod(n, m);
    let q = n / m;
    let r = n % m;
    assert(0 <= r < m);
    assert(m * q == q * m) by (nonlinear_arith);
    assert((-q) * m == -(q * m)) by (nonlinear_arith);
    assert((-q) * (-m) == q * m) by (nonlinear_arith);
    assert(q * (-m) == -(q * m)) by (nonlinear_arith);
}

/// Quotient and remainder are the only numbers with those properties.
pub proof fn lemma_quot_rem_unique(x: int, d: int, q: int, r: int)
    requires
        d != 0,
        x == q * d + r,
        abs(r) < abs(d),
        x >= 0 ==> r >= 0,
        x <= 0 ==> r <= 0,
    ensures
        quot(x, d) == q,
        rem(x, d) == r,
{
    lemma_quot_rem(x, d);
    let q1 = quot(x, d);
    let r1 = rem(x, d);
    assert((q1 - q) * d == r - r1) by (nonlinear_arith)
        requires
            x == q * d + r,
            x == q1 * d + r1,
    ;
    assert(abs(r - r1) < abs(d));
    assert(q1 == q) by (nonlinear_arith)
        requires
            (q1 - q) * d == r - r1,
            -abs(d) < r - r1 < abs(d),
            d != 0,
    ;
}

/// A product with minus one changes the sign.
pub proof fn lemma_minus_one(x: int)
    ensures
        -1 * x == -x,
        x * -1 == -x,
{
}

/// A multiple of the divisor divides without remainder.
pub proof fn lemma_quot_of_multiple(k: int, d: int)
    requires
        d != 0,
    ensures
        quot(k * d, d) == k,
        rem(k * d, d) == 0,
{
    lemma_quot_rem_unique(k * d, d, k, 0);
}

/// Adding a multiple of the divisor moves the quotient by that multiple, and keeps
/// the remainder, exactly where there is no remainder or the dividend does not
/// cross zero.
pub proof fn lemma_quot_rem_shift(x: int, d: int, k: int)
    requires
        d != 0,
    ensures
        (quot(x + k * d, d) == quot(x, d) + k) == (rem(x, d) == 0 || same_side(x, x + k * d)),
        (rem(x + k * d, d) == rem(x, d)) == (rem(x, d) == 0 || same_side(x, x + k * d)),
{
    lemma_quot_rem(x, d);
    lemma_quot_rem(x + k * d, d);
    let q = quot(x, d);
    let r = rem(x, d);
    let q1 = quot(x + k * d, d);
    let r1 = rem(x + k * d, d);
    assert(x + k * d == (q + k) * d + r) by (nonlinear_arith)
        requires
            x == q * d + r,
    ;
    if r == 0 || same_side(x, x + k * d) {
        if x + k * d == 0 {
            assert(r == 0) by (nonlinear_arith)
                requires
                    (q + k) * d + r == 0,
                    -abs(d) < r < abs(d),
                    d != 0,
            ;
        }
        lemma_quot_rem_unique(x + k * d, d, q + k, r);
    } else if q1 == q + k {
        assert(r1 == r);
    } else if r1 == r {
        assert(r1 == 0);
    }
}

/// A sign moves out of the quotient, and that of the dividend out of the
/// remainder.
pub proof fn lemma_quot_rem_negate(x: int, d: int)
    requires
        d != 0,
    ensures
        quot(-x, d) == -quot(x, d),
        quot(x, -d) == -quot(x, d),
        rem(-x, d) == -rem(x, d),
{
    lemma_quot_rem(x, d);
    let q = quot(x, d);
    let r = rem(x, d);
    assert(-x == (-q) * d + (-r)) by (nonlinear_arith)
        requires
            x == q * d + r,
    ;
    assert(x == (-q) * (-d) + r) by (nonlinear_arith)
        requires
            x == q * d + r,
    ;
    lemma_quot_rem_unique(-x, d, -q, -r);
    lemma_quot_rem_unique(x, -d, -q, r);
}

/// A common factor cancels in a quotient.
pub proof fn lemma_quot_scale(x: int, d: int, k: int)
    requires
        d != 0,
        k > 0,
    ensures
        quot(x * k, d * k) == quot(x, d),
{
    lemma_quot_rem(x, d);
    let q = quot(x, d);
    let r = rem(x, d);
    assert(x * k == q * (d * k) + r * k) by (nonlinear_arith)
        requires
            x == q * d + r,
    ;
    assert(d * k != 0 && abs(r * k) < abs(d * k)) by (nonlinear_arith)
        requires
            abs(r) < abs(d),
            d != 0,
            k > 0,
    ;
    assert((x * k >= 0 ==> r * k >= 0) && (x * k <= 0 ==> r * k <= 0)) by (nonlinear_arith)
        requires
            x >= 0 ==> r >= 0,
            x <= 0 ==> r <= 0,
            k > 0,
    ;
    lemma_quot_rem_unique(x * k, d * k, q, r * k);
}

/// A multiple of a positive number is at most `x` where the factor is at most the
/// quotient, or less than it where the remainder is negative.
pub proof fn lemma_multiple_at_most(k: int, x: int, d: int)
    requires
        d > 0,
    ensures
        (k * d <= x) == if rem(x, d) < 0 {
            k < quot(x, d)
        } else {
            k <= quot(x, d)
        },
{
    lemma_quot_rem(x, d);
    let q = quot(x, d);
    let r = rem(x, d);
    if k <= q - 1 {
        assert(k * d <= q * d + r) by (nonlinear_arith)
            requires
                k <= q - 1,
                -d < r,
                d > 0,
        ;
    } else if k >= q + 1 {
        assert(k * d > q * d + r) by (nonlinear_arith)
            requires
                k >= q + 1,
                r < d,
                d > 0,
        ;
    }
}

/// Division by a positive number keeps the order.
pub proof fn lemma_quot_keeps_order(x: int, y: int, d: int)
    requires
        d > 0,
        x <= y,
    ensures
        quot(x, d) <= quot(y, d),
{
    if x >= 0 {
        lemma_div_is_ordered(x, y, d);
    } else if y < 0 {
        lemma_div_is_ordered(-y, -x, d);
    } else {
        lemma_div_pos_is_pos(-x, d);
        lemma_div_pos_is_pos(y, d);
    }
}

} // verus!
