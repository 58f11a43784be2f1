//! What expressions evaluate to: on the integers, and in 64-bit words as the
//! constant folder computes.

use vstd::prelude::*;

use crate::arith::{apply, apply64, fits, lemma_wrap, negate};
use crate::expr::Expr;

verus! {

/// The value of an expression on the integers, where `env` gives the value of
/// each variable and symbol; `None` where it divides by zero.
pub open spec fn value(e: Expr, env: spec_fn(Seq<char>) -> int) -> Option<int>
    decreases e,
{
    match e {
        Expr::Var(v) => Some(env(v)),
        Expr::Const(c) => Some(c as int),
        Expr::Sym(s) => Some(env(s)),
        Expr::Not(x) => match value(*x, env) {
            Some(x) => Some(negate(x)),
            None => None,
        },
        Expr::Bin(op, x, y) => match (value(*x, env), value(*y, env)) {
            (Some(x), Some(y)) => apply(op, x, y),
            _ => None,
        },
    }
}

/// The value of an expression in 64-bit words that wrap around, where `env`
/// gives the value of each variable and symbol that has one; `None` where a
/// value is missing or it divides by zero.
pub open spec fn value64(e: Expr, env: spec_fn(Seq<char>) -> Option<i64>) -> Option<i64>
    decreases e,
{
    match e {
        Expr::Var(v) => env(v),
        Expr::Const(c) => Some(c),
        Expr::Sym(s) => env(s),
        Expr::Not(x) => match value64(*x, env) {
            Some(x) => Some(negate(x as int) as i64),
            None => None,
        },
        Expr::Bin(op, x, y) => match (value64(*x, env), value64(*y, env)) {
            (Some(x), Some(y)) => apply64(op, x, y),
            _ => None,
        },
    }
}

/// No variable or symbol has a value.
pub open spec fn nothing_known() -> spec_fn(Seq<char>) -> Option<i64> {
    |name: Seq<char>| None
}

/// Every variable and symbol has the value that `env` gives.
pub open spec fn all_known(env: spec_fn(Seq<char>) -> i64) -> spec_fn(Seq<char>) -> Option<i64> {
    |name: Seq<char>| Some(env(name))
}

/// The values that `env` gives, as integers.
pub open spec fn as_ints(env: spec_fn(Seq<char>) -> i64) -> spec_fn(Seq<char>) -> int {
    |name: Seq<char>| env(name) as int
}

/// Evaluating the expression on the integers never leaves the range of 64-bit
/// words.
pub open spec fn stays_in_range(e: Expr, env: spec_fn(Seq<char>) -> int) -> bool
    decreases e,
{
    &&& value(e, env) matches Some(v) ==> fits(v)
    &&& match e {
        Expr::Not(x) => stays_in_range(*x, env),
        Expr::Bin(_, x, y) => stays_in_range(*x, env) && stays_in_range(*y, env),
        _ => true,
    }
}

/// Where evaluation stays in range, 64-bit words compute what the integers do.
pub proof fn law_in_range_values_agree(e: Expr, env: spec_fn(Seq<char>) -> i64)
    requires
        stays_in_range(e, as_ints(env)),
    ensures
        match value(e, as_ints(env)) {
            Some(v) => value64(e, all_known(env)) == Some(v as i64),
            None => value64(e, all_known(env)) is None,
        },
    decreases e,
{
    reveal_with_fuel(stays_in_range, 2);
    match e {
        Expr::Not(x) => {
            law_in_range_values_agree(*x, env);
        },
        Expr::Bin(_, x, y) => {
            law_in_range_values_agree(*x, env);
            law_in_range_values_agree(*y, env);
            if let Some(v) = value(e, as_ints(env)) {
                lemma_wrap(v);
            }
        },
        _ => {},
    }
}

/// A value that needs no variable or symbol is the value whatever these are.
pub proof fn law_closed_value_holds_everywhere(e: Expr, env: spec_fn(Seq<char>) -> Option<i64>)
    requires
        value64(e, nothing_known()) is Some,
    ensures
        value64(e, env) == value64(e, nothing_known()),
    decreases e,
{
    match e {
        Expr::Not(x) => {
            law_closed_value_holds_everywhere(*x, env);
        },
        Expr::Bin(_, x, y) => {
            law_closed_value_holds_everywhere(*x, env);
            law_closed_value_holds_everywhere(*y, env);
        },
        _ => {},
    }
}

} // verus!
