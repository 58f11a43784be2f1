//! Rewrite rules for integer and boolean expressions, for a sampler that rewrites
//! an expression at random in search of a proof that it is always true or always
//! false.
//!
//! [`rules`] holds the rules, [`condition`] the tests on constants that guard some
//! of them, and [`analysis`] the constant folding and the cost that steer the
//! sampler. [`soundness`], [`words`] and [`folding`] state what holds of these
//! together: folding keeps the value of an expression, and so does a rewrite where
//! [`soundness::keeps_value_at`] says. Most rules do so on all integers; some only
//! where no quotient is rounded across zero, or only on the truth values 0 and 1.
//! [`operators`], [`deciding`] and [`reading`] state what each operation answers on
//! every input: what nodes fold to and cost, when conditions hold, and what texts are
//! read as.

pub mod analysis;
pub mod arith;
pub mod condition;
pub mod deciding;
pub mod expr;
pub mod folding;
pub mod math;
pub mod numeral;
pub mod operators;
pub mod pattern;
pub mod reading;
pub mod rule;
pub mod rule_names;
pub mod rules;
pub mod semantics;
pub mod sexp;
pub mod soundness;
pub mod words;
