# stochastic_rules

Rewrite rules for integer and boolean expressions, with the constant folding and
the cost that steer a sampler which rewrites expressions at random. The library is
written in Verus.

* `src/rules.rs` and `src/rules/` hold the rules, set by set. Each rule is stated as
  a pair of expressions with a condition, and each set's function returns exactly
  its rules.
* `src/rule_names.rs` states that no two rules have the same name.
* `src/soundness.rs` states where rewriting keeps the value of an expression. Some
  rules do so only where no quotient is rounded across zero, or only on the truth
  values 0 and 1; `keeps_value_at` says where.
* `src/words.rs` states what rewriting does to 64-bit words that wrap around.
* `src/analysis.rs` folds constants and computes costs, and `src/folding.rs` holds
  the laws of both.
* `src/condition.rs` holds the conditions of rules.
* `src/math.rs`, `src/pattern.rs`, `src/sexp.rs`, `src/expr.rs` and
  `src/numeral.rs` hold the language and how patterns are read from text. The text
  is parsed by `egg`.
* `app/` is ordinary Rust around the library: the language as `egg` knows it, the
  sampler's view of analysis and rules, and result files.

Arithmetic is on 64-bit words. Addition, subtraction and multiplication wrap
around, and division rounds toward zero.
