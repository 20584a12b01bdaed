# rumpsteak_predicate

Predicates over the current values of named variables, as used to guard the
steps of a session type, with machine-checked contracts and laws.

- `src/predicate.rs`: the `Predicate` trait (a truth value `holds` on a
  valuation, decided by `check` on a `HashMap`) and the predicates
  `Tautology`, `LTnVar`, `GTnVar`, `EqualVar`, `LTnConst`, `GTnConst`,
  `EqualConst`, `LTnThree`, `GTnThree`.
- `src/names.rs`: `VarName`, the key types (`char`, `String`, integers) by
  which variables are named, with their lookup in a `HashMap`.
- `src/formula.rs`: `LTn`, a comparison between variables named by a
  `VarName`, and `Formula`, read from text such as `x < y`.
- `src/grammar.rs`: the text form of a formula, stated as a layout of tokens,
  and the scanners that find it.
- `src/laws.rs`: properties relating the predicates and the reading of text.
