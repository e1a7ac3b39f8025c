# natspec_lint

Checks the natspec documentation of Solidity sources against a set of rules: contracts
need a `@title`, functions document each parameter with `@param`, errors carry no
`@author`, and so on (one rule per kind of definition and requirement).

- `src/` is the library, verified with Verus. `linter::lint` parses a source with
  `solang-parser`, attaches the doc comments that stand before each definition, runs the
  chosen rules (`ruleset::RuleKind`) on every definition and finds the line of each
  violation with `line-col`. Each rule's `check` states exactly what it reports;
  `laws.rs` states properties of the rules taken together.
- `linter::lint` drops the violations on a line that a disable-next-line directive switches
  off: a line holding, after optional whitespace, `// natspec-lint-disable-next-line`,
  optionally followed by rule names separated by commas or whitespace (no name: every rule),
  switches those rules off on the next line (`directives.rs`). This form of the directive
  is the library's own choice; directives written in any other form are not read.
- `visitor.rs` offers `Visitor` and `Visitable` for callers that walk a parsed source
  themselves. Each visit method is described by a spec function of the visitor, and a
  visitor that keeps a default method proves, in a `lemma_*_passes_over` function, that
  passing the definition over meets that spec function; an implementation written outside
  Verus supplies these as plain functions, and nothing checks them.
- `tests/` runs the library on Solidity snippets.
- `app/` offers `lint` with `eyre` errors.
