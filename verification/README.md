# edda_types

Type, mode and effect inference for the bodies of functions, verified with
Verus.

Given the typed tree of a function body, the declarations of its package and
the row of effects that the function declares, the library

- finds or checks the type of every expression and writes it into the tree;
- follows every binding through its states (uninitialised, partly initialised,
  valid, consumed), joins them where paths meet, and checks them where the
  function ends;
- gathers the effects that the body performs and compares them with the
  declared row;
- finds the groups of functions that call each other, and those of them that
  need a measure;
- reports what does not fit, and renders the reports as text.

## Layout

- `src/hir.rs`, `src/syntax.rs`: the trees.
- `src/ty.rs`, `src/effect.rs`, `src/sig.rs`, `src/prim.rs`,
  `src/capability.rs`: types, rows and signatures.
- `src/cx.rs`, `src/package.rs`: declarations and resolved names.
- `src/diag.rs`, `src/render.rs`: reports and their texts.
- `src/infer/`: the judgements. `mode/` holds the states of bindings, `call/`
  calls and constructors, `ctrl/` branches and loops, `comp/` composite
  expressions, `op/` operators, `scc/` recursion; `laws.rs` and `env_laws.rs`
  hold laws that relate them.
- `src/table.rs`: hash tables over `ahash`. Its three wrappers are the only
  code whose contracts are trusted rather than proved.

A judgement is a spec function `.._rule` and an executable function with the
same result. The rules are opaque to the solver, so that each proof unfolds
only the rules that it is about.
