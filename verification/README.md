# rmap control-window logic

The decisions behind rmap's control windows, written in Verus and proved
against their contracts: operator-facing labels and glossary copy, the
binding-source vocabulary, layer-rail and cue-strip decisions, id and
file-name rules, the FX preset browser's filtering and ordering, the control
panel's selection bookkeeping and Save field, and the integer thumbnail maths.

Layout:

- `src/` — the verified library. Each module states its behaviour over
  `Seq`, `Set`, `Multiset` and spec functions; the public proof functions
  (`lemma_*`) state the properties that hold across calls.
- `tests/` — executable checks on concrete values.
- `app/` — the unverified side: disk persistence (serde), native file
  dialogs (rfd), logging (tracing), egui widgets, and the floating-point
  geometry of the drawing code.
