# rustybench

A benchmark harness for Rust coding by local language models. Task families
are generators: a seed gives a fresh problem instance, its reference
solution, its skeleton and its hidden oracle, all built from the same seed.
An answer is graded in layers (apply, compile, behaviour, constraints) and
each graded unit becomes one JSONL journal line.

## Layout

- `src/` — the verified library (Verus):
  - `rng`, `digest`: the seeded SplitMix64 stream, blake3-derived seeds,
    canaries and unit identities;
  - `scan`, `text`: character-level text handling and rendering;
  - `gen` and `gen/*`: the task families, their registry, the shingle
    distance between instances and distance-aware epoch sampling;
  - `oracle`, `diagnostics`, `grading`: extracting the answer, reading
    libtest summaries and compiler diagnostics, and the grading order and
    record;
  - `vocab`, `records`: identifiers, failure classes, and the plain records
    passed between stages.
- `tests/`: tests of the library.
- `app/`: the command line and everything with side effects or floating
  point: process sandboxing, the model client, the `syn` checks, the
  fractional scores and the journal statistics.
