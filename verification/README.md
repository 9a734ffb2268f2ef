# ctest_next

Generation of test suites that compare the foreign-interface definitions of a Rust crate with the
C headers they stand for.

- `src/generator.rs`: `TestGenerator`, the builder, with the filtering of skipped items and the
  mapping of names.
- `src/rules.rs`: the decisions that callers supply as closures, each tied to one kind of item.
- `src/skipping.rs`, `src/naming.rs`: how a list of rules comes to an answer.
- `src/generation.rs`: the course of a run, one action and one event at a time.
- `src/laws.rs`: what holds of the library as a whole.
- `src/outside.rs`: what is taken on trust from std and `syn`.
- `app/`: the run against the file system.
