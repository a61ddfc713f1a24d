# cobre-io

Input and output rules of a hydrothermal dispatch study, written and proved in
Verus: which input rows are accepted and with which error the others are refused,
how a trained policy is stored and read back, and what the tables and dictionaries
of a run contain.

## Layout

- `src/` is the library. Every item in it is verified.
  - `extensions/` checks the optional inputs of hydro plants: production models,
    tailrace curves, energy productivity, reference volumes, evaporation models,
    hyperplanes, scalar parameters.
  - `initial_conditions.rs` and `windowed_history.rs` check the state from which a
    study starts.
  - `flat/` is the FlatBuffers wire format: reading stored values, the layout of a
    buffer under construction, and the builder.
  - `policy/` is the policy checkpoint: its records, the codec, and the rules for a
    set of files. Each writer promises that the reader gives back what was written.
  - `output/` holds the tables and dictionaries that a run writes.
  - `table.rs`, `sorting.rs`, `text.rs`, `date.rs`, `float.rs`, `validation.rs` and
    `error.rs` are what the others share.
- `tests/` runs the library with the outside crates linked.
- `app/` is ordinary Rust around the library: files, Parquet and Arrow, JSON, CSV.

## Conventions

- A floating-point number is a `Float64`, its bit pattern. Its order and its
  finiteness are defined on the bits; no arithmetic is done on it.
- A Parquet file is a list of `Table` values: named columns of cells, each with its
  null flag and its value.
- An input check is stated as a *finding*: the field and the message of the first
  rule that is broken, in the order of the file. `error::reports` ties a result to
  it, so an error is returned exactly where there is a finding, and it says that.
- An error message is a list of pieces; `app/` renders the numbers in it.
- Calls into outside crates stand behind small functions marked
  `#[verifier::external_body]`, in `flat/builder.rs`, `flat/wire.rs` and `date.rs`. The
  comment above each says what it claims.
- A policy artifact's manifest is the binary file `manifest.bin`.
