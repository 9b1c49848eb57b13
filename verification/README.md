# ducklink-shim-codegen

Generates the crate that bridges a DataFission wasm shim (PostGIS, MobilityDB, …)
into DuckDB as native functions, aggregates, types, casts and table functions.

The library computes the text of every file of a bridge crate from a plan: a
plain record of what the shim publishes. Each emitter's contract says what its
file holds, as an equation between the text returned and a spec function of the
plan, and `src/laws/` states what holds of the files together.

| Where | What |
|---|---|
| `src/plan.rs` | the plan and its views |
| `src/names.rs` | crate name, function prefix, environment variable, data types |
| `src/capabilities.rs` | the flags of a spatial index, read from a JSON object |
| `src/text.rs`, `src/order.rs`, `src/signatures.rs`, `src/walk.rs` | text, ordering and walks over a plan |
| `src/templates/` | the fixed text of the emitted files |
| `src/emit/` | one function per emitted file |
| `src/bridge.rs` | the set of files |
| `src/laws/`, `src/occurrence.rs`, `src/lines.rs` | what holds of the emitted files |
| `src/outside.rs` | what is taken from `std` without proof |
| `app/` | the command line: reads the interface database, writes the crate |

```
ducklink-shim-codegen --interface postgis.sqlite --out ./postgis-duckdb-bridge
```
