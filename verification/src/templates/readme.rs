//! Text of the bridge readme that follows the surface table.

use vstd::prelude::*;

verus! {

/// Bridge readme: from the table to the built file.
pub const README_1: &'static str = r##"
## Build

```sh
cargo build --release
```

The build needs sibling checkouts of the path-dep'd workspace
crates (`datafission-df-plugin-loader`, `datafission-df-plugin-api`,
`datafission-functions`) at `../datafission/crates/`.

## Package as a loadable extension

DuckDB only loads files ending in `.duckdb_extension` that carry
a metadata footer matching the target DuckDB version. The
[`extension-template-rs`](https://github.com/duckdb/extension-template-rs)
project ships a helper script for this:

```sh
python3 path/to/append_extension_metadata.py \
  -l target/release/"##;

/// Bridge readme: from the built file to the library name.
pub const README_2: &'static str = r##" \
  -n "##;

/// Bridge readme: from the library name to the packaged file.
pub const README_3: &'static str = r##" \
  -p osx_arm64 \
  -dv v1.2.0 \
  -ev v0.1.0 \
  -o "##;

/// Bridge readme: from the packaged file to `shim_env`.
pub const README_4: &'static str = r##" \
  --abi-type C_STRUCT
```

Adjust `-p` to your platform (`linux_amd64`, `linux_arm64`,
`osx_amd64`, …). Pin `-dv` to the DuckDB version you target.

## Load + use

The bridge needs the composed shim wasm at runtime; set
`"##;

/// Bridge readme: from `shim_env` to `shim_env`.
pub const README_5: &'static str = r##"` before `LOAD`:

```sql
-- Need DuckDB CLI with -unsigned since we don't sign the bridge.
"##;

/// Bridge readme: from `primary` to the packaged file.
pub const README_6: &'static str = r##"-composed.wasm duckdb -unsigned
> LOAD '/path/to/"##;

/// Bridge readme: from the packaged file to `primary`.
pub const README_7: &'static str = r##"';
```

## Regen

When the upstream shim's SQL surface changes:

```sh
cd ~/git/ducklink-shim-codegen
cargo run --release -- \
  --interface /path/to/"##;

/// Bridge readme: from `primary` to `primary`.
pub const README_8: &'static str = r##"-interface.sqlite \
  --out ~/git/"##;

/// Bridge readme: from `primary` to the format command.
pub const README_9: &'static str = r##"-duckdb-bridge
```

The codegen pipes every emitted `.rs` through
`rustfmt --edition 2021`, so the resulting crate is
`"##;

/// Bridge readme: from the format command to the entry symbol.
pub const README_10: &'static str = r##"`-clean by
construction.

## Architecture

- Scalars: dispatched through duckdb-rs's `VScalar` trait
  (vectorised; one chunk per invoke).
- Aggregates + custom types + identity casts: raw
  `libduckdb-sys` FFI — duckdb-rs doesn't surface these in its
  safe wrapper.
- Entrypoint: hand-rolled `extern "C"` symbol named
  "##;

/// Bridge readme: from the entry symbol to the end of the file.
pub const README_11: &'static str = r##" (NOT the
  `#[duckdb_entrypoint_c_api]` macro) so we can pull both a raw
  `duckdb_connection` AND a `Connection` wrapper.
- Custom types like `GEOMETRY` / `STBOX` register as BLOB
  aliases; identity casts in both directions let
  `CREATE TABLE t (g GEOMETRY); INSERT INTO t VALUES
  (st_geomfromtext(...))` round-trip.

## License

Apache-2.0. Generated source so the same license as the
codegen.
"##;

} // verus!
