//! The bridge crate as a whole: which files it is made of.

use vstd::prelude::*;

use crate::emit::aggregates::{aggregates_rs, aggregates_text};
use crate::emit::casts::{casts_rs, casts_text};
use crate::emit::listings::{
    operators_rs, operators_text, preprocessors_rs, preprocessors_text, system_catalog_rs,
    system_catalog_text, window_functions_rs, window_functions_text,
};
use crate::emit::package::{
    cargo_toml, cargo_toml_text, lib_rs, lib_text, readme, readme_text, registry_rs, registry_text,
};
use crate::emit::scalars::{scalars_rs, scalars_text};
use crate::emit::spatial_indexes::{spatial_indexes_rs, spatial_indexes_text};
use crate::emit::table_functions::{table_functions_rs, table_functions_text};
use crate::emit::types::{types_rs, types_text};
use crate::plan::{views, BridgePlan, BridgePlanView};
use crate::text::Text;

verus! {

/// A file of the bridge crate.
#[derive(Debug)]
pub struct BridgeFile {
    /// Its path below the crate directory.
    pub path: String,
    /// What it holds.
    pub contents: String,
}

/// The view of [`BridgeFile`].
pub struct BridgeFileView {
    pub path: Text,
    pub contents: Text,
}

impl View for BridgeFile {
    type V = BridgeFileView;

    open spec fn view(&self) -> BridgeFileView {
        BridgeFileView { path: self.path@, contents: self.contents@ }
    }
}

/// The modules of a bridge crate, in the order its entry point declares them, with
/// their text.
pub open spec fn modules(plan: BridgePlanView) -> Seq<(Text, Text)> {
    seq![
        ("registry"@, registry_text(plan)),
        ("scalars"@, scalars_text(plan)),
        ("aggregates"@, aggregates_text(plan)),
        ("table_functions"@, table_functions_text(plan)),
        ("window_functions"@, window_functions_text(plan)),
        ("types"@, types_text(plan)),
        ("operators"@, operators_text(plan)),
        ("casts"@, casts_text(plan)),
        ("preprocessors"@, preprocessors_text(plan)),
        ("system_catalog"@, system_catalog_text(plan)),
        ("spatial_indexes"@, spatial_indexes_text(plan)),
    ]
}

/// The path of the module `name`.
pub open spec fn path_of_module(name: Text) -> Text {
    "src/"@ + name + ".rs"@
}

/// The file of the module `name`.
pub open spec fn module_file(name: Text, contents: Text) -> BridgeFileView {
    BridgeFileView { path: path_of_module(name), contents }
}

/// The files of a bridge crate: the manifest, the readme, the entry point and one
/// file per module.
pub open spec fn files(plan: BridgePlanView) -> Seq<BridgeFileView> {
    seq![
        BridgeFileView { path: "Cargo.toml"@, contents: cargo_toml_text(plan) },
        BridgeFileView { path: "README.md"@, contents: readme_text(plan) },
        module_file("lib"@, lib_text(plan)),
    ] + Seq::new(
        modules(plan).len(),
        |i: int| module_file(modules(plan)[i].0, modules(plan)[i].1),
    )
}

/// The file of the module `name`.
fn make_module(name: &str, contents: String) -> (r: BridgeFile)
    ensures
        r@ == module_file(name@, contents@),
{
    let mut path = "src/".to_owned();
    path.append(name);
    path.append(".rs");
    BridgeFile { path, contents }
}

/// The files of the bridge crate for `plan`.
pub fn bridge_files(plan: &BridgePlan) -> (r: Vec<BridgeFile>)
    ensures
        views(r@) == files(plan@),
{
    let mut out: Vec<BridgeFile> = Vec::new();
    out.push(BridgeFile { path: "Cargo.toml".to_owned(), contents: cargo_toml(plan) });
    out.push(BridgeFile { path: "README.md".to_owned(), contents: readme(plan) });
    out.push(make_module("lib", lib_rs(plan)));
    out.push(make_module("registry", registry_rs(plan)));
    out.push(make_module("scalars", scalars_rs(plan)));
    out.push(make_module("aggregates", aggregates_rs(plan)));
    out.push(make_module("table_functions", table_functions_rs(plan)));
    out.push(make_module("window_functions", window_functions_rs(plan)));
    out.push(make_module("types", types_rs(plan)));
    out.push(make_module("operators", operators_rs(plan)));
    out.push(make_module("casts", casts_rs(plan)));
    out.push(make_module("preprocessors", preprocessors_rs(plan)));
    out.push(make_module("system_catalog", system_catalog_rs(plan)));
    out.push(make_module("spatial_indexes", spatial_indexes_rs(plan)));
    assert(views(out@) =~= files(plan@));
    out
}

} // verus!
