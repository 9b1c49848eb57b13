//! What holds of the bridge crate as a whole.

use vstd::prelude::*;

use crate::bridge::{files, module_file, modules, path_of_module};
use crate::emit::aggregates::aggregates_text;
use crate::emit::casts::casts_text;
use crate::emit::listings::{
    operators_text, preprocessors_text, system_catalog_text, window_functions_text,
};
use crate::emit::package::{
    bridge_name, cargo_toml_text, entry_declaration, entry_point, env_lookup, env_setting,
    extension_summaries, extension_summary, format_command, lib_text, library_name, manifest,
    name_key, package_name, packaged_name, readme_build, readme_head, readme_load, readme_tail,
    readme_text, readme_upkeep, registry_text, surface_row, surface_rows, symbol_mention,
};
use crate::emit::scalars::scalars_text;
use crate::emit::spatial_indexes::spatial_indexes_text;
use crate::emit::table_functions::table_functions_text;
use crate::emit::types::types_text;
use crate::names::{env_var, primary_name};
use crate::occurrence::{
    lemma_joined_occurs, lemma_occurs_append, lemma_occurs_prepend, lemma_occurs_self,
    lemma_part_occurs,
};
use crate::plan::BridgePlanView;
use crate::templates::cargo::{CARGO_1, CARGO_2, CARGO_3, CARGO_4};
use crate::templates::entry::{
    ENTRY_1, ENTRY_2, ENTRY_3, ENTRY_4, ENTRY_5, ENTRY_6, ENTRY_MODULES,
};
use crate::templates::header::HEADER;
use crate::templates::readme::{
    README_10, README_11, README_5, README_6, README_7, README_8, README_9,
};
use crate::templates::registry::{REGISTRY_1, REGISTRY_2, REGISTRY_3, REGISTRY_4};
use crate::text::{join, lemma_flatten_take, occurs_in, Text};

verus! {

/// Every module of the bridge, and its entry point, starts with the generated
/// header.
pub proof fn law_modules_start_with_header(plan: BridgePlanView)
    ensures
        HEADER@.is_prefix_of(lib_text(plan)),
        forall|i: int|
            0 <= i < modules(plan).len() ==> HEADER@.is_prefix_of((#[trigger] modules(plan)[i]).1),
{
    lemma_lib_header(plan);
    lemma_registry_header(plan);
    lemma_scalars_header(plan);
    lemma_aggregates_header(plan);
    lemma_table_functions_header(plan);
    lemma_window_functions_header(plan);
    lemma_types_header(plan);
    lemma_operators_header(plan);
    lemma_casts_header(plan);
    lemma_preprocessors_header(plan);
    lemma_system_catalog_header(plan);
    lemma_spatial_indexes_header(plan);
}

proof fn lemma_lib_header(plan: BridgePlanView)
    ensures
        HEADER@.is_prefix_of(lib_text(plan)),
{
}

proof fn lemma_registry_header(plan: BridgePlanView)
    ensures
        HEADER@.is_prefix_of(registry_text(plan)),
{
}

proof fn lemma_scalars_header(plan: BridgePlanView)
    ensures
        HEADER@.is_prefix_of(scalars_text(plan)),
{
}

proof fn lemma_aggregates_header(plan: BridgePlanView)
    ensures
        HEADER@.is_prefix_of(aggregates_text(plan)),
{
}

proof fn lemma_table_functions_header(plan: BridgePlanView)
    ensures
        HEADER@.is_prefix_of(table_functions_text(plan)),
{
}

proof fn lemma_window_functions_header(plan: BridgePlanView)
    ensures
        HEADER@.is_prefix_of(window_functions_text(plan)),
{
}

proof fn lemma_types_header(plan: BridgePlanView)
    ensures
        HEADER@.is_prefix_of(types_text(plan)),
{
}

proof fn lemma_operators_header(plan: BridgePlanView)
    ensures
        HEADER@.is_prefix_of(operators_text(plan)),
{
}

proof fn lemma_casts_header(plan: BridgePlanView)
    ensures
        HEADER@.is_prefix_of(casts_text(plan)),
{
}

proof fn lemma_preprocessors_header(plan: BridgePlanView)
    ensures
        HEADER@.is_prefix_of(preprocessors_text(plan)),
{
}

proof fn lemma_system_catalog_header(plan: BridgePlanView)
    ensures
        HEADER@.is_prefix_of(system_catalog_text(plan)),
{
}

proof fn lemma_spatial_indexes_header(plan: BridgePlanView)
    ensures
        HEADER@.is_prefix_of(spatial_indexes_text(plan)),
{
}

/// The line that declares the module `name`.
pub open spec fn module_line(name: Text) -> Text {
    "pub mod "@ + name + ";\n"@
}

/// The entry point declares exactly the modules that have a file.
pub proof fn law_entry_point_declares_every_module(plan: BridgePlanView)
    ensures
        ENTRY_MODULES@ == Seq::new(
            modules(plan).len(),
            |i: int| module_line(modules(plan)[i].0),
        ).flatten(),
        occurs_in(ENTRY_MODULES@, lib_text(plan)),
        forall|i: int|
            0 <= i < modules(plan).len() ==> files(plan).contains(
                module_file((#[trigger] modules(plan)[i]).0, modules(plan)[i].1),
            ),
{
    lemma_module_lines(plan);
    lemma_modules_in_entry_point(bridge_name(plan), env_var(plan));
    lemma_in_entry_point(plan, ENTRY_MODULES@);
    lemma_modules_have_files(plan);
}

proof fn lemma_modules_have_files(plan: BridgePlanView)
    ensures
        forall|i: int|
            0 <= i < modules(plan).len() ==> files(plan).contains(
                module_file((#[trigger] modules(plan)[i]).0, modules(plan)[i].1),
            ),
{
    let ms = modules(plan);
    let fs = files(plan);
    assert forall|i: int| 0 <= i < ms.len() implies fs.contains(
        module_file((#[trigger] ms[i]).0, ms[i].1),
    ) by {
        assert(fs[i + 3] == module_file(ms[i].0, ms[i].1));
    }
}

proof fn lemma_modules_in_entry_point(name: Text, env: Text)
    ensures
        occurs_in(ENTRY_MODULES@, entry_point(name, env)),
{
    let x = ENTRY_MODULES@;
    let library = library_name(name);
    let entry = entry_declaration(name);
    let before = HEADER@ + ENTRY_1@ + library + ENTRY_2@ + library + ENTRY_3@;
    lemma_occurs_self(x);
    lemma_occurs_prepend(x, before, x);
    let t = before + x;
    lemma_occurs_append(x, t, ENTRY_4@);
    lemma_occurs_append(x, t + ENTRY_4@, env);
    lemma_occurs_append(x, t + ENTRY_4@ + env, ENTRY_5@);
    lemma_occurs_append(x, t + ENTRY_4@ + env + ENTRY_5@, entry);
    lemma_occurs_append(x, t + ENTRY_4@ + env + ENTRY_5@ + entry, ENTRY_6@);
}

/// What occurs in the entry point proper occurs in the file.
proof fn lemma_in_entry_point(plan: BridgePlanView, x: Text)
    requires
        occurs_in(x, entry_point(bridge_name(plan), env_var(plan))),
    ensures
        occurs_in(x, lib_text(plan)),
{
    let t = entry_point(bridge_name(plan), env_var(plan));
    let heading = "// Extensions loaded by this bridge:\n//\n"@;
    let list = join(extension_summaries(plan), "\n"@);
    lemma_occurs_append(x, t, heading);
    lemma_occurs_append(x, t + heading, list);
    lemma_occurs_append(x, t + heading + list, "\n"@);
}

proof fn lemma_module_lines(plan: BridgePlanView)
    ensures
        ENTRY_MODULES@ == Seq::new(
            modules(plan).len(),
            |i: int| module_line(modules(plan)[i].0),
        ).flatten(),
{
    let lines = Seq::new(modules(plan).len(), |i: int| module_line(modules(plan)[i].0));
    assert(lines =~= seq![
        module_line("registry"@),
        module_line("scalars"@),
        module_line("aggregates"@),
        module_line("table_functions"@),
        module_line("window_functions"@),
        module_line("types"@),
        module_line("operators"@),
        module_line("casts"@),
        module_line("preprocessors"@),
        module_line("system_catalog"@),
        module_line("spatial_indexes"@),
    ]);
    lemma_module_text();
    let m = ENTRY_MODULES@;
    assert(lines.take(0).flatten() =~= m.take(0));
    lemma_next_line(m, lines, 0, 0, 18);
    lemma_next_line(m, lines, 1, 18, 35);
    lemma_next_line(m, lines, 2, 35, 55);
    lemma_next_line(m, lines, 3, 55, 80);
    lemma_next_line(m, lines, 4, 80, 106);
    lemma_next_line(m, lines, 5, 106, 121);
    lemma_next_line(m, lines, 6, 121, 140);
    lemma_next_line(m, lines, 7, 140, 155);
    lemma_next_line(m, lines, 8, 155, 178);
    lemma_next_line(m, lines, 9, 178, 202);
    lemma_next_line(m, lines, 10, 202, 227);
    assert(lines.take(11) =~= lines);
    assert(m.take(227) =~= m);
}

/// One more line of `m`.
proof fn lemma_next_line(m: Text, lines: Seq<Text>, k: int, from: int, to: int)
    requires
        0 <= k < lines.len(),
        0 <= from <= to <= m.len(),
        lines.take(k).flatten() == m.take(from),
        m.subrange(from, to) == lines[k],
    ensures
        lines.take(k + 1).flatten() == m.take(to),
{
    lemma_flatten_take(lines, k);
    assert(m.take(to) =~= m.take(from) + m.subrange(from, to));
}

/// The lines of the module declarations.
proof fn lemma_module_text()
    ensures
        ENTRY_MODULES@.len() == 227,
        ENTRY_MODULES@.subrange(0, 18) == module_line("registry"@),
        ENTRY_MODULES@.subrange(18, 35) == module_line("scalars"@),
        ENTRY_MODULES@.subrange(35, 55) == module_line("aggregates"@),
        ENTRY_MODULES@.subrange(55, 80) == module_line("table_functions"@),
        ENTRY_MODULES@.subrange(80, 106) == module_line("window_functions"@),
        ENTRY_MODULES@.subrange(106, 121) == module_line("types"@),
        ENTRY_MODULES@.subrange(121, 140) == module_line("operators"@),
        ENTRY_MODULES@.subrange(140, 155) == module_line("casts"@),
        ENTRY_MODULES@.subrange(155, 178) == module_line("preprocessors"@),
        ENTRY_MODULES@.subrange(178, 202) == module_line("system_catalog"@),
        ENTRY_MODULES@.subrange(202, 227) == module_line("spatial_indexes"@),
{
    reveal_strlit(
        "pub mod registry;\npub mod scalars;\npub mod aggregates;\npub mod table_functions;\npub mod window_functions;\npub mod types;\npub mod operators;\npub mod casts;\npub mod preprocessors;\npub mod system_catalog;\npub mod spatial_indexes;\n",
    );
    reveal_strlit("pub mod ");
    reveal_strlit(";\n");
    reveal_strlit("registry");
    reveal_strlit("scalars");
    reveal_strlit("aggregates");
    reveal_strlit("table_functions");
    reveal_strlit("window_functions");
    reveal_strlit("types");
    reveal_strlit("operators");
    reveal_strlit("casts");
    reveal_strlit("preprocessors");
    reveal_strlit("system_catalog");
    reveal_strlit("spatial_indexes");
    assert(ENTRY_MODULES@.subrange(0, 18) =~= module_line("registry"@));
    assert(ENTRY_MODULES@.subrange(18, 35) =~= module_line("scalars"@));
    assert(ENTRY_MODULES@.subrange(35, 55) =~= module_line("aggregates"@));
    assert(ENTRY_MODULES@.subrange(55, 80) =~= module_line("table_functions"@));
    assert(ENTRY_MODULES@.subrange(80, 106) =~= module_line("window_functions"@));
    assert(ENTRY_MODULES@.subrange(106, 121) =~= module_line("types"@));
    assert(ENTRY_MODULES@.subrange(121, 140) =~= module_line("operators"@));
    assert(ENTRY_MODULES@.subrange(140, 155) =~= module_line("casts"@));
    assert(ENTRY_MODULES@.subrange(155, 178) =~= module_line("preprocessors"@));
    assert(ENTRY_MODULES@.subrange(178, 202) =~= module_line("system_catalog"@));
    assert(ENTRY_MODULES@.subrange(202, 227) =~= module_line("spatial_indexes"@));
}

/// No two files have the same path.
pub proof fn law_paths_are_distinct(plan: BridgePlanView)
    ensures
        forall|i: int, j: int|
            0 <= i < j < files(plan).len() ==> (#[trigger] files(plan)[i]).path != (
            #[trigger] files(plan)[j]).path,
{
    lemma_path_lengths();
    assert(files(plan).len() == 14);
    assert(files(plan)[0].path == "Cargo.toml"@);
    assert(files(plan)[1].path == "README.md"@);
    assert(files(plan)[2].path == path_of_module("lib"@));
    assert(files(plan)[3].path == path_of_module("registry"@));
    assert(files(plan)[4].path == path_of_module("scalars"@));
    assert(files(plan)[5].path == path_of_module("aggregates"@));
    assert(files(plan)[6].path == path_of_module("table_functions"@));
    assert(files(plan)[7].path == path_of_module("window_functions"@));
    assert(files(plan)[8].path == path_of_module("types"@));
    assert(files(plan)[9].path == path_of_module("operators"@));
    assert(files(plan)[10].path == path_of_module("casts"@));
    assert(files(plan)[11].path == path_of_module("preprocessors"@));
    assert(files(plan)[12].path == path_of_module("system_catalog"@));
    assert(files(plan)[13].path == path_of_module("spatial_indexes"@));
}

proof fn lemma_path_lengths()
    ensures
        "Cargo.toml"@.len() == 10,
        "README.md"@.len() == 9,
        path_of_module("lib"@).len() == 10,
        path_of_module("registry"@).len() == 15,
        path_of_module("scalars"@).len() == 14,
        path_of_module("aggregates"@).len() == 17,
        path_of_module("table_functions"@).len() == 22,
        path_of_module("window_functions"@).len() == 23,
        path_of_module("types"@).len() == 12,
        path_of_module("operators"@).len() == 16,
        path_of_module("casts"@).len() == 12,
        path_of_module("preprocessors"@).len() == 20,
        path_of_module("system_catalog"@).len() == 21,
        path_of_module("spatial_indexes"@).len() == 22,
        "Cargo.toml"@ != path_of_module("lib"@),
        path_of_module("types"@) != path_of_module("casts"@),
        path_of_module("table_functions"@) != path_of_module("spatial_indexes"@),
{
    reveal_strlit("Cargo.toml");
    reveal_strlit("README.md");
    reveal_strlit("src/");
    reveal_strlit(".rs");
    reveal_strlit("lib");
    reveal_strlit("registry");
    reveal_strlit("scalars");
    reveal_strlit("aggregates");
    reveal_strlit("table_functions");
    reveal_strlit("window_functions");
    reveal_strlit("types");
    reveal_strlit("operators");
    reveal_strlit("casts");
    reveal_strlit("preprocessors");
    reveal_strlit("system_catalog");
    reveal_strlit("spatial_indexes");
    assert("Cargo.toml"@[0] != path_of_module("lib"@)[0]);
    assert(path_of_module("types"@)[4] != path_of_module("casts"@)[4]);
    assert(path_of_module("table_functions"@)[4] != path_of_module("spatial_indexes"@)[4]);
}

/// The files agree on the names: the package that the manifest declares is the one
/// that the readme formats, the entry function that the crate declares is the one
/// that the readme describes, the packaged file carries the declared library name,
/// and the variable that the registry reads is the one that the entry point and the
/// readme tell the user to set.
pub proof fn law_names_agree(plan: BridgePlanView)
    ensures
        ({
            let name = bridge_name(plan);
            let env = env_var(plan);
            &&& occurs_in(name_key(package_name(name)), cargo_toml_text(plan))
            &&& occurs_in(name_key(library_name(name)), cargo_toml_text(plan))
            &&& occurs_in(entry_declaration(name), lib_text(plan))
            &&& occurs_in(env, lib_text(plan))
            &&& occurs_in(env_lookup(env), registry_text(plan))
            &&& occurs_in(format_command(name), readme_text(plan))
            &&& occurs_in(symbol_mention(name), readme_text(plan))
            &&& occurs_in(packaged_name(name), readme_text(plan))
            &&& occurs_in(env_setting(env), readme_text(plan))
        }),
{
    let name = bridge_name(plan);
    let env = env_var(plan);
    let primary = primary_name(plan);
    lemma_names_in_manifest(name);
    lemma_names_in_entry_point(name, env);
    lemma_in_entry_point(plan, entry_declaration(name));
    lemma_in_entry_point(plan, env);

    let x = env_lookup(env);
    let r = HEADER@ + REGISTRY_1@ + env + REGISTRY_2@;
    lemma_occurs_self(x);
    lemma_occurs_prepend(x, r, x);
    lemma_occurs_append(x, r + x, REGISTRY_3@);
    lemma_occurs_append(x, r + x + REGISTRY_3@, env);
    lemma_occurs_append(x, r + x + REGISTRY_3@ + env, REGISTRY_4@);

    lemma_names_in_readme(plan, primary, name, env);
}

proof fn lemma_names_in_manifest(name: Text)
    ensures
        occurs_in(name_key(package_name(name)), manifest(name)),
        occurs_in(name_key(library_name(name)), manifest(name)),
{
    let x = name_key(package_name(name));
    let y = name_key(library_name(name));
    lemma_occurs_self(x);
    lemma_occurs_self(y);
    let a = CARGO_1@ + x;
    lemma_occurs_prepend(x, CARGO_1@, x);
    lemma_occurs_append(x, a, CARGO_2@);
    lemma_occurs_append(x, a + CARGO_2@, name);
    let b = a + CARGO_2@ + name + CARGO_3@;
    lemma_occurs_append(x, a + CARGO_2@ + name, CARGO_3@);
    lemma_occurs_append(x, b, y);
    lemma_occurs_append(x, b + y, CARGO_4@);
    lemma_occurs_prepend(y, b, y);
    lemma_occurs_append(y, b + y, CARGO_4@);
}

proof fn lemma_names_in_entry_point(name: Text, env: Text)
    ensures
        occurs_in(entry_declaration(name), entry_point(name, env)),
        occurs_in(env, entry_point(name, env)),
{
    let x = entry_declaration(name);
    lemma_occurs_self(x);
    lemma_occurs_self(env);
    let a = HEADER@ + ENTRY_1@ + library_name(name) + ENTRY_2@ + library_name(name) + ENTRY_3@
        + ENTRY_MODULES@ + ENTRY_4@;
    lemma_occurs_prepend(env, a, env);
    lemma_occurs_append(env, a + env, ENTRY_5@);
    lemma_occurs_append(env, a + env + ENTRY_5@, x);
    lemma_occurs_append(env, a + env + ENTRY_5@ + x, ENTRY_6@);
    lemma_occurs_prepend(x, a + env + ENTRY_5@, x);
    lemma_occurs_append(x, a + env + ENTRY_5@ + x, ENTRY_6@);
}

proof fn lemma_names_in_readme(plan: BridgePlanView, primary: Text, name: Text, env: Text)
    requires
        primary == primary_name(plan),
        name == bridge_name(plan),
        env == env_var(plan),
    ensures
        occurs_in(format_command(name), readme_text(plan)),
        occurs_in(symbol_mention(name), readme_text(plan)),
        occurs_in(packaged_name(name), readme_text(plan)),
        occurs_in(env_setting(env), readme_text(plan)),
{
    let head = readme_head(primary) + surface_rows(plan).flatten();
    let build = readme_build(name);
    let load = readme_load(primary, name, env);
    let upkeep = readme_upkeep(primary, name);
    let tail = readme_tail(primary, name, env);

    let s = env_setting(env);
    let p = packaged_name(name);
    lemma_occurs_self(s);
    lemma_occurs_self(p);
    let a = env + README_5@;
    lemma_occurs_prepend(s, a, s);
    lemma_occurs_append(s, a + s, primary);
    lemma_occurs_append(s, a + s + primary, README_6@);
    lemma_occurs_append(s, a + s + primary + README_6@, p);
    lemma_occurs_prepend(p, a + s + primary + README_6@, p);
    lemma_occurs_prepend(s, build, load);
    lemma_occurs_append(s, build + load, upkeep);
    lemma_occurs_prepend(s, head, tail);
    lemma_occurs_prepend(p, build, load);
    lemma_occurs_append(p, build + load, upkeep);
    lemma_occurs_prepend(p, head, tail);

    let f = format_command(name);
    let m = symbol_mention(name);
    lemma_occurs_self(f);
    lemma_occurs_self(m);
    let u = README_7@ + primary + README_8@ + primary + README_9@;
    lemma_occurs_prepend(f, u, f);
    lemma_occurs_append(f, u + f, README_10@);
    lemma_occurs_append(f, u + f + README_10@, m);
    lemma_occurs_append(f, u + f + README_10@ + m, README_11@);
    lemma_occurs_prepend(m, u + f + README_10@, m);
    lemma_occurs_append(m, u + f + README_10@ + m, README_11@);
    lemma_occurs_prepend(f, build + load, upkeep);
    lemma_occurs_prepend(f, head, tail);
    lemma_occurs_prepend(m, build + load, upkeep);
    lemma_occurs_prepend(m, head, tail);
}

/// Every extension has its summary in the entry point and its row in the readme.
pub proof fn law_every_extension_is_counted(plan: BridgePlanView, e: int)
    requires
        0 <= e < plan.extensions.len(),
    ensures
        occurs_in(extension_summary(plan.extensions[e]), lib_text(plan)),
        occurs_in(surface_row(plan.extensions[e]), readme_text(plan)),
{
    let x = extension_summary(plan.extensions[e]);
    let all = extension_summaries(plan);
    let t = entry_point(bridge_name(plan), env_var(plan))
        + "// Extensions loaded by this bridge:\n//\n"@;
    assert(all[e] == x);
    lemma_joined_occurs(all, "\n"@, e);
    lemma_occurs_prepend(x, t, join(all, "\n"@));
    lemma_occurs_append(x, t + join(all, "\n"@), "\n"@);

    let y = surface_row(plan.extensions[e]);
    let rows = surface_rows(plan);
    let head = readme_head(primary_name(plan));
    assert(rows[e] == y);
    lemma_part_occurs(rows, e);
    lemma_occurs_prepend(y, head, rows.flatten());
    lemma_occurs_append(
        y,
        head + rows.flatten(),
        readme_tail(primary_name(plan), bridge_name(plan), env_var(plan)),
    );
}

} // verus!
