//! What each emitted line and entry shows.

use vstd::prelude::*;

use crate::emit::aggregates::{aggregate_alias_line, aggregate_line};
use crate::emit::casts::{cast_entry, cast_line};
use crate::emit::listings::{
    catalog_entry, column_entry, operator_entry, pattern_entry, window_entry,
};
use crate::emit::package::{extension_summary, surface_row};
use crate::emit::scalars::{scalar_alias_line, scalar_line, skipped_line};
use crate::emit::shared::extension_heading;
use crate::emit::spatial_indexes::{
    build_line, envelope_line, index_entry, knn_line, within_distance_line,
};
use crate::emit::table_functions::{
    dropped_line, table_function_alias_line, table_function_line, udtf_entry,
};
use crate::emit::types::{type_entry, type_line};
use crate::laws::naming::law_decimal;
use crate::laws::reading::{
    is_ended, is_free_of, law_fields_are_read_back, law_optional_number, law_signed_decimal, shows,
    woven,
};
use crate::plan::{
    CastRewriteView, CatalogColumnView, ColumnTypeView, ExtensionView, OperatorView,
    PreprocessorPatternView, SpatialIndexView, SystemCatalogTableView, TableFunctionView,
    WindowFunctionView,
};
use crate::signatures::Signature;
use crate::text::{
    decimal, join, optional_number, pad_left, pad_right, quoted_list, signed_decimal, Text,
};

verus! {

/// The registration of a scalar shows its name and its overloads.
pub proof fn law_scalar_line(name: Text, list: Text)
    ensures
        shows(
            scalar_line(name, list),
            seq!["    register_scalar(conn, "@, ", &["@, "]);\n"@],
            seq![name, list],
        ),
{
    reveal_with_fuel(woven, 4);
}

/// The registration of an alias shows the alias, the overloads and the name it stands
/// for.
pub proof fn law_scalar_alias_line(alias: Text, list: Text, name: Text)
    ensures
        shows(
            scalar_alias_line(alias, list, name),
            seq!["    register_scalar(conn, "@, ", &["@, "]); // alias of "@, "\n"@],
            seq![alias, list, name],
        ),
{
    reveal_with_fuel(woven, 5);
}

/// The note on a skipped scalar shows its name.
pub proof fn law_skipped_line(name: Text)
    ensures
        shows(
            skipped_line(name),
            seq![
                "    // scalar `"@,
                "` skipped — name also published as an aggregate; the aggregate form is registered instead (see aggregates.rs).\n"@,
            ],
            seq![name],
        ),
{
    reveal_with_fuel(woven, 3);
}

/// The registration of an aggregate shows its name and its input type.
pub proof fn law_aggregate_line(name: Text, kind: Text)
    ensures
        shows(
            aggregate_line(name, kind),
            seq!["    register_aggregate(conn, \""@, "\", "@, ");\n"@],
            seq![name, kind],
        ),
{
    reveal_with_fuel(woven, 4);
}

/// The registration of an alias shows the alias, the input type and the name it stands
/// for.
pub proof fn law_aggregate_alias_line(alias: Text, kind: Text, name: Text)
    ensures
        shows(
            aggregate_alias_line(alias, kind, name),
            seq!["    register_aggregate(conn, \""@, "\", "@, "); // alias of "@, "\n"@],
            seq![alias, kind, name],
        ),
{
    reveal_with_fuel(woven, 5);
}

/// The registration of a table function shows its name and its parameter types.
pub proof fn law_table_function_line(name: Text, types: Text)
    ensures
        shows(
            table_function_line(name, types),
            seq!["    register_table_function(conn, "@, ", &["@, "]);\n"@],
            seq![name, types],
        ),
{
    reveal_with_fuel(woven, 4);
}

/// The registration of an alias shows the alias, the parameter types and the name it
/// stands for.
pub proof fn law_table_function_alias_line(alias: Text, types: Text, name: Text)
    ensures
        shows(
            table_function_alias_line(alias, types, name),
            seq!["    register_table_function(conn, "@, ", &["@, "]); // alias of "@, "\n"@],
            seq![alias, types, name],
        ),
{
    reveal_with_fuel(woven, 5);
}

/// The note on a dropped overload shows the name and the recorded parameter types.
pub proof fn law_dropped_line(name: Text, sig: Signature)
    ensures
        shows(
            dropped_line(name, sig),
            seq![
                "    // overload `"@,
                "("@,
                ")` not registerable (DuckDB C API: one positional arity per table-function name)\n"@,
            ],
            seq![name, join(sig, ", "@)],
        ),
{
    reveal_with_fuel(woven, 4);
}

/// The heading of a listing shows the name of the extension.
pub proof fn law_extension_heading(name: Text)
    ensures
        shows(
            extension_heading(name),
            seq!["// === extension: "@, " ===\n"@],
            seq![name],
        ),
{
    reveal_with_fuel(woven, 3);
}

/// The registration of a type shows its name.
pub proof fn law_type_line(name: Text)
    ensures
        shows(
            type_line(name),
            seq!["    register_type(con, "@, ");\n"@],
            seq![name],
        ),
{
    reveal_with_fuel(woven, 3);
}

/// The registration of the casts of a type shows its name.
pub proof fn law_cast_line(name: Text)
    ensures
        shows(
            cast_line(name),
            seq!["    register_identity_cast(con, "@, ");\n"@],
            seq![name],
        ),
{
    reveal_with_fuel(woven, 3);
}

/// The entry of a type shows its id, its name, its size and what it is cast from and
/// to, in columns.
pub proof fn law_type_entry(ct: ColumnTypeView)
    ensures
        shows(
            type_entry(ct),
            seq!["// type_id="@, " name="@, " size="@, "  cast_from="@, "  cast_to="@, "\n"@],
            seq![
                pad_left(signed_decimal(ct.type_id as int), 5),
                pad_right(ct.name, 24),
                pad_left(signed_decimal(ct.storage_size as int), 4),
                quoted_list(ct.cast_from),
                quoted_list(ct.cast_to),
            ],
        ),
{
    reveal_with_fuel(woven, 7);
}

/// The entry of a rewrite shows its four fields.
pub proof fn law_cast_entry(c: CastRewriteView)
    ensures
        shows(
            cast_entry(c),
            seq!["// CAST(<"@, "> AS "@, ") → "@, " (hint: "@, ")\n"@],
            seq![c.source_kind, c.target_type, c.function_name, c.source_fn_hint],
        ),
{
    reveal_with_fuel(woven, 6);
}

/// The entry of a window function shows its name.
pub proof fn law_window_entry(w: WindowFunctionView)
    ensures
        shows(
            window_entry(w),
            seq!["// window `"@, "`\n"@],
            seq![w.canonical_name],
        ),
{
    reveal_with_fuel(woven, 3);
}

/// The entry of an operator shows its symbol, both operand types and the function.
pub proof fn law_operator_entry(op: OperatorView)
    ensures
        shows(
            operator_entry(op),
            seq!["// `"@, "` (lhs="@, ", rhs="@, ")  →  "@, "\n"@],
            seq![
                op.symbol,
                optional_number(op.lhs_type_id),
                optional_number(op.rhs_type_id),
                op.function_name,
            ],
        ),
{
    reveal_with_fuel(woven, 6);
}

/// The entry of a token rewrite shows the token and the function.
pub proof fn law_pattern_entry(p: PreprocessorPatternView)
    ensures
        shows(
            pattern_entry(p),
            seq!["// token `"@, "` → "@, "\n"@],
            seq![p.op_token, p.function_name],
        ),
{
    reveal_with_fuel(woven, 4);
}

/// The entry of an index shows its name, the id of its type and its capabilities.
pub proof fn law_index_entry(ix: SpatialIndexView)
    ensures
        shows(
            index_entry(ix),
            seq!["// index `"@, "` type_id="@, " caps="@, "\n"@],
            seq![ix.name, signed_decimal(ix.type_id as int), match ix.capabilities_json {
                Some(caps) => caps,
                None => "(none)"@,
            }],
        ),
{
    reveal_with_fuel(woven, 5);
}

/// The build aggregate carries the prefix of the extension and the name of the index.
pub proof fn law_build_line(prefix: Text, name: Text)
    ensures
        shows(
            build_line(prefix, name),
            seq!["    register_build_aggregate(conn, \""@, "_spatial_index_build\", "@, ");\n"@],
            seq![prefix, name],
        ),
{
    reveal_with_fuel(woven, 4);
}

/// The envelope query carries the prefix of the extension.
pub proof fn law_envelope_line(prefix: Text)
    ensures
        shows(
            envelope_line(prefix),
            seq![
                "    register_query_tf(conn, \""@,
                "_spatial_index_query_envelope\", QueryKind::Envelope);\n"@,
            ],
            seq![prefix],
        ),
{
    reveal_with_fuel(woven, 3);
}

/// The nearest-neighbour query carries the prefix of the extension.
pub proof fn law_knn_line(prefix: Text)
    ensures
        shows(
            knn_line(prefix),
            seq![
                "    register_query_tf(conn, \""@,
                "_spatial_index_query_knn\", QueryKind::Knn);\n"@,
            ],
            seq![prefix],
        ),
{
    reveal_with_fuel(woven, 3);
}

/// The within-distance query carries the prefix of the extension.
pub proof fn law_within_distance_line(prefix: Text)
    ensures
        shows(
            within_distance_line(prefix),
            seq![
                "    register_query_tf(conn, \""@,
                "_spatial_index_within_distance\", QueryKind::WithinDistance);\n"@,
            ],
            seq![prefix],
        ),
{
    reveal_with_fuel(woven, 3);
}

/// The summary of an extension shows its name, its version and how many items of each
/// kind it publishes.
pub proof fn law_extension_summary(ext: ExtensionView)
    ensures
        shows(
            extension_summary(ext),
            seq![
                "//   - "@,
                " v"@,
                "  ("@,
                " scalars, "@,
                " agg, "@,
                " udtf, "@,
                " window, "@,
                " types, "@,
                " ops, "@,
                " casts, "@,
                " preps, "@,
                " catalog, "@,
                " indexes)"@,
            ],
            seq![
                ext.name,
                ext.version,
                decimal(ext.scalars.len()),
                decimal(ext.aggregates.len()),
                decimal(ext.table_functions.len()),
                decimal(ext.window_functions.len()),
                decimal(ext.column_types.len()),
                decimal(ext.operators.len()),
                decimal(ext.cast_rewrites.len()),
                decimal(ext.preprocessor_patterns.len()),
                decimal(ext.system_catalog_tables.len()),
                decimal(ext.spatial_indexes.len()),
            ],
        ),
{
    reveal_with_fuel(woven, 14);
}

/// The row of an extension shows its name, its version and how many items of each kind
/// it publishes, in the order of the headings.
pub proof fn law_surface_row(ext: ExtensionView)
    ensures
        shows(
            surface_row(ext),
            seq![
                "| "@,
                " | "@,
                " | "@,
                " | "@,
                " | "@,
                " | "@,
                " | "@,
                " | "@,
                " | "@,
                " | "@,
                " | "@,
                " | "@,
                " |\n"@,
            ],
            seq![
                ext.name,
                ext.version,
                decimal(ext.scalars.len()),
                decimal(ext.aggregates.len()),
                decimal(ext.table_functions.len()),
                decimal(ext.window_functions.len()),
                decimal(ext.column_types.len()),
                decimal(ext.operators.len()),
                decimal(ext.cast_rewrites.len()),
                decimal(ext.preprocessor_patterns.len()),
                decimal(ext.system_catalog_tables.len()),
                decimal(ext.spatial_indexes.len()),
            ],
        ),
{
    reveal_with_fuel(woven, 14);
}

/// The entry of a column shows its name, its type and whether it may hold NULL.
pub proof fn law_column_entry(col: CatalogColumnView)
    ensures
        col.nullable ==> shows(
            column_entry(col),
            seq!["//   "@, " "@, " (nullable)\n"@],
            seq![col.name, col.data_type],
        ),
        !col.nullable ==> shows(
            column_entry(col),
            seq!["//   "@, " "@, " (not null)\n"@],
            seq![col.name, col.data_type],
        ),
{
    reveal_with_fuel(woven, 4);
    reveal_strlit(" (");
    reveal_strlit("nullable");
    reveal_strlit("not null");
    reveal_strlit(")\n");
    reveal_strlit(" (nullable)\n");
    reveal_strlit(" (not null)\n");
    let a = "//   "@ + col.name + " "@ + col.data_type;
    assert(a + " ("@ + "nullable"@ + ")\n"@ =~= a + " (nullable)\n"@);
    assert(a + " ("@ + "not null"@ + ")\n"@ =~= a + " (not null)\n"@);
}

/// The entry of a catalog table is its name and then its columns: another column at
/// the end adds its entry and changes nothing else.
pub proof fn law_catalog_entry(table: SystemCatalogTableView, col: CatalogColumnView)
    ensures
        table.columns.len() == 0 ==> shows(
            catalog_entry(table),
            seq!["// catalog `"@, "."@, "`\n"@],
            seq![table.catalog_name, table.table_name],
        ),
        catalog_entry(
            SystemCatalogTableView { columns: table.columns.push(col), ..table },
        ) == catalog_entry(table) + column_entry(col),
{
    reveal_with_fuel(woven, 4);
    let longer = SystemCatalogTableView { columns: table.columns.push(col), ..table };
    let all = Seq::new(table.columns.len(), |i: int| column_entry(table.columns[i]));
    let more = Seq::new(longer.columns.len(), |i: int| column_entry(longer.columns[i]));
    let head = "// catalog `"@ + table.catalog_name + "."@ + table.table_name + "`\n"@;
    if table.columns.len() == 0 {
        assert(all.flatten() =~= Seq::empty());
        assert(head + all.flatten() =~= head);
    }
    assert(more =~= all.push(column_entry(col)));
    all.lemma_flatten_push(column_entry(col));
    assert(head + (all.flatten() + column_entry(col)) =~= head + all.flatten() + column_entry(col));
}

/// The entry of a table function shows its name and the width of its first recorded
/// signature; aliases follow on a line of their own.
pub proof fn law_udtf_entry(tf: TableFunctionView)
    ensures
        ({
            let width = if tf.param_signatures.len() > 0 {
                tf.param_signatures[0].len()
            } else {
                0
            };
            &&& tf.aliases.len() == 0 ==> shows(
                udtf_entry(tf),
                seq!["// udtf `"@, "` (arity="@, ")\n"@],
                seq![tf.canonical_name, decimal(width)],
            )
            &&& tf.aliases.len() > 0 ==> shows(
                udtf_entry(tf),
                seq!["// udtf `"@, "` (arity="@, ")\n//   aliases: "@, "\n"@],
                seq![tf.canonical_name, decimal(width), join(tf.aliases, ", "@)],
            )
        }),
{
    reveal_with_fuel(woven, 5);
    reveal_strlit(")\n");
    reveal_strlit("//   aliases: ");
    reveal_strlit(")\n//   aliases: ");
    let width = if tf.param_signatures.len() > 0 {
        tf.param_signatures[0].len()
    } else {
        0
    };
    let a = "// udtf `"@ + tf.canonical_name + "` (arity="@ + decimal(width);
    assert(a + ")\n"@ + "//   aliases: "@ =~= a + ")\n//   aliases: "@);
}

/// Both operand types of an operator can be told from its entry: operators that
/// differ only in an operand type have different entries.
pub proof fn law_operand_types_differ(a: OperatorView, b: OperatorView)
    requires
        a.symbol == b.symbol,
        a.function_name == b.function_name,
        operator_entry(a) == operator_entry(b),
    ensures
        a.lhs_type_id == b.lhs_type_id || a.rhs_type_id == b.rhs_type_id ==> a == b,
{
    let head = "// `"@ + a.symbol + "` (lhs="@;
    let la = optional_number(a.lhs_type_id);
    let lb = optional_number(b.lhs_type_id);
    let ra = optional_number(a.rhs_type_id);
    let rb = optional_number(b.rhs_type_id);
    let tail = ")  →  "@ + a.function_name + "\n"@;
    let x = operator_entry(a);
    let y = operator_entry(b);
    let h = head.len() as int;
    let c = ", rhs="@.len() as int;
    let t = tail.len() as int;
    assert(x =~= head + la + ", rhs="@ + ra + tail);
    assert(y =~= head + lb + ", rhs="@ + rb + tail);
    assert(x.subrange(h, h + la.len()) =~= la);
    assert(y.subrange(h, h + lb.len()) =~= lb);
    assert(x.subrange(x.len() - t - ra.len(), x.len() - t) =~= ra);
    assert(y.subrange(y.len() - t - rb.len(), y.len() - t) =~= rb);
    law_optional_number(a.lhs_type_id, b.lhs_type_id);
    law_optional_number(a.rhs_type_id, b.rhs_type_id);
    if a.lhs_type_id == b.lhs_type_id {
        assert(ra.len() == rb.len());
    }
    if a.rhs_type_id == b.rhs_type_id {
        assert(la.len() == lb.len());
    }
}

/// An operator is read back from its entry: equal entries come from equal operators,
/// as long as no symbol holds a backquote and no function name a line break.
pub proof fn law_operators_are_read_back(a: OperatorView, b: OperatorView)
    requires
        operator_entry(a) == operator_entry(b),
        is_free_of(a.symbol, '`'),
        is_free_of(b.symbol, '`'),
        is_free_of(a.function_name, '\n'),
        is_free_of(b.function_name, '\n'),
    ensures
        a == b,
{
    reveal_strlit("` (lhs=");
    reveal_strlit(", rhs=");
    reveal_strlit(")  →  ");
    reveal_strlit("\n");
    reveal_with_fuel(woven, 5);
    let marks = seq!["// `"@, "` (lhs="@, ", rhs="@, "\n"@];
    let va = optional_number(a.rhs_type_id) + ")  →  "@ + a.function_name;
    let vb = optional_number(b.rhs_type_id) + ")  →  "@ + b.function_name;
    let f = seq![a.symbol, optional_number(a.lhs_type_id), va];
    let g = seq![b.symbol, optional_number(b.lhs_type_id), vb];
    let t = operator_entry(a);
    assert(t =~= woven(marks, f, 3));
    assert(operator_entry(b) =~= woven(marks, g, 3));
    lemma_optional_number_chars(a.lhs_type_id);
    lemma_optional_number_chars(b.lhs_type_id);
    lemma_optional_number_chars(a.rhs_type_id);
    lemma_optional_number_chars(b.rhs_type_id);
    assert(is_ended(marks, f, 0) && is_ended(marks, f, 1) && is_ended(marks, f, 2));
    assert(is_ended(marks, g, 0) && is_ended(marks, g, 1) && is_ended(marks, g, 2));
    law_fields_are_read_back(t, marks, f, g);
    assert(f[0] == g[0] && f[1] == g[1] && f[2] == g[2]);
    law_optional_number(a.lhs_type_id, b.lhs_type_id);
    let ra = optional_number(a.rhs_type_id);
    let rb = optional_number(b.rhs_type_id);
    assert(va.take(ra.len() as int) =~= ra);
    assert(vb.take(rb.len() as int) =~= rb);
    lemma_optional_number_first(a.rhs_type_id, b.rhs_type_id, va, vb);
    let k = optional_number(a.rhs_type_id).len() + ")  →  "@.len();
    assert(va.skip(k as int) =~= a.function_name);
    assert(vb.skip(k as int) =~= b.function_name);
}

/// An optional number holds neither a comma nor a line break.
proof fn lemma_optional_number_chars(n: Option<i64>)
    ensures
        is_free_of(optional_number(n), ','),
        is_free_of(optional_number(n), '\n'),
{
    reveal_strlit("Some(");
    reveal_strlit(")");
    reveal_strlit("None");
    if let Some(v) = n {
        law_signed_decimal(v as int);
        law_decimal(v as nat);
        let s = signed_decimal(v as int);
        assert forall|i: int| 0 <= i < s.len() implies #[trigger] s[i] != ',' && s[i] != '\n' by {
            if v < 0 {
            } else {
                assert(s == decimal(v as nat));
            }
        }
    }
}

/// The optional number that a text starts with, before a bracket and a space, can be
/// told.
proof fn lemma_optional_number_first(a: Option<i64>, b: Option<i64>, s: Text, t: Text)
    requires
        s == t,
        s.len() >= optional_number(a).len() + 2,
        t.len() >= optional_number(b).len() + 2,
        s.take(optional_number(a).len() as int) == optional_number(a),
        t.take(optional_number(b).len() as int) == optional_number(b),
        s[optional_number(a).len() as int] == ')',
        t[optional_number(b).len() as int] == ')',
    ensures
        a == b,
{
    reveal_strlit("Some(");
    reveal_strlit(")");
    reveal_strlit("None");
    let x = optional_number(a);
    let y = optional_number(b);
    assert(s[0] == s.take(x.len() as int)[0]);
    assert(t[0] == t.take(y.len() as int)[0]);
    match (a, b) {
        (Some(n), Some(m)) => {
            let dn = signed_decimal(n as int);
            let dm = signed_decimal(m as int);
            law_signed_decimal(n as int);
            law_signed_decimal(m as int);
            if dn.len() < dm.len() {
                let k = 5 + dn.len();
                assert(s.take(x.len() as int)[k as int] == ')');
                assert(t.take(y.len() as int)[k as int] == dm[dn.len() as int]);
            }
            if dm.len() < dn.len() {
                let k = 5 + dm.len();
                assert(t.take(y.len() as int)[k as int] == ')');
                assert(s.take(x.len() as int)[k as int] == dn[dm.len() as int]);
            }
            assert(x == y);
        },
        _ => {},
    }
    law_optional_number(a, b);
}

} // verus!
