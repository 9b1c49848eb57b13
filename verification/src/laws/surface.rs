//! What the table of a bridge's readme shows.

use vstd::prelude::*;

use crate::emit::package::{readme_head, surface_row};
use crate::laws::naming::law_decimal;
use crate::laws::reading::{cut, is_free_of, lemma_cut_concat, lemma_cut_whole};
use crate::occurrence::lemma_occurs_prepend;
use crate::plan::ExtensionView;
use crate::text::{decimal, occurs_in, Text};

verus! {

/// The kinds of items that the table counts, in the order of its headings.
pub open spec fn kinds() -> Seq<Text> {
    seq![
        "Scalars"@,
        "Aggregates"@,
        "UDTFs"@,
        "Windows"@,
        "Types"@,
        "Operators"@,
        "Casts"@,
        "Preprocessors"@,
        "Catalog"@,
        "Indexes"@,
    ]
}

/// How many items of `kind` the extension publishes.
pub open spec fn count_of(ext: ExtensionView, kind: Text) -> nat {
    if kind == "Scalars"@ {
        ext.scalars.len()
    } else if kind == "Aggregates"@ {
        ext.aggregates.len()
    } else if kind == "UDTFs"@ {
        ext.table_functions.len()
    } else if kind == "Windows"@ {
        ext.window_functions.len()
    } else if kind == "Types"@ {
        ext.column_types.len()
    } else if kind == "Operators"@ {
        ext.operators.len()
    } else if kind == "Casts"@ {
        ext.cast_rewrites.len()
    } else if kind == "Preprocessors"@ {
        ext.preprocessor_patterns.len()
    } else if kind == "Catalog"@ {
        ext.system_catalog_tables.len()
    } else {
        ext.spatial_indexes.len()
    }
}

/// The line of headings.
pub open spec fn heading_row() -> Text {
    "| Extension | Version | Scalars | Aggregates | UDTFs | Windows | Types | Operators | Casts | Preprocessors | Catalog | Indexes |\n"@
}

/// `x` as the cell of a table.
pub open spec fn cell(x: Text) -> Text {
    seq![' '] + x + seq![' ']
}

/// A row up to its `n`-th cell behind `first`.
spec fn row(first: Text, cells: Seq<Text>, n: int) -> Text
    decreases n,
{
    if n <= 0 {
        first
    } else {
        row(first, cells, n - 1) + " | "@ + cells[n - 1]
    }
}

proof fn lemma_row_cells(first: Text, cells: Seq<Text>, n: int)
    requires
        0 <= n <= cells.len(),
        forall|j: int| 0 <= j < cells.len() ==> is_free_of(#[trigger] cells[j], '|'),
    ensures
        cut(row(first, cells, n) + seq![' '], '|') == cut(first + seq![' '], '|') + Seq::new(
            n as nat,
            |j: int| cell(cells[j]),
        ),
    decreases n,
{
    let all = Seq::new(n as nat, |j: int| cell(cells[j]));
    let start = cut(first + seq![' '], '|');
    if n == 0 {
        assert(start + all =~= start);
    } else {
        reveal_strlit(" | ");
        lemma_row_cells(first, cells, n - 1);
        let before = Seq::new((n - 1) as nat, |j: int| cell(cells[j]));
        let r = row(first, cells, n - 1);
        let c = cells[n - 1];
        assert(is_free_of(c, '|'));
        assert(row(first, cells, n) + seq![' '] =~= (r + seq![' ']) + seq!['|'] + cell(c));
        lemma_cut_concat(r + seq![' '], '|', cell(c));
        assert(is_free_of(cell(c), '|'));
        lemma_cut_whole(cell(c), '|');
        assert(all =~= before + seq![cell(c)]);
        assert(start + before + seq![cell(c)] =~= start + all);
    }
}

proof fn lemma_whole_row(first: Text, cells: Seq<Text>)
    requires
        forall|j: int| 0 <= j < cells.len() ==> is_free_of(#[trigger] cells[j], '|'),
    ensures
        cut(row(first, cells, cells.len() as int) + " |\n"@, '|') == cut(first + seq![' '], '|')
            + Seq::new(cells.len(), |j: int| cell(cells[j])) + seq![seq!['\n']],
{
    reveal_strlit(" |\n");
    let n = cells.len() as int;
    let r = row(first, cells, n);
    lemma_row_cells(first, cells, n);
    assert(r + " |\n"@ =~= (r + seq![' ']) + seq!['|'] + seq!['\n']);
    lemma_cut_concat(r + seq![' '], '|', seq!['\n']);
    lemma_cut_whole(seq!['\n'], '|');
}

/// The cells in front of the counts: the name and the version.
proof fn lemma_first_cells(name: Text, version: Text)
    requires
        is_free_of(name, '|'),
        is_free_of(version, '|'),
    ensures
        cut("| "@ + name + " | "@ + version + seq![' '], '|') == seq![
            Seq::<char>::empty(),
            cell(name),
            cell(version),
        ],
{
    reveal_strlit("| ");
    reveal_strlit(" | ");
    let none = Seq::<char>::empty();
    let a = seq!['|'] + cell(name);
    assert("| "@ + name + " | "@ + version + seq![' '] =~= a + seq!['|'] + cell(version));
    assert(is_free_of(cell(version), '|'));
    assert(is_free_of(cell(name), '|'));
    lemma_cut_concat(a, '|', cell(version));
    lemma_cut_whole(cell(version), '|');
    assert(a =~= none + seq!['|'] + cell(name));
    lemma_cut_concat(none, '|', cell(name));
    lemma_cut_whole(cell(name), '|');
    lemma_cut_whole(none, '|');
    assert(seq![none] + seq![cell(name)] + seq![cell(version)] =~= seq![
        none,
        cell(name),
        cell(version),
    ]);
}

/// The line of headings stands in the readme, and its cells, from the fourth on, are
/// the kinds of items.
pub proof fn law_headings(primary: Text)
    ensures
        occurs_in(heading_row(), readme_head(primary)),
        cut(heading_row(), '|').len() == 14,
        forall|k: int| 0 <= k < 10 ==> #[trigger] cut(heading_row(), '|')[k + 3] == cell(kinds()[k]),
{
    lemma_heading_text();
    lemma_kinds_are_cells();
    lemma_whole_row("| Extension | Version"@, kinds());
    lemma_first_headings();
    lemma_heading_occurs(primary);
}

proof fn lemma_kinds_are_cells()
    ensures
        forall|j: int| 0 <= j < kinds().len() ==> is_free_of(#[trigger] kinds()[j], '|'),
        kinds().len() == 10,
{
    reveal_strlit("Scalars");
    reveal_strlit("Aggregates");
    reveal_strlit("UDTFs");
    reveal_strlit("Windows");
    reveal_strlit("Types");
    reveal_strlit("Operators");
    reveal_strlit("Casts");
    reveal_strlit("Preprocessors");
    reveal_strlit("Catalog");
    reveal_strlit("Indexes");
}

proof fn lemma_first_headings()
    ensures
        cut("| Extension | Version"@ + seq![' '], '|').len() == 3,
{
    reveal_strlit("| Extension | Version");
    reveal_strlit("Extension");
    reveal_strlit("Version");
    reveal_strlit("| ");
    reveal_strlit(" | ");
    lemma_first_cells("Extension"@, "Version"@);
    assert("| Extension | Version"@ + seq![' '] =~= "| "@ + "Extension"@ + " | "@ + "Version"@
        + seq![' ']);
}

proof fn lemma_heading_text()
    ensures
        heading_row() == row("| Extension | Version"@, kinds(), 10) + " |\n"@,
{
    reveal_strlit("Scalars");
    reveal_strlit("Aggregates");
    reveal_strlit("UDTFs");
    reveal_strlit("Windows");
    reveal_strlit("Types");
    reveal_strlit("Operators");
    reveal_strlit("Casts");
    reveal_strlit("Preprocessors");
    reveal_strlit("Catalog");
    reveal_strlit("Indexes");
    reveal_strlit(" | ");
    reveal_strlit(" |\n");
    reveal_strlit("| Extension | Version");
    reveal_strlit(
        "| Extension | Version | Scalars | Aggregates | UDTFs | Windows | Types | Operators | Casts | Preprocessors | Catalog | Indexes |\n",
    );
    reveal_with_fuel(row, 11);
    let k = kinds();
    let f = "| Extension | Version"@;
    let h = heading_row();
    assert(row(f, k, 1) =~= h.take(31));
    assert(row(f, k, 2) =~= h.take(44));
    assert(row(f, k, 3) =~= h.take(52));
    assert(row(f, k, 4) =~= h.take(62));
    assert(row(f, k, 5) =~= h.take(70));
    assert(row(f, k, 6) =~= h.take(82));
    assert(row(f, k, 7) =~= h.take(90));
    assert(row(f, k, 8) =~= h.take(106));
    assert(row(f, k, 9) =~= h.take(116));
    assert(row(f, k, 10) =~= h.take(126));
    assert(h.take(126) + " |\n"@ =~= h);
}

proof fn lemma_heading_occurs(primary: Text)
    ensures
        occurs_in(heading_row(), readme_head(primary)),
{
    reveal_strlit(
        "| Extension | Version | Scalars | Aggregates | UDTFs | Windows | Types | Operators | Casts | Preprocessors | Catalog | Indexes |\n",
    );
    reveal_strlit(
        "## Surface\n\n| Extension | Version | Scalars | Aggregates | UDTFs | Windows | Types | Operators | Casts | Preprocessors | Catalog | Indexes |\n|---|---|---:|---:|---:|---:|---:|---:|---:|---:|---:|---:|\n",
    );
    let h = heading_row();
    let s =
        "## Surface\n\n| Extension | Version | Scalars | Aggregates | UDTFs | Windows | Types | Operators | Casts | Preprocessors | Catalog | Indexes |\n|---|---|---:|---:|---:|---:|---:|---:|---:|---:|---:|---:|\n"@;
    assert(s.subrange(12, 12int + h.len()) =~= h);
    assert(occurs_in(h, s));
    let t = readme_head(primary);
    let before = t.take(t.len() - s.len());
    assert(t =~= before + s);
    lemma_occurs_prepend(h, before, s);
}

/// Under the heading of each kind stands the number of items of that kind: the
/// counts are the last ten cells of the row, whatever the name and the version hold,
/// in the order of the headings, and each depends on its own kind alone.
pub proof fn law_counts_stand_under_their_headings(ext: ExtensionView, k: int)
    requires
        0 <= k < 10,
    ensures
        ({
            let cells = cut(surface_row(ext), '|');
            let headings = cut(heading_row(), '|');
            &&& cells.len() >= 11
            &&& headings[headings.len() - 11 + k] == cell(kinds()[k])
            &&& cells[cells.len() - 11 + k] == cell(decimal(count_of(ext, kinds()[k])))
        }),
{
    let counts = Seq::new(10, |j: int| decimal(count_of(ext, kinds()[j])));
    assert forall|j: int| 0 <= j < counts.len() implies is_free_of(#[trigger] counts[j], '|') by {
        law_decimal(count_of(ext, kinds()[j]));
    }
    law_headings(ext.name);
    lemma_row_text(ext, counts);
    lemma_whole_row("| "@ + ext.name + " | "@ + ext.version, counts);
    let first = cut("| "@ + ext.name + " | "@ + ext.version + seq![' '], '|');
    let cells = cut(surface_row(ext), '|');
    assert(cells[cells.len() - 11 + k] == cell(counts[k]));
    assert(cut(heading_row(), '|')[k + 3] == cell(kinds()[k]));
}

/// The row shows the name and the version in front of the counts.
pub proof fn law_row_starts_with_name_and_version(ext: ExtensionView)
    requires
        is_free_of(ext.name, '|'),
        is_free_of(ext.version, '|'),
    ensures
        cut(surface_row(ext), '|').len() == 14,
        cut(surface_row(ext), '|')[1] == cell(ext.name),
        cut(surface_row(ext), '|')[2] == cell(ext.version),
{
    let counts = Seq::new(10, |j: int| decimal(count_of(ext, kinds()[j])));
    assert forall|j: int| 0 <= j < counts.len() implies is_free_of(#[trigger] counts[j], '|') by {
        law_decimal(count_of(ext, kinds()[j]));
    }
    lemma_row_text(ext, counts);
    lemma_whole_row("| "@ + ext.name + " | "@ + ext.version, counts);
    lemma_first_cells(ext.name, ext.version);
}

proof fn lemma_row_text(ext: ExtensionView, counts: Seq<Text>)
    requires
        counts == Seq::new(10, |j: int| decimal(count_of(ext, kinds()[j]))),
    ensures
        surface_row(ext) == row("| "@ + ext.name + " | "@ + ext.version, counts, 10) + " |\n"@,
{
    lemma_counts(ext);
    reveal_with_fuel(row, 11);
}

proof fn lemma_counts(ext: ExtensionView)
    ensures
        count_of(ext, kinds()[0]) == ext.scalars.len(),
        count_of(ext, kinds()[1]) == ext.aggregates.len(),
        count_of(ext, kinds()[2]) == ext.table_functions.len(),
        count_of(ext, kinds()[3]) == ext.window_functions.len(),
        count_of(ext, kinds()[4]) == ext.column_types.len(),
        count_of(ext, kinds()[5]) == ext.operators.len(),
        count_of(ext, kinds()[6]) == ext.cast_rewrites.len(),
        count_of(ext, kinds()[7]) == ext.preprocessor_patterns.len(),
        count_of(ext, kinds()[8]) == ext.system_catalog_tables.len(),
        count_of(ext, kinds()[9]) == ext.spatial_indexes.len(),
{
    reveal_strlit("Scalars");
    reveal_strlit("Aggregates");
    reveal_strlit("UDTFs");
    reveal_strlit("Windows");
    reveal_strlit("Types");
    reveal_strlit("Operators");
    reveal_strlit("Casts");
    reveal_strlit("Preprocessors");
    reveal_strlit("Catalog");
    reveal_strlit("Indexes");
    assert("Scalars"@[0] == 'S');
    assert("Aggregates"@[0] == 'A');
    assert("UDTFs"@[0] == 'U');
    assert("Windows"@[0] == 'W');
    assert("Types"@[0] == 'T');
    assert("Operators"@[0] == 'O');
    assert("Casts"@[2] == 's');
    assert("Preprocessors"@[0] == 'P');
    assert("Catalog"@[2] == 't');
    assert("Indexes"@[0] == 'I');
}

} // verus!
