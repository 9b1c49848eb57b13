//! The spatial-index module of a bridge: a build aggregate and the query table
//! functions for the primary index of each extension.

use vstd::prelude::*;

use crate::capabilities::{flag_set, has_flag};
use crate::emit::shared::{extension_heading, extension_heading_text, generated_header};
use crate::names::{fn_prefix, sanitize_fn_prefix};
use crate::plan::{
    views, BridgePlan, BridgePlanView, Extension, ExtensionView, SpatialIndex, SpatialIndexView,
};
use crate::templates::header::HEADER;
use crate::templates::spatial_indexes::{
    SPATIAL_BUILD_RUNTIME, SPATIAL_INDEXES_HEAD, SPATIAL_QUERY_RUNTIME, SPATIAL_SHARED_RUNTIME,
};
use crate::text::{concat_texts, literal, literal_text, signed_decimal, signed_text, Text};
use crate::walk::{map_texts, refs};

verus! {

/// The first index that declares capabilities, if there is one.
pub open spec fn primary_index(indexes: Seq<SpatialIndexView>) -> Option<SpatialIndexView>
    decreases indexes.len(),
{
    if indexes.len() == 0 {
        None
    } else if indexes[0].capabilities_json is Some {
        Some(indexes[0])
    } else {
        primary_index(indexes.drop_first())
    }
}

/// The build aggregate of the index whose literal name is `quoted_name`.
pub open spec fn build_line(prefix: Text, quoted_name: Text) -> Text {
    "    register_build_aggregate(conn, \""@ + prefix + "_spatial_index_build\", "@ + quoted_name
        + ");\n"@
}

/// The envelope query.
pub open spec fn envelope_line(prefix: Text) -> Text {
    "    register_query_tf(conn, \""@ + prefix
        + "_spatial_index_query_envelope\", QueryKind::Envelope);\n"@
}

/// The nearest-neighbour query.
pub open spec fn knn_line(prefix: Text) -> Text {
    "    register_query_tf(conn, \""@ + prefix + "_spatial_index_query_knn\", QueryKind::Knn);\n"@
}

/// The within-distance query.
pub open spec fn within_distance_line(prefix: Text) -> Text {
    "    register_query_tf(conn, \""@ + prefix
        + "_spatial_index_within_distance\", QueryKind::WithinDistance);\n"@
}

/// The registrations for an index with the capabilities `caps`.
pub open spec fn index_lines(prefix: Text, quoted_name: Text, caps: Text) -> Text {
    let always = build_line(prefix, quoted_name) + envelope_line(prefix);
    let with_knn = if has_flag(caps, "knn"@) {
        always + knn_line(prefix)
    } else {
        always
    };
    if has_flag(caps, "within_distance_wkb"@) {
        with_knn + within_distance_line(prefix)
    } else {
        with_knn
    }
}

/// The registrations of one extension; none without a primary index.
pub open spec fn index_block(ext: ExtensionView) -> Text {
    match primary_index(ext.spatial_indexes) {
        Some(ix) => match ix.capabilities_json {
            Some(caps) => index_lines(fn_prefix(ext.name), literal(ix.name), caps),
            None => Seq::empty(),
        },
        None => Seq::empty(),
    }
}

/// The registrations of all extensions, in order.
pub open spec fn index_blocks(plan: BridgePlanView) -> Seq<Text> {
    Seq::new(plan.extensions.len(), |i: int| index_block(plan.extensions[i]))
}

/// Whether some extension has a primary index.
pub open spec fn has_primary(plan: BridgePlanView) -> bool {
    exists|i: int|
        0 <= i < plan.extensions.len() && primary_index(
            (#[trigger] plan.extensions[i]).spatial_indexes,
        ) is Some
}

/// The heading of the listing.
pub open spec fn index_heading() -> Text {
    "\n// ----------------------------------------------------------------------\n// Spatial indexes the shim advertises.\n// ----------------------------------------------------------------------\n\n"@
}

/// The entry of one index in the listing.
pub open spec fn index_entry(ix: SpatialIndexView) -> Text {
    "// index `"@ + ix.name + "` type_id="@ + signed_decimal(ix.type_id as int) + " caps="@
        + match ix.capabilities_json {
        Some(caps) => caps,
        None => "(none)"@,
    } + "\n"@
}

/// The entries of one extension.
pub open spec fn index_entries(ext: ExtensionView) -> Seq<Text> {
    Seq::new(ext.spatial_indexes.len(), |i: int| index_entry(ext.spatial_indexes[i]))
}

/// The listing of one extension.
pub open spec fn index_section(ext: ExtensionView) -> Text {
    extension_heading(ext.name) + index_entries(ext).flatten()
}

/// The listings of all extensions, in order.
pub open spec fn index_sections(plan: BridgePlanView) -> Seq<Text> {
    Seq::new(plan.extensions.len(), |i: int| index_section(plan.extensions[i]))
}

/// The spatial-index module for `plan`, up to its listing.
pub open spec fn spatial_index_code(plan: BridgePlanView) -> Text {
    let head = HEADER@ + SPATIAL_INDEXES_HEAD@;
    let noted = if has_primary(plan) {
        head
    } else {
        head + "    // (no spatial indexes in this interface DB)\n"@
    };
    noted + index_blocks(plan).flatten() + SPATIAL_BUILD_RUNTIME@ + SPATIAL_QUERY_RUNTIME@
        + SPATIAL_SHARED_RUNTIME@ + index_heading()
}

/// The spatial-index module for `plan`.
pub open spec fn spatial_indexes_text(plan: BridgePlanView) -> Text {
    spatial_index_code(plan) + index_sections(plan).flatten()
}

/// The first index that declares capabilities, if there is one.
pub fn find_primary<'a>(indexes: &'a Vec<SpatialIndex>) -> (r: Option<&'a SpatialIndex>)
    ensures
        match r {
            Some(ix) => primary_index(views(indexes@)) == Some(ix@),
            None => primary_index(views(indexes@)) is None,
        },
{
    let ghost all = views(indexes@);
    let mut i: usize = 0;
    assert(all.skip(0) =~= all);
    while i < indexes.len()
        invariant
            i <= indexes@.len(),
            all == views(indexes@),
            primary_index(all) == primary_index(all.skip(i as int)),
        decreases indexes@.len() - i,
    {
        assert(all.skip(i as int)[0] == all[i as int]);
        if indexes[i].capabilities_json.is_some() {
            return Some(&indexes[i]);
        }
        assert(all.skip(i as int).drop_first() =~= all.skip(i + 1));
        i = i + 1;
    }
    None
}

/// The registrations for an index with the capabilities `caps`.
pub fn index_lines_text(prefix: &str, quoted_name: &str, caps: &str) -> (r: String)
    ensures
        r@ == index_lines(prefix@, quoted_name@, caps@),
{
    let mut out = "    register_build_aggregate(conn, \"".to_owned();
    out.append(prefix);
    out.append("_spatial_index_build\", ");
    out.append(quoted_name);
    out.append(");\n");
    let mut envelope = "    register_query_tf(conn, \"".to_owned();
    envelope.append(prefix);
    envelope.append("_spatial_index_query_envelope\", QueryKind::Envelope);\n");
    out.append(envelope.as_str());
    if flag_set(caps, "knn") {
        let mut knn = "    register_query_tf(conn, \"".to_owned();
        knn.append(prefix);
        knn.append("_spatial_index_query_knn\", QueryKind::Knn);\n");
        out.append(knn.as_str());
    }
    if flag_set(caps, "within_distance_wkb") {
        let mut within = "    register_query_tf(conn, \"".to_owned();
        within.append(prefix);
        within.append("_spatial_index_within_distance\", QueryKind::WithinDistance);\n");
        out.append(within.as_str());
    }
    out
}

/// The registrations of one extension; none without a primary index.
pub fn index_block_text(ext: &Extension) -> (r: String)
    ensures
        r@ == index_block(ext@),
{
    match find_primary(&ext.spatial_indexes) {
        Some(ix) => match &ix.capabilities_json {
            Some(caps) => {
                let prefix = sanitize_fn_prefix(ext.name.as_str());
                let name = literal_text(ix.name.as_str());
                index_lines_text(prefix.as_str(), name.as_str(), caps.as_str())
            },
            None => String::new(),
        },
        None => String::new(),
    }
}

/// Whether some extension has a primary index.
fn any_primary(plan: &BridgePlan) -> (r: bool)
    ensures
        r == has_primary(plan@),
{
    let mut i: usize = 0;
    while i < plan.extensions.len()
        invariant
            i <= plan.extensions@.len(),
            forall|k: int|
                0 <= k < i ==> primary_index(
                    (#[trigger] plan@.extensions[k]).spatial_indexes,
                ) is None,
        decreases plan.extensions@.len() - i,
    {
        if find_primary(&plan.extensions[i].spatial_indexes).is_some() {
            assert(primary_index(plan@.extensions[i as int].spatial_indexes) is Some);
            return true;
        }
        i = i + 1;
    }
    false
}

/// The entry of one index in the listing.
pub fn index_entry_text(ix: &SpatialIndex) -> (r: String)
    ensures
        r@ == index_entry(ix@),
{
    let mut out = "// index `".to_owned();
    out.append(ix.name.as_str());
    out.append("` type_id=");
    out.append(signed_text(ix.type_id).as_str());
    out.append(" caps=");
    match &ix.capabilities_json {
        Some(caps) => {
            out.append(caps.as_str());
        },
        None => {
            out.append("(none)");
        },
    }
    out.append("\n");
    out
}

/// The listing of one extension.
pub fn index_section_text(ext: &Extension) -> (r: String)
    ensures
        r@ == index_section(ext@),
{
    let mut out = extension_heading_text(ext);
    let entries = map_texts(
        &refs(&ext.spatial_indexes),
        index_entry_text,
        Ghost(index_entries(ext@)),
    );
    out.append(concat_texts(&entries).as_str());
    out
}

/// The spatial-index module for `plan`: the primary index of each extension gets
/// a build aggregate, an envelope query and the queries its capabilities allow.
pub fn spatial_indexes_rs(plan: &BridgePlan) -> (r: String)
    ensures
        r@ == spatial_indexes_text(plan@),
{
    let mut s = generated_header();
    s.append(SPATIAL_INDEXES_HEAD);
    if !any_primary(plan) {
        s.append("    // (no spatial indexes in this interface DB)\n");
    }
    let blocks = map_texts(&refs(&plan.extensions), index_block_text, Ghost(index_blocks(plan@)));
    s.append(concat_texts(&blocks).as_str());
    s.append(SPATIAL_BUILD_RUNTIME);
    s.append(SPATIAL_QUERY_RUNTIME);
    s.append(SPATIAL_SHARED_RUNTIME);
    s.append(
        "\n// ----------------------------------------------------------------------\n// Spatial indexes the shim advertises.\n// ----------------------------------------------------------------------\n\n",
    );
    let sections = map_texts(
        &refs(&plan.extensions),
        index_section_text,
        Ghost(index_sections(plan@)),
    );
    s.append(concat_texts(&sections).as_str());
    s
}

} // verus!
