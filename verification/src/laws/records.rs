//! What the views of a plan's records show.

use vstd::prelude::*;

use crate::bridge::BridgeFile;
use crate::plan::{
    AggregateFunction, BridgePlan, CastRewrite, CatalogColumn, ColumnType, Extension, Operator,
    PreprocessorPattern, ScalarFunction, SpatialIndex, SystemCatalogTable, TableFunction,
    WindowFunction,
};
use crate::text::Text;

verus! {

/// Whether `shown` is the views of `items`, one for each and in order.
pub open spec fn shows_each<T: View>(shown: Seq<T::V>, items: Seq<T>) -> bool {
    &&& shown.len() == items.len()
    &&& forall|i: int| 0 <= i < items.len() ==> #[trigger] shown[i] == items[i].view()
}

/// Whether `shown` is the type names of `sigs`, signature by signature and in order.
pub open spec fn shows_signatures(shown: Seq<Seq<Text>>, sigs: Seq<Vec<String>>) -> bool {
    &&& shown.len() == sigs.len()
    &&& forall|i: int| 0 <= i < sigs.len() ==> shows_each(#[trigger] shown[i], sigs[i]@)
}

/// The view of a scalar function shows every field as it is recorded.
pub proof fn law_view_of_scalar_function(r: ScalarFunction)
    ensures
        r@.canonical_name == r.canonical_name@,
        shows_each(r@.aliases, r.aliases@),
        shows_signatures(r@.param_signatures, r.param_signatures@),
        r@.return_type == r.return_type@,
{
}

/// The view of an aggregate shows every field as it is recorded.
pub proof fn law_view_of_aggregate_function(r: AggregateFunction)
    ensures
        r@.canonical_name == r.canonical_name@,
        shows_each(r@.aliases, r.aliases@),
        shows_signatures(r@.param_signatures, r.param_signatures@),
{
}

/// The view of a table function shows every field as it is recorded.
pub proof fn law_view_of_table_function(r: TableFunction)
    ensures
        r@.canonical_name == r.canonical_name@,
        shows_each(r@.aliases, r.aliases@),
        shows_signatures(r@.param_signatures, r.param_signatures@),
{
}

/// The view of a window function shows every field as it is recorded.
pub proof fn law_view_of_window_function(r: WindowFunction)
    ensures
        r@.canonical_name == r.canonical_name@,
{
}

/// The view of a column type shows every field as it is recorded.
pub proof fn law_view_of_column_type(r: ColumnType)
    ensures
        r@.type_id == r.type_id,
        r@.name == r.name@,
        r@.storage_size == r.storage_size,
        shows_each(r@.cast_from, r.cast_from@),
        shows_each(r@.cast_to, r.cast_to@),
{
}

/// The view of an operator shows every field as it is recorded.
pub proof fn law_view_of_operator(r: Operator)
    ensures
        r@.symbol == r.symbol@,
        r@.lhs_type_id == r.lhs_type_id,
        r@.rhs_type_id == r.rhs_type_id,
        r@.function_name == r.function_name@,
{
}

/// The view of a cast rewrite shows every field as it is recorded.
pub proof fn law_view_of_cast_rewrite(r: CastRewrite)
    ensures
        r@.source_kind == r.source_kind@,
        r@.target_type == r.target_type@,
        r@.function_name == r.function_name@,
        r@.source_fn_hint == r.source_fn_hint@,
{
}

/// The view of a token rewrite shows every field as it is recorded.
pub proof fn law_view_of_preprocessor_pattern(r: PreprocessorPattern)
    ensures
        r@.op_token == r.op_token@,
        r@.function_name == r.function_name@,
{
}

/// The view of a catalog column shows every field as it is recorded.
pub proof fn law_view_of_catalog_column(r: CatalogColumn)
    ensures
        r@.name == r.name@,
        r@.data_type == r.data_type@,
        r@.nullable == r.nullable,
{
}

/// The view of a catalog table shows every field as it is recorded.
pub proof fn law_view_of_system_catalog_table(r: SystemCatalogTable)
    ensures
        r@.catalog_name == r.catalog_name@,
        r@.table_name == r.table_name@,
        shows_each(r@.columns, r.columns@),
{
}

/// The view of a spatial index shows every field as it is recorded.
pub proof fn law_view_of_spatial_index(r: SpatialIndex)
    ensures
        r@.name == r.name@,
        r@.type_id == r.type_id,
        r@.capabilities_json is Some == r.capabilities_json is Some,
        r.capabilities_json matches Some(s) ==> r@.capabilities_json->0 == s@,
{
}

/// The view of an extension shows every field as it is recorded.
pub proof fn law_view_of_extension(r: Extension)
    ensures
        r@.name == r.name@,
        r@.version == r.version@,
        shows_each(r@.scalars, r.scalars@),
        shows_each(r@.aggregates, r.aggregates@),
        shows_each(r@.table_functions, r.table_functions@),
        shows_each(r@.window_functions, r.window_functions@),
        shows_each(r@.column_types, r.column_types@),
        shows_each(r@.operators, r.operators@),
        shows_each(r@.cast_rewrites, r.cast_rewrites@),
        shows_each(r@.preprocessor_patterns, r.preprocessor_patterns@),
        shows_each(r@.system_catalog_tables, r.system_catalog_tables@),
        shows_each(r@.spatial_indexes, r.spatial_indexes@),
{
}

/// The view of a plan shows every field as it is recorded.
pub proof fn law_view_of_bridge_plan(r: BridgePlan)
    ensures
        shows_each(r@.extensions, r.extensions@),
{
}

/// The view of a file shows its path and what it holds.
pub proof fn law_view_of_bridge_file(r: BridgeFile)
    ensures
        r@.path == r.path@,
        r@.contents == r.contents@,
{
}

} // verus!
