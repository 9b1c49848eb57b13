//! The plan that a bridge crate is generated from.
//!
//! Each type holds as plain values what the shim's interface database records;
//! its view is the same record over character sequences.

use vstd::prelude::*;

use crate::text::Text;

verus! {

/// The views of the elements of `v`, in order.
pub open spec fn views<T: View>(v: Seq<T>) -> Seq<T::V> {
    Seq::new(v.len(), |i: int| v[i].view())
}

/// The views of the strings of each signature in `v`, in order.
pub open spec fn signature_views(v: Seq<Vec<String>>) -> Seq<Seq<Text>> {
    Seq::new(v.len(), |i: int| views(v[i]@))
}

/// A scalar function that the shim publishes.
#[derive(Debug)]
pub struct ScalarFunction {
    /// The name it is registered under.
    pub canonical_name: String,
    /// Further names for the same function.
    pub aliases: Vec<String>,
    /// One list of parameter type names per overload.
    pub param_signatures: Vec<Vec<String>>,
    /// The type name of the result.
    pub return_type: String,
}

/// The view of [`ScalarFunction`].
pub struct ScalarFunctionView {
    pub canonical_name: Text,
    pub aliases: Seq<Text>,
    pub param_signatures: Seq<Seq<Text>>,
    pub return_type: Text,
}

impl View for ScalarFunction {
    type V = ScalarFunctionView;

    open spec fn view(&self) -> ScalarFunctionView {
        ScalarFunctionView {
            canonical_name: self.canonical_name@,
            aliases: views(self.aliases@),
            param_signatures: signature_views(self.param_signatures@),
            return_type: self.return_type@,
        }
    }
}

/// An aggregate function that the shim publishes.
#[derive(Debug)]
pub struct AggregateFunction {
    /// The name it is registered under.
    pub canonical_name: String,
    /// Further names for the same function.
    pub aliases: Vec<String>,
    /// One list of parameter type names per overload.
    pub param_signatures: Vec<Vec<String>>,
}

/// The view of [`AggregateFunction`].
pub struct AggregateFunctionView {
    pub canonical_name: Text,
    pub aliases: Seq<Text>,
    pub param_signatures: Seq<Seq<Text>>,
}

impl View for AggregateFunction {
    type V = AggregateFunctionView;

    open spec fn view(&self) -> AggregateFunctionView {
        AggregateFunctionView {
            canonical_name: self.canonical_name@,
            aliases: views(self.aliases@),
            param_signatures: signature_views(self.param_signatures@),
        }
    }
}

/// A table function that the shim publishes.
#[derive(Debug)]
pub struct TableFunction {
    /// The name it is registered under.
    pub canonical_name: String,
    /// Further names for the same function.
    pub aliases: Vec<String>,
    /// One list of parameter type names per overload.
    pub param_signatures: Vec<Vec<String>>,
}

/// The view of [`TableFunction`].
pub struct TableFunctionView {
    pub canonical_name: Text,
    pub aliases: Seq<Text>,
    pub param_signatures: Seq<Seq<Text>>,
}

impl View for TableFunction {
    type V = TableFunctionView;

    open spec fn view(&self) -> TableFunctionView {
        TableFunctionView {
            canonical_name: self.canonical_name@,
            aliases: views(self.aliases@),
            param_signatures: signature_views(self.param_signatures@),
        }
    }
}

/// A window function that the shim publishes.
#[derive(Debug)]
pub struct WindowFunction {
    /// Its name.
    pub canonical_name: String,
}

/// The view of [`WindowFunction`].
pub struct WindowFunctionView {
    pub canonical_name: Text,
}

impl View for WindowFunction {
    type V = WindowFunctionView;

    open spec fn view(&self) -> WindowFunctionView {
        WindowFunctionView {
            canonical_name: self.canonical_name@,
        }
    }
}

/// A custom column type that the shim publishes.
#[derive(Debug)]
pub struct ColumnType {
    /// The id of the type.
    pub type_id: i64,
    /// The name of the type.
    pub name: String,
    /// Its storage size, as recorded.
    pub storage_size: i64,
    /// The types it can be cast from.
    pub cast_from: Vec<String>,
    /// The types it can be cast to.
    pub cast_to: Vec<String>,
}

/// The view of [`ColumnType`].
pub struct ColumnTypeView {
    pub type_id: i64,
    pub name: Text,
    pub storage_size: i64,
    pub cast_from: Seq<Text>,
    pub cast_to: Seq<Text>,
}

impl View for ColumnType {
    type V = ColumnTypeView;

    open spec fn view(&self) -> ColumnTypeView {
        ColumnTypeView {
            type_id: self.type_id,
            name: self.name@,
            storage_size: self.storage_size,
            cast_from: views(self.cast_from@),
            cast_to: views(self.cast_to@),
        }
    }
}

/// An operator that the shim publishes.
#[derive(Debug)]
pub struct Operator {
    /// The operator symbol.
    pub symbol: String,
    /// The type id of the left operand, if it is fixed.
    pub lhs_type_id: Option<i64>,
    /// The type id of the right operand, if it is fixed.
    pub rhs_type_id: Option<i64>,
    /// The function it stands for.
    pub function_name: String,
}

/// The view of [`Operator`].
pub struct OperatorView {
    pub symbol: Text,
    pub lhs_type_id: Option<i64>,
    pub rhs_type_id: Option<i64>,
    pub function_name: Text,
}

impl View for Operator {
    type V = OperatorView;

    open spec fn view(&self) -> OperatorView {
        OperatorView {
            symbol: self.symbol@,
            lhs_type_id: self.lhs_type_id,
            rhs_type_id: self.rhs_type_id,
            function_name: self.function_name@,
        }
    }
}

/// A cast that the shim rewrites into a function call.
#[derive(Debug)]
pub struct CastRewrite {
    /// The kind of source expression.
    pub source_kind: String,
    /// The type that is cast to.
    pub target_type: String,
    /// The function that performs the cast.
    pub function_name: String,
    /// A hint about the source expression.
    pub source_fn_hint: String,
}

/// The view of [`CastRewrite`].
pub struct CastRewriteView {
    pub source_kind: Text,
    pub target_type: Text,
    pub function_name: Text,
    pub source_fn_hint: Text,
}

impl View for CastRewrite {
    type V = CastRewriteView;

    open spec fn view(&self) -> CastRewriteView {
        CastRewriteView {
            source_kind: self.source_kind@,
            target_type: self.target_type@,
            function_name: self.function_name@,
            source_fn_hint: self.source_fn_hint@,
        }
    }
}

/// A token that the shim rewrites into a function call.
#[derive(Debug)]
pub struct PreprocessorPattern {
    /// The token.
    pub op_token: String,
    /// The function it stands for.
    pub function_name: String,
}

/// The view of [`PreprocessorPattern`].
pub struct PreprocessorPatternView {
    pub op_token: Text,
    pub function_name: Text,
}

impl View for PreprocessorPattern {
    type V = PreprocessorPatternView;

    open spec fn view(&self) -> PreprocessorPatternView {
        PreprocessorPatternView {
            op_token: self.op_token@,
            function_name: self.function_name@,
        }
    }
}

/// A column of a system-catalog table.
#[derive(Debug)]
pub struct CatalogColumn {
    /// The column name.
    pub name: String,
    /// The type name of the column.
    pub data_type: String,
    /// Whether the column may hold NULL.
    pub nullable: bool,
}

/// The view of [`CatalogColumn`].
pub struct CatalogColumnView {
    pub name: Text,
    pub data_type: Text,
    pub nullable: bool,
}

impl View for CatalogColumn {
    type V = CatalogColumnView;

    open spec fn view(&self) -> CatalogColumnView {
        CatalogColumnView {
            name: self.name@,
            data_type: self.data_type@,
            nullable: self.nullable,
        }
    }
}

/// A system-catalog table that the shim publishes.
#[derive(Debug)]
pub struct SystemCatalogTable {
    /// The catalog it belongs to.
    pub catalog_name: String,
    /// The table name.
    pub table_name: String,
    /// Its columns, in order.
    pub columns: Vec<CatalogColumn>,
}

/// The view of [`SystemCatalogTable`].
pub struct SystemCatalogTableView {
    pub catalog_name: Text,
    pub table_name: Text,
    pub columns: Seq<CatalogColumnView>,
}

impl View for SystemCatalogTable {
    type V = SystemCatalogTableView;

    open spec fn view(&self) -> SystemCatalogTableView {
        SystemCatalogTableView {
            catalog_name: self.catalog_name@,
            table_name: self.table_name@,
            columns: views(self.columns@),
        }
    }
}

/// A spatial index that the shim publishes.
#[derive(Debug)]
pub struct SpatialIndex {
    /// The builder alias of the index.
    pub name: String,
    /// The id of the indexed type.
    pub type_id: i64,
    /// A flat JSON object of boolean flags, where the index declares its capabilities.
    pub capabilities_json: Option<String>,
}

/// The view of [`SpatialIndex`].
pub struct SpatialIndexView {
    pub name: Text,
    pub type_id: i64,
    pub capabilities_json: Option<Text>,
}

impl View for SpatialIndex {
    type V = SpatialIndexView;

    open spec fn view(&self) -> SpatialIndexView {
        SpatialIndexView {
            name: self.name@,
            type_id: self.type_id,
            capabilities_json: match self.capabilities_json {
                Some(s) => Some(s@),
                None => None,
            },
        }
    }
}

/// One extension of the shim, with everything it publishes.
#[derive(Debug)]
pub struct Extension {
    /// The extension name.
    pub name: String,
    /// The extension version.
    pub version: String,
    /// Its scalar functions.
    pub scalars: Vec<ScalarFunction>,
    /// Its aggregate functions.
    pub aggregates: Vec<AggregateFunction>,
    /// Its table functions.
    pub table_functions: Vec<TableFunction>,
    /// Its window functions.
    pub window_functions: Vec<WindowFunction>,
    /// Its column types.
    pub column_types: Vec<ColumnType>,
    /// Its operators.
    pub operators: Vec<Operator>,
    /// Its cast rewrites.
    pub cast_rewrites: Vec<CastRewrite>,
    /// Its token rewrites.
    pub preprocessor_patterns: Vec<PreprocessorPattern>,
    /// Its system-catalog tables.
    pub system_catalog_tables: Vec<SystemCatalogTable>,
    /// Its spatial indexes.
    pub spatial_indexes: Vec<SpatialIndex>,
}

/// The view of [`Extension`].
pub struct ExtensionView {
    pub name: Text,
    pub version: Text,
    pub scalars: Seq<ScalarFunctionView>,
    pub aggregates: Seq<AggregateFunctionView>,
    pub table_functions: Seq<TableFunctionView>,
    pub window_functions: Seq<WindowFunctionView>,
    pub column_types: Seq<ColumnTypeView>,
    pub operators: Seq<OperatorView>,
    pub cast_rewrites: Seq<CastRewriteView>,
    pub preprocessor_patterns: Seq<PreprocessorPatternView>,
    pub system_catalog_tables: Seq<SystemCatalogTableView>,
    pub spatial_indexes: Seq<SpatialIndexView>,
}

impl View for Extension {
    type V = ExtensionView;

    open spec fn view(&self) -> ExtensionView {
        ExtensionView {
            name: self.name@,
            version: self.version@,
            scalars: views(self.scalars@),
            aggregates: views(self.aggregates@),
            table_functions: views(self.table_functions@),
            window_functions: views(self.window_functions@),
            column_types: views(self.column_types@),
            operators: views(self.operators@),
            cast_rewrites: views(self.cast_rewrites@),
            preprocessor_patterns: views(self.preprocessor_patterns@),
            system_catalog_tables: views(self.system_catalog_tables@),
            spatial_indexes: views(self.spatial_indexes@),
        }
    }
}

/// What a bridge crate is generated from: the extensions of one shim, the primary
/// one first.
#[derive(Debug)]
pub struct BridgePlan {
    /// The extensions, in the order they were recorded.
    pub extensions: Vec<Extension>,
}

/// The view of [`BridgePlan`].
pub struct BridgePlanView {
    pub extensions: Seq<ExtensionView>,
}

impl View for BridgePlan {
    type V = BridgePlanView;

    open spec fn view(&self) -> BridgePlanView {
        BridgePlanView {
            extensions: views(self.extensions@),
        }
    }
}

} // verus!
