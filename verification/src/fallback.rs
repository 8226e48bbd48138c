//! Statements read by token parsing where a full SQL parse is not available:
//! the statement kinds, their models, and the conversions from the token
//! parsers' results.

use vstd::prelude::*;
use crate::cursor::opt_str;
use crate::text::{str_to_string, append_string};
use crate::lexer::{SqlToken, views};
use crate::statement_parser::{dml_name, drop_type_name, cte_dml, merge_output, xml_update, drop_statement, try_parse_cte_dml, try_parse_merge_output, try_parse_xml_update, try_parse_drop};
use crate::trigger_parser::{TriggerView, trigger_definition, parse_create_trigger};
use crate::constraint_parser::{TokenParsedConstraint, TokenParsedConstraintColumn, alter_add_constraint, parse_alter_table_add_constraint};
use crate::extended_property_parser::{TokenParsedExtendedProperty, extended_property, parse_extended_property, parse_extended_property_tokens};
use crate::patterns::{regex_capture_groups, group_of, regex_captures, capture_group};
use crate::lexer::lex_sql;
use crate::function_parser::{TokenParsedFunctionType, FunctionParameterView, function_full, parse_function, detected_function_type, detect_function_type_tokens};
use crate::storage_parser::strings_view;
use crate::extended_property_parser::ExtendedPropertyView;
use crate::constraint_parser::ConstraintView;
use crate::table_type_parser::{ExtractedConstraintColumn, ExtractedTableTypeColumn, ExtractedTableTypeConstraint, TableTypeColumnView, TableTypeConstraintView, key_cols_view, tt_columns_view, tt_constraints_view};

verus! {

/// An extended property set by `sp_addextendedproperty`.
#[derive(Debug, Clone)]
pub struct ExtractedExtendedProperty {
    /// Property name (`MS_Description`).
    pub property_name: String,
    /// Property value.
    pub property_value: String,
    /// Level 0 name (the schema).
    pub level0name: String,
    /// Level 1 type (`TABLE`).
    pub level1type: Option<String>,
    /// Level 1 name.
    pub level1name: Option<String>,
    /// Level 2 type (`COLUMN`).
    pub level2type: Option<String>,
    /// Level 2 name.
    pub level2name: Option<String>,
}

impl View for ExtractedExtendedProperty {
    type V = ExtendedPropertyView;

    open spec fn view(&self) -> ExtendedPropertyView {
        ExtendedPropertyView {
            property_name: self.property_name@,
            property_value: self.property_value@,
            level0name: self.level0name@,
            level1type: opt_str(self.level1type),
            level1name: opt_str(self.level1name),
            level2type: opt_str(self.level2type),
            level2name: opt_str(self.level2name),
        }
    }
}

/// A parameter of a function.
#[derive(Debug, Clone)]
pub struct ExtractedFunctionParameter {
    /// Name, with its `@`.
    pub name: String,
    /// Data type (`DECIMAL(18, 2)`).
    pub data_type: String,
}

impl View for ExtractedFunctionParameter {
    type V = (Seq<char>, Seq<char>);

    open spec fn view(&self) -> (Seq<char>, Seq<char>) {
        (self.name@, self.data_type@)
    }
}

pub open spec fn params_view(v: Seq<ExtractedFunctionParameter>) -> Seq<(Seq<char>, Seq<char>)> {
    v.map_values(|p: ExtractedFunctionParameter| p@)
}

/// A column of a table.
#[derive(Debug, Clone)]
pub struct ExtractedTableColumn {
    /// Column name.
    pub name: String,
    /// Data type; empty for a computed column.
    pub data_type: String,
    /// `Some(true)` for `NULL`, `Some(false)` for `NOT NULL`, `None` otherwise.
    pub nullability: Option<bool>,
    pub is_identity: bool,
    pub is_rowguidcol: bool,
    pub is_sparse: bool,
    pub is_filestream: bool,
    /// Name of the inline default constraint.
    pub default_constraint_name: Option<String>,
    /// Default value expression.
    pub default_value: Option<String>,
    /// Whether the default constraint's name is written out.
    pub emit_default_constraint_name: bool,
    /// Name of the inline check constraint.
    pub check_constraint_name: Option<String>,
    /// Check expression.
    pub check_expression: Option<String>,
    /// Whether the check constraint's name is written out.
    pub emit_check_constraint_name: bool,
    /// Expression of a computed column.
    pub computed_expression: Option<String>,
    pub is_persisted: bool,
    /// Collation name.
    pub collation: Option<String>,
    pub is_generated_always_start: bool,
    pub is_generated_always_end: bool,
    pub is_hidden: bool,
    /// Dynamic data masking function.
    pub masking_function: Option<String>,
}

pub struct TableColumnView {
    pub name: Seq<char>,
    pub data_type: Seq<char>,
    pub nullability: Option<bool>,
    pub is_identity: bool,
    pub is_rowguidcol: bool,
    pub is_sparse: bool,
    pub is_filestream: bool,
    pub default_constraint_name: Option<Seq<char>>,
    pub default_value: Option<Seq<char>>,
    pub emit_default_constraint_name: bool,
    pub check_constraint_name: Option<Seq<char>>,
    pub check_expression: Option<Seq<char>>,
    pub emit_check_constraint_name: bool,
    pub computed_expression: Option<Seq<char>>,
    pub is_persisted: bool,
    pub collation: Option<Seq<char>>,
    pub is_generated_always_start: bool,
    pub is_generated_always_end: bool,
    pub is_hidden: bool,
    pub masking_function: Option<Seq<char>>,
}

impl View for ExtractedTableColumn {
    type V = TableColumnView;

    open spec fn view(&self) -> TableColumnView {
        TableColumnView {
            name: self.name@,
            data_type: self.data_type@,
            nullability: self.nullability,
            is_identity: self.is_identity,
            is_rowguidcol: self.is_rowguidcol,
            is_sparse: self.is_sparse,
            is_filestream: self.is_filestream,
            default_constraint_name: opt_str(self.default_constraint_name),
            default_value: opt_str(self.default_value),
            emit_default_constraint_name: self.emit_default_constraint_name,
            check_constraint_name: opt_str(self.check_constraint_name),
            check_expression: opt_str(self.check_expression),
            emit_check_constraint_name: self.emit_check_constraint_name,
            computed_expression: opt_str(self.computed_expression),
            is_persisted: self.is_persisted,
            collation: opt_str(self.collation),
            is_generated_always_start: self.is_generated_always_start,
            is_generated_always_end: self.is_generated_always_end,
            is_hidden: self.is_hidden,
            masking_function: opt_str(self.masking_function),
        }
    }
}

pub open spec fn table_columns_view(v: Seq<ExtractedTableColumn>) -> Seq<TableColumnView> {
    v.map_values(|c: ExtractedTableColumn| c@)
}

/// A table constraint.
#[derive(Debug, Clone)]
pub enum ExtractedTableConstraint {
    PrimaryKey { name: String, columns: Vec<ExtractedConstraintColumn>, is_clustered: bool },
    ForeignKey {
        name: String,
        columns: Vec<String>,
        referenced_table: String,
        referenced_columns: Vec<String>,
    },
    Unique { name: String, columns: Vec<ExtractedConstraintColumn>, is_clustered: bool },
    Check { name: String, expression: String },
}

impl View for ExtractedTableConstraint {
    type V = ConstraintView;

    open spec fn view(&self) -> ConstraintView {
        match self {
            ExtractedTableConstraint::PrimaryKey { name, columns, is_clustered } => ConstraintView::PrimaryKey {
                name: name@,
                columns: key_cols_view(columns@),
                is_clustered: *is_clustered,
            },
            ExtractedTableConstraint::ForeignKey {
                name,
                columns,
                referenced_table,
                referenced_columns,
            } => ConstraintView::ForeignKey {
                name: name@,
                columns: strings_view(columns@),
                referenced_table: referenced_table@,
                referenced_columns: strings_view(referenced_columns@),
            },
            ExtractedTableConstraint::Unique { name, columns, is_clustered } => ConstraintView::Unique {
                name: name@,
                columns: key_cols_view(columns@),
                is_clustered: *is_clustered,
            },
            ExtractedTableConstraint::Check { name, expression } => ConstraintView::Check {
                name: name@,
                expression: expression@,
            },
        }
    }
}

pub open spec fn table_constraints_view(v: Seq<ExtractedTableConstraint>) -> Seq<ConstraintView> {
    v.map_values(|c: ExtractedTableConstraint| c@)
}

/// A column of a full-text index, with its language.
#[derive(Debug, Clone)]
pub struct ExtractedFullTextColumn {
    pub name: String,
    /// Language id (1033 for English).
    pub language_id: Option<u32>,
}

impl View for ExtractedFullTextColumn {
    type V = (Seq<char>, Option<u32>);

    open spec fn view(&self) -> (Seq<char>, Option<u32>) {
        (self.name@, self.language_id)
    }
}

pub open spec fn fulltext_columns_view(v: Seq<ExtractedFullTextColumn>) -> Seq<(Seq<char>, Option<u32>)> {
    v.map_values(|c: ExtractedFullTextColumn| c@)
}

/// A key column of an index and its sort order.
#[derive(Debug, Clone)]
pub struct ParsedIndexColumn {
    pub name: String,
    pub is_descending: bool,
}

impl View for ParsedIndexColumn {
    type V = (Seq<char>, bool);

    open spec fn view(&self) -> (Seq<char>, bool) {
        (self.name@, self.is_descending)
    }
}

pub open spec fn index_columns_view(v: Seq<ParsedIndexColumn>) -> Seq<(Seq<char>, bool)> {
    v.map_values(|c: ParsedIndexColumn| c@)
}

/// Kind of a function.
#[derive(Debug, Clone, Copy, PartialEq, Eq, Structural)]
pub enum FallbackFunctionType {
    Scalar,
    TableValued,
    InlineTableValued,
}

/// A statement read by token parsing.
#[derive(Debug, Clone)]
pub enum FallbackStatementType {
    Procedure { schema: String, name: String },
    Function {
        schema: String,
        name: String,
        function_type: FallbackFunctionType,
        parameters: Vec<ExtractedFunctionParameter>,
        return_type: Option<String>,
    },
    Index {
        name: String,
        table_schema: String,
        table_name: String,
        columns: Vec<ParsedIndexColumn>,
        include_columns: Vec<String>,
        is_unique: bool,
        is_clustered: bool,
        fill_factor: Option<u8>,
        filter_predicate: Option<String>,
        data_compression: Option<String>,
        is_padded: bool,
    },
    ColumnstoreIndex {
        name: String,
        table_schema: String,
        table_name: String,
        is_clustered: bool,
        columns: Vec<String>,
        data_compression: Option<String>,
        filter_predicate: Option<String>,
    },
    FullTextIndex {
        table_schema: String,
        table_name: String,
        columns: Vec<ExtractedFullTextColumn>,
        key_index: String,
        catalog: Option<String>,
        change_tracking: Option<String>,
    },
    FullTextCatalog { name: String, is_default: bool },
    Sequence {
        schema: String,
        name: String,
        data_type: Option<String>,
        start_value: Option<i64>,
        increment_value: Option<i64>,
        min_value: Option<i64>,
        max_value: Option<i64>,
        is_cycling: bool,
        has_no_min_value: bool,
        has_no_max_value: bool,
        cache_size: Option<i64>,
    },
    UserDefinedType {
        schema: String,
        name: String,
        columns: Vec<ExtractedTableTypeColumn>,
        constraints: Vec<ExtractedTableTypeConstraint>,
    },
    ScalarType {
        schema: String,
        name: String,
        base_type: String,
        is_nullable: bool,
        length: Option<i32>,
        precision: Option<u8>,
        scale: Option<u8>,
    },
    Table {
        schema: String,
        name: String,
        columns: Vec<ExtractedTableColumn>,
        constraints: Vec<ExtractedTableConstraint>,
        is_node: bool,
        is_edge: bool,
        system_time_start_column: Option<String>,
        system_time_end_column: Option<String>,
        is_system_versioned: bool,
        history_table_schema: Option<String>,
        history_table_name: Option<String>,
    },
    RawStatement { object_type: String, schema: String, name: String },
    Trigger {
        schema: String,
        name: String,
        parent_schema: String,
        parent_name: String,
        is_insert: bool,
        is_update: bool,
        is_delete: bool,
        trigger_type: u8,
    },
    ExtendedProperty { property: ExtractedExtendedProperty },
    AlterTableAddConstraint {
        table_schema: String,
        table_name: String,
        constraint: ExtractedTableConstraint,
    },
    Filegroup { name: String, contains_memory_optimized_data: bool },
    PartitionFunction {
        name: String,
        data_type: String,
        boundary_values: Vec<String>,
        is_range_right: bool,
    },
    PartitionScheme { name: String, partition_function: String, filegroups: Vec<String> },
    Synonym {
        schema: String,
        name: String,
        target_schema: String,
        target_name: String,
        target_database: Option<String>,
        target_server: Option<String>,
    },
    CreateUser {
        name: String,
        auth_type: String,
        login: Option<String>,
        default_schema: Option<String>,
    },
    CreateRole { name: String, owner: Option<String> },
    AlterRoleMembership { role: String, member: String, is_add: bool },
    Permission {
        action: String,
        permission: String,
        target_schema: Option<String>,
        target_name: Option<String>,
        target_type: String,
        principal: String,
        with_grant_option: bool,
        cascade: bool,
    },
    SkippedSecurityStatement { statement_type: String },
}

pub enum FallbackView {
    Procedure { schema: Seq<char>, name: Seq<char> },
    Function {
        schema: Seq<char>,
        name: Seq<char>,
        function_type: FallbackFunctionType,
        parameters: Seq<(Seq<char>, Seq<char>)>,
        return_type: Option<Seq<char>>,
    },
    Index {
        name: Seq<char>,
        table_schema: Seq<char>,
        table_name: Seq<char>,
        columns: Seq<(Seq<char>, bool)>,
        include_columns: Seq<Seq<char>>,
        is_unique: bool,
        is_clustered: bool,
        fill_factor: Option<u8>,
        filter_predicate: Option<Seq<char>>,
        data_compression: Option<Seq<char>>,
        is_padded: bool,
    },
    ColumnstoreIndex {
        name: Seq<char>,
        table_schema: Seq<char>,
        table_name: Seq<char>,
        is_clustered: bool,
        columns: Seq<Seq<char>>,
        data_compression: Option<Seq<char>>,
        filter_predicate: Option<Seq<char>>,
    },
    FullTextIndex {
        table_schema: Seq<char>,
        table_name: Seq<char>,
        columns: Seq<(Seq<char>, Option<u32>)>,
        key_index: Seq<char>,
        catalog: Option<Seq<char>>,
        change_tracking: Option<Seq<char>>,
    },
    FullTextCatalog { name: Seq<char>, is_default: bool },
    Sequence {
        schema: Seq<char>,
        name: Seq<char>,
        data_type: Option<Seq<char>>,
        start_value: Option<i64>,
        increment_value: Option<i64>,
        min_value: Option<i64>,
        max_value: Option<i64>,
        is_cycling: bool,
        has_no_min_value: bool,
        has_no_max_value: bool,
        cache_size: Option<i64>,
    },
    UserDefinedType {
        schema: Seq<char>,
        name: Seq<char>,
        columns: Seq<TableTypeColumnView>,
        constraints: Seq<TableTypeConstraintView>,
    },
    ScalarType {
        schema: Seq<char>,
        name: Seq<char>,
        base_type: Seq<char>,
        is_nullable: bool,
        length: Option<i32>,
        precision: Option<u8>,
        scale: Option<u8>,
    },
    Table {
        schema: Seq<char>,
        name: Seq<char>,
        columns: Seq<TableColumnView>,
        constraints: Seq<ConstraintView>,
        is_node: bool,
        is_edge: bool,
        system_time_start_column: Option<Seq<char>>,
        system_time_end_column: Option<Seq<char>>,
        is_system_versioned: bool,
        history_table_schema: Option<Seq<char>>,
        history_table_name: Option<Seq<char>>,
    },
    RawStatement { object_type: Seq<char>, schema: Seq<char>, name: Seq<char> },
    Trigger {
        schema: Seq<char>,
        name: Seq<char>,
        parent_schema: Seq<char>,
        parent_name: Seq<char>,
        is_insert: bool,
        is_update: bool,
        is_delete: bool,
        trigger_type: u8,
    },
    ExtendedProperty { property: ExtendedPropertyView },
    AlterTableAddConstraint {
        table_schema: Seq<char>,
        table_name: Seq<char>,
        constraint: ConstraintView,
    },
    Filegroup { name: Seq<char>, contains_memory_optimized_data: bool },
    PartitionFunction {
        name: Seq<char>,
        data_type: Seq<char>,
        boundary_values: Seq<Seq<char>>,
        is_range_right: bool,
    },
    PartitionScheme {
        name: Seq<char>,
        partition_function: Seq<char>,
        filegroups: Seq<Seq<char>>,
    },
    Synonym {
        schema: Seq<char>,
        name: Seq<char>,
        target_schema: Seq<char>,
        target_name: Seq<char>,
        target_database: Option<Seq<char>>,
        target_server: Option<Seq<char>>,
    },
    CreateUser {
        name: Seq<char>,
        auth_type: Seq<char>,
        login: Option<Seq<char>>,
        default_schema: Option<Seq<char>>,
    },
    CreateRole { name: Seq<char>, owner: Option<Seq<char>> },
    AlterRoleMembership { role: Seq<char>, member: Seq<char>, is_add: bool },
    Permission {
        action: Seq<char>,
        permission: Seq<char>,
        target_schema: Option<Seq<char>>,
        target_name: Option<Seq<char>>,
        target_type: Seq<char>,
        principal: Seq<char>,
        with_grant_option: bool,
        cascade: bool,
    },
    SkippedSecurityStatement { statement_type: Seq<char> },
}

impl View for FallbackStatementType {
    type V = FallbackView;

    open spec fn view(&self) -> FallbackView {
        match self {
            FallbackStatementType::Procedure { schema, name } => FallbackView::Procedure {
                schema: schema@,
                name: name@,
            },
            FallbackStatementType::Function {
                schema,
                name,
                function_type,
                parameters,
                return_type,
            } => FallbackView::Function {
                schema: schema@,
                name: name@,
                function_type: *function_type,
                parameters: params_view(parameters@),
                return_type: opt_str(*return_type),
            },
            FallbackStatementType::Index {
                name,
                table_schema,
                table_name,
                columns,
                include_columns,
                is_unique,
                is_clustered,
                fill_factor,
                filter_predicate,
                data_compression,
                is_padded,
            } => FallbackView::Index {
                name: name@,
                table_schema: table_schema@,
                table_name: table_name@,
                columns: index_columns_view(columns@),
                include_columns: strings_view(include_columns@),
                is_unique: *is_unique,
                is_clustered: *is_clustered,
                fill_factor: *fill_factor,
                filter_predicate: opt_str(*filter_predicate),
                data_compression: opt_str(*data_compression),
                is_padded: *is_padded,
            },
            FallbackStatementType::ColumnstoreIndex {
                name,
                table_schema,
                table_name,
                is_clustered,
                columns,
                data_compression,
                filter_predicate,
            } => FallbackView::ColumnstoreIndex {
                name: name@,
                table_schema: table_schema@,
                table_name: table_name@,
                is_clustered: *is_clustered,
                columns: strings_view(columns@),
                data_compression: opt_str(*data_compression),
                filter_predicate: opt_str(*filter_predicate),
            },
            FallbackStatementType::FullTextIndex {
                table_schema,
                table_name,
                columns,
                key_index,
                catalog,
                change_tracking,
            } => FallbackView::FullTextIndex {
                table_schema: table_schema@,
                table_name: table_name@,
                columns: fulltext_columns_view(columns@),
                key_index: key_index@,
                catalog: opt_str(*catalog),
                change_tracking: opt_str(*change_tracking),
            },
            FallbackStatementType::FullTextCatalog { name, is_default } => FallbackView::FullTextCatalog {
                name: name@,
                is_default: *is_default,
            },
            FallbackStatementType::Sequence {
                schema,
                name,
                data_type,
                start_value,
                increment_value,
                min_value,
                max_value,
                is_cycling,
                has_no_min_value,
                has_no_max_value,
                cache_size,
            } => FallbackView::Sequence {
                schema: schema@,
                name: name@,
                data_type: opt_str(*data_type),
                start_value: *start_value,
                increment_value: *increment_value,
                min_value: *min_value,
                max_value: *max_value,
                is_cycling: *is_cycling,
                has_no_min_value: *has_no_min_value,
                has_no_max_value: *has_no_max_value,
                cache_size: *cache_size,
            },
            FallbackStatementType::UserDefinedType { schema, name, columns, constraints } => FallbackView::UserDefinedType {
                schema: schema@,
                name: name@,
                columns: tt_columns_view(columns@),
                constraints: tt_constraints_view(constraints@),
            },
            FallbackStatementType::ScalarType {
                schema,
                name,
                base_type,
                is_nullable,
                length,
                precision,
                scale,
            } => FallbackView::ScalarType {
                schema: schema@,
                name: name@,
                base_type: base_type@,
                is_nullable: *is_nullable,
                length: *length,
                precision: *precision,
                scale: *scale,
            },
            FallbackStatementType::Table {
                schema,
                name,
                columns,
                constraints,
                is_node,
                is_edge,
                system_time_start_column,
                system_time_end_column,
                is_system_versioned,
                history_table_schema,
                history_table_name,
            } => FallbackView::Table {
                schema: schema@,
                name: name@,
                columns: table_columns_view(columns@),
                constraints: table_constraints_view(constraints@),
                is_node: *is_node,
                is_edge: *is_edge,
                system_time_start_column: opt_str(*system_time_start_column),
                system_time_end_column: opt_str(*system_time_end_column),
                is_system_versioned: *is_system_versioned,
                history_table_schema: opt_str(*history_table_schema),
                history_table_name: opt_str(*history_table_name),
            },
            FallbackStatementType::RawStatement { object_type, schema, name } => FallbackView::RawStatement {
                object_type: object_type@,
                schema: schema@,
                name: name@,
            },
            FallbackStatementType::Trigger {
                schema,
                name,
                parent_schema,
                parent_name,
                is_insert,
                is_update,
                is_delete,
                trigger_type,
            } => FallbackView::Trigger {
                schema: schema@,
                name: name@,
                parent_schema: parent_schema@,
                parent_name: parent_name@,
                is_insert: *is_insert,
                is_update: *is_update,
                is_delete: *is_delete,
                trigger_type: *trigger_type,
            },
            FallbackStatementType::ExtendedProperty { property } => FallbackView::ExtendedProperty {
                property: property@,
            },
            FallbackStatementType::AlterTableAddConstraint {
                table_schema,
                table_name,
                constraint,
            } => FallbackView::AlterTableAddConstraint {
                table_schema: table_schema@,
                table_name: table_name@,
                constraint: constraint@,
            },
            FallbackStatementType::Filegroup { name, contains_memory_optimized_data } => FallbackView::Filegroup {
                name: name@,
                contains_memory_optimized_data: *contains_memory_optimized_data,
            },
            FallbackStatementType::PartitionFunction {
                name,
                data_type,
                boundary_values,
                is_range_right,
            } => FallbackView::PartitionFunction {
                name: name@,
                data_type: data_type@,
                boundary_values: strings_view(boundary_values@),
                is_range_right: *is_range_right,
            },
            FallbackStatementType::PartitionScheme { name, partition_function, filegroups } => FallbackView::PartitionScheme {
                name: name@,
                partition_function: partition_function@,
                filegroups: strings_view(filegroups@),
            },
            FallbackStatementType::Synonym {
                schema,
                name,
                target_schema,
                target_name,
                target_database,
                target_server,
            } => FallbackView::Synonym {
                schema: schema@,
                name: name@,
                target_schema: target_schema@,
                target_name: target_name@,
                target_database: opt_str(*target_database),
                target_server: opt_str(*target_server),
            },
            FallbackStatementType::CreateUser { name, auth_type, login, default_schema } => FallbackView::CreateUser {
                name: name@,
                auth_type: auth_type@,
                login: opt_str(*login),
                default_schema: opt_str(*default_schema),
            },
            FallbackStatementType::CreateRole { name, owner } => FallbackView::CreateRole {
                name: name@,
                owner: opt_str(*owner),
            },
            FallbackStatementType::AlterRoleMembership { role, member, is_add } => FallbackView::AlterRoleMembership {
                role: role@,
                member: member@,
                is_add: *is_add,
            },
            FallbackStatementType::Permission {
                action,
                permission,
                target_schema,
                target_name,
                target_type,
                principal,
                with_grant_option,
                cascade,
            } => FallbackView::Permission {
                action: action@,
                permission: permission@,
                target_schema: opt_str(*target_schema),
                target_name: opt_str(*target_name),
                target_type: target_type@,
                principal: principal@,
                with_grant_option: *with_grant_option,
                cascade: *cascade,
            },
            FallbackStatementType::SkippedSecurityStatement { statement_type } => FallbackView::SkippedSecurityStatement {
                statement_type: statement_type@,
            },
        }
    }
}

pub open spec fn opt_fallback(r: Option<FallbackStatementType>) -> Option<FallbackView> {
    match r {
        Some(x) => Some(x@),
        None => None,
    }
}

// ---------------------------------------------------------------------------
// Statements from the token parsers' results
// ---------------------------------------------------------------------------

pub open spec fn raw_statement(object_type: Seq<char>, schema: Seq<char>, name: Seq<char>) -> FallbackView {
    FallbackView::RawStatement { object_type, schema, name }
}

fn raw(object_type: String, schema: String, name: String) -> (r: FallbackStatementType)
    ensures
        r@ == raw_statement(object_type@, schema@, name@),
{
    FallbackStatementType::RawStatement { object_type, schema, name }
}

/// A `DROP` statement as a raw statement named by its drop kind.
pub open spec fn drop_fallback(s: Seq<crate::lexer::TokenView>) -> Option<FallbackView> {
    match drop_statement(s) {
        Some(d) => Some(raw_statement(drop_type_name(d.drop_type), d.schema, d.name)),
        None => None,
    }
}

/// A `DROP` that the full parser does not take (`DROP SYNONYM`, `DROP TRIGGER`,
/// `DROP INDEX ... ON`, `DROP PROC`), as a raw statement.
pub fn try_drop_fallback_with_tokens(toks: &Vec<SqlToken>) -> (r: Option<FallbackStatementType>)
    ensures
        opt_fallback(r) == drop_fallback(views(toks@)),
{
    let parsed = match try_parse_drop(toks) {
        Some(p) => p,
        None => return None,
    };
    let object_type = str_to_string(parsed.drop_type.object_type_str());
    Some(raw(object_type, parsed.schema, parsed.name))
}

/// A CTE followed by DML, as the raw statement `CteWith<DML>` of `dbo.anonymous`.
pub open spec fn cte_dml_fallback(s: Seq<crate::lexer::TokenView>) -> Option<FallbackView> {
    match cte_dml(s) {
        Some(d) => Some(raw_statement("CteWith"@ + dml_name(d), "dbo"@, "anonymous"@)),
        None => None,
    }
}

pub fn try_cte_dml_fallback_with_tokens(toks: &Vec<SqlToken>) -> (r: Option<FallbackStatementType>)
    ensures
        opt_fallback(r) == cte_dml_fallback(views(toks@)),
{
    let parsed = match try_parse_cte_dml(toks) {
        Some(p) => p,
        None => return None,
    };
    let mut object_type = str_to_string("CteWith");
    let kind = str_to_string(parsed.dml_type.as_str());
    append_string(&mut object_type, &kind);
    Some(raw(object_type, str_to_string("dbo"), str_to_string("anonymous")))
}

/// A `MERGE` with `OUTPUT`, as the raw statement `MergeWithOutput` of its target.
pub open spec fn merge_output_fallback(s: Seq<crate::lexer::TokenView>) -> Option<FallbackView> {
    match merge_output(s) {
        Some((schema, name)) => Some(raw_statement("MergeWithOutput"@, schema, name)),
        None => None,
    }
}

pub fn try_merge_output_fallback_with_tokens(toks: &Vec<SqlToken>) -> (r: Option<FallbackStatementType>)
    ensures
        opt_fallback(r) == merge_output_fallback(views(toks@)),
{
    let parsed = match try_parse_merge_output(toks) {
        Some(p) => p,
        None => return None,
    };
    Some(raw(str_to_string("MergeWithOutput"), parsed.schema, parsed.name))
}

/// An `UPDATE` with XML methods, as the raw statement `UpdateWithXmlMethod` of
/// its table.
pub open spec fn xml_method_fallback(s: Seq<crate::lexer::TokenView>) -> Option<FallbackView> {
    match xml_update(s) {
        Some((schema, name)) => Some(raw_statement("UpdateWithXmlMethod"@, schema, name)),
        None => None,
    }
}

pub fn try_xml_method_fallback_with_tokens(toks: &Vec<SqlToken>) -> (r: Option<FallbackStatementType>)
    ensures
        opt_fallback(r) == xml_method_fallback(views(toks@)),
{
    let parsed = match try_parse_xml_update(toks) {
        Some(p) => p,
        None => return None,
    };
    Some(raw(str_to_string("UpdateWithXmlMethod"), parsed.schema, parsed.name))
}

pub open spec fn trigger_statement_view(t: TriggerView) -> FallbackView {
    FallbackView::Trigger {
        schema: t.schema,
        name: t.name,
        parent_schema: t.parent_schema,
        parent_name: t.parent_name,
        is_insert: t.is_insert,
        is_update: t.is_update,
        is_delete: t.is_delete,
        trigger_type: t.trigger_type,
    }
}

pub open spec fn trigger_fallback(s: Seq<crate::lexer::TokenView>) -> Option<FallbackView> {
    match trigger_definition(s) {
        Some(t) => Some(trigger_statement_view(t)),
        None => None,
    }
}

/// A `CREATE TRIGGER` as a trigger statement.
pub fn extract_trigger_info_with_tokens(toks: &Vec<SqlToken>) -> (r: Option<FallbackStatementType>)
    ensures
        opt_fallback(r) == trigger_fallback(views(toks@)),
{
    let t = match parse_create_trigger(toks) {
        Some(t) => t,
        None => return None,
    };
    Some(
        FallbackStatementType::Trigger {
            schema: t.schema,
            name: t.name,
            parent_schema: t.parent_schema,
            parent_name: t.parent_name,
            is_insert: t.is_insert,
            is_update: t.is_update,
            is_delete: t.is_delete,
            trigger_type: t.trigger_type,
        },
    )
}

fn convert_key_columns(cols: Vec<TokenParsedConstraintColumn>) -> (r: Vec<ExtractedConstraintColumn>)
    ensures
        key_cols_view(r@) == crate::constraint_parser::key_columns_view(cols@),
{
    let mut out: Vec<ExtractedConstraintColumn> = Vec::new();
    let mut i: usize = 0;
    while i < cols.len()
        invariant
            0 <= i <= cols.len(),
            key_cols_view(out@) == crate::constraint_parser::key_columns_view(cols@).subrange(
                0,
                i as int,
            ),
        decreases cols.len() - i,
    {
        let c = &cols[i];
        let ghost before = key_cols_view(out@);
        out.push(ExtractedConstraintColumn { name: c.name.clone(), descending: c.descending });
        assert(key_cols_view(out@) =~= before.push(cols@[i as int]@));
        assert(crate::constraint_parser::key_columns_view(cols@).subrange(0, i + 1)
            =~= crate::constraint_parser::key_columns_view(cols@).subrange(0, i as int).push(
            cols@[i as int]@,
        ));
        i = i + 1;
    }
    assert(crate::constraint_parser::key_columns_view(cols@).subrange(0, cols.len() as int)
        =~= crate::constraint_parser::key_columns_view(cols@));
    out
}

/// A parsed constraint as a table constraint; the two have the same model, so
/// nothing is lost or changed.
pub fn convert_token_parsed_constraint(parsed: TokenParsedConstraint) -> (r: ExtractedTableConstraint)
    ensures
        r@ == parsed@,
{
    match parsed {
        TokenParsedConstraint::PrimaryKey { name, columns, is_clustered } => ExtractedTableConstraint::PrimaryKey {
            name,
            columns: convert_key_columns(columns),
            is_clustered,
        },
        TokenParsedConstraint::Unique { name, columns, is_clustered } => ExtractedTableConstraint::Unique {
            name,
            columns: convert_key_columns(columns),
            is_clustered,
        },
        TokenParsedConstraint::ForeignKey {
            name,
            columns,
            referenced_table,
            referenced_columns,
        } => ExtractedTableConstraint::ForeignKey { name, columns, referenced_table, referenced_columns },
        TokenParsedConstraint::Check { name, expression } => ExtractedTableConstraint::Check {
            name,
            expression,
        },
    }
}

pub open spec fn alter_table_add_constraint_fallback(s: Seq<crate::lexer::TokenView>) -> Option<
    FallbackView,
> {
    match alter_add_constraint(s) {
        Some(a) => Some(
            FallbackView::AlterTableAddConstraint {
                table_schema: a.table_schema,
                table_name: a.table_name,
                constraint: a.constraint,
            },
        ),
        None => None,
    }
}

/// `ALTER TABLE ... ADD CONSTRAINT` as a statement.
pub fn extract_alter_table_add_constraint_with_tokens(toks: &Vec<SqlToken>) -> (r: Option<FallbackStatementType>)
    ensures
        opt_fallback(r) == alter_table_add_constraint_fallback(views(toks@)),
{
    let parsed = match parse_alter_table_add_constraint(toks) {
        Some(p) => p,
        None => return None,
    };
    let constraint = convert_token_parsed_constraint(parsed.constraint);
    Some(
        FallbackStatementType::AlterTableAddConstraint {
            table_schema: parsed.table_schema,
            table_name: parsed.table_name,
            constraint,
        },
    )
}

pub open spec fn fallback_kind(k: TokenParsedFunctionType) -> FallbackFunctionType {
    match k {
        TokenParsedFunctionType::Scalar => FallbackFunctionType::Scalar,
        TokenParsedFunctionType::TableValued => FallbackFunctionType::TableValued,
        TokenParsedFunctionType::InlineTableValued => FallbackFunctionType::InlineTableValued,
    }
}

/// The kind of function of a definition.
pub fn detect_function_type(sql: &str) -> (r: FallbackFunctionType)
    ensures
        r == fallback_kind(detected_function_type(sql@)),
{
    match detect_function_type_tokens(sql) {
        TokenParsedFunctionType::Scalar => FallbackFunctionType::Scalar,
        TokenParsedFunctionType::TableValued => FallbackFunctionType::TableValued,
        TokenParsedFunctionType::InlineTableValued => FallbackFunctionType::InlineTableValued,
    }
}

pub open spec fn param_name_type(p: FunctionParameterView) -> (Seq<char>, Seq<char>) {
    (p.name, p.data_type)
}

/// The parameters (name and type) of a `CREATE FUNCTION`; none when the header
/// does not parse.
pub open spec fn function_parameters(s: Seq<crate::lexer::TokenView>) -> Seq<(Seq<char>, Seq<char>)> {
    match function_full(s, false) {
        Some(f) => f.parameters.map_values(|p: FunctionParameterView| param_name_type(p)),
        None => Seq::empty(),
    }
}

pub fn extract_function_parameters_with_tokens(toks: &Vec<SqlToken>) -> (r: Vec<ExtractedFunctionParameter>)
    ensures
        params_view(r@) == function_parameters(views(toks@)),
{
    let mut out: Vec<ExtractedFunctionParameter> = Vec::new();
    let f = match parse_function(toks, false) {
        Some(f) => f,
        None => {
            assert(params_view(out@) =~= Seq::<(Seq<char>, Seq<char>)>::empty());
            return out;
        },
    };
    let ghost target = function_parameters(views(toks@));
    let mut i: usize = 0;
    while i < f.parameters.len()
        invariant
            0 <= i <= f.parameters.len(),
            target == f@.parameters.map_values(|p: FunctionParameterView| param_name_type(p)),
            f@.parameters.len() == f.parameters@.len(),
            forall|k: int| 0 <= k < f.parameters@.len() ==> #[trigger] f@.parameters[k] == f.parameters@[k]@,
            params_view(out@) == target.subrange(0, i as int),
        decreases f.parameters.len() - i,
    {
        let p = &f.parameters[i];
        let ghost before = params_view(out@);
        out.push(ExtractedFunctionParameter { name: p.name.clone(), data_type: p.data_type.clone() });
        assert(f@.parameters[i as int] == f.parameters@[i as int]@);
        assert(params_view(out@) =~= before.push(target[i as int]));
        assert(target.subrange(0, i + 1) =~= target.subrange(0, i as int).push(target[i as int]));
        i = i + 1;
    }
    assert(target.subrange(0, f.parameters.len() as int) =~= target);
    out
}

/// The return type of a `CREATE FUNCTION`, when its header parses and names one.
pub open spec fn function_return_type(s: Seq<crate::lexer::TokenView>) -> Option<Seq<char>> {
    match function_full(s, false) {
        Some(f) => f.return_type,
        None => None,
    }
}

pub fn extract_function_return_type_with_tokens(toks: &Vec<SqlToken>) -> (r: Option<String>)
    ensures
        opt_str(r) == function_return_type(views(toks@)),
{
    match parse_function(toks, false) {
        Some(f) => f.return_type,
        None => None,
    }
}

// ---------------------------------------------------------------------------
// Extended properties
// ---------------------------------------------------------------------------

/// Start of the pattern that reads `@<param> = N'value'`.
pub const PARAM_PATTERN_PREFIX: &'static str = "(?i)@";

/// End of the pattern that reads `@<param> = N'value'`.
pub const PARAM_PATTERN_SUFFIX: &'static str = "\\s*=\\s*N?'([^']*)'";

/// The quoted value given to parameter `@<param>`, as the parameter pattern
/// captures it.
pub open spec fn param_value(sql: Seq<char>, param: Seq<char>) -> Option<Seq<char>> {
    group_of(regex_capture_groups(PARAM_PATTERN_PREFIX@ + param + PARAM_PATTERN_SUFFIX@, sql), 1)
}

/// An extended property read parameter by parameter with the pattern: `@name`
/// is needed; `@value` defaults to empty and `@level0name` to `dbo`.
pub open spec fn extended_property_by_pattern(sql: Seq<char>) -> Option<ExtendedPropertyView> {
    match param_value(sql, "name"@) {
        None => None,
        Some(name) => Some(
            ExtendedPropertyView {
                property_name: name,
                property_value: match param_value(sql, "value"@) {
                    Some(v) => v,
                    None => Seq::empty(),
                },
                level0name: match param_value(sql, "level0name"@) {
                    Some(v) => v,
                    None => "dbo"@,
                },
                level1type: param_value(sql, "level1type"@),
                level1name: param_value(sql, "level1name"@),
                level2type: param_value(sql, "level2type"@),
                level2name: param_value(sql, "level2name"@),
            },
        ),
    }
}

/// An extended property from the token parser, else from the pattern.
pub open spec fn extended_property_text(sql: Seq<char>) -> Option<ExtendedPropertyView> {
    match lex_sql(sql) {
        Some(s) => match extended_property(s) {
            Some(p) => Some(p),
            None => extended_property_by_pattern(sql),
        },
        None => extended_property_by_pattern(sql),
    }
}

pub open spec fn opt_property(r: Option<ExtractedExtendedProperty>) -> Option<ExtendedPropertyView> {
    match r {
        Some(x) => Some(x@),
        None => None,
    }
}

fn extract_param(sql: &str, param: &str) -> (r: Option<String>)
    ensures
        opt_str(r) == param_value(sql@, param@),
{
    let mut pattern = str_to_string(PARAM_PATTERN_PREFIX);
    pattern.append(param);
    pattern.append(PARAM_PATTERN_SUFFIX);
    let caps = regex_captures(pattern.as_str(), sql);
    capture_group(&caps, 1)
}

fn property_of(p: TokenParsedExtendedProperty) -> (r: ExtractedExtendedProperty)
    ensures
        r@ == p@,
{
    ExtractedExtendedProperty {
        property_name: p.property_name,
        property_value: p.property_value,
        level0name: p.level0name,
        level1type: p.level1type,
        level1name: p.level1name,
        level2type: p.level2type,
        level2name: p.level2name,
    }
}

fn extended_property_by_pattern_exec(sql: &str) -> (r: Option<ExtractedExtendedProperty>)
    ensures
        opt_property(r) == extended_property_by_pattern(sql@),
{
    let property_name = match extract_param(sql, "name") {
        Some(n) => n,
        None => return None,
    };
    let property_value = match extract_param(sql, "value") {
        Some(v) => v,
        None => String::new(),
    };
    let level0name = match extract_param(sql, "level0name") {
        Some(v) => v,
        None => str_to_string("dbo"),
    };
    let level1type = extract_param(sql, "level1type");
    let level1name = extract_param(sql, "level1name");
    let level2type = extract_param(sql, "level2type");
    let level2name = extract_param(sql, "level2name");
    Some(
        ExtractedExtendedProperty {
            property_name,
            property_value,
            level0name,
            level1type,
            level1name,
            level2type,
            level2name,
        },
    )
}

/// Reads an `sp_addextendedproperty` call: by tokens, and where that fails,
/// parameter by parameter with a pattern (`@name` needed, `@value` empty and
/// `@level0name` `dbo` when missing).
pub fn extract_extended_property_from_sql(sql: &str) -> (r: Option<ExtractedExtendedProperty>)
    ensures
        opt_property(r) == extended_property_text(sql@),
{
    match parse_extended_property_tokens(sql) {
        Some(p) => Some(property_of(p)),
        None => extended_property_by_pattern_exec(sql),
    }
}

/// An extended property from already-made tokens (`toks`, the tokens of
/// `sql`), else from the text.
pub open spec fn extended_property_tokens_or_text(
    sql: Seq<char>,
    s: Seq<crate::lexer::TokenView>,
) -> Option<ExtendedPropertyView> {
    match extended_property(s) {
        Some(p) => Some(p),
        None => extended_property_text(sql),
    }
}

/// An `sp_addextendedproperty` call read from already-made tokens (`toks`,
/// the tokens of `sql`), else from the text.
pub fn extract_extended_property_from_sql_with_tokens(sql: &str, toks: &Vec<SqlToken>) -> (r: Option<
    ExtractedExtendedProperty,
>)
    ensures
        opt_property(r) == extended_property_tokens_or_text(sql@, views(toks@)),
{
    match parse_extended_property(toks) {
        Some(p) => Some(property_of(p)),
        None => extract_extended_property_from_sql(sql),
    }
}

} // verus!
