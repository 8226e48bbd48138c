//! Reading a statement that the full SQL parser does not take: the text is
//! tokenized once, and the statement kind is chosen by the phrases the text
//! contains, in a fixed order, each kind read by its token parser.

use vstd::prelude::*;
use crate::text::{contains_ci, contains_ci_exec, str_to_string};
use crate::lexer::{SqlToken, TokenView, views};
use crate::cursor::pair_view;
use crate::procedure_parser::{
    procedure_name, parse_create_procedure_tokens_with_tokens,
    parse_alter_procedure_tokens_with_tokens,
};
use crate::function_parser::{
    function_full, opt_function_name, detected_function_type, parse_function,
};
use crate::fulltext_parser::{
    FullTextIndexView, fulltext_index, fulltext_catalog, fulltext_columns_view,
    TokenParsedFullTextColumn, parse_fulltext_index_tokens_with_tokens,
    parse_fulltext_catalog_tokens_with_tokens,
};
use crate::storage_parser::{
    filegroup, partition_function, partition_scheme, parse_filegroup, parse_partition_function,
    parse_partition_scheme,
};
use crate::sequence_parser::{SequenceView, create_sequence, alter_sequence, parse_create_sequence, parse_alter_sequence};
use crate::scalar_type::{
    scalar_type_definition, scalar_type_info, alias_type_name, is_scalar_type_definition,
    extract_scalar_type_info, extract_type_name,
};
use crate::table_type_parser::{table_type, parse_create_table_type_tokens_with_tokens};
use crate::table_fallback::{table_structure, extract_table_structure};
use crate::synonym_parser::{synonym, parse_create_synonym};
use crate::statement_parser::{generic_create, try_parse_generic_create, alter_view, try_parse_alter_view_tokens_with_tokens};
use crate::constraint_parser::{alter_table_name, alter_table_name_exec};
use crate::security_dispatch::{security_dispatch, shared_tokens, tokenize_or_empty, try_security_statement_dispatch_with_tokens};
use crate::index_fallback::{index_info, extract_index_info_with_tokens};
use crate::index_parser::{IndexView, create_columnstore_index, parse_create_columnstore_index_tokens_with_tokens};
use crate::fallback::{
    FallbackStatementType, FallbackView, FallbackFunctionType, ExtractedFullTextColumn,
    opt_fallback, fallback_kind, function_parameters, function_return_type, drop_fallback,
    cte_dml_fallback, merge_output_fallback, xml_method_fallback, trigger_fallback,
    alter_table_add_constraint_fallback, extended_property_tokens_or_text, raw_statement,
    fulltext_columns_view as extracted_fulltext_view, detect_function_type,
    extract_function_parameters_with_tokens, extract_function_return_type_with_tokens,
    extract_extended_property_from_sql_with_tokens, extract_trigger_info_with_tokens,
    extract_alter_table_add_constraint_with_tokens, try_drop_fallback_with_tokens,
    try_cte_dml_fallback_with_tokens, try_merge_output_fallback_with_tokens,
    try_xml_method_fallback_with_tokens,
};

verus! {

// ---------------------------------------------------------------------------
// Specification
// ---------------------------------------------------------------------------

/// The first of two answers that is given.
pub open spec fn or_else(a: Option<FallbackView>, b: Option<FallbackView>) -> Option<FallbackView> {
    match a {
        Some(x) => Some(x),
        None => b,
    }
}

pub open spec fn ci(sql: Seq<char>, p: Seq<char>) -> bool {
    contains_ci(sql, p)
}

pub open spec fn procedure_statement(n: Option<(Seq<char>, Seq<char>)>) -> Option<FallbackView> {
    match n {
        Some((schema, name)) => Some(FallbackView::Procedure { schema, name }),
        None => None,
    }
}

/// A function statement: its name from the header (`is_alter` for `ALTER`),
/// its kind, and the parameters and return type of a `CREATE FUNCTION` header.
pub open spec fn function_statement(sql: Seq<char>, s: Seq<TokenView>, is_alter: bool) -> Option<FallbackView> {
    match opt_function_name(function_full(s, is_alter)) {
        Some((schema, name)) => Some(
            FallbackView::Function {
                schema,
                name,
                function_type: fallback_kind(detected_function_type(sql)),
                parameters: function_parameters(s),
                return_type: function_return_type(s),
            },
        ),
        None => None,
    }
}

pub open spec fn fulltext_statement(v: FullTextIndexView) -> FallbackView {
    FallbackView::FullTextIndex {
        table_schema: v.table_schema,
        table_name: v.table_name,
        columns: v.columns,
        key_index: v.key_index,
        catalog: v.catalog,
        change_tracking: v.change_tracking,
    }
}

pub open spec fn sequence_statement(v: SequenceView, keep_type: bool) -> FallbackView {
    FallbackView::Sequence {
        schema: v.schema,
        name: v.name,
        data_type: if keep_type {
            v.data_type
        } else {
            None
        },
        start_value: v.start_value,
        increment_value: v.increment_value,
        min_value: v.min_value,
        max_value: v.max_value,
        is_cycling: v.is_cycling,
        has_no_min_value: v.has_no_min_value,
        has_no_max_value: v.has_no_max_value,
        cache_size: v.cache_size,
    }
}

/// A columnstore index as a statement.
pub open spec fn columnstore_statement(v: IndexView) -> FallbackView {
    FallbackView::ColumnstoreIndex {
        name: v.name,
        table_schema: v.table_schema,
        table_name: v.table_name,
        is_clustered: v.is_clustered,
        columns: v.columns,
        data_compression: v.data_compression,
        filter_predicate: v.filter_predicate,
    }
}

/// A columnstore index, where the text names one.
pub open spec fn columnstore_branch(sql: Seq<char>, s: Seq<TokenView>) -> Option<FallbackView> {
    if ci(sql, "COLUMNSTORE INDEX"@) {
        match create_columnstore_index(s) {
            Some(v) => Some(columnstore_statement(v)),
            None => None,
        }
    } else {
        None
    }
}

fn columnstore_exec(sql: &str, toks: &Vec<SqlToken>) -> (r: Option<FallbackStatementType>)
    ensures
        opt_fallback(r) == columnstore_branch(sql@, views(toks@)),
{
    if contains_ci_exec(sql, "COLUMNSTORE INDEX") {
        match parse_create_columnstore_index_tokens_with_tokens(toks) {
            Some(p) => {
                assert(crate::storage_parser::strings_view(p.columns@) =~= p.columns.deep_view());
                return Some(
                    FallbackStatementType::ColumnstoreIndex {
                        name: p.name,
                        table_schema: p.table_schema,
                        table_name: p.table_name,
                        is_clustered: p.is_clustered,
                        columns: p.columns,
                        data_compression: p.data_compression,
                        filter_predicate: p.filter_predicate,
                    },
                );
            },
            None => {},
        }
    }
    None
}

/// Procedures, functions, columnstore and other indexes, and full-text objects.
pub open spec fn dispatch_routines(sql: Seq<char>, s: Seq<TokenView>) -> Option<FallbackView> {
    let a = if ci(sql, "CREATE PROCEDURE"@) || ci(sql, "CREATE OR ALTER PROCEDURE"@) || ci(
        sql,
        "CREATE PROC"@,
    ) || ci(sql, "CREATE OR ALTER PROC"@) {
        procedure_statement(procedure_name(s, false))
    } else {
        None
    };
    let b = if ci(sql, "ALTER PROCEDURE"@) || ci(sql, "ALTER PROC"@) {
        procedure_statement(procedure_name(s, true))
    } else {
        None
    };
    let c = if ci(sql, "CREATE FUNCTION"@) || ci(sql, "CREATE OR ALTER FUNCTION"@) {
        function_statement(sql, s, false)
    } else {
        None
    };
    let d = if ci(sql, "ALTER FUNCTION"@) {
        function_statement(sql, s, true)
    } else {
        None
    };
    let cs = columnstore_branch(sql, s);
    let e = if ci(sql, "CREATE CLUSTERED INDEX"@) || ci(sql, "CREATE NONCLUSTERED INDEX"@) || ci(
        sql,
        "CREATE UNIQUE CLUSTERED INDEX"@,
    ) || ci(sql, "CREATE UNIQUE NONCLUSTERED INDEX"@) {
        index_info(sql, s)
    } else {
        None
    };
    let f = if ci(sql, "CREATE FULLTEXT INDEX"@) {
        match fulltext_index(s) {
            Some(v) => Some(fulltext_statement(v)),
            None => None,
        }
    } else {
        None
    };
    let g = if ci(sql, "CREATE FULLTEXT CATALOG"@) {
        match fulltext_catalog(s) {
            Some((name, is_default)) => Some(FallbackView::FullTextCatalog { name, is_default }),
            None => None,
        }
    } else {
        None
    };
    or_else(a, or_else(b, or_else(c, or_else(d, or_else(cs, or_else(e, or_else(f, g)))))))
}

/// A `CREATE TYPE`: an alias type when `FROM` and no `AS TABLE` are found,
/// else a table type.
pub open spec fn type_statement(sql: Seq<char>, s: Seq<TokenView>) -> Option<FallbackView> {
    if scalar_type_definition(sql) == Some(true) {
        match (alias_type_name(sql), scalar_type_info(sql)) {
            (Some((schema, name)), Some(info)) => Some(
                FallbackView::ScalarType {
                    schema,
                    name,
                    base_type: info.base_type,
                    is_nullable: info.is_nullable,
                    length: info.length,
                    precision: info.precision,
                    scale: info.scale,
                },
            ),
            _ => None,
        }
    } else {
        match table_type(s) {
            Some(t) => Some(
                FallbackView::UserDefinedType {
                    schema: t.schema,
                    name: t.name,
                    columns: t.columns,
                    constraints: t.constraints,
                },
            ),
            None => None,
        }
    }
}

/// Database settings, storage, sequences, types and tables.
pub open spec fn dispatch_definitions(sql: Seq<char>, s: Seq<TokenView>) -> Option<FallbackView> {
    let a = if ci(sql, "ALTER DATABASE"@) && ci(sql, "SCOPED CONFIGURATION"@) {
        Some(
            FallbackView::SkippedSecurityStatement {
                statement_type: "DATABASE_SCOPED_CONFIGURATION"@,
            },
        )
    } else {
        None
    };
    let b = if ci(sql, "ALTER DATABASE"@) && ci(sql, "ADD FILEGROUP"@) {
        match filegroup(s) {
            Some(v) => Some(
                FallbackView::Filegroup {
                    name: v.name,
                    contains_memory_optimized_data: v.contains_memory_optimized_data,
                },
            ),
            None => None,
        }
    } else {
        None
    };
    let c = if ci(sql, "CREATE PARTITION FUNCTION"@) {
        match partition_function(s) {
            Some(v) => Some(
                FallbackView::PartitionFunction {
                    name: v.name,
                    data_type: v.data_type,
                    boundary_values: v.boundary_values,
                    is_range_right: v.is_range_right,
                },
            ),
            None => None,
        }
    } else {
        None
    };
    let d = if ci(sql, "CREATE PARTITION SCHEME"@) {
        match partition_scheme(s) {
            Some(v) => Some(
                FallbackView::PartitionScheme {
                    name: v.name,
                    partition_function: v.partition_function,
                    filegroups: v.filegroups,
                },
            ),
            None => None,
        }
    } else {
        None
    };
    let e = if ci(sql, "CREATE SEQUENCE"@) {
        match create_sequence(s) {
            Some(v) => Some(sequence_statement(v, true)),
            None => None,
        }
    } else {
        None
    };
    let f = if ci(sql, "ALTER SEQUENCE"@) {
        match alter_sequence(s) {
            Some(v) => Some(sequence_statement(v, false)),
            None => None,
        }
    } else {
        None
    };
    let g = if ci(sql, "CREATE TYPE"@) {
        type_statement(sql, s)
    } else {
        None
    };
    let h = if ci(sql, "CREATE TABLE"@) {
        table_structure(sql)
    } else {
        None
    };
    or_else(a, or_else(b, or_else(c, or_else(d, or_else(e, or_else(f, or_else(g, h)))))))
}

/// Extended properties, triggers, security statements, synonyms, `ALTER
/// VIEW`s, generic `CREATE`s, `ALTER TABLE`s, and the statements the full parser refuses
/// (`DROP`s, CTE with DML, `MERGE ... OUTPUT`, XML-method updates).
pub open spec fn dispatch_others(sql: Seq<char>, s: Seq<TokenView>) -> Option<FallbackView> {
    let a = if ci(sql, "SP_ADDEXTENDEDPROPERTY"@) {
        match extended_property_tokens_or_text(sql, s) {
            Some(p) => Some(FallbackView::ExtendedProperty { property: p }),
            None => None,
        }
    } else {
        None
    };
    let b = if ci(sql, "CREATE TRIGGER"@) || ci(sql, "CREATE OR ALTER TRIGGER"@) {
        trigger_fallback(s)
    } else {
        None
    };
    let c = security_dispatch(sql, s);
    let d = if ci(sql, "CREATE SYNONYM"@) {
        match synonym(s) {
            Some(v) => Some(
                FallbackView::Synonym {
                    schema: v.schema,
                    name: v.name,
                    target_schema: v.target_schema,
                    target_name: v.target_name,
                    target_database: v.target_database,
                    target_server: v.target_server,
                },
            ),
            None => None,
        }
    } else {
        None
    };
    let v = if ci(sql, "ALTER"@) && ci(sql, "VIEW"@) {
        match alter_view(s) {
            Some(v) => Some(raw_statement(v.object_type, v.schema, v.name)),
            None => None,
        }
    } else {
        None
    };
    let e = match generic_create(s) {
        Some(v) => Some(raw_statement(v.object_type, v.schema, v.name)),
        None => None,
    };
    or_else(a, or_else(b, or_else(c, or_else(d, or_else(v, or_else(e, dispatch_tail(sql, s)))))))
}

/// The statement read from a text `sql` with tokens `s`: the first kind, in
/// the order of the checks, whose phrase occurs and whose reader succeeds.
pub open spec fn fallback_dispatch(sql: Seq<char>, s: Seq<TokenView>) -> Option<FallbackView> {
    or_else(
        dispatch_routines(sql, s),
        or_else(dispatch_definitions(sql, s), dispatch_others(sql, s)),
    )
}

// ---------------------------------------------------------------------------
// Executable
// ---------------------------------------------------------------------------

fn procedure_exec(n: Option<(String, String)>) -> (r: Option<FallbackStatementType>)
    ensures
        opt_fallback(r) == procedure_statement(pair_view(n)),
{
    match n {
        Some((schema, name)) => Some(FallbackStatementType::Procedure { schema, name }),
        None => None,
    }
}

fn function_exec(sql: &str, toks: &Vec<SqlToken>, is_alter: bool) -> (r: Option<FallbackStatementType>)
    ensures
        opt_fallback(r) == function_statement(sql@, views(toks@), is_alter),
{
    let f = match parse_function(toks, is_alter) {
        Some(f) => f,
        None => return None,
    };
    let function_type = detect_function_type(sql);
    let parameters = extract_function_parameters_with_tokens(toks);
    let return_type = extract_function_return_type_with_tokens(toks);
    Some(
        FallbackStatementType::Function {
            schema: f.schema,
            name: f.name,
            function_type,
            parameters,
            return_type,
        },
    )
}

fn fulltext_columns_exec(cols: Vec<TokenParsedFullTextColumn>) -> (r: Vec<ExtractedFullTextColumn>)
    ensures
        extracted_fulltext_view(r@) == fulltext_columns_view(cols@),
{
    let mut out: Vec<ExtractedFullTextColumn> = Vec::new();
    let mut i: usize = 0;
    while i < cols.len()
        invariant
            0 <= i <= cols.len(),
            extracted_fulltext_view(out@) == fulltext_columns_view(cols@).subrange(0, i as int),
        decreases cols.len() - i,
    {
        let ghost before = extracted_fulltext_view(out@);
        out.push(ExtractedFullTextColumn { name: cols[i].name.clone(), language_id: cols[i].language_id });
        assert(extracted_fulltext_view(out@) =~= before.push(cols@[i as int]@));
        assert(fulltext_columns_view(cols@).subrange(0, i + 1) =~= fulltext_columns_view(cols@).subrange(
            0,
            i as int,
        ).push(cols@[i as int]@));
        i = i + 1;
    }
    assert(fulltext_columns_view(cols@).subrange(0, cols.len() as int) =~= fulltext_columns_view(cols@));
    out
}

fn dispatch_routines_exec(sql: &str, toks: &Vec<SqlToken>) -> (r: Option<FallbackStatementType>)
    ensures
        opt_fallback(r) == dispatch_routines(sql@, views(toks@)),
{
    if contains_ci_exec(sql, "CREATE PROCEDURE") || contains_ci_exec(sql, "CREATE OR ALTER PROCEDURE")
        || contains_ci_exec(sql, "CREATE PROC") || contains_ci_exec(sql, "CREATE OR ALTER PROC") {
        let r = procedure_exec(parse_create_procedure_tokens_with_tokens(toks));
        if r.is_some() {
            return r;
        }
    }
    if contains_ci_exec(sql, "ALTER PROCEDURE") || contains_ci_exec(sql, "ALTER PROC") {
        let r = procedure_exec(parse_alter_procedure_tokens_with_tokens(toks));
        if r.is_some() {
            return r;
        }
    }
    if contains_ci_exec(sql, "CREATE FUNCTION") || contains_ci_exec(sql, "CREATE OR ALTER FUNCTION") {
        let r = function_exec(sql, toks, false);
        if r.is_some() {
            return r;
        }
    }
    if contains_ci_exec(sql, "ALTER FUNCTION") {
        let r = function_exec(sql, toks, true);
        if r.is_some() {
            return r;
        }
    }
    let r = columnstore_exec(sql, toks);
    if r.is_some() {
        return r;
    }
    if contains_ci_exec(sql, "CREATE CLUSTERED INDEX") || contains_ci_exec(sql, "CREATE NONCLUSTERED INDEX")
        || contains_ci_exec(sql, "CREATE UNIQUE CLUSTERED INDEX") || contains_ci_exec(
        sql,
        "CREATE UNIQUE NONCLUSTERED INDEX",
    ) {
        let r = extract_index_info_with_tokens(sql, toks);
        if r.is_some() {
            return r;
        }
    }
    if contains_ci_exec(sql, "CREATE FULLTEXT INDEX") {
        match parse_fulltext_index_tokens_with_tokens(toks) {
            Some(p) => {
                let columns = fulltext_columns_exec(p.columns);
                return Some(
                    FallbackStatementType::FullTextIndex {
                        table_schema: p.table_schema,
                        table_name: p.table_name,
                        columns,
                        key_index: p.key_index,
                        catalog: p.catalog,
                        change_tracking: p.change_tracking,
                    },
                );
            },
            None => {},
        }
    }
    if contains_ci_exec(sql, "CREATE FULLTEXT CATALOG") {
        match parse_fulltext_catalog_tokens_with_tokens(toks) {
            Some(p) => {
                return Some(
                    FallbackStatementType::FullTextCatalog { name: p.name, is_default: p.is_default },
                );
            },
            None => {},
        }
    }
    None
}

fn sequence_exec(p: crate::sequence_parser::TokenParsedSequence, keep_type: bool) -> (r: FallbackStatementType)
    ensures
        r@ == sequence_statement(p@, keep_type),
{
    FallbackStatementType::Sequence {
        schema: p.schema,
        name: p.name,
        data_type: if keep_type {
            p.data_type
        } else {
            None
        },
        start_value: p.start_value,
        increment_value: p.increment_value,
        min_value: p.min_value,
        max_value: p.max_value,
        is_cycling: p.is_cycling,
        has_no_min_value: p.has_no_min_value,
        has_no_max_value: p.has_no_max_value,
        cache_size: p.cache_size,
    }
}

fn type_exec(sql: &str, toks: &Vec<SqlToken>) -> (r: Option<FallbackStatementType>)
    ensures
        opt_fallback(r) == type_statement(sql@, views(toks@)),
{
    if is_scalar_type_definition(sql) == Some(true) {
        match extract_type_name(sql) {
            Some((schema, name)) => match extract_scalar_type_info(sql) {
                Some(info) => Some(
                    FallbackStatementType::ScalarType {
                        schema,
                        name,
                        base_type: info.base_type,
                        is_nullable: info.is_nullable,
                        length: info.length,
                        precision: info.precision,
                        scale: info.scale,
                    },
                ),
                None => None,
            },
            None => None,
        }
    } else {
        match parse_create_table_type_tokens_with_tokens(toks) {
            Some(t) => Some(
                FallbackStatementType::UserDefinedType {
                    schema: t.schema,
                    name: t.name,
                    columns: t.columns,
                    constraints: t.constraints,
                },
            ),
            None => None,
        }
    }
}

fn dispatch_definitions_exec(sql: &str, toks: &Vec<SqlToken>) -> (r: Option<FallbackStatementType>)
    ensures
        opt_fallback(r) == dispatch_definitions(sql@, views(toks@)),
{
    if contains_ci_exec(sql, "ALTER DATABASE") && contains_ci_exec(sql, "SCOPED CONFIGURATION") {
        return Some(
            FallbackStatementType::SkippedSecurityStatement {
                statement_type: str_to_string("DATABASE_SCOPED_CONFIGURATION"),
            },
        );
    }
    if contains_ci_exec(sql, "ALTER DATABASE") && contains_ci_exec(sql, "ADD FILEGROUP") {
        match parse_filegroup(toks) {
            Some(p) => {
                return Some(
                    FallbackStatementType::Filegroup {
                        name: p.name,
                        contains_memory_optimized_data: p.contains_memory_optimized_data,
                    },
                );
            },
            None => {},
        }
    }
    if contains_ci_exec(sql, "CREATE PARTITION FUNCTION") {
        match parse_partition_function(toks) {
            Some(p) => {
                return Some(
                    FallbackStatementType::PartitionFunction {
                        name: p.name,
                        data_type: p.data_type,
                        boundary_values: p.boundary_values,
                        is_range_right: p.is_range_right,
                    },
                );
            },
            None => {},
        }
    }
    if contains_ci_exec(sql, "CREATE PARTITION SCHEME") {
        match parse_partition_scheme(toks) {
            Some(p) => {
                return Some(
                    FallbackStatementType::PartitionScheme {
                        name: p.name,
                        partition_function: p.partition_function,
                        filegroups: p.filegroups,
                    },
                );
            },
            None => {},
        }
    }
    if contains_ci_exec(sql, "CREATE SEQUENCE") {
        match parse_create_sequence(toks) {
            Some(p) => {
                return Some(sequence_exec(p, true));
            },
            None => {},
        }
    }
    if contains_ci_exec(sql, "ALTER SEQUENCE") {
        match parse_alter_sequence(toks) {
            Some(p) => {
                return Some(sequence_exec(p, false));
            },
            None => {},
        }
    }
    if contains_ci_exec(sql, "CREATE TYPE") {
        let r = type_exec(sql, toks);
        if r.is_some() {
            return r;
        }
    }
    if contains_ci_exec(sql, "CREATE TABLE") {
        let r = extract_table_structure(sql);
        if r.is_some() {
            return r;
        }
    }
    None
}

fn dispatch_statements_exec(sql: &str, toks: &Vec<SqlToken>) -> (r: Option<FallbackStatementType>)
    ensures
        opt_fallback(r) == dispatch_others(sql@, views(toks@)),
{
    if contains_ci_exec(sql, "SP_ADDEXTENDEDPROPERTY") {
        match extract_extended_property_from_sql_with_tokens(sql, toks) {
            Some(property) => {
                return Some(FallbackStatementType::ExtendedProperty { property });
            },
            None => {},
        }
    }
    if contains_ci_exec(sql, "CREATE TRIGGER") || contains_ci_exec(sql, "CREATE OR ALTER TRIGGER") {
        let r = extract_trigger_info_with_tokens(toks);
        if r.is_some() {
            return r;
        }
    }
    let r = try_security_statement_dispatch_with_tokens(sql, toks);
    if r.is_some() {
        return r;
    }
    if contains_ci_exec(sql, "CREATE SYNONYM") {
        match parse_create_synonym(toks) {
            Some(p) => {
                return Some(
                    FallbackStatementType::Synonym {
                        schema: p.schema,
                        name: p.name,
                        target_schema: p.target_schema,
                        target_name: p.target_name,
                        target_database: p.target_database,
                        target_server: p.target_server,
                    },
                );
            },
            None => {},
        }
    }
    if contains_ci_exec(sql, "ALTER") && contains_ci_exec(sql, "VIEW") {
        match try_parse_alter_view_tokens_with_tokens(toks) {
            Some(p) => {
                return Some(
                    FallbackStatementType::RawStatement {
                        object_type: p.object_type,
                        schema: p.schema,
                        name: p.name,
                    },
                );
            },
            None => {},
        }
    }
    match try_parse_generic_create(toks) {
        Some(p) => {
            return Some(
                FallbackStatementType::RawStatement {
                    object_type: p.object_type,
                    schema: p.schema,
                    name: p.name,
                },
            );
        },
        None => {},
    }
    dispatch_alter_and_dml_exec(sql, toks)
}

/// The `ALTER TABLE` and refused-statement checks at the end of the order.
pub open spec fn dispatch_tail(sql: Seq<char>, s: Seq<TokenView>) -> Option<FallbackView> {
    let f = if ci(sql, "ALTER TABLE"@) && ci(sql, "ADD CONSTRAINT"@) {
        alter_table_add_constraint_fallback(s)
    } else {
        None
    };
    let g = if ci(sql, "ALTER TABLE"@) {
        match alter_table_name(s).0 {
            Some((schema, name)) => Some(raw_statement("AlterTable"@, schema, name)),
            None => None,
        }
    } else {
        None
    };
    or_else(
        f,
        or_else(
            g,
            or_else(
                drop_fallback(s),
                or_else(
                    cte_dml_fallback(s),
                    or_else(merge_output_fallback(s), xml_method_fallback(s)),
                ),
            ),
        ),
    )
}

fn dispatch_alter_and_dml_exec(sql: &str, toks: &Vec<SqlToken>) -> (r: Option<FallbackStatementType>)
    ensures
        opt_fallback(r) == dispatch_tail(sql@, views(toks@)),
{
    if contains_ci_exec(sql, "ALTER TABLE") && contains_ci_exec(sql, "ADD CONSTRAINT") {
        let r = extract_alter_table_add_constraint_with_tokens(toks);
        if r.is_some() {
            return r;
        }
    }
    if contains_ci_exec(sql, "ALTER TABLE") {
        match alter_table_name_exec(toks).0 {
            Some((schema, name)) => {
                return Some(
                    FallbackStatementType::RawStatement {
                        object_type: str_to_string("AlterTable"),
                        schema,
                        name,
                    },
                );
            },
            None => {},
        }
    }
    let r = try_drop_fallback_with_tokens(toks);
    if r.is_some() {
        return r;
    }
    let r = try_cte_dml_fallback_with_tokens(toks);
    if r.is_some() {
        return r;
    }
    let r = try_merge_output_fallback_with_tokens(toks);
    if r.is_some() {
        return r;
    }
    try_xml_method_fallback_with_tokens(toks)
}

/// Reads a statement from its text and its tokens (`toks`, the tokens of
/// `sql`, or none where the text does not tokenize).
pub fn fallback_statement_tokens(sql: &str, toks: &Vec<SqlToken>) -> (r: Option<FallbackStatementType>)
    ensures
        opt_fallback(r) == fallback_dispatch(sql@, views(toks@)),
{
    let r = dispatch_routines_exec(sql, toks);
    if r.is_some() {
        return r;
    }
    let r = dispatch_definitions_exec(sql, toks);
    if r.is_some() {
        return r;
    }
    dispatch_statements_exec(sql, toks)
}

/// Reads a statement that the full parser does not take: the text is
/// tokenized once and handed to every reader.
pub fn try_fallback_parse(sql: &str) -> (r: Option<FallbackStatementType>)
    ensures
        opt_fallback(r) == fallback_dispatch(sql@, shared_tokens(sql@)),
{
    let toks = tokenize_or_empty(sql);
    fallback_statement_tokens(sql, &toks)
}

} // verus!
