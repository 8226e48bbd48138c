use sqlpackage_parser::constraint_parser::parse_table_constraint_tokens;
use sqlpackage_parser::function_parser::{detect_function_type_tokens, parse_create_function_full};
use sqlpackage_parser::identifier_utils::{ensure_bracketed, is_bracketed, normalize_identifier};
use sqlpackage_parser::preprocess_parser::preprocess_tsql_tokens;
use sqlpackage_parser::procedure_parser::{parse_create_procedure_full, parse_create_procedure_tokens};
use sqlpackage_parser::synonym_parser::parse_create_synonym_tokens;
use sqlpackage_parser::trigger_parser::parse_create_trigger_tokens;
use sqlpackage_parser::batches::split_batches;

#[test]
fn law_ensure_bracketed_examples() {
    for x in ["MyTable", "[MyTable]", "  spaced  ", "\"Quoted\"", "[half", "", "[ a ]"] {
        let b = ensure_bracketed(x);
        assert!(is_bracketed(&b));
        assert_eq!(ensure_bracketed(&b), b);
        assert_eq!(normalize_identifier(&b), normalize_identifier(x));
    }
}

#[test]
fn law_procedure_short_and_full_agree() {
    let sql = "CREATE PROCEDURE [sales].[GetOrders] @Id INT AS SELECT 1";
    let short = parse_create_procedure_tokens(sql).unwrap();
    let full = parse_create_procedure_full(sql).unwrap();
    assert_eq!(short, (full.schema, full.name));
    assert!(parse_create_procedure_tokens("SELECT 1").is_none());
    assert!(parse_create_procedure_full("SELECT 1").is_none());
}

#[test]
fn law_detected_kind_matches_header() {
    let sql = "CREATE FUNCTION f() RETURNS @t TABLE (x INT) AS BEGIN RETURN END";
    let full = parse_create_function_full(sql).unwrap();
    assert_eq!(detect_function_type_tokens(sql), full.function_type);
}

#[test]
fn law_trigger_has_type_and_event() {
    let t = parse_create_trigger_tokens("CREATE TRIGGER t ON x INSTEAD OF DELETE AS SELECT 1").unwrap();
    assert_eq!(t.trigger_type, 3);
    assert!(t.is_delete);
    assert!(parse_create_trigger_tokens("CREATE TRIGGER t ON x AFTER AS SELECT 1").is_none());
}

#[test]
fn law_constraint_without_columns_is_rejected() {
    assert!(parse_table_constraint_tokens("PRIMARY KEY ()", "T").is_none());
    assert!(parse_table_constraint_tokens("CHECK ( )", "T").is_none());
    assert!(parse_table_constraint_tokens("FOREIGN KEY ([A]) REFERENCES [B] ()", "T").is_none());
}

#[test]
fn law_synonym_server_has_database() {
    let s = parse_create_synonym_tokens("CREATE SYNONYM s FOR a.b.c.d").unwrap();
    assert_eq!(s.target_server, Some("a".to_string()));
    assert_eq!(s.target_database, Some("b".to_string()));
    assert!(parse_create_synonym_tokens("CREATE SYNONYM s FOR a.b.c.d.e").is_none());
}

#[test]
fn law_preprocess_leaves_plain_text() {
    let sql = "SELECT [a], b FROM t WHERE x = 'y'";
    let r = preprocess_tsql_tokens(sql);
    assert_eq!(r.sql, sql);
    assert!(r.extracted_defaults.is_empty());
}

#[test]
fn law_batches_nonempty_example() {
    for b in split_batches("\nGO\n\nSELECT 1\nGO\nGO\nSELECT 2\n") {
        assert!(!b.content.is_empty());
        assert!(b.start_line >= 1);
    }
}

#[test]
fn law_split_parts_are_trimmed_and_nonempty() {
    let body = "  [A] INT ,\n\n , [B] INT\n  CONSTRAINT [PK] PRIMARY KEY ([A])  ,  ";
    let toks = sqlpackage_parser::security_dispatch::tokenize_or_empty(body);
    let parts = sqlpackage_parser::table_fallback::split_by_comma_or_constraint_tokens(&toks);
    assert_eq!(parts.len(), 3);
    for p in &parts {
        assert!(!p.is_empty());
        assert_eq!(p.trim(), p.as_str());
    }
}

#[test]
fn law_permission_statement_always_answered() {
    for sql in ["GRANT SELECT ON [dbo].[T] TO [R]", "GRANT ???", "REVOKE x", "DENY  x"] {
        let toks = sqlpackage_parser::security_dispatch::tokenize_or_empty(sql);
        let r = sqlpackage_parser::security_dispatch::try_security_statement_dispatch_with_tokens(sql, &toks);
        match r {
            Some(sqlpackage_parser::fallback::FallbackStatementType::Permission { .. })
            | Some(sqlpackage_parser::fallback::FallbackStatementType::SkippedSecurityStatement { .. }) => {}
            other => panic!("{:?} for {}", other, sql),
        }
    }
}

#[test]
fn law_alias_type_has_a_base_type_to_read() {
    let sql = "CREATE TYPE [dbo].[Code] FROM CHAR(3) NOT NULL";
    assert_eq!(sqlpackage_parser::scalar_type::is_scalar_type_definition(sql), Some(true));
    let info = sqlpackage_parser::scalar_type::extract_scalar_type_info(sql).unwrap();
    assert_eq!(info.base_type, "char");
    assert_eq!(info.length, Some(3));
}

#[test]
fn law_two_part_name_is_kept_by_normalizing() {
    for (a, b) in [("dbo", "Users"), ("sales", "Order Items"), ("", "x"), ("s.x", "n")] {
        let name = format!("[{}].[{}]", a, b);
        assert_eq!(sqlpackage_parser::identifier_utils::normalize_object_name(&name, "other"), name);
    }
}

#[test]
fn law_split_reads_back_a_two_part_name() {
    for (a, b) in [("dbo", "Users"), ("sales", "Order Items"), ("s.x", "n")] {
        let name = format!("[{}].[{}]", a, b);
        assert!(sqlpackage_parser::identifier_utils::is_qualified_name(&name));
        assert_eq!(
            sqlpackage_parser::identifier_utils::split_qualified_name(&name, "other"),
            (a.to_string(), b.to_string())
        );
    }
}

#[test]
fn law_skip_and_consume_end_at_the_same_place() {
    for sql in ["(a, (b, c), d) rest", "(x", "((1)) (2)"] {
        let mut p1 = sqlpackage_parser::token_parser_base::TokenParser::new(sql).unwrap();
        let mut p2 = sqlpackage_parser::token_parser_base::TokenParser::new(sql).unwrap();
        p1.skip_parenthesized();
        let _ = p2.consume_parenthesized();
        assert_eq!(p1.pos(), p2.pos(), "{}", sql);
    }
}
