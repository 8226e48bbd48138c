use sqlpackage_parser::identifier_utils::{format_token, format_token_sql, format_token_sql_bracketed, normalize_identifier, ensure_bracketed, normalize_object_name, is_bracketed, is_double_quoted, is_qualified_name, split_qualified_name};

#[test]
fn test_normalize_identifier_brackets() {
    assert_eq!(normalize_identifier("[MyTable]"), "MyTable");
    assert_eq!(normalize_identifier("[My Table]"), "My Table");
    // Note: trim_matches strips all matching chars from both ends
    // so [[Nested]] becomes Nested, not [Nested]
    assert_eq!(normalize_identifier("[[Nested]]"), "Nested");
}

#[test]
fn test_normalize_identifier_quotes() {
    assert_eq!(normalize_identifier("\"MyColumn\""), "MyColumn");
    // Note: trim_matches strips all matching chars from both ends
    assert_eq!(normalize_identifier("\"\"DoubleQuote\"\""), "DoubleQuote");
}

#[test]
fn test_normalize_identifier_plain() {
    assert_eq!(normalize_identifier("dbo"), "dbo");
    assert_eq!(normalize_identifier("  spaces  "), "spaces");
}

#[test]
fn test_ensure_bracketed() {
    assert_eq!(ensure_bracketed("MyTable"), "[MyTable]");
    assert_eq!(ensure_bracketed("[MyTable]"), "[MyTable]");
    assert_eq!(ensure_bracketed("  MyTable  "), "[MyTable]");
    assert_eq!(
        ensure_bracketed("[Already Bracketed]"),
        "[Already Bracketed]"
    );
}

#[test]
fn test_normalize_object_name_unqualified() {
    assert_eq!(normalize_object_name("MyTable", "dbo"), "[dbo].[MyTable]");
    assert_eq!(normalize_object_name("[MyTable]", "dbo"), "[dbo].[MyTable]");
}

#[test]
fn test_normalize_object_name_qualified() {
    assert_eq!(
        normalize_object_name("schema.table", "dbo"),
        "[schema].[table]"
    );
    assert_eq!(
        normalize_object_name("[schema].[table]", "dbo"),
        "[schema].[table]"
    );
    assert_eq!(
        normalize_object_name("[schema].table", "dbo"),
        "[schema].[table]"
    );
    assert_eq!(
        normalize_object_name("schema.[table]", "dbo"),
        "[schema].[table]"
    );
}

#[test]
fn test_normalize_object_name_with_spaces() {
    assert_eq!(
        normalize_object_name("  MyTable  ", "dbo"),
        "[dbo].[MyTable]"
    );
    assert_eq!(
        normalize_object_name("  [schema].[table]  ", "dbo"),
        "[schema].[table]"
    );
}

#[test]
fn test_is_bracketed() {
    assert!(is_bracketed("[MyTable]"));
    assert!(is_bracketed("  [MyTable]  "));
    assert!(!is_bracketed("MyTable"));
    assert!(!is_bracketed("[MyTable"));
    assert!(!is_bracketed("MyTable]"));
}

#[test]
fn test_is_double_quoted() {
    assert!(is_double_quoted("\"MyTable\""));
    assert!(is_double_quoted("  \"MyTable\"  "));
    assert!(!is_double_quoted("MyTable"));
    assert!(!is_double_quoted("'MyTable'"));
}

#[test]
fn test_is_qualified_name() {
    assert!(is_qualified_name("dbo.MyTable"));
    assert!(is_qualified_name("[dbo].[MyTable]"));
    assert!(is_qualified_name("[dbo].MyTable"));
    assert!(!is_qualified_name("MyTable"));
    assert!(!is_qualified_name("[MyTable]"));
}

#[test]
fn test_split_qualified_name_fully_bracketed() {
    let (schema, name) = split_qualified_name("[dbo].[MyTable]", "default");
    assert_eq!(schema, "dbo");
    assert_eq!(name, "MyTable");
}

#[test]
fn test_split_qualified_name_unbracketed() {
    let (schema, name) = split_qualified_name("schema.table", "default");
    assert_eq!(schema, "schema");
    assert_eq!(name, "table");
}

#[test]
fn test_split_qualified_name_unqualified() {
    let (schema, name) = split_qualified_name("MyTable", "dbo");
    assert_eq!(schema, "dbo");
    assert_eq!(name, "MyTable");
}

#[test]
fn test_split_qualified_name_mixed_brackets() {
    let (schema, name) = split_qualified_name("[schema].table", "dbo");
    assert_eq!(schema, "schema");
    assert_eq!(name, "table");

    let (schema2, name2) = split_qualified_name("schema.[table]", "dbo");
    assert_eq!(schema2, "schema");
    assert_eq!(name2, "table");
}


fn tok(text: &str) -> sqlpackage_parser::lexer::SqlToken {
    sqlpackage_parser::lexer::SqlToken::from_text(text.to_string())
}

fn word(text: &str, value: &str, quote: Option<char>) -> sqlpackage_parser::lexer::SqlToken {
    sqlpackage_parser::lexer::SqlToken::word(text.to_string(), value.to_string(), quote)
}

#[test]
fn test_format_word_bracketed() {
    let word = word("[MyTable]", "MyTable", Some('['));
    assert_eq!(sqlpackage_parser::identifier_utils::format_word(&word), "[MyTable]");
}

#[test]
fn test_format_word_quoted() {
    let word = word("\"MyColumn\"", "MyColumn", Some('"'));
    assert_eq!(sqlpackage_parser::identifier_utils::format_word(&word), "\"MyColumn\"");
}

#[test]
fn test_format_word_unquoted() {
    let word = word("SELECT", "SELECT", None);
    assert_eq!(sqlpackage_parser::identifier_utils::format_word(&word), "SELECT");
}

#[test]
fn test_format_token() {
    assert_eq!(format_token(&tok("(")), "(");
    assert_eq!(format_token(&tok(")")), ")");
    assert_eq!(format_token(&tok(",")), ",");
    assert_eq!(format_token(&tok(".")), ".");
    assert_eq!(format_token(&tok("=")), "=");
    assert_eq!(format_token(&tok("42")), "42");
    assert_eq!(format_token(&tok("'test'")), "'test'");
    assert_eq!(format_token(&tok("N'unicode'")), "N'unicode'");
}

#[test]
fn test_format_word_bracketed_converts_double_quote() {
    let word = word("\"MyColumn\"", "MyColumn", Some('"'));
    assert_eq!(sqlpackage_parser::identifier_utils::format_word_bracketed(&word), "[MyColumn]");
}

#[test]
fn test_format_word_bracketed_preserves_bracket() {
    let word = word("[MyTable]", "MyTable", Some('['));
    assert_eq!(sqlpackage_parser::identifier_utils::format_word_bracketed(&word), "[MyTable]");
}

#[test]
fn test_format_word_bracketed_unquoted() {
    let word = word("SELECT", "SELECT", None);
    assert_eq!(sqlpackage_parser::identifier_utils::format_word_bracketed(&word), "SELECT");
}

#[test]
fn test_format_token_sql_escapes_quotes() {
    assert_eq!(format_token_sql(&tok("'it's a test'")), "'it''s a test'");
    assert_eq!(format_token_sql(&tok("N'it's unicode'")), "N'it''s unicode'");
}

#[test]
fn test_format_token_sql_operators() {
    assert_eq!(format_token_sql(&tok("@")), "@");
    assert_eq!(format_token_sql(&tok("#")), "#");
    assert_eq!(format_token_sql(&tok("::")), "::");
    assert_eq!(format_token_sql(&tok("[")), "[");
    assert_eq!(format_token_sql(&tok("]")), "]");
}

#[test]
fn test_format_token_sql_bracketed() {
    assert_eq!(format_token_sql_bracketed(&word("\"MyColumn\"", "MyColumn", Some('"'))), "[MyColumn]");
    assert_eq!(format_token_sql_bracketed(&tok("'it's'")), "'it''s'");
}

#[test]
fn test_one_and_two_part_names_normalize_as_they_split() {
    for (name, schema, object) in [
        ("T", "dbo", "T"),
        ("[T]", "dbo", "T"),
        ("s.T", "s", "T"),
        ("[s].T", "s", "T"),
        ("s.[T]", "s", "T"),
        ("[s].[T]", "s", "T"),
    ] {
        let (a, b) = split_qualified_name(name, "dbo");
        assert_eq!((a.as_str(), b.as_str()), (schema, object));
        assert_eq!(normalize_object_name(name, "dbo"), format!("[{}].[{}]", a, b));
    }
}
