use sqlpackage_parser::batches::{split_batches, extract_line_from_error};

#[test]
fn test_split_batches() {
    let sql = "CREATE TABLE t1 (id INT)\nGO\nCREATE TABLE t2 (id INT)";
    let batches = split_batches(sql);
    assert_eq!(batches.len(), 2);
    assert_eq!(batches[0].start_line, 1);
    assert_eq!(batches[1].start_line, 3);
}

#[test]
fn test_split_batches_with_semicolon() {
    // GO; with trailing semicolon should also be recognized as a batch separator
    let sql = "CREATE TABLE t1 (id INT)\nGO;\nCREATE TABLE t2 (id INT)";
    let batches = split_batches(sql);
    assert_eq!(batches.len(), 2, "GO; should split into 2 batches");
    assert_eq!(batches[0].start_line, 1);
    assert!(batches[0].content.contains("CREATE TABLE t1"));
    assert_eq!(batches[1].start_line, 3);
    assert!(batches[1].content.contains("CREATE TABLE t2"));
}

#[test]
fn test_split_batches_go_semicolon_variations() {
    // Test various GO; variations
    let sql = "SELECT 1\nGO;\nSELECT 2\n  GO;  \nSELECT 3\ngo;\nSELECT 4";
    let batches = split_batches(sql);
    assert_eq!(
        batches.len(),
        4,
        "Should handle GO; with various whitespace and casing"
    );
}

#[test]
fn test_split_batches_no_go() {
    let sql = "CREATE TABLE t1 (id INT)";
    let batches = split_batches(sql);
    assert_eq!(batches.len(), 1);
    assert_eq!(batches[0].start_line, 1);
}

#[test]
fn test_split_batches_line_numbers_multiline() {
    let sql = "-- Comment line 1\n-- Comment line 2\nCREATE TABLE t1 (id INT)\nGO\n-- Comment line 5\nCREATE TABLE t2 (id INT)";
    let batches = split_batches(sql);
    assert_eq!(batches.len(), 2);
    assert_eq!(batches[0].start_line, 1);
    assert!(batches[0].content.contains("CREATE TABLE t1"));
    assert_eq!(batches[1].start_line, 5);
    assert!(batches[1].content.contains("CREATE TABLE t2"));
}

#[test]
fn test_split_batches_multiple_go() {
    let sql = "SELECT 1\nGO\nSELECT 2\nGO\nSELECT 3";
    let batches = split_batches(sql);
    assert_eq!(batches.len(), 3);
    assert_eq!(batches[0].start_line, 1);
    assert_eq!(batches[1].start_line, 3);
    assert_eq!(batches[2].start_line, 5);
}

#[test]
fn test_extract_line_from_error() {
    assert_eq!(
        extract_line_from_error("Error at Line: 5, Column: 10"),
        Some(5)
    );
    assert_eq!(
        extract_line_from_error("Parse error at Line: 123, Column: 1"),
        Some(123)
    );
    assert_eq!(extract_line_from_error("No line info here"), None);
    assert_eq!(extract_line_from_error("Line:42, Column: 1"), Some(42));
}

#[test]
fn batches_skip_go_inside_block_comment() {
    let sql = "SELECT 1\n/* comment\nGO\n*/\nSELECT 2";
    let batches = split_batches(sql);
    assert_eq!(batches.len(), 1);
    assert_eq!(batches[0].content, sql);
}

#[test]
fn batches_are_never_empty() {
    let batches = split_batches("GO\nGO\nSELECT 1\nGO\n");
    assert_eq!(batches.len(), 1);
    assert_eq!(batches[0].content, "SELECT 1\n");
    assert_eq!(batches[0].start_line, 3);
}

#[test]
fn batches_crlf_lines() {
    let batches = split_batches("SELECT 1\r\nGO\r\nSELECT 2");
    assert_eq!(batches.len(), 2);
    assert_eq!(batches[0].content, "SELECT 1\r\n");
    assert_eq!(batches[1].content, "SELECT 2");
    assert_eq!(batches[1].start_line, 3);
}

#[test]
fn error_line_without_digits() {
    assert_eq!(extract_line_from_error("Line: x"), None);
    assert_eq!(extract_line_from_error("at Line:   7"), Some(7));
}
