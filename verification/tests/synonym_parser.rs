use sqlpackage_parser::synonym_parser::parse_create_synonym_tokens;
#[test]
fn test_create_synonym_basic_2part_target() {
    let sql = "CREATE SYNONYM [dbo].[MySynonym] FOR [dbo].[TargetTable]";
    let result = parse_create_synonym_tokens(sql).unwrap();
    assert_eq!(result.schema, "dbo");
    assert_eq!(result.name, "MySynonym");
    assert_eq!(result.target_schema, "dbo");
    assert_eq!(result.target_name, "TargetTable");
    assert!(result.target_database.is_none());
    assert!(result.target_server.is_none());
}
#[test]
fn test_create_synonym_1part_target() {
    let sql = "CREATE SYNONYM [dbo].[MySynonym] FOR [TargetTable]";
    let result = parse_create_synonym_tokens(sql).unwrap();
    assert_eq!(result.schema, "dbo");
    assert_eq!(result.name, "MySynonym");
    assert_eq!(result.target_schema, "dbo");
    assert_eq!(result.target_name, "TargetTable");
    assert!(result.target_database.is_none());
    assert!(result.target_server.is_none());
}
#[test]
fn test_create_synonym_3part_target() {
    let sql = "CREATE SYNONYM [dbo].[MySynonym] FOR [OtherDB].[dbo].[TargetTable]";
    let result = parse_create_synonym_tokens(sql).unwrap();
    assert_eq!(result.schema, "dbo");
    assert_eq!(result.name, "MySynonym");
    assert_eq!(result.target_database, Some("OtherDB".to_string()));
    assert_eq!(result.target_schema, "dbo");
    assert_eq!(result.target_name, "TargetTable");
    assert!(result.target_server.is_none());
}
#[test]
fn test_create_synonym_4part_target() {
    let sql =
        "CREATE SYNONYM [dbo].[MySynonym] FOR [RemoteServer].[OtherDB].[dbo].[TargetTable]";
    let result = parse_create_synonym_tokens(sql).unwrap();
    assert_eq!(result.schema, "dbo");
    assert_eq!(result.name, "MySynonym");
    assert_eq!(result.target_server, Some("RemoteServer".to_string()));
    assert_eq!(result.target_database, Some("OtherDB".to_string()));
    assert_eq!(result.target_schema, "dbo");
    assert_eq!(result.target_name, "TargetTable");
}
#[test]
fn test_create_synonym_cross_schema() {
    let sql = "CREATE SYNONYM [sales].[MySynonym] FOR [hr].[Employees]";
    let result = parse_create_synonym_tokens(sql).unwrap();
    assert_eq!(result.schema, "sales");
    assert_eq!(result.name, "MySynonym");
    assert_eq!(result.target_schema, "hr");
    assert_eq!(result.target_name, "Employees");
}
#[test]
fn test_create_synonym_unbracketed() {
    let sql = "CREATE SYNONYM dbo.MySynonym FOR dbo.TargetTable";
    let result = parse_create_synonym_tokens(sql).unwrap();
    assert_eq!(result.schema, "dbo");
    assert_eq!(result.name, "MySynonym");
    assert_eq!(result.target_schema, "dbo");
    assert_eq!(result.target_name, "TargetTable");
}
#[test]
fn test_create_synonym_no_schema() {
    let sql = "CREATE SYNONYM [MySynonym] FOR [dbo].[TargetTable]";
    let result = parse_create_synonym_tokens(sql).unwrap();
    assert_eq!(result.schema, "dbo");
    assert_eq!(result.name, "MySynonym");
    assert_eq!(result.target_schema, "dbo");
    assert_eq!(result.target_name, "TargetTable");
}
#[test]
fn test_create_synonym_case_insensitive() {
    let sql = "create synonym [dbo].[MySynonym] for [dbo].[TargetTable]";
    let result = parse_create_synonym_tokens(sql).unwrap();
    assert_eq!(result.schema, "dbo");
    assert_eq!(result.name, "MySynonym");
    assert_eq!(result.target_schema, "dbo");
    assert_eq!(result.target_name, "TargetTable");
}
#[test]
fn test_create_synonym_with_semicolon() {
    let sql = "CREATE SYNONYM [dbo].[MySynonym] FOR [dbo].[TargetTable];";
    let result = parse_create_synonym_tokens(sql).unwrap();
    assert_eq!(result.schema, "dbo");
    assert_eq!(result.name, "MySynonym");
    assert_eq!(result.target_schema, "dbo");
    assert_eq!(result.target_name, "TargetTable");
}
#[test]
fn test_create_synonym_multiline() {
    let sql = r#"
CREATE SYNONYM [dbo].[ExternalTable]
FOR [OtherDatabase].[dbo].[SomeTable];
"#;
    let result = parse_create_synonym_tokens(sql).unwrap();
    assert_eq!(result.schema, "dbo");
    assert_eq!(result.name, "ExternalTable");
    assert_eq!(result.target_database, Some("OtherDatabase".to_string()));
    assert_eq!(result.target_schema, "dbo");
    assert_eq!(result.target_name, "SomeTable");
}
#[test]
fn test_not_a_synonym() {
    let result = parse_create_synonym_tokens("CREATE TABLE [dbo].[Users] (Id INT)");
    assert!(result.is_none());
}
#[test]
fn test_drop_synonym_not_create() {
    let result = parse_create_synonym_tokens("DROP SYNONYM [dbo].[MySynonym]");
    assert!(result.is_none());
}
#[test]
fn test_create_synonym_missing_for() {
    let result =
        parse_create_synonym_tokens("CREATE SYNONYM [dbo].[MySynonym] [dbo].[TargetTable]");
    assert!(result.is_none());
}

