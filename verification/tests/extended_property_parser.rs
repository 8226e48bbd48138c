use sqlpackage_parser::extended_property_parser::parse_extended_property_tokens;
#[test]
fn test_basic_table_property() {
    let sql = r#"
            EXEC sp_addextendedproperty
                @name = N'MS_Description',
                @value = N'Description text',
                @level0type = N'SCHEMA', @level0name = N'dbo',
                @level1type = N'TABLE', @level1name = N'Users';
        "#;

    let result = parse_extended_property_tokens(sql).unwrap();
    assert_eq!(result.property_name, "MS_Description");
    assert_eq!(result.property_value, "Description text");
    assert_eq!(result.level0name, "dbo");
    assert_eq!(result.level1type, Some("TABLE".to_string()));
    assert_eq!(result.level1name, Some("Users".to_string()));
    assert_eq!(result.level2type, None);
    assert_eq!(result.level2name, None);
}
#[test]
fn test_column_property() {
    let sql = r#"
            EXEC sp_addextendedproperty
                @name = N'MS_Description',
                @value = N'Column description',
                @level0type = N'SCHEMA', @level0name = N'dbo',
                @level1type = N'TABLE', @level1name = N'Users',
                @level2type = N'COLUMN', @level2name = N'Id';
        "#;

    let result = parse_extended_property_tokens(sql).unwrap();
    assert_eq!(result.property_name, "MS_Description");
    assert_eq!(result.property_value, "Column description");
    assert_eq!(result.level0name, "dbo");
    assert_eq!(result.level1type, Some("TABLE".to_string()));
    assert_eq!(result.level1name, Some("Users".to_string()));
    assert_eq!(result.level2type, Some("COLUMN".to_string()));
    assert_eq!(result.level2name, Some("Id".to_string()));
}
#[test]
fn test_without_exec() {
    let sql = r#"
            sp_addextendedproperty
                @name = N'MS_Description',
                @value = N'Description',
                @level0type = N'SCHEMA', @level0name = N'dbo',
                @level1type = N'TABLE', @level1name = N'Products';
        "#;

    let result = parse_extended_property_tokens(sql).unwrap();
    assert_eq!(result.property_name, "MS_Description");
    assert_eq!(result.level1name, Some("Products".to_string()));
}
#[test]
fn test_execute_keyword() {
    let sql = r#"
            EXECUTE sp_addextendedproperty
                @name = N'MS_Description',
                @value = N'Description',
                @level0type = N'SCHEMA', @level0name = N'dbo',
                @level1type = N'VIEW', @level1name = N'CustomerView';
        "#;

    let result = parse_extended_property_tokens(sql).unwrap();
    assert_eq!(result.level1type, Some("VIEW".to_string()));
    assert_eq!(result.level1name, Some("CustomerView".to_string()));
}
#[test]
fn test_schema_qualified_procedure() {
    let sql = r#"
            EXEC sys.sp_addextendedproperty
                @name = N'MS_Description',
                @value = N'Test',
                @level0type = N'SCHEMA', @level0name = N'dbo',
                @level1type = N'TABLE', @level1name = N'Test';
        "#;

    let result = parse_extended_property_tokens(sql).unwrap();
    assert_eq!(result.property_name, "MS_Description");
}
#[test]
fn test_null_value() {
    let sql = r#"
            EXEC sp_addextendedproperty
                @name = N'MS_Description',
                @value = NULL,
                @level0type = N'SCHEMA', @level0name = N'dbo',
                @level1type = N'TABLE', @level1name = N'Test';
        "#;

    let result = parse_extended_property_tokens(sql).unwrap();
    assert_eq!(result.property_name, "MS_Description");
    assert_eq!(result.property_value, ""); // NULL becomes empty string
}
#[test]
fn test_single_quotes_without_n() {
    let sql = r#"
            EXEC sp_addextendedproperty
                @name = 'MS_Description',
                @value = 'Simple string',
                @level0type = 'SCHEMA', @level0name = 'sales',
                @level1type = 'TABLE', @level1name = 'Orders';
        "#;

    let result = parse_extended_property_tokens(sql).unwrap();
    assert_eq!(result.property_name, "MS_Description");
    assert_eq!(result.property_value, "Simple string");
    assert_eq!(result.level0name, "sales");
    assert_eq!(result.level1name, Some("Orders".to_string()));
}
#[test]
fn test_index_property() {
    let sql = r#"
            EXEC sp_addextendedproperty
                @name = N'MS_Description',
                @value = N'Index description',
                @level0type = N'SCHEMA', @level0name = N'dbo',
                @level1type = N'TABLE', @level1name = N'Users',
                @level2type = N'INDEX', @level2name = N'IX_Users_Email';
        "#;

    let result = parse_extended_property_tokens(sql).unwrap();
    assert_eq!(result.level2type, Some("INDEX".to_string()));
    assert_eq!(result.level2name, Some("IX_Users_Email".to_string()));
}
#[test]
fn test_custom_schema() {
    let sql = r#"
            EXEC sp_addextendedproperty
                @name = N'MS_Description',
                @value = N'Table in custom schema',
                @level0type = N'SCHEMA', @level0name = N'sales',
                @level1type = N'TABLE', @level1name = N'Orders';
        "#;

    let result = parse_extended_property_tokens(sql).unwrap();
    assert_eq!(result.level0name, "sales");
}
#[test]
fn test_schema_property_only() {
    // Property on schema itself, no level1
    let sql = r#"
            EXEC sp_addextendedproperty
                @name = N'MS_Description',
                @value = N'Sales schema',
                @level0type = N'SCHEMA', @level0name = N'sales';
        "#;

    let result = parse_extended_property_tokens(sql).unwrap();
    assert_eq!(result.property_name, "MS_Description");
    assert_eq!(result.property_value, "Sales schema");
    assert_eq!(result.level0name, "sales");
    assert_eq!(result.level1type, None);
    assert_eq!(result.level1name, None);
}
#[test]
fn test_default_schema() {
    // No explicit level0name, should default to dbo
    let sql = r#"
            EXEC sp_addextendedproperty
                @name = N'MS_Description',
                @value = N'Test',
                @level0type = N'SCHEMA',
                @level1type = N'TABLE', @level1name = N'Test';
        "#;

    let result = parse_extended_property_tokens(sql).unwrap();
    assert_eq!(result.level0name, "dbo"); // Default
}
#[test]
fn test_mixed_case_parameters() {
    let sql = r#"
            EXEC sp_addextendedproperty
                @NAME = N'MS_Description',
                @VALUE = N'Test',
                @Level0Type = N'SCHEMA', @Level0Name = N'dbo',
                @level1type = N'TABLE', @LEVEL1NAME = N'Test';
        "#;

    let result = parse_extended_property_tokens(sql).unwrap();
    assert_eq!(result.property_name, "MS_Description");
    assert_eq!(result.property_value, "Test");
    assert_eq!(result.level1name, Some("Test".to_string()));
}
#[test]
fn test_value_with_special_characters() {
    let sql = r#"
            EXEC sp_addextendedproperty
                @name = N'MS_Description',
                @value = N'Description with "quotes" and special chars: <>',
                @level0type = N'SCHEMA', @level0name = N'dbo',
                @level1type = N'TABLE', @level1name = N'Test';
        "#;

    let result = parse_extended_property_tokens(sql).unwrap();
    assert!(result.property_value.contains("quotes"));
}
#[test]
fn test_invalid_no_name() {
    let sql = r#"
            EXEC sp_addextendedproperty
                @value = N'Description',
                @level0type = N'SCHEMA', @level0name = N'dbo';
        "#;

    let result = parse_extended_property_tokens(sql);
    assert!(result.is_none());
}
#[test]
fn test_invalid_not_extended_property() {
    let sql = r#"
            CREATE TABLE dbo.Test (Id INT);
        "#;

    let result = parse_extended_property_tokens(sql);
    assert!(result.is_none());
}
#[test]
fn test_procedure_property() {
    let sql = r#"
            EXEC sp_addextendedproperty
                @name = N'MS_Description',
                @value = N'Stored procedure description',
                @level0type = N'SCHEMA', @level0name = N'dbo',
                @level1type = N'PROCEDURE', @level1name = N'usp_GetUsers';
        "#;

    let result = parse_extended_property_tokens(sql).unwrap();
    assert_eq!(result.level1type, Some("PROCEDURE".to_string()));
    assert_eq!(result.level1name, Some("usp_GetUsers".to_string()));
}
#[test]
fn test_function_property() {
    let sql = r#"
            EXEC sp_addextendedproperty
                @name = N'MS_Description',
                @value = N'Function description',
                @level0type = N'SCHEMA', @level0name = N'dbo',
                @level1type = N'FUNCTION', @level1name = N'fn_CalculateTotal';
        "#;

    let result = parse_extended_property_tokens(sql).unwrap();
    assert_eq!(result.level1type, Some("FUNCTION".to_string()));
    assert_eq!(result.level1name, Some("fn_CalculateTotal".to_string()));
}
#[test]
fn test_constraint_property() {
    let sql = r#"
            EXEC sp_addextendedproperty
                @name = N'MS_Description',
                @value = N'Primary key constraint',
                @level0type = N'SCHEMA', @level0name = N'dbo',
                @level1type = N'TABLE', @level1name = N'Users',
                @level2type = N'CONSTRAINT', @level2name = N'PK_Users';
        "#;

    let result = parse_extended_property_tokens(sql).unwrap();
    assert_eq!(result.level2type, Some("CONSTRAINT".to_string()));
    assert_eq!(result.level2name, Some("PK_Users".to_string()));
}


#[test]
fn test_extended_property_defaults_to_dbo_and_null_value_is_empty() {
    let r = parse_extended_property_tokens(
        "EXEC sp_addextendedproperty @name = N'Note', @value = NULL, @level1type = N'TABLE', @level1name = N'T'",
    )
    .unwrap();
    assert_eq!(r.property_name, "Note");
    assert_eq!(r.property_value, "");
    assert_eq!(r.level0name, "dbo");
    assert_eq!(r.level1name, Some("T".to_string()));
}
