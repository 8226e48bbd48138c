use sqlpackage_parser::statement_parser::{try_parse_cte_dml_tokens, try_parse_drop_tokens, try_parse_generic_create_tokens, try_parse_merge_output_tokens, try_parse_xml_update_tokens, DmlType, DropType};
#[test]
fn test_cte_with_delete() {
    let sql = r#"
            WITH ToDelete AS (
                SELECT Id FROM Products WHERE IsDeleted = 1
            )
            DELETE FROM Products WHERE Id IN (SELECT Id FROM ToDelete)
        "#;

    let result = try_parse_cte_dml_tokens(sql);
    assert!(result.is_some());
    let parsed = result.unwrap();
    assert_eq!(parsed.dml_type, DmlType::Delete);
}
#[test]
fn test_cte_with_update() {
    let sql = r#"
            WITH ToUpdate AS (
                SELECT Id, Name FROM Products WHERE Category = 'Old'
            )
            UPDATE p SET p.Category = 'New'
            FROM Products p
            INNER JOIN ToUpdate t ON p.Id = t.Id
        "#;

    let result = try_parse_cte_dml_tokens(sql);
    assert!(result.is_some());
    let parsed = result.unwrap();
    assert_eq!(parsed.dml_type, DmlType::Update);
}
#[test]
fn test_cte_with_insert() {
    let sql = r#"
            WITH SourceData AS (
                SELECT Name, Price FROM OtherTable WHERE Active = 1
            )
            INSERT INTO Products (Name, Price)
            SELECT Name, Price FROM SourceData
        "#;

    let result = try_parse_cte_dml_tokens(sql);
    assert!(result.is_some());
    let parsed = result.unwrap();
    assert_eq!(parsed.dml_type, DmlType::Insert);
}
#[test]
fn test_cte_with_merge() {
    let sql = r#"
            WITH Source AS (
                SELECT Id, Name FROM SourceTable
            )
            MERGE INTO TargetTable t
            USING Source s ON t.Id = s.Id
            WHEN MATCHED THEN UPDATE SET t.Name = s.Name
            WHEN NOT MATCHED THEN INSERT (Id, Name) VALUES (s.Id, s.Name);
        "#;

    let result = try_parse_cte_dml_tokens(sql);
    assert!(result.is_some());
    let parsed = result.unwrap();
    assert_eq!(parsed.dml_type, DmlType::Merge);
}
#[test]
fn test_cte_with_select_returns_none() {
    // Regular CTE with SELECT should return None (sqlparser handles these)
    let sql = r#"
            WITH cte AS (
                SELECT Id, Name FROM Products
            )
            SELECT * FROM cte
        "#;

    let result = try_parse_cte_dml_tokens(sql);
    assert!(result.is_none());
}
#[test]
fn test_multiple_ctes_with_delete() {
    let sql = r#"
            WITH
                First AS (SELECT Id FROM Table1),
                Second AS (SELECT Id FROM Table2 WHERE Id IN (SELECT Id FROM First))
            DELETE FROM Table3 WHERE Id IN (SELECT Id FROM Second)
        "#;

    let result = try_parse_cte_dml_tokens(sql);
    assert!(result.is_some());
    let parsed = result.unwrap();
    assert_eq!(parsed.dml_type, DmlType::Delete);
}
#[test]
fn test_not_a_cte() {
    let sql = "SELECT * FROM Products";
    let result = try_parse_cte_dml_tokens(sql);
    assert!(result.is_none());
}
#[test]
fn test_merge_with_output() {
    let sql = r#"
            MERGE INTO dbo.TargetTable t
            USING dbo.SourceTable s ON t.Id = s.Id
            WHEN MATCHED THEN UPDATE SET t.Name = s.Name
            OUTPUT $action, inserted.Id, deleted.Id;
        "#;

    let result = try_parse_merge_output_tokens(sql);
    assert!(result.is_some());
    let parsed = result.unwrap();
    assert_eq!(parsed.schema, "dbo");
    assert_eq!(parsed.name, "TargetTable");
}
#[test]
fn test_merge_without_output() {
    let sql = r#"
            MERGE INTO dbo.TargetTable t
            USING dbo.SourceTable s ON t.Id = s.Id
            WHEN MATCHED THEN UPDATE SET t.Name = s.Name;
        "#;

    let result = try_parse_merge_output_tokens(sql);
    assert!(result.is_none());
}
#[test]
fn test_merge_with_output_no_into() {
    let sql = r#"
            MERGE dbo.TargetTable t
            USING dbo.SourceTable s ON t.Id = s.Id
            WHEN MATCHED THEN UPDATE SET t.Name = s.Name
            OUTPUT inserted.*, deleted.*;
        "#;

    let result = try_parse_merge_output_tokens(sql);
    assert!(result.is_some());
    let parsed = result.unwrap();
    assert_eq!(parsed.schema, "dbo");
    assert_eq!(parsed.name, "TargetTable");
}
#[test]
fn test_merge_default_schema() {
    let sql = r#"
            MERGE TargetTable t
            USING SourceTable s ON t.Id = s.Id
            WHEN MATCHED THEN UPDATE SET t.Name = s.Name
            OUTPUT $action;
        "#;

    let result = try_parse_merge_output_tokens(sql);
    assert!(result.is_some());
    let parsed = result.unwrap();
    assert_eq!(parsed.schema, "dbo");
    assert_eq!(parsed.name, "TargetTable");
}
#[test]
fn test_update_with_xml_modify() {
    let sql = r#"
            UPDATE dbo.Products
            SET XmlData.modify('replace value of (/root/item/text())[1] with "new value"')
            WHERE Id = 1
        "#;

    let result = try_parse_xml_update_tokens(sql);
    assert!(result.is_some());
    let parsed = result.unwrap();
    assert_eq!(parsed.schema, "dbo");
    assert_eq!(parsed.name, "Products");
}
#[test]
fn test_update_with_xml_value() {
    let sql = r#"
            UPDATE Products
            SET Name = XmlData.value('(/root/name)[1]', 'nvarchar(100)')
            WHERE Id = 1
        "#;

    let result = try_parse_xml_update_tokens(sql);
    assert!(result.is_some());
    let parsed = result.unwrap();
    assert_eq!(parsed.schema, "dbo");
    assert_eq!(parsed.name, "Products");
}
#[test]
fn test_update_without_xml_method() {
    let sql = r#"
            UPDATE Products
            SET Name = 'New Name'
            WHERE Id = 1
        "#;

    let result = try_parse_xml_update_tokens(sql);
    assert!(result.is_none());
}
#[test]
fn test_drop_synonym() {
    let sql = "DROP SYNONYM [dbo].[MySynonym]";

    let result = try_parse_drop_tokens(sql);
    assert!(result.is_some());
    let parsed = result.unwrap();
    assert_eq!(parsed.drop_type, DropType::Synonym);
    assert_eq!(parsed.schema, "dbo");
    assert_eq!(parsed.name, "MySynonym");
}
#[test]
fn test_drop_synonym_if_exists() {
    let sql = "DROP SYNONYM IF EXISTS [dbo].[MySynonym]";

    let result = try_parse_drop_tokens(sql);
    assert!(result.is_some());
    let parsed = result.unwrap();
    assert_eq!(parsed.drop_type, DropType::Synonym);
    assert_eq!(parsed.schema, "dbo");
    assert_eq!(parsed.name, "MySynonym");
}
#[test]
fn test_drop_trigger() {
    let sql = "DROP TRIGGER [dbo].[TR_Products_Insert]";

    let result = try_parse_drop_tokens(sql);
    assert!(result.is_some());
    let parsed = result.unwrap();
    assert_eq!(parsed.drop_type, DropType::Trigger);
    assert_eq!(parsed.schema, "dbo");
    assert_eq!(parsed.name, "TR_Products_Insert");
}
#[test]
fn test_drop_index_on_table() {
    let sql = "DROP INDEX IX_Products_Name ON [dbo].[Products]";

    let result = try_parse_drop_tokens(sql);
    assert!(result.is_some());
    let parsed = result.unwrap();
    assert_eq!(parsed.drop_type, DropType::Index);
    assert_eq!(parsed.schema, "dbo");
    assert_eq!(parsed.name, "Products_IX_Products_Name");
}
#[test]
fn test_drop_proc_abbreviated() {
    let sql = "DROP PROC [dbo].[usp_GetProducts]";

    let result = try_parse_drop_tokens(sql);
    assert!(result.is_some());
    let parsed = result.unwrap();
    assert_eq!(parsed.drop_type, DropType::Procedure);
    assert_eq!(parsed.schema, "dbo");
    assert_eq!(parsed.name, "usp_GetProducts");
}
#[test]
fn test_drop_proc_default_schema() {
    let sql = "DROP PROC MyProcedure";

    let result = try_parse_drop_tokens(sql);
    assert!(result.is_some());
    let parsed = result.unwrap();
    assert_eq!(parsed.drop_type, DropType::Procedure);
    assert_eq!(parsed.schema, "dbo");
    assert_eq!(parsed.name, "MyProcedure");
}
#[test]
fn test_not_a_drop() {
    let sql = "SELECT * FROM Products";
    let result = try_parse_drop_tokens(sql);
    assert!(result.is_none());
}
#[test]
fn test_drop_table_not_handled() {
    // DROP TABLE is handled by sqlparser, so we don't parse it
    let sql = "DROP TABLE Products";
    let result = try_parse_drop_tokens(sql);
    assert!(result.is_none());
}
#[test]
fn test_generic_create_table() {
    let sql = "CREATE TABLE [dbo].[Products] (Id INT)";

    let result = try_parse_generic_create_tokens(sql);
    assert!(result.is_some());
    let parsed = result.unwrap();
    assert_eq!(parsed.object_type, "TABLE");
    assert_eq!(parsed.schema, "dbo");
    assert_eq!(parsed.name, "Products");
}
#[test]
fn test_generic_create_view() {
    let sql = "CREATE VIEW [dbo].[vw_Products] AS SELECT * FROM Products";

    let result = try_parse_generic_create_tokens(sql);
    assert!(result.is_some());
    let parsed = result.unwrap();
    assert_eq!(parsed.object_type, "VIEW");
    assert_eq!(parsed.schema, "dbo");
    assert_eq!(parsed.name, "vw_Products");
}
#[test]
fn test_generic_create_or_alter() {
    let sql = "CREATE OR ALTER VIEW [dbo].[vw_Products] AS SELECT * FROM Products";

    let result = try_parse_generic_create_tokens(sql);
    assert!(result.is_some());
    let parsed = result.unwrap();
    assert_eq!(parsed.object_type, "VIEW");
    assert_eq!(parsed.schema, "dbo");
    assert_eq!(parsed.name, "vw_Products");
}
#[test]
fn test_generic_create_rule() {
    let sql = "CREATE RULE [dbo].[RuleTest] AS @value > 0";

    let result = try_parse_generic_create_tokens(sql);
    assert!(result.is_some());
    let parsed = result.unwrap();
    assert_eq!(parsed.object_type, "RULE");
    assert_eq!(parsed.schema, "dbo");
    assert_eq!(parsed.name, "RuleTest");
}
#[test]
fn test_generic_create_synonym() {
    let sql = "CREATE SYNONYM [dbo].[MySynonym] FOR [OtherDB].[dbo].[Table]";

    let result = try_parse_generic_create_tokens(sql);
    assert!(result.is_some());
    let parsed = result.unwrap();
    assert_eq!(parsed.object_type, "SYNONYM");
    assert_eq!(parsed.schema, "dbo");
    assert_eq!(parsed.name, "MySynonym");
}
#[test]
fn test_generic_create_default_schema() {
    let sql = "CREATE TABLE Products (Id INT)";

    let result = try_parse_generic_create_tokens(sql);
    assert!(result.is_some());
    let parsed = result.unwrap();
    assert_eq!(parsed.object_type, "TABLE");
    assert_eq!(parsed.schema, "dbo");
    assert_eq!(parsed.name, "Products");
}
#[test]
fn test_generic_create_unbracketed() {
    let sql = "CREATE TABLE dbo.Products (Id INT)";

    let result = try_parse_generic_create_tokens(sql);
    assert!(result.is_some());
    let parsed = result.unwrap();
    assert_eq!(parsed.object_type, "TABLE");
    assert_eq!(parsed.schema, "dbo");
    assert_eq!(parsed.name, "Products");
}
#[test]
fn test_generic_create_procedure() {
    let sql = "CREATE PROCEDURE [dbo].[usp_GetProducts] AS SELECT 1";

    let result = try_parse_generic_create_tokens(sql);
    assert!(result.is_some());
    let parsed = result.unwrap();
    assert_eq!(parsed.object_type, "PROCEDURE");
    assert_eq!(parsed.schema, "dbo");
    assert_eq!(parsed.name, "usp_GetProducts");
}
#[test]
fn test_generic_create_function() {
    let sql = "CREATE FUNCTION [dbo].[fn_GetValue] () RETURNS INT AS BEGIN RETURN 1 END";

    let result = try_parse_generic_create_tokens(sql);
    assert!(result.is_some());
    let parsed = result.unwrap();
    assert_eq!(parsed.object_type, "FUNCTION");
    assert_eq!(parsed.schema, "dbo");
    assert_eq!(parsed.name, "fn_GetValue");
}
#[test]
fn test_generic_create_type() {
    let sql = "CREATE TYPE [dbo].[MyTableType] AS TABLE (Id INT)";

    let result = try_parse_generic_create_tokens(sql);
    assert!(result.is_some());
    let parsed = result.unwrap();
    assert_eq!(parsed.object_type, "TYPE");
    assert_eq!(parsed.schema, "dbo");
    assert_eq!(parsed.name, "MyTableType");
}
#[test]
fn test_not_a_create() {
    let sql = "SELECT * FROM Products";
    let result = try_parse_generic_create_tokens(sql);
    assert!(result.is_none());
}
#[test]
fn test_create_with_whitespace() {
    let sql = "  CREATE   TABLE   [dbo].[Products]  (Id INT)";

    let result = try_parse_generic_create_tokens(sql);
    assert!(result.is_some());
    let parsed = result.unwrap();
    assert_eq!(parsed.object_type, "TABLE");
    assert_eq!(parsed.schema, "dbo");
    assert_eq!(parsed.name, "Products");
}
#[test]
fn test_generic_create_lowercase() {
    let sql = "create table dbo.products (id int)";

    let result = try_parse_generic_create_tokens(sql);
    assert!(result.is_some());
    let parsed = result.unwrap();
    // Object type is preserved as-is from SQL (lowercase)
    assert_eq!(parsed.object_type, "table");
    assert_eq!(parsed.schema, "dbo");
    assert_eq!(parsed.name, "products");
}

