use sqlpackage_parser::index_parser::parse_create_index_tokens;

#[test]
fn test_create_clustered_index_basic() {
    let sql = "CREATE CLUSTERED INDEX [IX_Table_Col] ON [dbo].[MyTable] ([Col1])";
    let result = parse_create_index_tokens(sql).unwrap();
    assert_eq!(result.name, "IX_Table_Col");
    assert_eq!(result.table_schema, "dbo");
    assert_eq!(result.table_name, "MyTable");
    assert_eq!(result.columns, vec!["Col1"]);
    assert!(!result.is_unique);
    assert!(result.is_clustered);
}

#[test]
fn test_create_nonclustered_index_basic() {
    let sql = "CREATE NONCLUSTERED INDEX [IX_Table_Col] ON [dbo].[MyTable] ([Col1])";
    let result = parse_create_index_tokens(sql).unwrap();
    assert_eq!(result.name, "IX_Table_Col");
    assert!(!result.is_unique);
    assert!(!result.is_clustered);
}

#[test]
fn test_create_unique_clustered_index() {
    let sql = "CREATE UNIQUE CLUSTERED INDEX [IX_PK] ON [dbo].[Users] ([UserId])";
    let result = parse_create_index_tokens(sql).unwrap();
    assert_eq!(result.name, "IX_PK");
    assert!(result.is_unique);
    assert!(result.is_clustered);
}

#[test]
fn test_create_unique_nonclustered_index() {
    let sql = "CREATE UNIQUE NONCLUSTERED INDEX [IX_Email] ON [dbo].[Users] ([Email])";
    let result = parse_create_index_tokens(sql).unwrap();
    assert!(result.is_unique);
    assert!(!result.is_clustered);
}

#[test]
fn test_standard_index_returns_none() {
    // Standard CREATE INDEX (without CLUSTERED/NONCLUSTERED) should return None
    // because sqlparser handles these directly
    let sql = "CREATE INDEX [IX_Test] ON [dbo].[Table] ([Col])";
    let result = parse_create_index_tokens(sql);
    assert!(result.is_none());
}

#[test]
fn test_index_multiple_columns() {
    let sql = "CREATE NONCLUSTERED INDEX [IX_Multi] ON [dbo].[Orders] ([CustomerId], [OrderDate], [Status])";
    let result = parse_create_index_tokens(sql).unwrap();
    assert_eq!(result.columns, vec!["CustomerId", "OrderDate", "Status"]);
}

#[test]
fn test_index_columns_with_asc() {
    let sql = "CREATE NONCLUSTERED INDEX [IX_Asc] ON [dbo].[Table] ([Col1] ASC, [Col2] ASC)";
    let result = parse_create_index_tokens(sql).unwrap();
    assert_eq!(result.columns, vec!["Col1", "Col2"]);
}

#[test]
fn test_index_columns_with_desc() {
    let sql = "CREATE NONCLUSTERED INDEX [IX_Desc] ON [dbo].[Table] ([Col1] DESC, [Col2] DESC)";
    let result = parse_create_index_tokens(sql).unwrap();
    assert_eq!(result.columns, vec!["Col1", "Col2"]);
}

#[test]
fn test_index_columns_mixed_order() {
    let sql = "CREATE NONCLUSTERED INDEX [IX_Mixed] ON [dbo].[Table] ([Col1] ASC, [Col2] DESC, [Col3])";
    let result = parse_create_index_tokens(sql).unwrap();
    assert_eq!(result.columns, vec!["Col1", "Col2", "Col3"]);
}

#[test]
fn test_index_with_include_single() {
    let sql =
        "CREATE NONCLUSTERED INDEX [IX_Inc] ON [dbo].[Table] ([KeyCol]) INCLUDE ([IncCol])";
    let result = parse_create_index_tokens(sql).unwrap();
    assert_eq!(result.columns, vec!["KeyCol"]);
    assert_eq!(result.include_columns, vec!["IncCol"]);
}

#[test]
fn test_index_with_include_multiple() {
    let sql = "CREATE NONCLUSTERED INDEX [IX_Inc] ON [dbo].[Orders] ([OrderId]) INCLUDE ([CustomerName], [OrderDate], [Total])";
    let result = parse_create_index_tokens(sql).unwrap();
    assert_eq!(result.columns, vec!["OrderId"]);
    assert_eq!(
        result.include_columns,
        vec!["CustomerName", "OrderDate", "Total"]
    );
}

#[test]
fn test_index_no_include() {
    let sql = "CREATE NONCLUSTERED INDEX [IX_NoInc] ON [dbo].[Table] ([Col1])";
    let result = parse_create_index_tokens(sql).unwrap();
    assert!(result.include_columns.is_empty());
}

#[test]
fn test_index_with_fillfactor() {
    let sql =
        "CREATE NONCLUSTERED INDEX [IX_Fill] ON [dbo].[Table] ([Col]) WITH (FILLFACTOR = 80)";
    let result = parse_create_index_tokens(sql).unwrap();
    assert_eq!(result.fill_factor, Some(80));
}

#[test]
fn test_index_with_fillfactor_100() {
    let sql =
        "CREATE NONCLUSTERED INDEX [IX_Fill] ON [dbo].[Table] ([Col]) WITH (FILLFACTOR = 100)";
    let result = parse_create_index_tokens(sql).unwrap();
    assert_eq!(result.fill_factor, Some(100));
}

#[test]
fn test_index_with_data_compression_row() {
    let sql = "CREATE NONCLUSTERED INDEX [IX_Comp] ON [dbo].[Table] ([Col]) WITH (DATA_COMPRESSION = ROW)";
    let result = parse_create_index_tokens(sql).unwrap();
    assert_eq!(result.data_compression, Some("ROW".to_string()));
}

#[test]
fn test_index_with_data_compression_page() {
    let sql = "CREATE NONCLUSTERED INDEX [IX_Comp] ON [dbo].[Table] ([Col]) WITH (DATA_COMPRESSION = PAGE)";
    let result = parse_create_index_tokens(sql).unwrap();
    assert_eq!(result.data_compression, Some("PAGE".to_string()));
}

#[test]
fn test_index_with_data_compression_none() {
    let sql = "CREATE NONCLUSTERED INDEX [IX_Comp] ON [dbo].[Table] ([Col]) WITH (DATA_COMPRESSION = NONE)";
    let result = parse_create_index_tokens(sql).unwrap();
    assert_eq!(result.data_compression, Some("NONE".to_string()));
}

#[test]
fn test_index_with_multiple_options() {
    let sql = "CREATE NONCLUSTERED INDEX [IX_Multi] ON [dbo].[Table] ([Col]) WITH (FILLFACTOR = 90, DATA_COMPRESSION = PAGE)";
    let result = parse_create_index_tokens(sql).unwrap();
    assert_eq!(result.fill_factor, Some(90));
    assert_eq!(result.data_compression, Some("PAGE".to_string()));
}

#[test]
fn test_index_with_other_options_ignored() {
    // PAD_INDEX, SORT_IN_TEMPDB, etc. should be parsed but ignored
    let sql = "CREATE NONCLUSTERED INDEX [IX_Other] ON [dbo].[Table] ([Col]) WITH (PAD_INDEX = ON, FILLFACTOR = 70, SORT_IN_TEMPDB = OFF)";
    let result = parse_create_index_tokens(sql).unwrap();
    assert_eq!(result.fill_factor, Some(70));
}

#[test]
fn test_index_with_where_simple() {
    let sql = "CREATE NONCLUSTERED INDEX [IX_Filter] ON [dbo].[Orders] ([OrderDate]) WHERE [Status] = 'Active'";
    let result = parse_create_index_tokens(sql).unwrap();
    assert!(result.filter_predicate.is_some());
    let pred = result.filter_predicate.unwrap();
    assert!(pred.contains("Status"));
    assert!(pred.contains("Active"));
}

#[test]
fn test_index_with_where_and_with() {
    let sql = "CREATE NONCLUSTERED INDEX [IX_Filter] ON [dbo].[Orders] ([OrderDate]) WHERE [Status] = 1 WITH (FILLFACTOR = 80)";
    let result = parse_create_index_tokens(sql).unwrap();
    assert!(result.filter_predicate.is_some());
    assert_eq!(result.fill_factor, Some(80));
    let pred = result.filter_predicate.unwrap();
    assert!(pred.contains("Status"));
    assert!(pred.contains("1"));
}

#[test]
fn test_index_with_where_is_not_null() {
    let sql = "CREATE NONCLUSTERED INDEX [IX_NotNull] ON [dbo].[Users] ([Email]) WHERE [Email] IS NOT NULL";
    let result = parse_create_index_tokens(sql).unwrap();
    assert!(result.filter_predicate.is_some());
    let pred = result.filter_predicate.unwrap();
    assert!(pred.contains("Email"));
    assert!(pred.contains("IS"));
    assert!(pred.contains("NOT"));
    assert!(pred.contains("NULL"));
}

#[test]
fn test_index_custom_schema() {
    let sql = "CREATE NONCLUSTERED INDEX [IX_Sales] ON [sales].[Orders] ([OrderId])";
    let result = parse_create_index_tokens(sql).unwrap();
    assert_eq!(result.table_schema, "sales");
    assert_eq!(result.table_name, "Orders");
}

#[test]
fn test_index_no_schema() {
    let sql = "CREATE NONCLUSTERED INDEX [IX_Test] ON [MyTable] ([Col])";
    let result = parse_create_index_tokens(sql).unwrap();
    assert_eq!(result.table_schema, "dbo");
    assert_eq!(result.table_name, "MyTable");
}

#[test]
fn test_index_unbracketed_names() {
    let sql = "CREATE NONCLUSTERED INDEX IX_Test ON dbo.MyTable (Col1, Col2)";
    let result = parse_create_index_tokens(sql).unwrap();
    assert_eq!(result.name, "IX_Test");
    assert_eq!(result.table_schema, "dbo");
    assert_eq!(result.table_name, "MyTable");
    assert_eq!(result.columns, vec!["Col1", "Col2"]);
}

#[test]
fn test_index_mixed_brackets() {
    let sql = "CREATE NONCLUSTERED INDEX [IX_Test] ON dbo.[MyTable] (Col1)";
    let result = parse_create_index_tokens(sql).unwrap();
    assert_eq!(result.name, "IX_Test");
    assert_eq!(result.table_name, "MyTable");
}

#[test]
fn test_index_lowercase() {
    let sql = "create nonclustered index [IX_Test] on [dbo].[Table] ([Col])";
    let result = parse_create_index_tokens(sql).unwrap();
    assert_eq!(result.name, "IX_Test");
}

#[test]
fn test_index_mixed_case() {
    let sql = "Create NonClustered Index [IX_Test] On [dbo].[Table] ([Col])";
    let result = parse_create_index_tokens(sql).unwrap();
    assert_eq!(result.name, "IX_Test");
    assert!(!result.is_clustered);
}

#[test]
fn test_index_uppercase() {
    let sql = "CREATE NONCLUSTERED INDEX [IX_TEST] ON [DBO].[TABLE] ([COL])";
    let result = parse_create_index_tokens(sql).unwrap();
    assert_eq!(result.name, "IX_TEST");
}

#[test]
fn test_index_multiline() {
    let sql = r#"
CREATE NONCLUSTERED INDEX [IX_Test]
ON [dbo].[MyTable]
([Col1], [Col2] DESC)
INCLUDE ([Col3], [Col4])
WHERE [Active] = 1
WITH (FILLFACTOR = 80)
"#;
    let result = parse_create_index_tokens(sql).unwrap();
    assert_eq!(result.name, "IX_Test");
    assert_eq!(result.columns, vec!["Col1", "Col2"]);
    assert_eq!(result.include_columns, vec!["Col3", "Col4"]);
    assert!(result.filter_predicate.is_some());
    assert_eq!(result.fill_factor, Some(80));
}

#[test]
fn test_index_minimal_whitespace() {
    let sql = "CREATE NONCLUSTERED INDEX[IX_Test]ON[dbo].[Table]([Col])";
    let result = parse_create_index_tokens(sql).unwrap();
    assert_eq!(result.name, "IX_Test");
    assert_eq!(result.table_name, "Table");
}

#[test]
fn test_index_with_semicolon() {
    let sql = "CREATE NONCLUSTERED INDEX [IX_Test] ON [dbo].[Table] ([Col]);";
    let result = parse_create_index_tokens(sql).unwrap();
    assert_eq!(result.name, "IX_Test");
}

#[test]
fn test_not_an_index() {
    let result = parse_create_index_tokens("CREATE TABLE [dbo].[Users] (Id INT)");
    assert!(result.is_none());
}

#[test]
fn test_create_procedure_not_index() {
    let result =
        parse_create_index_tokens("CREATE PROCEDURE [dbo].[GetUsers] AS SELECT * FROM Users");
    assert!(result.is_none());
}

#[test]
fn test_alter_index_not_supported() {
    // ALTER INDEX is not supported by this parser
    let result = parse_create_index_tokens("ALTER INDEX [IX_Test] ON [dbo].[Table] REBUILD");
    assert!(result.is_none());
}

#[test]
fn test_drop_index_not_supported() {
    let result = parse_create_index_tokens("DROP INDEX [IX_Test] ON [dbo].[Table]");
    assert!(result.is_none());
}

#[test]
fn test_complex_covering_index() {
    let sql = r#"
CREATE UNIQUE NONCLUSTERED INDEX [IX_Orders_CustomerOrder]
ON [sales].[Orders] ([CustomerId] ASC, [OrderNumber] ASC)
INCLUDE ([OrderDate], [TotalAmount], [Status], [ShippingAddress])
WHERE [IsDeleted] = 0
WITH (FILLFACTOR = 90, DATA_COMPRESSION = PAGE)
"#;
    let result = parse_create_index_tokens(sql).unwrap();
    assert_eq!(result.name, "IX_Orders_CustomerOrder");
    assert_eq!(result.table_schema, "sales");
    assert_eq!(result.table_name, "Orders");
    assert!(result.is_unique);
    assert!(!result.is_clustered);
    assert_eq!(result.columns, vec!["CustomerId", "OrderNumber"]);
    assert_eq!(result.include_columns.len(), 4);
    assert!(result.filter_predicate.is_some());
    assert_eq!(result.fill_factor, Some(90));
    assert_eq!(result.data_compression, Some("PAGE".to_string()));
}

#[test]
fn test_columnstore_compression() {
    let sql = "CREATE NONCLUSTERED INDEX [IX_Archive] ON [dbo].[Archive] ([Date]) WITH (DATA_COMPRESSION = COLUMNSTORE)";
    let result = parse_create_index_tokens(sql).unwrap();
    assert_eq!(result.data_compression, Some("COLUMNSTORE".to_string()));
}

