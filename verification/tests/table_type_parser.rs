use sqlpackage_parser::table_type_parser::{parse_create_table_type_tokens, ExtractedTableTypeConstraint};
#[test]
fn test_simple_table_type() {
    let sql = "CREATE TYPE [dbo].[SimpleType] AS TABLE ([Id] INT NOT NULL)";
    let result = parse_create_table_type_tokens(sql).unwrap();

    assert_eq!(result.schema, "dbo");
    assert_eq!(result.name, "SimpleType");
    assert_eq!(result.columns.len(), 1);
    assert_eq!(result.columns[0].name, "Id");
    assert_eq!(result.columns[0].data_type, "INT");
    assert_eq!(result.columns[0].nullability, Some(false));
}
#[test]
fn test_table_type_without_schema() {
    let sql = "CREATE TYPE [MyType] AS TABLE ([Value] NVARCHAR(50))";
    let result = parse_create_table_type_tokens(sql).unwrap();

    assert_eq!(result.schema, "dbo");
    assert_eq!(result.name, "MyType");
    assert_eq!(result.columns.len(), 1);
    assert_eq!(result.columns[0].name, "Value");
    assert_eq!(result.columns[0].data_type, "NVARCHAR(50)");
}
#[test]
fn test_table_type_unbracketed_names() {
    let sql = "CREATE TYPE dbo.TestType AS TABLE (Col1 INT)";
    let result = parse_create_table_type_tokens(sql).unwrap();

    assert_eq!(result.schema, "dbo");
    assert_eq!(result.name, "TestType");
    assert_eq!(result.columns.len(), 1);
    assert_eq!(result.columns[0].name, "Col1");
}
#[test]
fn test_table_type_multiple_columns() {
    let sql = r#"CREATE TYPE [dbo].[OrderItemsType] AS TABLE (
            [ProductId] INT NOT NULL,
            [Quantity] INT NOT NULL,
            [UnitPrice] DECIMAL(18, 2) NOT NULL
        )"#;
    let result = parse_create_table_type_tokens(sql).unwrap();

    assert_eq!(result.schema, "dbo");
    assert_eq!(result.name, "OrderItemsType");
    assert_eq!(result.columns.len(), 3);

    assert_eq!(result.columns[0].name, "ProductId");
    assert_eq!(result.columns[0].data_type, "INT");

    assert_eq!(result.columns[1].name, "Quantity");
    assert_eq!(result.columns[1].data_type, "INT");

    assert_eq!(result.columns[2].name, "UnitPrice");
    assert_eq!(result.columns[2].data_type, "DECIMAL(18, 2)");
}
#[test]
fn test_table_type_with_default_value() {
    let sql = r#"CREATE TYPE [dbo].[TypeWithDefault] AS TABLE (
            [Name] NVARCHAR(50) NOT NULL,
            [Value] INT NOT NULL DEFAULT 0
        )"#;
    let result = parse_create_table_type_tokens(sql).unwrap();

    assert_eq!(result.columns.len(), 2);
    assert_eq!(result.columns[1].name, "Value");
    assert_eq!(result.columns[1].default_value, Some("0".to_string()));
}
#[test]
fn test_table_type_with_primary_key() {
    let sql = r#"CREATE TYPE [dbo].[TypeWithPK] AS TABLE (
            [Id] INT NOT NULL,
            PRIMARY KEY CLUSTERED ([Id])
        )"#;
    let result = parse_create_table_type_tokens(sql).unwrap();

    assert_eq!(result.columns.len(), 1);
    assert_eq!(result.constraints.len(), 1);

    match &result.constraints[0] {
        ExtractedTableTypeConstraint::PrimaryKey {
            columns,
            is_clustered,
        } => {
            assert!(is_clustered);
            assert_eq!(columns.len(), 1);
            assert_eq!(columns[0].name, "Id");
            assert!(!columns[0].descending);
        }
        _ => panic!("Expected PrimaryKey constraint"),
    }
}
#[test]
fn test_table_type_with_commaless_primary_key() {
    // Test comma-less constraint syntax where no comma precedes the PRIMARY KEY
    let sql = r#"CREATE TYPE [dbo].[TableTypeWithCommalessPK] AS TABLE
(
    [ElementId] INT NOT NULL,
    [SequenceNo] INT NULL,
    [ParentId] INT,
    [Name] NVARCHAR(200),
    [Value] NVARCHAR(MAX) NOT NULL
    PRIMARY KEY ([ElementId])
)"#;
    let result = parse_create_table_type_tokens(sql).unwrap();

    assert_eq!(result.schema, "dbo");
    assert_eq!(result.name, "TableTypeWithCommalessPK");
    assert_eq!(result.columns.len(), 5);
    assert_eq!(result.constraints.len(), 1);

    // Verify columns
    assert_eq!(result.columns[0].name, "ElementId");
    assert_eq!(result.columns[4].name, "Value");

    // Verify PRIMARY KEY constraint
    match &result.constraints[0] {
        ExtractedTableTypeConstraint::PrimaryKey {
            columns,
            is_clustered,
        } => {
            assert!(is_clustered); // Default is clustered
            assert_eq!(columns.len(), 1);
            assert_eq!(columns[0].name, "ElementId");
        }
        _ => panic!("Expected PrimaryKey constraint"),
    }
}
#[test]
fn test_table_type_with_composite_primary_key() {
    let sql = r#"CREATE TYPE [dbo].[TypeWithCompositePK] AS TABLE (
            [Col1] INT NOT NULL,
            [Col2] INT NOT NULL,
            PRIMARY KEY CLUSTERED ([Col1], [Col2] DESC)
        )"#;
    let result = parse_create_table_type_tokens(sql).unwrap();

    assert_eq!(result.constraints.len(), 1);

    match &result.constraints[0] {
        ExtractedTableTypeConstraint::PrimaryKey {
            columns,
            is_clustered,
        } => {
            assert!(is_clustered);
            assert_eq!(columns.len(), 2);
            assert_eq!(columns[0].name, "Col1");
            assert!(!columns[0].descending);
            assert_eq!(columns[1].name, "Col2");
            assert!(columns[1].descending);
        }
        _ => panic!("Expected PrimaryKey constraint"),
    }
}
#[test]
fn test_table_type_with_nonclustered_primary_key() {
    let sql = r#"CREATE TYPE [dbo].[TypeWithNCPK] AS TABLE (
            [Id] INT NOT NULL,
            PRIMARY KEY NONCLUSTERED ([Id])
        )"#;
    let result = parse_create_table_type_tokens(sql).unwrap();

    match &result.constraints[0] {
        ExtractedTableTypeConstraint::PrimaryKey {
            columns: _,
            is_clustered,
        } => {
            assert!(!is_clustered);
        }
        _ => panic!("Expected PrimaryKey constraint"),
    }
}
#[test]
fn test_table_type_with_unique() {
    let sql = r#"CREATE TYPE [dbo].[TypeWithUnique] AS TABLE (
            [Id] INT NOT NULL,
            [Code] NVARCHAR(10) NOT NULL,
            UNIQUE NONCLUSTERED ([Code])
        )"#;
    let result = parse_create_table_type_tokens(sql).unwrap();

    assert_eq!(result.constraints.len(), 1);

    match &result.constraints[0] {
        ExtractedTableTypeConstraint::Unique {
            columns,
            is_clustered,
        } => {
            assert!(!is_clustered);
            assert_eq!(columns.len(), 1);
            assert_eq!(columns[0].name, "Code");
        }
        _ => panic!("Expected Unique constraint"),
    }
}
#[test]
fn test_table_type_with_unique_clustered() {
    let sql = r#"CREATE TYPE [dbo].[TypeWithUniqueC] AS TABLE (
            [Id] INT NOT NULL,
            UNIQUE CLUSTERED ([Id])
        )"#;
    let result = parse_create_table_type_tokens(sql).unwrap();

    match &result.constraints[0] {
        ExtractedTableTypeConstraint::Unique {
            columns: _,
            is_clustered,
        } => {
            assert!(is_clustered);
        }
        _ => panic!("Expected Unique constraint"),
    }
}
#[test]
fn test_table_type_with_check() {
    let sql = r#"CREATE TYPE [dbo].[TypeWithCheck] AS TABLE (
            [Value] DECIMAL(5, 2) NOT NULL,
            CHECK ([Value] >= 0 AND [Value] <= 100)
        )"#;
    let result = parse_create_table_type_tokens(sql).unwrap();

    assert_eq!(result.constraints.len(), 1);

    match &result.constraints[0] {
        ExtractedTableTypeConstraint::Check { expression } => {
            assert!(expression.contains("[Value] >= 0"));
            assert!(expression.contains("[Value] <= 100"));
        }
        _ => panic!("Expected Check constraint"),
    }
}
#[test]
fn test_table_type_with_index() {
    let sql = r#"CREATE TYPE [dbo].[TypeWithIndex] AS TABLE (
            [Id] INT NOT NULL,
            [SortOrder] INT NOT NULL,
            INDEX [IX_SortOrder] NONCLUSTERED ([SortOrder])
        )"#;
    let result = parse_create_table_type_tokens(sql).unwrap();

    assert_eq!(result.constraints.len(), 1);

    match &result.constraints[0] {
        ExtractedTableTypeConstraint::Index {
            name,
            columns,
            is_unique,
            is_clustered,
        } => {
            assert_eq!(name, "IX_SortOrder");
            assert!(!is_unique);
            assert!(!is_clustered);
            assert_eq!(columns.len(), 1);
            assert_eq!(columns[0], "SortOrder");
        }
        _ => panic!("Expected Index constraint"),
    }
}
#[test]
fn test_table_type_with_unique_index() {
    let sql = r#"CREATE TYPE [dbo].[TypeWithUniqueIndex] AS TABLE (
            [Id] INT NOT NULL,
            [Code] NVARCHAR(10) NOT NULL,
            INDEX [IX_Code] UNIQUE NONCLUSTERED ([Code])
        )"#;
    let result = parse_create_table_type_tokens(sql).unwrap();

    match &result.constraints[0] {
        ExtractedTableTypeConstraint::Index {
            name,
            columns: _,
            is_unique,
            is_clustered,
        } => {
            assert_eq!(name, "IX_Code");
            assert!(is_unique);
            assert!(!is_clustered);
        }
        _ => panic!("Expected Index constraint"),
    }
}
#[test]
fn test_order_items_type() {
    // From test fixture
    let sql = r#"CREATE TYPE [dbo].[OrderItemsType] AS TABLE (
            [ProductId] INT NOT NULL,
            [Quantity] INT NOT NULL,
            [UnitPrice] DECIMAL(18, 2) NOT NULL,
            [Discount] DECIMAL(5, 2) NOT NULL DEFAULT 0,
            PRIMARY KEY CLUSTERED ([ProductId])
        )"#;
    let result = parse_create_table_type_tokens(sql).unwrap();

    assert_eq!(result.schema, "dbo");
    assert_eq!(result.name, "OrderItemsType");
    assert_eq!(result.columns.len(), 4);
    assert_eq!(result.constraints.len(), 1);

    // Check column with default
    assert_eq!(result.columns[3].name, "Discount");
    assert_eq!(result.columns[3].default_value, Some("0".to_string()));

    // Check PK
    match &result.constraints[0] {
        ExtractedTableTypeConstraint::PrimaryKey {
            columns,
            is_clustered,
        } => {
            assert!(is_clustered);
            assert_eq!(columns[0].name, "ProductId");
        }
        _ => panic!("Expected PrimaryKey constraint"),
    }
}
#[test]
fn test_id_list_type() {
    // From test fixture
    let sql = r#"CREATE TYPE [dbo].[IdListType] AS TABLE (
            [Id] INT NOT NULL,
            [SortOrder] INT NOT NULL DEFAULT 0,
            INDEX [IX_IdList_SortOrder] NONCLUSTERED ([SortOrder])
        )"#;
    let result = parse_create_table_type_tokens(sql).unwrap();

    assert_eq!(result.name, "IdListType");
    assert_eq!(result.columns.len(), 2);
    assert_eq!(result.constraints.len(), 1);

    // Check default
    assert_eq!(result.columns[1].default_value, Some("0".to_string()));

    // Check index
    match &result.constraints[0] {
        ExtractedTableTypeConstraint::Index {
            name,
            columns,
            is_unique,
            is_clustered,
        } => {
            assert_eq!(name, "IX_IdList_SortOrder");
            assert!(!is_unique);
            assert!(!is_clustered);
            assert_eq!(columns[0], "SortOrder");
        }
        _ => panic!("Expected Index constraint"),
    }
}
#[test]
fn test_percentage_type() {
    // From test fixture
    let sql = r#"CREATE TYPE [dbo].[PercentageType] AS TABLE (
            [Name] NVARCHAR(50) NOT NULL,
            [Value] DECIMAL(5, 2) NOT NULL,
            CHECK ([Value] >= 0 AND [Value] <= 100)
        )"#;
    let result = parse_create_table_type_tokens(sql).unwrap();

    assert_eq!(result.name, "PercentageType");
    assert_eq!(result.columns.len(), 2);
    assert_eq!(result.constraints.len(), 1);

    // Check constraint
    match &result.constraints[0] {
        ExtractedTableTypeConstraint::Check { expression } => {
            assert!(expression.contains(">= 0"));
            assert!(expression.contains("<= 100"));
        }
        _ => panic!("Expected Check constraint"),
    }
}
#[test]
fn test_table_type_with_multiple_constraints() {
    let sql = r#"CREATE TYPE [dbo].[ComplexType] AS TABLE (
            [Id] INT NOT NULL,
            [Code] NVARCHAR(10) NOT NULL,
            [Value] DECIMAL(10, 2) NOT NULL,
            PRIMARY KEY CLUSTERED ([Id]),
            UNIQUE NONCLUSTERED ([Code]),
            CHECK ([Value] > 0)
        )"#;
    let result = parse_create_table_type_tokens(sql).unwrap();

    assert_eq!(result.columns.len(), 3);
    assert_eq!(result.constraints.len(), 3);

    // Verify constraint types
    let mut has_pk = false;
    let mut has_unique = false;
    let mut has_check = false;

    for constraint in &result.constraints {
        match constraint {
            ExtractedTableTypeConstraint::PrimaryKey { .. } => has_pk = true,
            ExtractedTableTypeConstraint::Unique { .. } => has_unique = true,
            ExtractedTableTypeConstraint::Check { .. } => has_check = true,
            _ => {}
        }
    }

    assert!(has_pk, "Should have PrimaryKey");
    assert!(has_unique, "Should have Unique");
    assert!(has_check, "Should have Check");
}
#[test]
fn test_table_type_nullable_column() {
    let sql = r#"CREATE TYPE [dbo].[TypeWithNullable] AS TABLE (
            [Id] INT NOT NULL,
            [Description] NVARCHAR(MAX) NULL
        )"#;
    let result = parse_create_table_type_tokens(sql).unwrap();

    assert_eq!(result.columns.len(), 2);
    assert_eq!(result.columns[0].nullability, Some(false));
    assert_eq!(result.columns[1].nullability, Some(true));
}
#[test]
fn test_table_type_implicit_nullability() {
    let sql = r#"CREATE TYPE [dbo].[TypeImplicitNull] AS TABLE (
            [Value] INT
        )"#;
    let result = parse_create_table_type_tokens(sql).unwrap();

    assert_eq!(result.columns.len(), 1);
    assert_eq!(result.columns[0].nullability, None);
}
#[test]
fn test_invalid_sql_returns_none() {
    assert!(parse_create_table_type_tokens("SELECT * FROM table").is_none());
    assert!(parse_create_table_type_tokens("CREATE TABLE foo (x INT)").is_none());
    assert!(parse_create_table_type_tokens("CREATE TYPE foo FROM INT").is_none());
}
#[test]
fn test_empty_table_type() {
    // Edge case: no columns
    let sql = "CREATE TYPE [dbo].[EmptyType] AS TABLE ()";
    let result = parse_create_table_type_tokens(sql).unwrap();

    assert_eq!(result.name, "EmptyType");
    assert_eq!(result.columns.len(), 0);
    assert_eq!(result.constraints.len(), 0);
}

