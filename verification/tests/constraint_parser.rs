use sqlpackage_parser::constraint_parser::{parse_alter_table_add_constraint_tokens, parse_table_constraint_tokens, parse_alter_table_name_tokens, TokenParsedConstraint};
#[test]
fn test_alter_table_name_simple() {
    let sql = "ALTER TABLE [dbo].[Users] ADD CONSTRAINT [PK_Users] PRIMARY KEY ([Id])";
    let result = parse_alter_table_name_tokens(sql).unwrap();
    assert_eq!(result.0, "dbo");
    assert_eq!(result.1, "Users");
}
#[test]
fn test_alter_table_name_unbracketed() {
    let sql = "ALTER TABLE dbo.Orders ADD CONSTRAINT PK_Orders PRIMARY KEY (Id)";
    let result = parse_alter_table_name_tokens(sql).unwrap();
    assert_eq!(result.0, "dbo");
    assert_eq!(result.1, "Orders");
}
#[test]
fn test_alter_table_name_no_schema() {
    let sql = "ALTER TABLE [Products] ADD CONSTRAINT [PK_Products] PRIMARY KEY ([Id])";
    let result = parse_alter_table_name_tokens(sql).unwrap();
    assert_eq!(result.0, "dbo");
    assert_eq!(result.1, "Products");
}
#[test]
fn test_alter_table_name_custom_schema() {
    let sql = "ALTER TABLE [sales].[Invoices] ADD CONSTRAINT [PK_Invoices] PRIMARY KEY ([Id])";
    let result = parse_alter_table_name_tokens(sql).unwrap();
    assert_eq!(result.0, "sales");
    assert_eq!(result.1, "Invoices");
}
#[test]
fn test_alter_table_name_special_chars() {
    let sql = "ALTER TABLE [dbo].[User&Data] ADD CONSTRAINT [PK] PRIMARY KEY ([Id])";
    let result = parse_alter_table_name_tokens(sql).unwrap();
    assert_eq!(result.0, "dbo");
    assert_eq!(result.1, "User&Data");
}
#[test]
fn test_alter_add_pk_basic() {
    let sql = "ALTER TABLE [dbo].[Users] ADD CONSTRAINT [PK_Users] PRIMARY KEY ([Id])";
    let result = parse_alter_table_add_constraint_tokens(sql).unwrap();
    assert_eq!(result.table_schema, "dbo");
    assert_eq!(result.table_name, "Users");

    if let TokenParsedConstraint::PrimaryKey {
        name,
        columns,
        is_clustered,
    } = result.constraint
    {
        assert_eq!(name, "PK_Users");
        assert_eq!(columns.len(), 1);
        assert_eq!(columns[0].name, "Id");
        assert!(!columns[0].descending);
        assert!(is_clustered);
    } else {
        panic!("Expected PrimaryKey constraint");
    }
}
#[test]
fn test_alter_add_pk_clustered() {
    let sql =
        "ALTER TABLE [dbo].[Users] ADD CONSTRAINT [PK_Users] PRIMARY KEY CLUSTERED ([Id])";
    let result = parse_alter_table_add_constraint_tokens(sql).unwrap();

    if let TokenParsedConstraint::PrimaryKey { is_clustered, .. } = result.constraint {
        assert!(is_clustered);
    } else {
        panic!("Expected PrimaryKey constraint");
    }
}
#[test]
fn test_alter_add_pk_nonclustered() {
    let sql =
        "ALTER TABLE [dbo].[Users] ADD CONSTRAINT [PK_Users] PRIMARY KEY NONCLUSTERED ([Id])";
    let result = parse_alter_table_add_constraint_tokens(sql).unwrap();

    if let TokenParsedConstraint::PrimaryKey { is_clustered, .. } = result.constraint {
        assert!(!is_clustered);
    } else {
        panic!("Expected PrimaryKey constraint");
    }
}
#[test]
fn test_alter_add_pk_multiple_columns() {
    let sql = "ALTER TABLE [dbo].[OrderItems] ADD CONSTRAINT [PK_OrderItems] PRIMARY KEY ([OrderId], [ProductId])";
    let result = parse_alter_table_add_constraint_tokens(sql).unwrap();

    if let TokenParsedConstraint::PrimaryKey { columns, .. } = result.constraint {
        assert_eq!(columns.len(), 2);
        assert_eq!(columns[0].name, "OrderId");
        assert_eq!(columns[1].name, "ProductId");
    } else {
        panic!("Expected PrimaryKey constraint");
    }
}
#[test]
fn test_alter_add_pk_with_desc() {
    let sql = "ALTER TABLE [dbo].[Logs] ADD CONSTRAINT [PK_Logs] PRIMARY KEY ([Timestamp] DESC, [Id] ASC)";
    let result = parse_alter_table_add_constraint_tokens(sql).unwrap();

    if let TokenParsedConstraint::PrimaryKey { columns, .. } = result.constraint {
        assert_eq!(columns.len(), 2);
        assert_eq!(columns[0].name, "Timestamp");
        assert!(columns[0].descending);
        assert_eq!(columns[1].name, "Id");
        assert!(!columns[1].descending);
    } else {
        panic!("Expected PrimaryKey constraint");
    }
}
#[test]
fn test_alter_add_unique_basic() {
    let sql = "ALTER TABLE [dbo].[Users] ADD CONSTRAINT [UQ_Email] UNIQUE ([Email])";
    let result = parse_alter_table_add_constraint_tokens(sql).unwrap();

    if let TokenParsedConstraint::Unique {
        name,
        columns,
        is_clustered,
    } = result.constraint
    {
        assert_eq!(name, "UQ_Email");
        assert_eq!(columns.len(), 1);
        assert_eq!(columns[0].name, "Email");
        assert!(!is_clustered); // Default for UNIQUE
    } else {
        panic!("Expected Unique constraint");
    }
}
#[test]
fn test_alter_add_unique_clustered() {
    let sql = "ALTER TABLE [dbo].[Users] ADD CONSTRAINT [UQ_Email] UNIQUE CLUSTERED ([Email])";
    let result = parse_alter_table_add_constraint_tokens(sql).unwrap();

    if let TokenParsedConstraint::Unique { is_clustered, .. } = result.constraint {
        assert!(is_clustered);
    } else {
        panic!("Expected Unique constraint");
    }
}
#[test]
fn test_alter_add_unique_nonclustered() {
    let sql =
        "ALTER TABLE [dbo].[Users] ADD CONSTRAINT [UQ_Email] UNIQUE NONCLUSTERED ([Email])";
    let result = parse_alter_table_add_constraint_tokens(sql).unwrap();

    if let TokenParsedConstraint::Unique { is_clustered, .. } = result.constraint {
        assert!(!is_clustered);
    } else {
        panic!("Expected Unique constraint");
    }
}
#[test]
fn test_alter_add_unique_multiple_columns() {
    let sql = "ALTER TABLE [dbo].[Products] ADD CONSTRAINT [UQ_SKU] UNIQUE ([Category], [SKU])";
    let result = parse_alter_table_add_constraint_tokens(sql).unwrap();

    if let TokenParsedConstraint::Unique { columns, .. } = result.constraint {
        assert_eq!(columns.len(), 2);
        assert_eq!(columns[0].name, "Category");
        assert_eq!(columns[1].name, "SKU");
    } else {
        panic!("Expected Unique constraint");
    }
}
#[test]
fn test_alter_add_fk_basic() {
    let sql = "ALTER TABLE [dbo].[Orders] ADD CONSTRAINT [FK_Orders_Users] FOREIGN KEY ([UserId]) REFERENCES [dbo].[Users]([Id])";
    let result = parse_alter_table_add_constraint_tokens(sql).unwrap();

    if let TokenParsedConstraint::ForeignKey {
        name,
        columns,
        referenced_table,
        referenced_columns,
    } = result.constraint
    {
        assert_eq!(name, "FK_Orders_Users");
        assert_eq!(columns, vec!["UserId"]);
        assert_eq!(referenced_table, "[dbo].[Users]");
        assert_eq!(referenced_columns, vec!["Id"]);
    } else {
        panic!("Expected ForeignKey constraint");
    }
}
#[test]
fn test_alter_add_fk_multiple_columns() {
    let sql = "ALTER TABLE [dbo].[OrderItems] ADD CONSTRAINT [FK_OrderItems_Products] FOREIGN KEY ([CategoryId], [ProductId]) REFERENCES [dbo].[Products]([CategoryId], [Id])";
    let result = parse_alter_table_add_constraint_tokens(sql).unwrap();

    if let TokenParsedConstraint::ForeignKey {
        columns,
        referenced_columns,
        ..
    } = result.constraint
    {
        assert_eq!(columns, vec!["CategoryId", "ProductId"]);
        assert_eq!(referenced_columns, vec!["CategoryId", "Id"]);
    } else {
        panic!("Expected ForeignKey constraint");
    }
}
#[test]
fn test_alter_add_fk_no_schema() {
    let sql = "ALTER TABLE [Orders] ADD CONSTRAINT [FK_Orders_Users] FOREIGN KEY ([UserId]) REFERENCES [Users]([Id])";
    let result = parse_alter_table_add_constraint_tokens(sql).unwrap();

    assert_eq!(result.table_schema, "dbo");
    assert_eq!(result.table_name, "Orders");

    if let TokenParsedConstraint::ForeignKey {
        referenced_table, ..
    } = result.constraint
    {
        assert_eq!(referenced_table, "[dbo].[Users]");
    } else {
        panic!("Expected ForeignKey constraint");
    }
}
#[test]
fn test_alter_add_fk_different_schema() {
    let sql = "ALTER TABLE [sales].[Orders] ADD CONSTRAINT [FK_Orders_Users] FOREIGN KEY ([UserId]) REFERENCES [auth].[Users]([Id])";
    let result = parse_alter_table_add_constraint_tokens(sql).unwrap();

    assert_eq!(result.table_schema, "sales");
    assert_eq!(result.table_name, "Orders");

    if let TokenParsedConstraint::ForeignKey {
        referenced_table, ..
    } = result.constraint
    {
        assert_eq!(referenced_table, "[auth].[Users]");
    } else {
        panic!("Expected ForeignKey constraint");
    }
}
#[test]
fn test_alter_add_fk_with_nocheck() {
    let sql = "ALTER TABLE [dbo].[Orders] WITH NOCHECK ADD CONSTRAINT [FK_Orders_Users] FOREIGN KEY ([UserId]) REFERENCES [dbo].[Users]([Id])";
    let result = parse_alter_table_add_constraint_tokens(sql).unwrap();

    if let TokenParsedConstraint::ForeignKey { name, .. } = result.constraint {
        assert_eq!(name, "FK_Orders_Users");
    } else {
        panic!("Expected ForeignKey constraint");
    }
}
#[test]
fn test_alter_add_fk_with_check() {
    let sql = "ALTER TABLE [dbo].[Orders] WITH CHECK ADD CONSTRAINT [FK_Orders_Users] FOREIGN KEY ([UserId]) REFERENCES [dbo].[Users]([Id])";
    let result = parse_alter_table_add_constraint_tokens(sql).unwrap();

    if let TokenParsedConstraint::ForeignKey { name, .. } = result.constraint {
        assert_eq!(name, "FK_Orders_Users");
    } else {
        panic!("Expected ForeignKey constraint");
    }
}
#[test]
fn test_alter_add_check_basic() {
    let sql = "ALTER TABLE [dbo].[Products] ADD CONSTRAINT [CK_Price] CHECK ([Price] > 0)";
    let result = parse_alter_table_add_constraint_tokens(sql).unwrap();

    if let TokenParsedConstraint::Check { name, expression } = result.constraint {
        assert_eq!(name, "CK_Price");
        assert_eq!(expression, "[Price] > 0");
    } else {
        panic!("Expected Check constraint");
    }
}
#[test]
fn test_alter_add_check_complex() {
    let sql =
        "ALTER TABLE [dbo].[Users] ADD CONSTRAINT [CK_Age] CHECK ([Age] >= 0 AND [Age] <= 150)";
    let result = parse_alter_table_add_constraint_tokens(sql).unwrap();

    if let TokenParsedConstraint::Check { name, expression } = result.constraint {
        assert_eq!(name, "CK_Age");
        assert!(expression.contains("Age"));
        assert!(expression.contains(">="));
        assert!(expression.contains("AND"));
    } else {
        panic!("Expected Check constraint");
    }
}
#[test]
fn test_alter_add_check_with_check() {
    let sql =
        "ALTER TABLE [dbo].[Products] WITH CHECK ADD CONSTRAINT [CK_Price] CHECK ([Price] > 0)";
    let result = parse_alter_table_add_constraint_tokens(sql).unwrap();

    if let TokenParsedConstraint::Check { name, .. } = result.constraint {
        assert_eq!(name, "CK_Price");
    } else {
        panic!("Expected Check constraint");
    }
}
#[test]
fn test_alter_add_check_nested_parens() {
    let sql = "ALTER TABLE [dbo].[Orders] ADD CONSTRAINT [CK_Status] CHECK ([Status] IN ('Pending', 'Active', 'Complete'))";
    let result = parse_alter_table_add_constraint_tokens(sql).unwrap();

    if let TokenParsedConstraint::Check { expression, .. } = result.constraint {
        assert!(expression.contains("IN"));
        assert!(expression.contains("Pending"));
    } else {
        panic!("Expected Check constraint");
    }
}
#[test]
fn test_table_pk_named() {
    let sql = "CONSTRAINT [PK_Users] PRIMARY KEY CLUSTERED ([Id])";
    let result = parse_table_constraint_tokens(sql, "Users").unwrap();

    if let TokenParsedConstraint::PrimaryKey {
        name,
        columns,
        is_clustered,
    } = result
    {
        assert_eq!(name, "PK_Users");
        assert_eq!(columns.len(), 1);
        assert_eq!(columns[0].name, "Id");
        assert!(is_clustered);
    } else {
        panic!("Expected PrimaryKey constraint");
    }
}
#[test]
fn test_table_pk_unnamed() {
    let sql = "PRIMARY KEY ([Id])";
    let result = parse_table_constraint_tokens(sql, "Users").unwrap();

    if let TokenParsedConstraint::PrimaryKey { name, .. } = result {
        assert_eq!(name, "PK_Users"); // Generated default name
    } else {
        panic!("Expected PrimaryKey constraint");
    }
}
#[test]
fn test_table_unique_named() {
    let sql = "CONSTRAINT [UQ_Email] UNIQUE NONCLUSTERED ([Email])";
    let result = parse_table_constraint_tokens(sql, "Users").unwrap();

    if let TokenParsedConstraint::Unique {
        name,
        columns,
        is_clustered,
    } = result
    {
        assert_eq!(name, "UQ_Email");
        assert_eq!(columns[0].name, "Email");
        assert!(!is_clustered);
    } else {
        panic!("Expected Unique constraint");
    }
}
#[test]
fn test_table_unique_unnamed() {
    let sql = "UNIQUE ([Email])";
    let result = parse_table_constraint_tokens(sql, "Users").unwrap();

    if let TokenParsedConstraint::Unique { name, .. } = result {
        assert_eq!(name, "UQ_Users"); // Generated default name
    } else {
        panic!("Expected Unique constraint");
    }
}
#[test]
fn test_table_fk_named() {
    let sql =
        "CONSTRAINT [FK_Orders_Users] FOREIGN KEY ([UserId]) REFERENCES [dbo].[Users]([Id])";
    let result = parse_table_constraint_tokens(sql, "Orders").unwrap();

    if let TokenParsedConstraint::ForeignKey {
        name,
        columns,
        referenced_table,
        referenced_columns,
    } = result
    {
        assert_eq!(name, "FK_Orders_Users");
        assert_eq!(columns, vec!["UserId"]);
        assert_eq!(referenced_table, "[dbo].[Users]");
        assert_eq!(referenced_columns, vec!["Id"]);
    } else {
        panic!("Expected ForeignKey constraint");
    }
}
#[test]
fn test_table_fk_unnamed() {
    let sql = "FOREIGN KEY ([UserId]) REFERENCES [Users]([Id])";
    let result = parse_table_constraint_tokens(sql, "Orders").unwrap();

    if let TokenParsedConstraint::ForeignKey {
        name,
        referenced_table,
        ..
    } = result
    {
        assert_eq!(name, "FK_Orders"); // Generated default name
        assert_eq!(referenced_table, "[dbo].[Users]");
    } else {
        panic!("Expected ForeignKey constraint");
    }
}
#[test]
fn test_table_check_named() {
    let sql = "CONSTRAINT [CK_Age] CHECK ([Age] >= 0)";
    let result = parse_table_constraint_tokens(sql, "Users").unwrap();

    if let TokenParsedConstraint::Check { name, expression } = result {
        assert_eq!(name, "CK_Age");
        assert_eq!(expression, "[Age] >= 0");
    } else {
        panic!("Expected Check constraint");
    }
}
#[test]
fn test_table_check_unnamed() {
    let sql = "CHECK ([Price] > 0)";
    let result = parse_table_constraint_tokens(sql, "Products").unwrap();

    if let TokenParsedConstraint::Check { name, expression } = result {
        assert_eq!(name, "CK_Products"); // Generated default name
        assert_eq!(expression, "[Price] > 0");
    } else {
        panic!("Expected Check constraint");
    }
}
#[test]
fn test_multiline_alter_add_constraint() {
    let sql = r#"
ALTER TABLE [dbo].[Orders] WITH NOCHECK
ADD CONSTRAINT [FK_Orders_Users] FOREIGN KEY ([UserId])
REFERENCES [dbo].[Users]([Id])
"#;
    let result = parse_alter_table_add_constraint_tokens(sql).unwrap();

    if let TokenParsedConstraint::ForeignKey { name, .. } = result.constraint {
        assert_eq!(name, "FK_Orders_Users");
    } else {
        panic!("Expected ForeignKey constraint");
    }
}
#[test]
fn test_lowercase() {
    let sql = "alter table [dbo].[users] add constraint [pk_users] primary key ([id])";
    let result = parse_alter_table_add_constraint_tokens(sql).unwrap();

    if let TokenParsedConstraint::PrimaryKey { name, .. } = result.constraint {
        assert_eq!(name, "pk_users");
    } else {
        panic!("Expected PrimaryKey constraint");
    }
}
#[test]
fn test_mixed_case() {
    let sql = "Alter Table [dbo].[Users] Add Constraint [PK_Users] Primary Key ([Id])";
    let result = parse_alter_table_add_constraint_tokens(sql).unwrap();

    if let TokenParsedConstraint::PrimaryKey { name, .. } = result.constraint {
        assert_eq!(name, "PK_Users");
    } else {
        panic!("Expected PrimaryKey constraint");
    }
}
#[test]
fn test_unbracketed_identifiers() {
    let sql = "ALTER TABLE dbo.Users ADD CONSTRAINT PK_Users PRIMARY KEY (Id)";
    let result = parse_alter_table_add_constraint_tokens(sql).unwrap();

    assert_eq!(result.table_schema, "dbo");
    assert_eq!(result.table_name, "Users");

    if let TokenParsedConstraint::PrimaryKey { name, columns, .. } = result.constraint {
        assert_eq!(name, "PK_Users");
        assert_eq!(columns[0].name, "Id");
    } else {
        panic!("Expected PrimaryKey constraint");
    }
}
#[test]
fn test_not_alter_statement() {
    let result = parse_alter_table_add_constraint_tokens("CREATE TABLE [dbo].[Users] (Id INT)");
    assert!(result.is_none());
}
#[test]
fn test_alter_without_add() {
    let result =
        parse_alter_table_add_constraint_tokens("ALTER TABLE [dbo].[Users] DROP COLUMN [Name]");
    assert!(result.is_none());
}
#[test]
fn test_empty_input() {
    let result = parse_alter_table_add_constraint_tokens("");
    assert!(result.is_none());
}
#[test]
fn test_invalid_constraint_type() {
    let result = parse_table_constraint_tokens("INVALID CONSTRAINT TYPE", "Table");
    assert!(result.is_none());
}

