use sqlpackage_parser::fallback::{ExtractedTableConstraint, FallbackStatementType};
use sqlpackage_parser::table_fallback::{
    extract_balanced_parens, extract_generic_object_name, extract_system_versioning_options,
    extract_table_structure, parse_period_for_system_time, parse_table_body,
    split_by_comma_or_constraint_tokens, split_by_top_level_comma, split_by_top_level_comma_simple,
};
use sqlpackage_parser::security_dispatch::tokenize_or_empty;
#[test]
fn test_split_by_top_level_comma_with_commaless_constraints() {
    // Test SQL1: Table with one comma-less constraint
    let sql1 = r#"[Id] UNIQUEIDENTIFIER NOT NULL,
    [Name] NVARCHAR(100) NOT NULL
    CONSTRAINT [PK_Test] PRIMARY KEY CLUSTERED ([Id] ASC),
    CONSTRAINT [FK_Test_Self] FOREIGN KEY ([Id]) REFERENCES [dbo].[Test] ([Id])"#;

    // Test SQL3: Inline constraints should not cause splits
    let sql3 = r#"[Version] INT CONSTRAINT [DF_Test_Version] DEFAULT ((0)) NOT NULL,
    [CreatedOn] DATETIME CONSTRAINT [DF_Test_CreatedOn] DEFAULT (GETDATE()) NOT NULL"#;

    let parts = split_by_top_level_comma(sql3);
    println!("SQL3 (inline constraints) parts:");
    for (i, part) in parts.iter().enumerate() {
        println!("  Part {}: {}", i, part.replace('\n', "\\n"));
    }

    assert_eq!(
        parts.len(),
        2,
        "Expected 2 parts: two columns with inline defaults"
    );
    assert!(
        parts[0].contains("CONSTRAINT [DF_Test_Version]"),
        "Part 0 should contain inline default"
    );
    assert!(
        parts[1].contains("CONSTRAINT [DF_Test_CreatedOn]"),
        "Part 1 should contain inline default"
    );

    // Test SQL4: Simulating the actual problem SQL from TableWithMultipleCommalessConstraints
    let sql4 = r#"[Id] UNIQUEIDENTIFIER NOT NULL,
    [Version] INT CONSTRAINT [DF_MultiCommaless_Version] DEFAULT ((0)) NOT NULL,
    [CreatedOn] DATETIME CONSTRAINT [DF_MultiCommaless_CreatedOn] DEFAULT (GETDATE()) NOT NULL,
    [ParentId] UNIQUEIDENTIFIER NOT NULL,
    [Status] NVARCHAR(20) CONSTRAINT [DF_MultiCommaless_Status] DEFAULT ('Active') NOT NULL

    CONSTRAINT [PK_MultiCommaless] PRIMARY KEY ([Id] ASC)
    CONSTRAINT [FK_MultiCommaless_Parent] FOREIGN KEY ([ParentId]) REFERENCES [dbo].[TableWithCommalessConstraints] ([Id]),
    CONSTRAINT [CK_MultiCommaless_Status] CHECK ([Status] IN ('Active', 'Inactive', 'Pending'))"#;

    let parts = split_by_top_level_comma(sql4);
    println!("\nSQL4 (actual problem SQL) parts:");
    for (i, part) in parts.iter().enumerate() {
        println!("  Part {}: {}", i, part.replace('\n', "\\n").trim());
    }

    // Should have 8 parts: 5 columns + 3 constraints
    assert_eq!(
        parts.len(),
        8,
        "Expected 8 parts: 5 columns + 3 constraints"
    );
    assert!(
        parts[1].contains("CONSTRAINT [DF_MultiCommaless_Version]"),
        "Part 1 should contain inline default"
    );
    assert!(
        parts[5].starts_with("CONSTRAINT [PK_MultiCommaless]"),
        "Part 5 should be PK constraint"
    );
    assert!(
        parts[6].starts_with("CONSTRAINT [FK_MultiCommaless_Parent]"),
        "Part 6 should be FK constraint"
    );

    let parts = split_by_top_level_comma(sql1);
    println!("SQL1 parts:");
    for (i, part) in parts.iter().enumerate() {
        println!("  Part {}: {}", i, part.replace('\n', "\\n"));
    }

    assert_eq!(
        parts.len(),
        4,
        "Expected 4 parts: column, column, PK constraint, FK constraint"
    );
    assert!(
        parts[0].contains("[Id] UNIQUEIDENTIFIER"),
        "Part 0 should be Id column"
    );
    assert!(
        parts[1].contains("[Name] NVARCHAR"),
        "Part 1 should be Name column"
    );
    assert!(
        parts[2].starts_with("CONSTRAINT [PK_Test]"),
        "Part 2 should be PK constraint"
    );
    assert!(
        parts[3].starts_with("CONSTRAINT [FK_Test_Self]"),
        "Part 3 should be FK constraint"
    );

    // Test SQL2: Multiple comma-less constraints
    let sql2 = r#"[Status] NVARCHAR(20) NOT NULL
    CONSTRAINT [PK_Test] PRIMARY KEY ([Id] ASC)
    CONSTRAINT [FK_Test_Parent] FOREIGN KEY ([ParentId]) REFERENCES [dbo].[Other] ([Id]),
    CONSTRAINT [CK_Test_Status] CHECK ([Status] IN ('Active', 'Inactive'))"#;

    let parts = split_by_top_level_comma(sql2);
    println!("\nSQL2 parts:");
    for (i, part) in parts.iter().enumerate() {
        println!("  Part {}: {}", i, part.replace('\n', "\\n"));
    }

    assert_eq!(parts.len(), 4, "Expected 4 parts: column, PK, FK, CHECK");
    assert!(
        parts[0].contains("[Status] NVARCHAR"),
        "Part 0 should be Status column"
    );
    assert!(
        parts[1].starts_with("CONSTRAINT [PK_Test]"),
        "Part 1 should be PK constraint"
    );
    assert!(
        parts[2].starts_with("CONSTRAINT [FK_Test_Parent]"),
        "Part 2 should be FK constraint"
    );
    assert!(
        parts[3].starts_with("CONSTRAINT [CK_Test_Status]"),
        "Part 3 should be CHECK constraint"
    );
}
#[test]
fn test_split_inline_check_constraint_not_split() {
    // Inline CHECK constraint (without CONSTRAINT keyword) should NOT be split from column
    // This is the AuditLog case: [Action] NVARCHAR(50) NOT NULL CHECK ([Action] IN ('Insert', 'Update', 'Delete'))
    let sql = r#"[Id] UNIQUEIDENTIFIER NOT NULL DEFAULT NEWID(),
    [Action] NVARCHAR(50) NOT NULL CHECK ([Action] IN ('Insert', 'Update', 'Delete')),
    [Timestamp] DATETIME2 NOT NULL"#;

    let parts = split_by_top_level_comma(sql);
    println!("Inline CHECK test parts:");
    for (i, part) in parts.iter().enumerate() {
        println!("  Part {}: {}", i, part.replace('\n', "\\n").trim());
    }

    // Should be 3 parts: 3 column definitions
    // The inline CHECK constraint should NOT cause a split
    assert_eq!(
        parts.len(),
        3,
        "Expected 3 parts: 3 columns (inline CHECK should stay with column)"
    );
    assert!(
        parts[1].contains("CHECK"),
        "Part 1 should contain the inline CHECK constraint"
    );
    assert!(
        parts[1].contains("[Action] NVARCHAR"),
        "Part 1 should be the Action column definition"
    );
}

#[test]
fn split_by_tokens_and_by_characters() {
    let body = "[A] INT, [B] DECIMAL(18, 2) NOT NULL PRIMARY KEY ([A])";
    let parts = split_by_comma_or_constraint_tokens(&tokenize_or_empty(body));
    assert_eq!(
        parts,
        vec![
            "[A] INT".to_string(),
            "[B] DECIMAL(18, 2) NOT NULL".to_string(),
            "PRIMARY KEY ([A])".to_string(),
        ]
    );
    // The character split keeps empty parts between commas, but not a last empty part.
    assert_eq!(
        split_by_top_level_comma_simple(" a , (b, c) ,, "),
        vec!["a".to_string(), "(b, c)".to_string(), "".to_string()]
    );
    assert!(split_by_top_level_comma("   ").is_empty());
}

#[test]
fn balanced_parens_content() {
    assert_eq!(extract_balanced_parens("(a (b) c) tail"), Some("a (b) c".to_string()));
    assert_eq!(extract_balanced_parens("() x"), None);
    assert_eq!(extract_balanced_parens("x (a)"), None);
    assert_eq!(extract_balanced_parens("(a (b)"), None);
}

#[test]
fn period_for_system_time_columns() {
    let p = parse_period_for_system_time("PERIOD FOR SYSTEM_TIME ([ValidFrom], [ValidTo])").unwrap();
    assert_eq!(p.start_column, Some("ValidFrom".to_string()));
    assert_eq!(p.end_column, Some("ValidTo".to_string()));
    assert!(parse_period_for_system_time("PERIOD FOR SYSTEM_TIME ([A])").is_none());
    assert!(parse_period_for_system_time("PERIOD FOR SYSTEM_TIME ([A], [B], [C])").is_none());
    assert!(parse_period_for_system_time("PERIOD FOR SYSTEM_TIME )A, B(").is_none());
}

#[test]
fn system_versioning_options() {
    assert_eq!(
        extract_system_versioning_options(" WITH (SYSTEM_VERSIONING = ON (HISTORY_TABLE = [dbo].[EmpHistory]))"),
        (true, Some("dbo".to_string()), Some("EmpHistory".to_string()))
    );
    assert_eq!(extract_system_versioning_options(" WITH (SYSTEM_VERSIONING = ON)"), (true, None, None));
    assert_eq!(extract_system_versioning_options(" WITH (SYSTEM_VERSIONING = OFF)"), (false, None, None));
    assert_eq!(extract_system_versioning_options(";"), (false, None, None));
}

#[test]
fn generic_object_name_of_create() {
    assert_eq!(
        extract_generic_object_name("CREATE OR ALTER VIEW [rpt].[Totals] AS SELECT 1", "VIEW"),
        Some(("rpt".to_string(), "Totals".to_string()))
    );
    assert_eq!(
        extract_generic_object_name("create table Orders (Id INT)", "TABLE"),
        Some(("dbo".to_string(), "Orders".to_string()))
    );
    assert_eq!(extract_generic_object_name("SELECT 1", "TABLE"), None);
}

#[test]
fn table_body_columns_constraints_and_period() {
    let body = "[Id] INT NOT NULL, [ValidFrom] DATETIME2 NOT NULL, [ValidTo] DATETIME2 NOT NULL, PERIOD FOR SYSTEM_TIME ([ValidFrom], [ValidTo]), CONSTRAINT [PK_E] PRIMARY KEY ([Id])";
    let (cols, cons, period) = parse_table_body(body, "E");
    assert_eq!(cols.len(), 3);
    assert_eq!(cols[0].name, "Id");
    assert_eq!(cols[0].data_type, "INT");
    assert_eq!(cols[0].nullability, Some(false));
    assert_eq!(cols[2].name, "ValidTo");
    assert!(cols[0].masking_function.is_none());
    assert_eq!(cons.len(), 1);
    match &cons[0] {
        ExtractedTableConstraint::PrimaryKey { name, columns, .. } => {
            assert_eq!(name, "PK_E");
            assert_eq!(columns[0].name, "Id");
        }
        other => panic!("expected a primary key, got {:?}", other),
    }
    assert_eq!(period.start_column, Some("ValidFrom".to_string()));
    assert_eq!(period.end_column, Some("ValidTo".to_string()));
}

#[test]
fn table_structure_of_temporal_table() {
    let sql = "CREATE TABLE [dbo].[Employee] (\n  [Id] INT NOT NULL,\n  [Name] NVARCHAR(100) NULL,\n  [ValidFrom] DATETIME2 GENERATED ALWAYS AS ROW START NOT NULL,\n  [ValidTo] DATETIME2 GENERATED ALWAYS AS ROW END NOT NULL,\n  PERIOD FOR SYSTEM_TIME ([ValidFrom], [ValidTo]),\n  CONSTRAINT [PK_Employee] PRIMARY KEY CLUSTERED ([Id])\n) WITH (SYSTEM_VERSIONING = ON (HISTORY_TABLE = [dbo].[EmployeeHistory]));";
    match extract_table_structure(sql) {
        Some(FallbackStatementType::Table {
            schema,
            name,
            columns,
            constraints,
            is_node,
            is_edge,
            system_time_start_column,
            system_time_end_column,
            is_system_versioned,
            history_table_schema,
            history_table_name,
        }) => {
            assert_eq!(schema, "dbo");
            assert_eq!(name, "Employee");
            assert_eq!(columns.len(), 4);
            assert_eq!(columns[1].name, "Name");
            assert_eq!(columns[1].nullability, Some(true));
            assert!(columns[2].is_generated_always_start);
            assert!(columns[3].is_generated_always_end);
            assert_eq!(constraints.len(), 1);
            assert!(!is_node && !is_edge);
            assert_eq!(system_time_start_column, Some("ValidFrom".to_string()));
            assert_eq!(system_time_end_column, Some("ValidTo".to_string()));
            assert!(is_system_versioned);
            assert_eq!(history_table_schema, Some("dbo".to_string()));
            assert_eq!(history_table_name, Some("EmployeeHistory".to_string()));
        }
        other => panic!("expected a table, got {:?}", other),
    }
}

#[test]
fn table_structure_of_graph_node_and_failures() {
    match extract_table_structure("CREATE TABLE Person ([Id] INT) AS NODE") {
        Some(FallbackStatementType::Table { schema, name, columns, is_node, is_edge, is_system_versioned, .. }) => {
            assert_eq!(schema, "dbo");
            assert_eq!(name, "Person");
            assert_eq!(columns.len(), 1);
            assert!(is_node);
            assert!(!is_edge);
            assert!(!is_system_versioned);
        }
        other => panic!("expected a table, got {:?}", other),
    }
    assert!(extract_table_structure("CREATE TABLE [dbo].[T] ()").is_none());
    assert!(extract_table_structure("CREATE TABLE [dbo].[T]").is_none());
    assert!(extract_table_structure("SELECT 1").is_none());
}

#[test]
fn table_structure_escapes_special_names() {
    // The name goes into the head pattern escaped: `+` must match itself.
    match extract_table_structure("CREATE TABLE [dbo].[A+B] ([Id] INT NOT NULL)") {
        Some(FallbackStatementType::Table { schema, name, columns, .. }) => {
            assert_eq!(schema, "dbo");
            assert_eq!(name, "A+B");
            assert_eq!(columns.len(), 1);
            assert_eq!(columns[0].name, "Id");
        }
        other => panic!("expected a table, got {:?}", other),
    }
}

#[test]
fn test_table_structure_name_with_pattern_character() {
    match extract_table_structure("CREATE TABLE [dbo].[Cost$] ([Id] INT NOT NULL)") {
        Some(FallbackStatementType::Table { schema, name, columns, .. }) => {
            assert_eq!(schema, "dbo");
            assert_eq!(name, "Cost$");
            assert_eq!(columns.len(), 1);
            assert_eq!(columns[0].name, "Id");
        }
        other => panic!("Expected Table, got {:?}", other),
    }
}

#[test]
fn test_table_from_head_match_reads_body() {
    let sql = "CREATE TABLE [dbo].[T] ([A] INT, [B] NVARCHAR(10))";
    let head = "CREATE TABLE [dbo].[T] (".to_string();
    let after = "[A] INT, [B] NVARCHAR(10))".to_string();
    match sqlpackage_parser::table_fallback::table_from_head_match(
        sql,
        "dbo".to_string(),
        "T".to_string(),
        &head,
        &after,
    ) {
        Some(FallbackStatementType::Table { columns, .. }) => {
            assert_eq!(columns.len(), 2);
            assert_eq!(columns[1].name, "B");
        }
        other => panic!("Expected Table, got {:?}", other),
    }
}
