use sqlpackage_parser::column_parser::parse_column_definition_tokens;
#[test]
fn test_simple_column() {
    let result = parse_column_definition_tokens("[Id] INT").unwrap();
    assert_eq!(result.name, "Id");
    assert_eq!(result.data_type, "INT");
    assert!(result.nullability.is_none());
}
#[test]
fn test_column_with_not_null() {
    let result = parse_column_definition_tokens("[Name] NVARCHAR(100) NOT NULL").unwrap();
    assert_eq!(result.name, "Name");
    assert_eq!(result.data_type, "NVARCHAR(100)");
    assert_eq!(result.nullability, Some(false));
}
#[test]
fn test_column_with_null() {
    let result = parse_column_definition_tokens("[Description] NVARCHAR(MAX) NULL").unwrap();
    assert_eq!(result.name, "Description");
    assert_eq!(result.data_type, "NVARCHAR(MAX)");
    assert_eq!(result.nullability, Some(true));
}
#[test]
fn test_column_with_identity() {
    let result = parse_column_definition_tokens("[Id] INT NOT NULL IDENTITY(1, 1)").unwrap();
    assert_eq!(result.name, "Id");
    assert_eq!(result.data_type, "INT");
    assert!(result.is_identity);
    assert_eq!(result.nullability, Some(false));
}
#[test]
fn test_column_with_default_function() {
    let result =
        parse_column_definition_tokens("[CreatedAt] DATETIME NOT NULL DEFAULT GETDATE()")
            .unwrap();
    assert_eq!(result.name, "CreatedAt");
    assert_eq!(result.data_type, "DATETIME");
    assert_eq!(result.default_value, Some("GETDATE()".to_string()));
    assert!(result.default_constraint_name.is_none());
}
#[test]
fn test_column_with_named_default() {
    let result = parse_column_definition_tokens(
        "[Status] INT NOT NULL CONSTRAINT [DF_Status] DEFAULT ((0))",
    )
    .unwrap();
    assert_eq!(result.name, "Status");
    assert_eq!(result.data_type, "INT");
    assert_eq!(
        result.default_constraint_name,
        Some("DF_Status".to_string())
    );
    assert_eq!(result.default_value, Some("((0))".to_string()));
}
#[test]
fn test_column_with_named_default_number() {
    let result = parse_column_definition_tokens(
        "[Amount] DECIMAL(18, 2) NOT NULL CONSTRAINT [DF_Amount] DEFAULT 0.00",
    )
    .unwrap();
    assert_eq!(result.name, "Amount");
    assert_eq!(result.data_type, "DECIMAL(18, 2)");
    assert_eq!(
        result.default_constraint_name,
        Some("DF_Amount".to_string())
    );
    assert_eq!(result.default_value, Some("0.00".to_string()));
}
#[test]
fn test_column_with_constraint_default_not_null_pattern() {
    // Pattern: TYPE CONSTRAINT [name] DEFAULT (value) NOT NULL
    // This is the pattern used in TableWithMultipleCommalessConstraints
    let result = parse_column_definition_tokens(
        "[Version] INT CONSTRAINT [DF_MultiCommaless_Version] DEFAULT ((0)) NOT NULL",
    )
    .unwrap();
    assert_eq!(result.name, "Version");
    assert_eq!(result.data_type, "INT");
    assert_eq!(
        result.default_constraint_name,
        Some("DF_MultiCommaless_Version".to_string())
    );
    assert_eq!(result.default_value, Some("((0))".to_string()));
    assert_eq!(result.nullability, Some(false)); // NOT NULL
}
#[test]
fn test_column_with_default_string() {
    let result =
        parse_column_definition_tokens("[Status] VARCHAR(20) NOT NULL DEFAULT 'Pending'")
            .unwrap();
    assert_eq!(result.name, "Status");
    assert_eq!(result.default_value, Some("'Pending'".to_string()));
}
#[test]
fn test_column_with_check_constraint() {
    let result = parse_column_definition_tokens(
        "[Age] INT NOT NULL CONSTRAINT [CK_Age] CHECK ([Age] >= 0)",
    )
    .unwrap();
    assert_eq!(result.name, "Age");
    assert_eq!(result.check_constraint_name, Some("CK_Age".to_string()));
    assert_eq!(result.check_expression, Some("[Age] >= 0".to_string()));
}
#[test]
fn test_column_with_unnamed_check() {
    let result =
        parse_column_definition_tokens("[Quantity] INT NOT NULL CHECK ([Quantity] > 0)")
            .unwrap();
    assert_eq!(result.name, "Quantity");
    assert!(result.check_constraint_name.is_none());
    assert_eq!(result.check_expression, Some("[Quantity] > 0".to_string()));
}
#[test]
fn test_computed_column() {
    let result = parse_column_definition_tokens("[Total] AS ([Qty] * [Price])").unwrap();
    assert_eq!(result.name, "Total");
    assert!(result.data_type.is_empty());
    assert_eq!(
        result.computed_expression,
        Some("([Qty] * [Price])".to_string())
    );
    assert!(!result.is_persisted);
}
#[test]
fn test_computed_column_persisted() {
    let result =
        parse_column_definition_tokens("[Total] AS ([Qty] * [Price]) PERSISTED").unwrap();
    assert_eq!(result.name, "Total");
    assert_eq!(
        result.computed_expression,
        Some("([Qty] * [Price])".to_string())
    );
    assert!(result.is_persisted);
}
#[test]
fn test_computed_column_with_nullability() {
    let result =
        parse_column_definition_tokens("[Total] AS ([Qty] * [Price]) PERSISTED NOT NULL")
            .unwrap();
    assert_eq!(result.name, "Total");
    assert!(result.is_persisted);
    assert_eq!(result.nullability, Some(false));
}
#[test]
fn test_column_with_rowguidcol() {
    let result = parse_column_definition_tokens(
        "[RowGuid] UNIQUEIDENTIFIER NOT NULL DEFAULT NEWID() ROWGUIDCOL",
    )
    .unwrap();
    assert_eq!(result.name, "RowGuid");
    assert!(result.is_rowguidcol);
}
#[test]
fn test_column_with_sparse() {
    let result =
        parse_column_definition_tokens("[OptionalField] NVARCHAR(100) SPARSE NULL").unwrap();
    assert_eq!(result.name, "OptionalField");
    assert!(result.is_sparse);
    assert_eq!(result.nullability, Some(true));
}
#[test]
fn test_column_without_brackets() {
    let result = parse_column_definition_tokens("Id INT NOT NULL").unwrap();
    assert_eq!(result.name, "Id");
    assert_eq!(result.data_type, "INT");
}
#[test]
fn test_column_with_constraint_before_not_null() {
    // T-SQL allows: CONSTRAINT name NOT NULL DEFAULT value
    let result = parse_column_definition_tokens(
        "[Guid] UNIQUEIDENTIFIER CONSTRAINT [DF_Documents_Guid] NOT NULL DEFAULT NEWSEQUENTIALID()",
    )
    .unwrap();
    assert_eq!(result.name, "Guid");
    assert_eq!(
        result.default_constraint_name,
        Some("DF_Documents_Guid".to_string())
    );
    // Note: The constraint name applies to the DEFAULT, not NOT NULL
    assert_eq!(result.nullability, Some(false));
}
#[test]
fn test_column_with_default_and_check() {
    let result = parse_column_definition_tokens(
        "[Score] INT NOT NULL CONSTRAINT [DF_Score] DEFAULT ((0)) CONSTRAINT [CK_Score] CHECK ([Score] >= 0 AND [Score] <= 100)",
    )
    .unwrap();
    assert_eq!(result.name, "Score");
    assert_eq!(result.default_constraint_name, Some("DF_Score".to_string()));
    assert_eq!(result.default_value, Some("((0))".to_string()));
    assert_eq!(result.check_constraint_name, Some("CK_Score".to_string()));
    assert!(result.check_expression.is_some());
}
#[test]
fn test_column_with_negative_default() {
    let result = parse_column_definition_tokens("[Offset] INT NOT NULL DEFAULT -1").unwrap();
    assert_eq!(result.name, "Offset");
    assert_eq!(result.default_value, Some("-1".to_string()));
}
#[test]
fn test_column_definition_with_leading_comment() {
    let result = parse_column_definition_tokens("-- This is a comment\n[Id] INT").unwrap();
    assert_eq!(result.name, "Id");
    assert_eq!(result.data_type, "INT");
}
#[test]
fn test_unquoted_column_name() {
    let result = parse_column_definition_tokens("UserName VARCHAR(50) NOT NULL").unwrap();
    assert_eq!(result.name, "UserName");
    assert_eq!(result.data_type, "VARCHAR(50)");
}
#[test]
fn test_constraint_null_default_pattern() {
    // Pattern: CONSTRAINT [name] NULL DEFAULT value
    let result = parse_column_definition_tokens(
        "[Active] BIT CONSTRAINT [DF_Active] NULL DEFAULT ((1))",
    )
    .unwrap();
    assert_eq!(result.name, "Active");
    assert_eq!(
        result.default_constraint_name,
        Some("DF_Active".to_string())
    );
    assert_eq!(result.default_value, Some("((1))".to_string()));
    assert_eq!(result.nullability, Some(true)); // explicit NULL
}
#[test]
fn test_unnamed_check_emit_name_is_false() {
    // Unnamed CHECK constraint should have emit_check_constraint_name = false
    // This is the pattern used in AuditLog: CHECK ([Action] IN ('Insert', 'Update', 'Delete'))
    let result = parse_column_definition_tokens(
        "[Action] NVARCHAR(50) NOT NULL CHECK ([Action] IN ('Insert', 'Update', 'Delete'))",
    )
    .unwrap();
    assert_eq!(result.name, "Action");
    assert!(result.check_constraint_name.is_none());
    assert!(result.check_expression.is_some());
    // Key assertion: emit_check_constraint_name should be false for unnamed CHECK
    assert!(
        !result.emit_check_constraint_name,
        "emit_check_constraint_name should be false for unnamed CHECK constraint"
    );
}
#[test]
fn test_named_check_after_not_null_emit_name_is_true() {
    // Named CHECK constraint AFTER NOT NULL should have emit_check_constraint_name = true
    // Pattern: NOT NULL CONSTRAINT [name] CHECK (...)
    let result = parse_column_definition_tokens(
        "[Age] INT NOT NULL CONSTRAINT [CK_Age] CHECK ([Age] >= 0)",
    )
    .unwrap();
    assert_eq!(result.name, "Age");
    assert_eq!(result.check_constraint_name, Some("CK_Age".to_string()));
    // Key assertion: emit_check_constraint_name should be true when CONSTRAINT is after NOT NULL
    assert!(
        result.emit_check_constraint_name,
        "emit_check_constraint_name should be true for named CHECK after NOT NULL"
    );
}
#[test]
fn test_column_with_collate() {
    let result = parse_column_definition_tokens(
        "[Name] NVARCHAR(100) COLLATE Latin1_General_CS_AS NOT NULL",
    )
    .unwrap();
    assert_eq!(result.name, "Name");
    assert_eq!(result.data_type, "NVARCHAR(100)");
    assert_eq!(result.collation, Some("Latin1_General_CS_AS".to_string()));
    assert_eq!(result.nullability, Some(false));
}
#[test]
fn test_column_with_collate_various() {
    // Test different collation names
    let result = parse_column_definition_tokens(
        "[Text] VARCHAR(50) COLLATE SQL_Latin1_General_CP1_CI_AS NULL",
    )
    .unwrap();
    assert_eq!(
        result.collation,
        Some("SQL_Latin1_General_CP1_CI_AS".to_string())
    );

    let result =
        parse_column_definition_tokens("[JapaneseText] NVARCHAR(200) COLLATE Japanese_CI_AS")
            .unwrap();
    assert_eq!(result.collation, Some("Japanese_CI_AS".to_string()));
}
#[test]
fn test_column_without_collate() {
    // Regular column without COLLATE should have None
    let result = parse_column_definition_tokens("[Id] INT NOT NULL").unwrap();
    assert!(result.collation.is_none());

    let result = parse_column_definition_tokens("[Name] NVARCHAR(100) NOT NULL").unwrap();
    assert!(result.collation.is_none());
}
#[test]
fn test_generated_always_as_row_start() {
    let result = parse_column_definition_tokens(
        "[SysStartTime] DATETIME2 GENERATED ALWAYS AS ROW START NOT NULL",
    )
    .unwrap();
    assert_eq!(result.name, "SysStartTime");
    assert_eq!(result.data_type, "DATETIME2");
    assert!(result.is_generated_always_start);
    assert!(!result.is_generated_always_end);
    assert!(!result.is_hidden);
    assert_eq!(result.nullability, Some(false));
}
#[test]
fn test_generated_always_as_row_end() {
    let result = parse_column_definition_tokens(
        "[SysEndTime] DATETIME2 GENERATED ALWAYS AS ROW END NOT NULL",
    )
    .unwrap();
    assert_eq!(result.name, "SysEndTime");
    assert_eq!(result.data_type, "DATETIME2");
    assert!(!result.is_generated_always_start);
    assert!(result.is_generated_always_end);
    assert!(!result.is_hidden);
    assert_eq!(result.nullability, Some(false));
}
#[test]
fn test_generated_always_with_hidden() {
    let result = parse_column_definition_tokens(
        "[ValidFrom] DATETIME2 GENERATED ALWAYS AS ROW START HIDDEN NOT NULL",
    )
    .unwrap();
    assert_eq!(result.name, "ValidFrom");
    assert_eq!(result.data_type, "DATETIME2");
    assert!(result.is_generated_always_start);
    assert!(result.is_hidden);
    assert_eq!(result.nullability, Some(false));
}
#[test]
fn test_generated_always_end_hidden() {
    let result = parse_column_definition_tokens(
        "[ValidTo] DATETIME2 GENERATED ALWAYS AS ROW END HIDDEN NOT NULL",
    )
    .unwrap();
    assert_eq!(result.name, "ValidTo");
    assert!(result.is_generated_always_end);
    assert!(result.is_hidden);
}
#[test]
fn test_regular_column_no_temporal_flags() {
    let result = parse_column_definition_tokens("[Name] NVARCHAR(100) NOT NULL").unwrap();
    assert!(!result.is_generated_always_start);
    assert!(!result.is_generated_always_end);
    assert!(!result.is_hidden);
}
#[test]
fn test_generated_always_with_constraint_default() {
    // ALTER TABLE pattern: GENERATED ALWAYS + HIDDEN + CONSTRAINT DEFAULT
    let result = parse_column_definition_tokens(
        "[ValidFrom] DATETIME2 GENERATED ALWAYS AS ROW START HIDDEN CONSTRAINT [DF_ValidFrom] DEFAULT SYSUTCDATETIME() NOT NULL",
    )
    .unwrap();
    assert_eq!(result.name, "ValidFrom");
    assert!(result.is_generated_always_start);
    assert!(result.is_hidden);
    assert_eq!(
        result.default_constraint_name,
        Some("DF_ValidFrom".to_string())
    );
    assert_eq!(result.default_value, Some("SYSUTCDATETIME()".to_string()));
    assert_eq!(result.nullability, Some(false));
}


#[test]
fn test_default_constraint_name_before_not_null_is_not_emitted() {
    let r = parse_column_definition_tokens(
        "[Version] INT CONSTRAINT [DF_MultiCommaless_Version] DEFAULT ((0)) NOT NULL",
    )
    .unwrap();
    assert_eq!(r.name, "Version");
    assert_eq!(r.data_type, "INT");
    assert_eq!(r.default_constraint_name, Some("DF_MultiCommaless_Version".to_string()));
    assert_eq!(r.default_value, Some("((0))".to_string()));
    assert_eq!(r.nullability, Some(false));
    assert!(!r.emit_default_constraint_name);
}

#[test]
fn test_check_constraint_name_after_not_null_is_emitted() {
    let r = parse_column_definition_tokens(
        "[Qty] INT NOT NULL CONSTRAINT [CK_Qty] CHECK ([Qty] > 0)",
    )
    .unwrap();
    assert_eq!(r.check_constraint_name, Some("CK_Qty".to_string()));
    assert!(r.emit_check_constraint_name);
    assert!(!r.emit_default_constraint_name);
}

#[test]
fn test_computed_column_has_no_type_collation_or_default() {
    let r = parse_column_definition_tokens("[Total] AS ([Qty] * [Price]) PERSISTED").unwrap();
    assert!(r.computed_expression.is_some());
    assert_eq!(r.data_type, "");
    assert!(r.collation.is_none());
    assert!(r.default_value.is_none());
    assert!(r.is_persisted);
}
