use sqlpackage_parser::function_parser::{parse_create_function_tokens, parse_alter_function_tokens, parse_create_function_full, parse_alter_function_full, detect_function_type_tokens, TokenParsedFunctionType};
#[test]
fn test_create_function_bracketed_schema_and_name() {
    let result = parse_create_function_tokens(
        "CREATE FUNCTION [dbo].[GetUserCount]() RETURNS INT AS BEGIN RETURN 1 END",
    )
    .unwrap();
    assert_eq!(result.0, "dbo");
    assert_eq!(result.1, "GetUserCount");
}
#[test]
fn test_create_function_unbracketed() {
    let result = parse_create_function_tokens(
        "CREATE FUNCTION dbo.GetUserCount() RETURNS INT AS BEGIN RETURN 1 END",
    )
    .unwrap();
    assert_eq!(result.0, "dbo");
    assert_eq!(result.1, "GetUserCount");
}
#[test]
fn test_create_function_no_schema() {
    let result = parse_create_function_tokens(
        "CREATE FUNCTION [GetUserCount]() RETURNS INT AS BEGIN RETURN 1 END",
    )
    .unwrap();
    assert_eq!(result.0, "dbo");
    assert_eq!(result.1, "GetUserCount");
}
#[test]
fn test_create_function_no_schema_unbracketed() {
    let result = parse_create_function_tokens(
        "CREATE FUNCTION GetUserCount() RETURNS INT AS BEGIN RETURN 1 END",
    )
    .unwrap();
    assert_eq!(result.0, "dbo");
    assert_eq!(result.1, "GetUserCount");
}
#[test]
fn test_create_or_alter_function() {
    let result = parse_create_function_tokens(
        "CREATE OR ALTER FUNCTION [dbo].[GetUserCount]() RETURNS INT AS BEGIN RETURN 1 END",
    )
    .unwrap();
    assert_eq!(result.0, "dbo");
    assert_eq!(result.1, "GetUserCount");
}
#[test]
fn test_create_function_with_special_characters() {
    let result = parse_create_function_tokens(
        "CREATE FUNCTION [dbo].[Get&User&Count]() RETURNS INT AS BEGIN RETURN 1 END",
    )
    .unwrap();
    assert_eq!(result.0, "dbo");
    assert_eq!(result.1, "Get&User&Count");
}
#[test]
fn test_create_function_custom_schema() {
    let result = parse_create_function_tokens(
        "CREATE FUNCTION [Sales].[GetOrderTotal](@OrderId INT) RETURNS DECIMAL(18, 2) AS BEGIN RETURN 0 END",
    )
    .unwrap();
    assert_eq!(result.0, "Sales");
    assert_eq!(result.1, "GetOrderTotal");
}
#[test]
fn test_alter_function_bracketed() {
    let result = parse_alter_function_tokens(
        "ALTER FUNCTION [dbo].[GetUserCount]() RETURNS INT AS BEGIN RETURN 2 END",
    )
    .unwrap();
    assert_eq!(result.0, "dbo");
    assert_eq!(result.1, "GetUserCount");
}
#[test]
fn test_alter_function_unbracketed() {
    let result = parse_alter_function_tokens(
        "ALTER FUNCTION dbo.GetUserCount() RETURNS INT AS BEGIN RETURN 2 END",
    )
    .unwrap();
    assert_eq!(result.0, "dbo");
    assert_eq!(result.1, "GetUserCount");
}
#[test]
fn test_alter_function_no_schema() {
    let result = parse_alter_function_tokens(
        "ALTER FUNCTION [GetUserCount]() RETURNS INT AS BEGIN RETURN 2 END",
    )
    .unwrap();
    assert_eq!(result.0, "dbo");
    assert_eq!(result.1, "GetUserCount");
}
#[test]
fn test_alter_function_custom_schema() {
    let result = parse_alter_function_tokens(
        "ALTER FUNCTION [Sales].[GetOrderTotal](@OrderId INT) RETURNS DECIMAL(18, 2) AS BEGIN RETURN 0 END",
    )
    .unwrap();
    assert_eq!(result.0, "Sales");
    assert_eq!(result.1, "GetOrderTotal");
}
#[test]
fn test_parse_function_no_params() {
    let result = parse_create_function_full(
        "CREATE FUNCTION [dbo].[GetUserCount]() RETURNS INT AS BEGIN RETURN 1 END",
    )
    .unwrap();
    assert_eq!(result.schema, "dbo");
    assert_eq!(result.name, "GetUserCount");
    assert!(result.parameters.is_empty());
    assert_eq!(result.return_type, Some("INT".to_string()));
    assert_eq!(result.function_type, TokenParsedFunctionType::Scalar);
}
#[test]
fn test_parse_function_single_param() {
    let result = parse_create_function_full(
        "CREATE FUNCTION [dbo].[GetOrderTotal](@OrderId INT) RETURNS DECIMAL(18, 2) AS BEGIN RETURN 0 END",
    )
    .unwrap();
    assert_eq!(result.schema, "dbo");
    assert_eq!(result.name, "GetOrderTotal");
    assert_eq!(result.parameters.len(), 1);
    assert_eq!(result.parameters[0].name, "@OrderId");
    assert_eq!(result.parameters[0].data_type, "INT");
    assert_eq!(result.return_type, Some("DECIMAL(18,2)".to_string()));
    assert_eq!(result.function_type, TokenParsedFunctionType::Scalar);
}
#[test]
fn test_parse_function_multiple_params() {
    let result = parse_create_function_full(
        "CREATE FUNCTION [dbo].[CalculateTotal](@Quantity INT, @UnitPrice DECIMAL(18, 2)) RETURNS DECIMAL(18, 2) AS BEGIN RETURN @Quantity * @UnitPrice END",
    )
    .unwrap();
    assert_eq!(result.parameters.len(), 2);
    assert_eq!(result.parameters[0].name, "@Quantity");
    assert_eq!(result.parameters[0].data_type, "INT");
    assert_eq!(result.parameters[1].name, "@UnitPrice");
    assert_eq!(result.parameters[1].data_type, "DECIMAL(18,2)");
}
#[test]
fn test_parse_function_with_default() {
    let result = parse_create_function_full(
        "CREATE FUNCTION [dbo].[CalculateTotal](@Quantity INT, @Discount DECIMAL(5, 2) = 0) RETURNS DECIMAL(18, 2) AS BEGIN RETURN @Quantity END",
    )
    .unwrap();
    assert_eq!(result.parameters.len(), 2);
    assert_eq!(result.parameters[0].name, "@Quantity");
    assert!(result.parameters[0].default_value.is_none());
    assert_eq!(result.parameters[1].name, "@Discount");
    assert_eq!(result.parameters[1].default_value, Some("0".to_string()));
}
#[test]
fn test_parse_function_with_null_default() {
    let result = parse_create_function_full(
        "CREATE FUNCTION [dbo].[GetOrders](@CustomerId INT, @StartDate DATE = NULL) RETURNS TABLE AS RETURN (SELECT 1 AS Id)",
    )
    .unwrap();
    assert_eq!(result.parameters.len(), 2);
    assert_eq!(result.parameters[1].name, "@StartDate");
    assert_eq!(result.parameters[1].default_value, Some("NULL".to_string()));
}
#[test]
fn test_detect_scalar_function() {
    let result = parse_create_function_full(
        "CREATE FUNCTION [dbo].[GetCount]() RETURNS INT AS BEGIN RETURN 1 END",
    )
    .unwrap();
    assert_eq!(result.function_type, TokenParsedFunctionType::Scalar);
}
#[test]
fn test_detect_inline_tvf() {
    let result = parse_create_function_full(
        "CREATE FUNCTION [dbo].[GetActiveUsers]() RETURNS TABLE AS RETURN (SELECT Id FROM Users)",
    )
    .unwrap();
    assert_eq!(
        result.function_type,
        TokenParsedFunctionType::InlineTableValued
    );
    assert_eq!(result.return_type, Some("TABLE".to_string()));
}
#[test]
fn test_detect_multistatement_tvf() {
    let sql = r#"
CREATE FUNCTION [dbo].[GetUsersByName](@SearchName NVARCHAR(100))
RETURNS @Results TABLE (
    Id INT,
    Name NVARCHAR(100)
)
AS
BEGIN
    INSERT INTO @Results SELECT Id, Name FROM Users
    RETURN
END
"#;
    let result = parse_create_function_full(sql).unwrap();
    assert_eq!(result.function_type, TokenParsedFunctionType::TableValued);
    assert_eq!(result.return_type, Some("TABLE".to_string()));
}
#[test]
fn test_detect_function_type_standalone() {
    assert_eq!(
        detect_function_type_tokens("CREATE FUNCTION f() RETURNS INT AS BEGIN RETURN 1 END"),
        TokenParsedFunctionType::Scalar
    );
    assert_eq!(
        detect_function_type_tokens("CREATE FUNCTION f() RETURNS TABLE AS RETURN SELECT 1"),
        TokenParsedFunctionType::InlineTableValued
    );
    assert_eq!(
        detect_function_type_tokens(
            "CREATE FUNCTION f() RETURNS @t TABLE (x INT) AS BEGIN RETURN END"
        ),
        TokenParsedFunctionType::TableValued
    );
}
#[test]
fn test_return_type_int() {
    let result = parse_create_function_full(
        "CREATE FUNCTION [dbo].[GetCount]() RETURNS INT AS BEGIN RETURN 1 END",
    )
    .unwrap();
    assert_eq!(result.return_type, Some("INT".to_string()));
}
#[test]
fn test_return_type_decimal_with_precision() {
    let result = parse_create_function_full(
        "CREATE FUNCTION [dbo].[GetTotal]() RETURNS DECIMAL(18, 2) AS BEGIN RETURN 0 END",
    )
    .unwrap();
    assert_eq!(result.return_type, Some("DECIMAL(18,2)".to_string()));
}
#[test]
fn test_return_type_nvarchar() {
    let result = parse_create_function_full(
        "CREATE FUNCTION [dbo].[GetName]() RETURNS NVARCHAR(100) AS BEGIN RETURN N'' END",
    )
    .unwrap();
    assert_eq!(result.return_type, Some("NVARCHAR(100)".to_string()));
}
#[test]
fn test_not_a_function() {
    let result = parse_create_function_tokens("CREATE TABLE [dbo].[Users] (Id INT)");
    assert!(result.is_none());
}
#[test]
fn function_parser_test_alter_on_create() {
    let result = parse_create_function_tokens(
        "ALTER FUNCTION [dbo].[GetCount]() RETURNS INT AS BEGIN RETURN 1 END",
    );
    assert!(result.is_none());
}
#[test]
fn function_parser_test_create_on_alter() {
    let result = parse_alter_function_tokens(
        "CREATE FUNCTION [dbo].[GetCount]() RETURNS INT AS BEGIN RETURN 1 END",
    );
    assert!(result.is_none());
}
#[test]
fn test_create_function_case_insensitive() {
    let result = parse_create_function_tokens(
        "create function [dbo].[GetCount]() returns int as begin return 1 end",
    )
    .unwrap();
    assert_eq!(result.0, "dbo");
    assert_eq!(result.1, "GetCount");
}
#[test]
fn test_create_function_mixed_case() {
    let result = parse_create_function_tokens(
        "Create Function [dbo].[GetCount]() Returns Int As Begin Return 1 End",
    )
    .unwrap();
    assert_eq!(result.0, "dbo");
    assert_eq!(result.1, "GetCount");
}
#[test]
fn test_multiline_function() {
    let sql = r#"
CREATE FUNCTION [dbo].[GetProductCount]()
RETURNS INT
AS
BEGIN
    DECLARE @Count INT;
    SELECT @Count = COUNT(*) FROM [dbo].[Products];
    RETURN @Count;
END
"#;
    let result = parse_create_function_full(sql).unwrap();
    assert_eq!(result.schema, "dbo");
    assert_eq!(result.name, "GetProductCount");
    assert!(result.parameters.is_empty());
    assert_eq!(result.return_type, Some("INT".to_string()));
    assert_eq!(result.function_type, TokenParsedFunctionType::Scalar);
}
#[test]
fn test_multiline_params() {
    let sql = r#"
CREATE FUNCTION [dbo].[GetProductsInPriceRange]
(
    @MinPrice DECIMAL(18, 2),
    @MaxPrice DECIMAL(18, 2)
)
RETURNS TABLE
AS
RETURN
(
    SELECT [Id], [Name], [Price]
    FROM [dbo].[Products]
    WHERE [Price] BETWEEN @MinPrice AND @MaxPrice
)
"#;
    let result = parse_create_function_full(sql).unwrap();
    assert_eq!(result.schema, "dbo");
    assert_eq!(result.name, "GetProductsInPriceRange");
    assert_eq!(result.parameters.len(), 2);
    assert_eq!(result.parameters[0].name, "@MinPrice");
    assert_eq!(result.parameters[0].data_type, "DECIMAL(18,2)");
    assert_eq!(result.parameters[1].name, "@MaxPrice");
    assert_eq!(result.parameters[1].data_type, "DECIMAL(18,2)");
    assert_eq!(
        result.function_type,
        TokenParsedFunctionType::InlineTableValued
    );
}

