use sqlpackage_parser::scalar_type::{extract_scalar_type_info, extract_type_name, is_scalar_type_definition};

#[test]
fn scalar_kind_of_alias_and_table_types() {
    assert_eq!(is_scalar_type_definition("CREATE TYPE [dbo].[Phone] FROM VARCHAR(20) NOT NULL"), Some(true));
    assert_eq!(is_scalar_type_definition("CREATE TYPE [dbo].[T] AS TABLE ([Id] INT)"), Some(false));
    assert_eq!(is_scalar_type_definition("CREATE TYPE\n  [dbo].[T]\n  AS\n  TABLE ([Id] INT)"), Some(false));
    assert_eq!(is_scalar_type_definition("CREATE TABLE [dbo].[T] ([Id] INT)"), None);
    assert_eq!(is_scalar_type_definition("CREATE TYPE [dbo].[T]"), None);
}

#[test]
fn scalar_info_varchar_not_null() {
    let info = extract_scalar_type_info("CREATE TYPE [dbo].[PhoneNumber] FROM VARCHAR(20) NOT NULL").unwrap();
    assert_eq!(info.base_type, "varchar");
    assert!(!info.is_nullable);
    assert_eq!(info.length, Some(20));
    assert_eq!(info.precision, None);
    assert_eq!(info.scale, None);
}

#[test]
fn scalar_info_decimal_and_max() {
    let info = extract_scalar_type_info("CREATE TYPE [dbo].[Money2] FROM DECIMAL(18, 4) NULL").unwrap();
    assert_eq!(info.base_type, "decimal");
    assert!(info.is_nullable);
    assert_eq!(info.length, None);
    assert_eq!(info.precision, Some(18));
    assert_eq!(info.scale, Some(4));

    let info = extract_scalar_type_info("CREATE TYPE [dbo].[Amount] FROM NUMERIC(10)").unwrap();
    assert_eq!(info.precision, Some(10));
    assert_eq!(info.scale, Some(0));
    assert_eq!(info.length, None);

    let info = extract_scalar_type_info("CREATE TYPE [dbo].[Doc] FROM NVARCHAR(MAX)").unwrap();
    assert_eq!(info.base_type, "nvarchar");
    assert_eq!(info.length, Some(-1));
}

#[test]
fn scalar_info_plain_type_and_failures() {
    let info = extract_scalar_type_info("CREATE TYPE [dbo].[Flag] FROM BIT").unwrap();
    assert_eq!(info.base_type, "bit");
    assert!(info.is_nullable);
    assert_eq!(info.length, None);
    assert!(extract_scalar_type_info("CREATE TYPE [dbo].[T] AS TABLE ([Id] INT)").is_none());
    assert!(extract_scalar_type_info("CREATE TYPE [dbo].[T] FROM").is_none());
}

#[test]
fn type_name_with_and_without_schema() {
    assert_eq!(
        extract_type_name("CREATE TYPE [sales].[Phone] FROM VARCHAR(20)"),
        Some(("sales".to_string(), "Phone".to_string()))
    );
    assert_eq!(
        extract_type_name("create type Phone FROM VARCHAR(20)"),
        Some(("dbo".to_string(), "Phone".to_string()))
    );
    assert_eq!(
        extract_type_name("CREATE TYPE [dbo].[A&B] FROM INT"),
        Some(("dbo".to_string(), "A&B".to_string()))
    );
    assert_eq!(extract_type_name("CREATE TABLE t (a INT)"), None);
}
