use sqlpackage_parser::sequence_parser::{parse_create_sequence_tokens, parse_alter_sequence_tokens};

#[test]
fn test_create_sequence_basic() {
    let sql = "CREATE SEQUENCE [dbo].[OrderSequence]";
    let result = parse_create_sequence_tokens(sql).unwrap();
    assert_eq!(result.schema, "dbo");
    assert_eq!(result.name, "OrderSequence");
    assert!(result.data_type.is_none());
    assert!(result.start_value.is_none());
    assert!(result.increment_value.is_none());
}

#[test]
fn test_create_sequence_with_data_type() {
    let sql = "CREATE SEQUENCE [dbo].[Counter] AS BIGINT";
    let result = parse_create_sequence_tokens(sql).unwrap();
    assert_eq!(result.schema, "dbo");
    assert_eq!(result.name, "Counter");
    assert_eq!(result.data_type, Some("BIGINT".to_string()));
}

#[test]
fn test_create_sequence_start_with() {
    let sql = "CREATE SEQUENCE [dbo].[Counter] START WITH 100";
    let result = parse_create_sequence_tokens(sql).unwrap();
    assert_eq!(result.start_value, Some(100));
}

#[test]
fn test_create_sequence_negative_start() {
    let sql = "CREATE SEQUENCE [dbo].[Counter] START WITH -50";
    let result = parse_create_sequence_tokens(sql).unwrap();
    assert_eq!(result.start_value, Some(-50));
}

#[test]
fn test_create_sequence_increment_by() {
    let sql = "CREATE SEQUENCE [dbo].[Counter] INCREMENT BY 5";
    let result = parse_create_sequence_tokens(sql).unwrap();
    assert_eq!(result.increment_value, Some(5));
}

#[test]
fn test_create_sequence_negative_increment() {
    let sql = "CREATE SEQUENCE [dbo].[Counter] INCREMENT BY -1";
    let result = parse_create_sequence_tokens(sql).unwrap();
    assert_eq!(result.increment_value, Some(-1));
}

#[test]
fn test_create_sequence_minvalue() {
    let sql = "CREATE SEQUENCE [dbo].[Counter] MINVALUE 1";
    let result = parse_create_sequence_tokens(sql).unwrap();
    assert_eq!(result.min_value, Some(1));
    assert!(!result.has_no_min_value);
}

#[test]
fn test_create_sequence_negative_minvalue() {
    let sql = "CREATE SEQUENCE [dbo].[Counter] MINVALUE -100";
    let result = parse_create_sequence_tokens(sql).unwrap();
    assert_eq!(result.min_value, Some(-100));
}

#[test]
fn test_create_sequence_no_minvalue() {
    let sql = "CREATE SEQUENCE [dbo].[Counter] NO MINVALUE";
    let result = parse_create_sequence_tokens(sql).unwrap();
    assert!(result.min_value.is_none());
    assert!(result.has_no_min_value);
}

#[test]
fn test_create_sequence_maxvalue() {
    let sql = "CREATE SEQUENCE [dbo].[Counter] MAXVALUE 1000000";
    let result = parse_create_sequence_tokens(sql).unwrap();
    assert_eq!(result.max_value, Some(1000000));
    assert!(!result.has_no_max_value);
}

#[test]
fn test_create_sequence_no_maxvalue() {
    let sql = "CREATE SEQUENCE [dbo].[Counter] NO MAXVALUE";
    let result = parse_create_sequence_tokens(sql).unwrap();
    assert!(result.max_value.is_none());
    assert!(result.has_no_max_value);
}

#[test]
fn test_create_sequence_cycle() {
    let sql = "CREATE SEQUENCE [dbo].[Counter] CYCLE";
    let result = parse_create_sequence_tokens(sql).unwrap();
    assert!(result.is_cycling);
}

#[test]
fn test_create_sequence_no_cycle() {
    let sql = "CREATE SEQUENCE [dbo].[Counter] NO CYCLE";
    let result = parse_create_sequence_tokens(sql).unwrap();
    assert!(!result.is_cycling);
}

#[test]
fn test_create_sequence_cache() {
    let sql = "CREATE SEQUENCE [dbo].[Counter] CACHE 50";
    let result = parse_create_sequence_tokens(sql).unwrap();
    assert_eq!(result.cache_size, Some(50));
}

#[test]
fn test_create_sequence_no_cache() {
    let sql = "CREATE SEQUENCE [dbo].[Counter] NO CACHE";
    let result = parse_create_sequence_tokens(sql).unwrap();
    assert_eq!(result.cache_size, Some(0));
}

#[test]
fn test_create_sequence_all_options() {
    let sql = "CREATE SEQUENCE [dbo].[OrderSequence] AS BIGINT START WITH 1 INCREMENT BY 1 MINVALUE 1 MAXVALUE 9999999999 NO CYCLE CACHE 100";
    let result = parse_create_sequence_tokens(sql).unwrap();
    assert_eq!(result.schema, "dbo");
    assert_eq!(result.name, "OrderSequence");
    assert_eq!(result.data_type, Some("BIGINT".to_string()));
    assert_eq!(result.start_value, Some(1));
    assert_eq!(result.increment_value, Some(1));
    assert_eq!(result.min_value, Some(1));
    assert_eq!(result.max_value, Some(9999999999));
    assert!(!result.is_cycling);
    assert_eq!(result.cache_size, Some(100));
}

#[test]
fn test_create_sequence_multiline() {
    let sql = r#"
CREATE SEQUENCE [dbo].[OrderSequence]
AS BIGINT
START WITH 1
INCREMENT BY 1
MINVALUE 1
MAXVALUE 9999999999
NO CYCLE
CACHE 100
"#;
    let result = parse_create_sequence_tokens(sql).unwrap();
    assert_eq!(result.schema, "dbo");
    assert_eq!(result.name, "OrderSequence");
    assert_eq!(result.data_type, Some("BIGINT".to_string()));
    assert_eq!(result.start_value, Some(1));
    assert_eq!(result.increment_value, Some(1));
    assert_eq!(result.min_value, Some(1));
    assert_eq!(result.max_value, Some(9999999999));
    assert!(!result.is_cycling);
    assert_eq!(result.cache_size, Some(100));
}

#[test]
fn test_create_sequence_custom_schema() {
    let sql = "CREATE SEQUENCE [sales].[InvoiceSequence] AS INT";
    let result = parse_create_sequence_tokens(sql).unwrap();
    assert_eq!(result.schema, "sales");
    assert_eq!(result.name, "InvoiceSequence");
    assert_eq!(result.data_type, Some("INT".to_string()));
}

#[test]
fn test_create_sequence_unbracketed() {
    let sql = "CREATE SEQUENCE dbo.Counter AS BIGINT START WITH 1";
    let result = parse_create_sequence_tokens(sql).unwrap();
    assert_eq!(result.schema, "dbo");
    assert_eq!(result.name, "Counter");
    assert_eq!(result.data_type, Some("BIGINT".to_string()));
    assert_eq!(result.start_value, Some(1));
}

#[test]
fn test_create_sequence_no_schema() {
    let sql = "CREATE SEQUENCE [MySequence] AS INT";
    let result = parse_create_sequence_tokens(sql).unwrap();
    assert_eq!(result.schema, "dbo");
    assert_eq!(result.name, "MySequence");
}

#[test]
fn test_create_sequence_case_insensitive() {
    let sql = "create sequence [dbo].[Counter] as bigint start with 1 increment by 1";
    let result = parse_create_sequence_tokens(sql).unwrap();
    assert_eq!(result.name, "Counter");
    assert_eq!(result.data_type, Some("BIGINT".to_string()));
    assert_eq!(result.start_value, Some(1));
    assert_eq!(result.increment_value, Some(1));
}

#[test]
fn test_create_sequence_mixed_case() {
    let sql = "Create Sequence [dbo].[Counter] As Int Start With 100";
    let result = parse_create_sequence_tokens(sql).unwrap();
    assert_eq!(result.name, "Counter");
    assert_eq!(result.data_type, Some("INT".to_string()));
    assert_eq!(result.start_value, Some(100));
}

#[test]
fn test_create_sequence_cycle_with_bounds() {
    let sql = "CREATE SEQUENCE [dbo].[CyclingSeq] MINVALUE 1 MAXVALUE 100 CYCLE";
    let result = parse_create_sequence_tokens(sql).unwrap();
    assert_eq!(result.min_value, Some(1));
    assert_eq!(result.max_value, Some(100));
    assert!(result.is_cycling);
}

#[test]
fn test_create_sequence_no_minmax_values() {
    let sql = "CREATE SEQUENCE [dbo].[UnboundedSeq] NO MINVALUE NO MAXVALUE";
    let result = parse_create_sequence_tokens(sql).unwrap();
    assert!(result.min_value.is_none());
    assert!(result.has_no_min_value);
    assert!(result.max_value.is_none());
    assert!(result.has_no_max_value);
}

#[test]
fn test_alter_sequence_restart() {
    let sql = "ALTER SEQUENCE [dbo].[OrderSequence] RESTART WITH 1000";
    let result = parse_alter_sequence_tokens(sql).unwrap();
    assert_eq!(result.schema, "dbo");
    assert_eq!(result.name, "OrderSequence");
    assert_eq!(result.start_value, Some(1000));
    assert!(result.data_type.is_none()); // ALTER cannot change data type
}

#[test]
fn test_alter_sequence_increment() {
    let sql = "ALTER SEQUENCE [dbo].[CounterSeq] INCREMENT BY 5";
    let result = parse_alter_sequence_tokens(sql).unwrap();
    assert_eq!(result.schema, "dbo");
    assert_eq!(result.name, "CounterSeq");
    assert_eq!(result.increment_value, Some(5));
}

#[test]
fn test_alter_sequence_minmax() {
    let sql = "ALTER SEQUENCE [dbo].[BoundedSeq] MINVALUE 1 MAXVALUE 10000 CYCLE";
    let result = parse_alter_sequence_tokens(sql).unwrap();
    assert_eq!(result.min_value, Some(1));
    assert_eq!(result.max_value, Some(10000));
    assert!(result.is_cycling);
}

#[test]
fn test_alter_sequence_multiple_options() {
    let sql = "ALTER SEQUENCE [dbo].[ComplexSeq] RESTART WITH 500 INCREMENT BY 10 MINVALUE 1 MAXVALUE 99999 NO CYCLE";
    let result = parse_alter_sequence_tokens(sql).unwrap();
    assert_eq!(result.start_value, Some(500));
    assert_eq!(result.increment_value, Some(10));
    assert_eq!(result.min_value, Some(1));
    assert_eq!(result.max_value, Some(99999));
    assert!(!result.is_cycling);
}

#[test]
fn test_alter_sequence_multiline() {
    let sql = r#"
ALTER SEQUENCE [dbo].[OrderSequence]
RESTART WITH 1000
INCREMENT BY 10
MINVALUE 1
MAXVALUE 999999
NO CYCLE
"#;
    let result = parse_alter_sequence_tokens(sql).unwrap();
    assert_eq!(result.schema, "dbo");
    assert_eq!(result.name, "OrderSequence");
    assert_eq!(result.start_value, Some(1000));
    assert_eq!(result.increment_value, Some(10));
    assert_eq!(result.min_value, Some(1));
    assert_eq!(result.max_value, Some(999999));
    assert!(!result.is_cycling);
}

#[test]
fn test_alter_sequence_custom_schema() {
    let sql = "ALTER SEQUENCE [sales].[InvoiceSeq] RESTART WITH 5000";
    let result = parse_alter_sequence_tokens(sql).unwrap();
    assert_eq!(result.schema, "sales");
    assert_eq!(result.name, "InvoiceSeq");
    assert_eq!(result.start_value, Some(5000));
}

#[test]
fn test_alter_sequence_unbracketed() {
    let sql = "ALTER SEQUENCE dbo.Counter RESTART WITH 100";
    let result = parse_alter_sequence_tokens(sql).unwrap();
    assert_eq!(result.schema, "dbo");
    assert_eq!(result.name, "Counter");
    assert_eq!(result.start_value, Some(100));
}

#[test]
fn test_alter_sequence_cache() {
    let sql = "ALTER SEQUENCE [dbo].[CachedSeq] CACHE 200";
    let result = parse_alter_sequence_tokens(sql).unwrap();
    assert_eq!(result.cache_size, Some(200));
}

#[test]
fn test_alter_sequence_no_cache() {
    let sql = "ALTER SEQUENCE [dbo].[UncachedSeq] NO CACHE";
    let result = parse_alter_sequence_tokens(sql).unwrap();
    assert_eq!(result.cache_size, Some(0));
}

#[test]
fn test_alter_sequence_case_insensitive() {
    let sql = "alter sequence [dbo].[Counter] restart with 50 increment by 2";
    let result = parse_alter_sequence_tokens(sql).unwrap();
    assert_eq!(result.name, "Counter");
    assert_eq!(result.start_value, Some(50));
    assert_eq!(result.increment_value, Some(2));
}

#[test]
fn test_not_a_sequence() {
    let result = parse_create_sequence_tokens("CREATE TABLE [dbo].[Users] (Id INT)");
    assert!(result.is_none());
}

#[test]
fn sequence_parser_test_create_on_alter() {
    // CREATE SEQUENCE should not match ALTER SEQUENCE parser
    let result =
        parse_alter_sequence_tokens("CREATE SEQUENCE [dbo].[Counter] AS BIGINT START WITH 1");
    assert!(result.is_none());
}

#[test]
fn sequence_parser_test_alter_on_create() {
    // ALTER SEQUENCE should not match CREATE SEQUENCE parser
    let result =
        parse_create_sequence_tokens("ALTER SEQUENCE [dbo].[Counter] RESTART WITH 100");
    assert!(result.is_none());
}

#[test]
fn test_create_procedure_not_sequence() {
    let result = parse_create_sequence_tokens(
        "CREATE PROCEDURE [dbo].[GetUsers] AS SELECT * FROM Users",
    );
    assert!(result.is_none());
}

#[test]
fn test_alter_does_not_change_data_type() {
    // Even if AS keyword appears in ALTER, it should not set data_type
    let sql = "ALTER SEQUENCE [dbo].[Seq] RESTART WITH 1";
    let result = parse_alter_sequence_tokens(sql).unwrap();
    assert!(result.data_type.is_none());
}

#[test]
fn test_alter_start_with_not_recognized() {
    // ALTER uses RESTART, not START
    let sql = "ALTER SEQUENCE [dbo].[Seq] START WITH 100";
    let result = parse_alter_sequence_tokens(sql).unwrap();
    // START WITH should NOT be recognized by ALTER
    assert!(result.start_value.is_none());
}

#[test]
fn test_create_restart_not_recognized() {
    // CREATE uses START, not RESTART
    let sql = "CREATE SEQUENCE [dbo].[Seq] RESTART WITH 100";
    let result = parse_create_sequence_tokens(sql).unwrap();
    // RESTART WITH should NOT be recognized by CREATE
    assert!(result.start_value.is_none());
}

#[test]
fn test_negative_minvalue() {
    let sql = "CREATE SEQUENCE [dbo].[Seq] MINVALUE -9999";
    let result = parse_create_sequence_tokens(sql).unwrap();
    assert_eq!(result.min_value, Some(-9999));
}

#[test]
fn test_negative_maxvalue() {
    let sql = "CREATE SEQUENCE [dbo].[Seq] MAXVALUE -1";
    let result = parse_create_sequence_tokens(sql).unwrap();
    assert_eq!(result.max_value, Some(-1));
}


#[test]
fn test_alter_sequence_restart_sets_start_but_never_type() {
    let r = parse_alter_sequence_tokens("ALTER SEQUENCE [dbo].[Seq] AS BIGINT RESTART WITH 5").unwrap();
    assert_eq!(r.start_value, Some(5));
    assert!(r.data_type.is_none());
    assert!(parse_alter_sequence_tokens("CREATE SEQUENCE [dbo].[Seq] START WITH 1").is_none());
}
