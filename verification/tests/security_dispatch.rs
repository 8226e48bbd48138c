use sqlpackage_parser::fallback::FallbackStatementType;
use sqlpackage_parser::security_dispatch::{
    tokenize_or_empty, try_security_statement_dispatch, try_security_statement_dispatch_with_tokens,
};

fn dispatch(sql: &str) -> Option<FallbackStatementType> {
    let toks = tokenize_or_empty(sql);
    try_security_statement_dispatch_with_tokens(sql, &toks)
}

fn skipped_kind(r: Option<FallbackStatementType>) -> String {
    match r {
        Some(FallbackStatementType::SkippedSecurityStatement { statement_type }) => statement_type,
        other => panic!("expected a skipped statement, got {:?}", other),
    }
}

#[test]
fn dispatch_grant_on_object() {
    match dispatch("GRANT SELECT ON [dbo].[Employees] TO [AppRole]") {
        Some(FallbackStatementType::Permission {
            action,
            permission,
            target_schema,
            target_name,
            target_type,
            principal,
            with_grant_option,
            cascade,
        }) => {
            assert_eq!(action, "Grant");
            assert_eq!(permission, "SELECT");
            assert_eq!(target_schema, Some("dbo".to_string()));
            assert_eq!(target_name, Some("Employees".to_string()));
            assert_eq!(target_type, "Object");
            assert_eq!(principal, "AppRole");
            assert!(!with_grant_option);
            assert!(!cascade);
        }
        other => panic!("expected a permission, got {:?}", other),
    }
}

#[test]
fn dispatch_deny_on_schema() {
    match dispatch("DENY DELETE ON SCHEMA::[Sales] TO [Reader]") {
        Some(FallbackStatementType::Permission { action, target_schema, target_name, target_type, .. }) => {
            assert_eq!(action, "Deny");
            assert_eq!(target_schema, Some("Sales".to_string()));
            assert_eq!(target_name, None);
            assert_eq!(target_type, "Schema");
        }
        other => panic!("expected a permission, got {:?}", other),
    }
}

#[test]
fn dispatch_grant_on_database() {
    match dispatch("GRANT CREATE TABLE TO [Builder]") {
        Some(FallbackStatementType::Permission { target_schema, target_name, target_type, .. }) => {
            assert_eq!(target_schema, None);
            assert_eq!(target_name, None);
            assert_eq!(target_type, "Database");
        }
        other => panic!("expected a permission, got {:?}", other),
    }
}

#[test]
fn dispatch_unparsed_permission_is_skipped_by_action() {
    assert_eq!(skipped_kind(dispatch("GRANT ")), "GRANT");
    assert_eq!(skipped_kind(dispatch("deny ")), "DENY");
    assert_eq!(skipped_kind(dispatch("REVOKE ")), "REVOKE");
}

#[test]
fn dispatch_role_membership() {
    match dispatch("EXEC sp_addrolemember 'db_datareader', 'AppUser'") {
        Some(FallbackStatementType::AlterRoleMembership { role, member, is_add }) => {
            assert_eq!(role, "db_datareader");
            assert_eq!(member, "AppUser");
            assert!(is_add);
        }
        other => panic!("expected a membership, got {:?}", other),
    }
    match dispatch("ALTER ROLE [db_datawriter] DROP MEMBER [AppUser]") {
        Some(FallbackStatementType::AlterRoleMembership { role, member, is_add }) => {
            assert_eq!(role, "db_datawriter");
            assert_eq!(member, "AppUser");
            assert!(!is_add);
        }
        other => panic!("expected a membership, got {:?}", other),
    }
    assert_eq!(skipped_kind(dispatch("EXEC sp_droprolemember")), "ROLE_MEMBERSHIP");
}

#[test]
fn dispatch_create_user_and_role() {
    match dispatch("CREATE USER [AppUser] FOR LOGIN [AppLogin] WITH DEFAULT_SCHEMA = [app]") {
        Some(FallbackStatementType::CreateUser { name, auth_type, login, default_schema }) => {
            assert_eq!(name, "AppUser");
            assert_eq!(auth_type, "Login");
            assert_eq!(login, Some("AppLogin".to_string()));
            assert_eq!(default_schema, Some("app".to_string()));
        }
        other => panic!("expected a user, got {:?}", other),
    }
    match dispatch("CREATE USER [Contained] WITHOUT LOGIN") {
        Some(FallbackStatementType::CreateUser { auth_type, login, .. }) => {
            assert_eq!(auth_type, "WithoutLogin");
            assert_eq!(login, None);
        }
        other => panic!("expected a user, got {:?}", other),
    }
    match dispatch("CREATE ROLE [AppRole] AUTHORIZATION [dbo]") {
        Some(FallbackStatementType::CreateRole { name, owner }) => {
            assert_eq!(name, "AppRole");
            assert_eq!(owner, Some("dbo".to_string()));
        }
        other => panic!("expected a role, got {:?}", other),
    }
}

#[test]
fn dispatch_server_level_statements_are_skipped() {
    assert_eq!(skipped_kind(dispatch("CREATE LOGIN [x] WITH PASSWORD = 'p'")), "LOGIN");
    assert_eq!(skipped_kind(dispatch("ALTER USER [x] WITH NAME = [y]")), "USER");
    assert_eq!(skipped_kind(dispatch("CREATE APPLICATION ROLE [r] WITH PASSWORD = 'p'")), "APPLICATION_ROLE");
    assert_eq!(skipped_kind(dispatch("CREATE SERVER ROLE [r]")), "SERVER_ROLE");
    assert_eq!(skipped_kind(dispatch("DROP ROLE [r]")), "ROLE");
    assert_eq!(skipped_kind(dispatch("CREATE CERTIFICATE c WITH SUBJECT = 's'")), "CERTIFICATE");
    assert_eq!(skipped_kind(dispatch("create asymmetric key k WITH ALGORITHM = RSA_2048")), "ASYMMETRIC_KEY");
    assert_eq!(skipped_kind(dispatch("CREATE SYMMETRIC KEY k WITH ALGORITHM = AES_256")), "SYMMETRIC_KEY");
    assert_eq!(skipped_kind(dispatch("DROP CREDENTIAL c")), "CREDENTIAL");
}

#[test]
fn dispatch_other_statements_give_none() {
    assert!(dispatch("SELECT 1").is_none());
    assert!(dispatch("CREATE TABLE t (a INT)").is_none());
}

#[test]
fn test_permission_action_follows_leading_verb() {
    let sql = "DENY SELECT ON [dbo].[T] TO [Reader];";
    match try_security_statement_dispatch_with_tokens(sql, &tokenize_or_empty(sql)) {
        Some(FallbackStatementType::Permission { action, .. }) => assert_eq!(action, "Deny"),
        other => panic!("Expected Permission, got {:?}", other),
    }
    let sql = "REVOKE ???";
    match try_security_statement_dispatch_with_tokens(sql, &tokenize_or_empty(sql)) {
        Some(FallbackStatementType::SkippedSecurityStatement { statement_type }) => {
            assert_eq!(statement_type, "REVOKE")
        }
        other => panic!("Expected SkippedSecurityStatement, got {:?}", other),
    }
}

#[test]
fn test_security_statement_answered_by_text_verb() {
    match try_security_statement_dispatch("grant SELECT ON [dbo].[T] TO [Reader]") {
        Some(FallbackStatementType::Permission { action, .. }) => assert_eq!(action, "Grant"),
        other => panic!("Expected Permission, got {:?}", other),
    }
    match try_security_statement_dispatch("Revoke EXECUTE ON SCHEMA::[dbo] FROM [App]") {
        Some(FallbackStatementType::Permission { action, .. }) => assert_eq!(action, "Revoke"),
        other => panic!("Expected Permission, got {:?}", other),
    }
    match try_security_statement_dispatch("DENY 'unclosed") {
        Some(FallbackStatementType::SkippedSecurityStatement { statement_type }) => {
            assert_eq!(statement_type, "DENY")
        }
        other => panic!("Expected SkippedSecurityStatement, got {:?}", other),
    }
    assert!(try_security_statement_dispatch("SELECT 1").is_none());
}
