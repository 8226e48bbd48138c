use sqlpackage_parser::security_parser::{parse_create_user_tokens, parse_create_role_tokens, parse_alter_role_membership_tokens, parse_permission_tokens, parse_sp_addrolemember, UserAuthType, PermissionAction, PermissionTarget};

#[test]
fn test_parse_create_user_for_login() {
    let result = parse_create_user_tokens("CREATE USER [AppUser] FOR LOGIN [AppLogin]");
    let user = result.expect("Should parse CREATE USER FOR LOGIN");
    assert_eq!(user.name, "AppUser");
    assert_eq!(user.auth_type, UserAuthType::Login("AppLogin".to_string()));
    assert_eq!(user.default_schema, None);
}

#[test]
fn test_parse_create_user_without_login() {
    let result = parse_create_user_tokens("CREATE USER [ContainedUser] WITHOUT LOGIN");
    let user = result.expect("Should parse CREATE USER WITHOUT LOGIN");
    assert_eq!(user.name, "ContainedUser");
    assert_eq!(user.auth_type, UserAuthType::WithoutLogin);
}

#[test]
fn test_parse_create_user_with_default_schema() {
    let result = parse_create_user_tokens(
        "CREATE USER [AppUser] FOR LOGIN [AppLogin] WITH DEFAULT_SCHEMA = [app]",
    );
    let user = result.expect("Should parse CREATE USER with DEFAULT_SCHEMA");
    assert_eq!(user.name, "AppUser");
    assert_eq!(user.auth_type, UserAuthType::Login("AppLogin".to_string()));
    assert_eq!(user.default_schema, Some("app".to_string()));
}

#[test]
fn test_parse_create_user_from_external_provider() {
    let result = parse_create_user_tokens("CREATE USER [AzureADUser] FROM EXTERNAL PROVIDER");
    let user = result.expect("Should parse CREATE USER FROM EXTERNAL PROVIDER");
    assert_eq!(user.name, "AzureADUser");
    assert_eq!(user.auth_type, UserAuthType::ExternalProvider);
}

#[test]
fn test_parse_create_user_without_login_with_schema() {
    let result = parse_create_user_tokens(
        "CREATE USER [ContainedUser] WITHOUT LOGIN WITH DEFAULT_SCHEMA = [dbo]",
    );
    let user = result.expect("Should parse");
    assert_eq!(user.name, "ContainedUser");
    assert_eq!(user.auth_type, UserAuthType::WithoutLogin);
    assert_eq!(user.default_schema, Some("dbo".to_string()));
}

#[test]
fn test_parse_create_user_simple() {
    let result = parse_create_user_tokens("CREATE USER [SimpleUser]");
    let user = result.expect("Should parse simple CREATE USER");
    assert_eq!(user.name, "SimpleUser");
    assert_eq!(user.auth_type, UserAuthType::Default);
}

#[test]
fn test_parse_create_role_simple() {
    let result = parse_create_role_tokens("CREATE ROLE [AppRole]");
    let role = result.expect("Should parse CREATE ROLE");
    assert_eq!(role.name, "AppRole");
    assert_eq!(role.owner, None);
}

#[test]
fn test_parse_create_role_with_authorization() {
    let result = parse_create_role_tokens("CREATE ROLE [AppRole] AUTHORIZATION [dbo]");
    let role = result.expect("Should parse CREATE ROLE with AUTHORIZATION");
    assert_eq!(role.name, "AppRole");
    assert_eq!(role.owner, Some("dbo".to_string()));
}

#[test]
fn test_parse_alter_role_add_member() {
    let result =
        parse_alter_role_membership_tokens("ALTER ROLE [db_datareader] ADD MEMBER [AppUser]");
    let membership = result.expect("Should parse ALTER ROLE ADD MEMBER");
    assert_eq!(membership.role, "db_datareader");
    assert_eq!(membership.member, "AppUser");
    assert!(membership.is_add);
}

#[test]
fn test_parse_alter_role_drop_member() {
    let result =
        parse_alter_role_membership_tokens("ALTER ROLE [db_datawriter] DROP MEMBER [AppUser]");
    let membership = result.expect("Should parse ALTER ROLE DROP MEMBER");
    assert_eq!(membership.role, "db_datawriter");
    assert_eq!(membership.member, "AppUser");
    assert!(!membership.is_add);
}

#[test]
fn test_parse_sp_addrolemember() {
    let result = parse_sp_addrolemember("EXEC sp_addrolemember 'db_datareader', 'AppUser'");
    let membership = result.expect("Should parse sp_addrolemember");
    assert_eq!(membership.role, "db_datareader");
    assert_eq!(membership.member, "AppUser");
    assert!(membership.is_add);
}

#[test]
fn test_parse_sp_droprolemember() {
    let result = parse_sp_addrolemember("EXEC sp_droprolemember 'db_datawriter', 'AppUser'");
    let membership = result.expect("Should parse sp_droprolemember");
    assert_eq!(membership.role, "db_datawriter");
    assert_eq!(membership.member, "AppUser");
    assert!(!membership.is_add);
}

#[test]
fn test_parse_grant_select_on_table() {
    let result = parse_permission_tokens("GRANT SELECT ON [dbo].[Employees] TO [AppRole]");
    let perm = result.expect("Should parse GRANT SELECT");
    assert_eq!(perm.action, PermissionAction::Grant);
    assert_eq!(perm.permission, "SELECT");
    assert_eq!(
        perm.target,
        PermissionTarget::Object {
            schema: Some("dbo".to_string()),
            name: "Employees".to_string()
        }
    );
    assert_eq!(perm.principal, "AppRole");
    assert!(!perm.with_grant_option);
}

#[test]
fn test_parse_deny_delete_on_table() {
    let result = parse_permission_tokens("DENY DELETE ON [dbo].[AuditLog] TO [AppRole]");
    let perm = result.expect("Should parse DENY DELETE");
    assert_eq!(perm.action, PermissionAction::Deny);
    assert_eq!(perm.permission, "DELETE");
    assert_eq!(
        perm.target,
        PermissionTarget::Object {
            schema: Some("dbo".to_string()),
            name: "AuditLog".to_string()
        }
    );
    assert_eq!(perm.principal, "AppRole");
}

#[test]
fn test_parse_revoke_execute_on_proc() {
    let result =
        parse_permission_tokens("REVOKE EXECUTE ON [dbo].[usp_GetData] FROM [AppRole]");
    let perm = result.expect("Should parse REVOKE EXECUTE");
    assert_eq!(perm.action, PermissionAction::Revoke);
    assert_eq!(perm.permission, "EXECUTE");
    assert_eq!(
        perm.target,
        PermissionTarget::Object {
            schema: Some("dbo".to_string()),
            name: "usp_GetData".to_string()
        }
    );
    assert_eq!(perm.principal, "AppRole");
}

#[test]
fn test_parse_grant_on_schema() {
    let result = parse_permission_tokens("GRANT SELECT ON SCHEMA::[app] TO [AppRole]");
    let perm = result.expect("Should parse GRANT ON SCHEMA");
    assert_eq!(perm.action, PermissionAction::Grant);
    assert_eq!(perm.permission, "SELECT");
    assert_eq!(perm.target, PermissionTarget::Schema("app".to_string()));
    assert_eq!(perm.principal, "AppRole");
}

#[test]
fn test_parse_grant_database_level() {
    let result = parse_permission_tokens("GRANT VIEW DEFINITION TO [AppRole]");
    let perm = result.expect("Should parse database-level GRANT");
    assert_eq!(perm.action, PermissionAction::Grant);
    assert_eq!(perm.permission, "VIEW DEFINITION");
    assert_eq!(perm.target, PermissionTarget::Database);
    assert_eq!(perm.principal, "AppRole");
}

#[test]
fn test_parse_grant_with_grant_option() {
    let result = parse_permission_tokens(
        "GRANT SELECT ON [dbo].[Employees] TO [AppRole] WITH GRANT OPTION",
    );
    let perm = result.expect("Should parse GRANT WITH GRANT OPTION");
    assert_eq!(perm.action, PermissionAction::Grant);
    assert!(perm.with_grant_option);
}

#[test]
fn test_parse_revoke_cascade() {
    let result =
        parse_permission_tokens("REVOKE SELECT ON [dbo].[Employees] FROM [AppRole] CASCADE");
    let perm = result.expect("Should parse REVOKE CASCADE");
    assert_eq!(perm.action, PermissionAction::Revoke);
    assert!(perm.cascade);
}

#[test]
fn test_parse_grant_execute_on_object() {
    let result =
        parse_permission_tokens("GRANT EXECUTE ON OBJECT::[dbo].[usp_Insert] TO [AppRole]");
    let perm = result.expect("Should parse GRANT ON OBJECT::");
    assert_eq!(perm.permission, "EXECUTE");
    assert_eq!(
        perm.target,
        PermissionTarget::Object {
            schema: Some("dbo".to_string()),
            name: "usp_Insert".to_string()
        }
    );
}

