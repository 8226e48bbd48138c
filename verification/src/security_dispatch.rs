//! Routing of security statements: `GRANT`/`DENY`/`REVOKE`, role membership,
//! `CREATE USER` and `CREATE ROLE` are read into typed statements; the other
//! security and server-level statements (logins, certificates, keys,
//! credentials, ...) are recognised and marked as skipped.

use vstd::prelude::*;
use crate::text::{contains_ci, starts_with_ci, contains_ci_exec, starts_with_ci_exec, str_to_string};
use crate::lexer::{SqlToken, TokenView, views, lex_sql, tokenize, is_leading_word, plain_word};
use crate::security_parser::{
    PermissionAction, PermissionTarget, PermissionView, TargetView, AuthView, UserAuthType,
    MembershipView, UserView, RoleView, TokenParsedPermission, TokenParsedUser, TokenParsedRole,
    TokenParsedRoleMembership, create_user, create_role, alter_role_membership,
    permission_statement, sp_role_member, parse_create_user, parse_create_role,
    parse_alter_role_membership, parse_permission, parse_sp_role_member,
};
use crate::fallback::{FallbackStatementType, FallbackView, opt_fallback};

verus! {

/// The tokens of a text, or none where the tokenizer fails.
pub open spec fn shared_tokens(sql: Seq<char>) -> Seq<TokenView> {
    match lex_sql(sql) {
        Some(s) => s,
        None => Seq::empty(),
    }
}

/// Tokenizes a text once for all the parsers that read it; empty where the
/// tokenizer fails.
pub fn tokenize_or_empty(sql: &str) -> (r: Vec<SqlToken>)
    ensures
        views(r@) == shared_tokens(sql@),
        forall|k: int|
            #[trigger] is_leading_word(sql@, k) ==> r@.len() == 0 || r@[0]@ == plain_word(
                sql@.subrange(0, k),
            ),
{
    match tokenize(sql) {
        Some(t) => t,
        None => {
            let v: Vec<SqlToken> = Vec::new();
            assert(views(v@) =~= Seq::<TokenView>::empty());
            v
        },
    }
}

// ---------------------------------------------------------------------------
// Specification
// ---------------------------------------------------------------------------

pub open spec fn skipped(kind: Seq<char>) -> Option<FallbackView> {
    Some(FallbackView::SkippedSecurityStatement { statement_type: kind })
}

/// Whether one of three phrases occurs, ignoring case.
pub open spec fn any_of3(sql: Seq<char>, a: Seq<char>, b: Seq<char>, c: Seq<char>) -> bool {
    contains_ci(sql, a) || contains_ci(sql, b) || contains_ci(sql, c)
}

pub open spec fn action_name(a: PermissionAction) -> Seq<char> {
    match a {
        PermissionAction::Grant => "Grant"@,
        PermissionAction::Deny => "Deny"@,
        PermissionAction::Revoke => "Revoke"@,
    }
}

/// A parsed permission as a statement: the target is split into schema, name
/// and kind (`Object`, `Schema`, `Database`).
pub open spec fn permission_statement_view(p: PermissionView) -> FallbackView {
    let (ts, tn, tt) = match p.target {
        TargetView::Object { schema, name } => (schema, Some(name), "Object"@),
        TargetView::Schema(s) => (Some(s), None, "Schema"@),
        TargetView::Database => (None, None, "Database"@),
    };
    FallbackView::Permission {
        action: action_name(p.action),
        permission: p.permission,
        target_schema: ts,
        target_name: tn,
        target_type: tt,
        principal: p.principal,
        with_grant_option: p.with_grant_option,
        cascade: p.cascade,
    }
}

pub open spec fn membership_statement_view(m: MembershipView) -> FallbackView {
    FallbackView::AlterRoleMembership { role: m.role, member: m.member, is_add: m.is_add }
}

/// A parsed user as a statement: the authentication becomes its kind name and
/// the login, if any.
pub open spec fn user_statement_view(u: UserView) -> FallbackView {
    let (kind, login) = match u.auth_type {
        AuthView::Login(l) => ("Login"@, Some(l)),
        AuthView::WithoutLogin => ("WithoutLogin"@, None),
        AuthView::ExternalProvider => ("ExternalProvider"@, None),
        AuthView::Default => ("Default"@, None),
    };
    FallbackView::CreateUser {
        name: u.name,
        auth_type: kind,
        login,
        default_schema: u.default_schema,
    }
}

pub open spec fn role_statement_view(r: RoleView) -> FallbackView {
    FallbackView::CreateRole { name: r.name, owner: r.owner }
}

/// Whether the text starts as a permission statement.
pub open spec fn is_permission_text(sql: Seq<char>) -> bool {
    starts_with_ci(sql, "GRANT "@) || starts_with_ci(sql, "DENY "@) || starts_with_ci(
        sql,
        "REVOKE "@,
    )
}

/// The statement kind that a security statement is read as, in order of the
/// checks; `s` holds the text's tokens.
pub open spec fn security_dispatch(sql: Seq<char>, s: Seq<TokenView>) -> Option<FallbackView> {
    if is_permission_text(sql) {
        match permission_statement(s) {
            Some(p) => Some(permission_statement_view(p)),
            None => skipped(
                if starts_with_ci(sql, "GRANT "@) {
                    "GRANT"@
                } else if starts_with_ci(sql, "DENY "@) {
                    "DENY"@
                } else {
                    "REVOKE"@
                },
            ),
        }
    } else if contains_ci(sql, "SP_ADDROLEMEMBER"@) || contains_ci(sql, "SP_DROPROLEMEMBER"@) {
        match sp_role_member(s) {
            Some(m) => Some(membership_statement_view(m)),
            None => skipped("ROLE_MEMBERSHIP"@),
        }
    } else if contains_ci(sql, "ALTER ROLE"@) && contains_ci(sql, "MEMBER"@) {
        match alter_role_membership(s) {
            Some(m) => Some(membership_statement_view(m)),
            None => skipped("ROLE_MEMBERSHIP"@),
        }
    } else if any_of3(sql, "CREATE LOGIN"@, "ALTER LOGIN"@, "DROP LOGIN"@) {
        skipped("LOGIN"@)
    } else if contains_ci(sql, "CREATE USER"@) {
        match create_user(s) {
            Some(u) => Some(user_statement_view(u)),
            None => skipped("USER"@),
        }
    } else if contains_ci(sql, "ALTER USER"@) || contains_ci(sql, "DROP USER"@) {
        skipped("USER"@)
    } else if any_of3(
        sql,
        "CREATE APPLICATION ROLE"@,
        "ALTER APPLICATION ROLE"@,
        "DROP APPLICATION ROLE"@,
    ) {
        skipped("APPLICATION_ROLE"@)
    } else if any_of3(sql, "CREATE SERVER ROLE"@, "ALTER SERVER ROLE"@, "DROP SERVER ROLE"@) {
        skipped("SERVER_ROLE"@)
    } else if contains_ci(sql, "CREATE ROLE"@) {
        match create_role(s) {
            Some(r) => Some(role_statement_view(r)),
            None => skipped("ROLE"@),
        }
    } else if contains_ci(sql, "ALTER ROLE"@) || contains_ci(sql, "DROP ROLE"@) {
        skipped("ROLE"@)
    } else {
        skipped_server_object(sql)
    }
}

/// Server-level objects that are always skipped.
pub open spec fn skipped_server_object(sql: Seq<char>) -> Option<FallbackView> {
    if any_of3(sql, "CREATE CERTIFICATE"@, "ALTER CERTIFICATE"@, "DROP CERTIFICATE"@) {
        skipped("CERTIFICATE"@)
    } else if any_of3(
        sql,
        "CREATE ASYMMETRIC KEY"@,
        "ALTER ASYMMETRIC KEY"@,
        "DROP ASYMMETRIC KEY"@,
    ) {
        skipped("ASYMMETRIC_KEY"@)
    } else if any_of3(sql, "CREATE SYMMETRIC KEY"@, "ALTER SYMMETRIC KEY"@, "DROP SYMMETRIC KEY"@) {
        skipped("SYMMETRIC_KEY"@)
    } else if any_of3(sql, "CREATE CREDENTIAL"@, "ALTER CREDENTIAL"@, "DROP CREDENTIAL"@) {
        skipped("CREDENTIAL"@)
    } else {
        None
    }
}

// ---------------------------------------------------------------------------
// Executable dispatch
// ---------------------------------------------------------------------------

fn skip_statement(kind: &str) -> (r: Option<FallbackStatementType>)
    ensures
        opt_fallback(r) == skipped(kind@),
{
    Some(FallbackStatementType::SkippedSecurityStatement { statement_type: str_to_string(kind) })
}

fn any_of3_exec(sql: &str, a: &str, b: &str, c: &str) -> (r: bool)
    ensures
        r == any_of3(sql@, a@, b@, c@),
{
    contains_ci_exec(sql, a) || contains_ci_exec(sql, b) || contains_ci_exec(sql, c)
}

fn permission_to_statement(p: TokenParsedPermission) -> (r: FallbackStatementType)
    ensures
        r@ == permission_statement_view(p@),
{
    let (target_schema, target_name, target_type) = match p.target {
        PermissionTarget::Object { schema, name } => (schema, Some(name), str_to_string("Object")),
        PermissionTarget::Schema(s) => (Some(s), None, str_to_string("Schema")),
        PermissionTarget::Database => (None, None, str_to_string("Database")),
    };
    let action = match p.action {
        PermissionAction::Grant => str_to_string("Grant"),
        PermissionAction::Deny => str_to_string("Deny"),
        PermissionAction::Revoke => str_to_string("Revoke"),
    };
    FallbackStatementType::Permission {
        action,
        permission: p.permission,
        target_schema,
        target_name,
        target_type,
        principal: p.principal,
        with_grant_option: p.with_grant_option,
        cascade: p.cascade,
    }
}

fn membership_to_statement(m: TokenParsedRoleMembership) -> (r: FallbackStatementType)
    ensures
        r@ == membership_statement_view(m@),
{
    FallbackStatementType::AlterRoleMembership { role: m.role, member: m.member, is_add: m.is_add }
}

fn user_to_statement(u: TokenParsedUser) -> (r: FallbackStatementType)
    ensures
        r@ == user_statement_view(u@),
{
    let (auth_type, login) = match u.auth_type {
        UserAuthType::Login(l) => (str_to_string("Login"), Some(l)),
        UserAuthType::WithoutLogin => (str_to_string("WithoutLogin"), None),
        UserAuthType::ExternalProvider => (str_to_string("ExternalProvider"), None),
        UserAuthType::Default => (str_to_string("Default"), None),
    };
    FallbackStatementType::CreateUser {
        name: u.name,
        auth_type,
        login,
        default_schema: u.default_schema,
    }
}

fn role_to_statement(r0: TokenParsedRole) -> (r: FallbackStatementType)
    ensures
        r@ == role_statement_view(r0@),
{
    FallbackStatementType::CreateRole { name: r0.name, owner: r0.owner }
}

fn skipped_server_object_exec(sql: &str) -> (r: Option<FallbackStatementType>)
    ensures
        opt_fallback(r) == skipped_server_object(sql@),
{
    if any_of3_exec(sql, "CREATE CERTIFICATE", "ALTER CERTIFICATE", "DROP CERTIFICATE") {
        skip_statement("CERTIFICATE")
    } else if any_of3_exec(
        sql,
        "CREATE ASYMMETRIC KEY",
        "ALTER ASYMMETRIC KEY",
        "DROP ASYMMETRIC KEY",
    ) {
        skip_statement("ASYMMETRIC_KEY")
    } else if any_of3_exec(sql, "CREATE SYMMETRIC KEY", "ALTER SYMMETRIC KEY", "DROP SYMMETRIC KEY") {
        skip_statement("SYMMETRIC_KEY")
    } else if any_of3_exec(sql, "CREATE CREDENTIAL", "ALTER CREDENTIAL", "DROP CREDENTIAL") {
        skip_statement("CREDENTIAL")
    } else {
        None
    }
}

fn permission_dispatch(sql: &str, toks: &Vec<SqlToken>) -> (r: Option<FallbackStatementType>)
    requires
        is_permission_text(sql@),
    ensures
        opt_fallback(r) == security_dispatch(sql@, views(toks@)),
{
    match parse_permission(toks) {
        Some(p) => Some(permission_to_statement(p)),
        None => {
            if starts_with_ci_exec(sql, "GRANT ") {
                skip_statement("GRANT")
            } else if starts_with_ci_exec(sql, "DENY ") {
                skip_statement("DENY")
            } else {
                skip_statement("REVOKE")
            }
        },
    }
}

/// Reads a security statement from its text and its tokens (`toks`, the tokens
/// of `sql`, or none where the text does not tokenize): permissions, role
/// membership, users and roles become typed statements, other security and
/// server-level statements are marked skipped; `None` for any other text.
pub fn try_security_statement_dispatch_with_tokens(sql: &str, toks: &Vec<SqlToken>) -> (r: Option<
    FallbackStatementType,
>)
    ensures
        opt_fallback(r) == security_dispatch(sql@, views(toks@)),
{
    if starts_with_ci_exec(sql, "GRANT ") || starts_with_ci_exec(sql, "DENY ")
        || starts_with_ci_exec(sql, "REVOKE ") {
        return permission_dispatch(sql, toks);
    }
    if contains_ci_exec(sql, "SP_ADDROLEMEMBER") || contains_ci_exec(sql, "SP_DROPROLEMEMBER") {
        return match parse_sp_role_member(toks) {
            Some(m) => Some(membership_to_statement(m)),
            None => skip_statement("ROLE_MEMBERSHIP"),
        };
    }
    if contains_ci_exec(sql, "ALTER ROLE") && contains_ci_exec(sql, "MEMBER") {
        return match parse_alter_role_membership(toks) {
            Some(m) => Some(membership_to_statement(m)),
            None => skip_statement("ROLE_MEMBERSHIP"),
        };
    }
    if any_of3_exec(sql, "CREATE LOGIN", "ALTER LOGIN", "DROP LOGIN") {
        return skip_statement("LOGIN");
    }
    if contains_ci_exec(sql, "CREATE USER") {
        return match parse_create_user(toks) {
            Some(u) => Some(user_to_statement(u)),
            None => skip_statement("USER"),
        };
    }
    if contains_ci_exec(sql, "ALTER USER") || contains_ci_exec(sql, "DROP USER") {
        return skip_statement("USER");
    }
    if any_of3_exec(sql, "CREATE APPLICATION ROLE", "ALTER APPLICATION ROLE", "DROP APPLICATION ROLE") {
        return skip_statement("APPLICATION_ROLE");
    }
    if any_of3_exec(sql, "CREATE SERVER ROLE", "ALTER SERVER ROLE", "DROP SERVER ROLE") {
        return skip_statement("SERVER_ROLE");
    }
    if contains_ci_exec(sql, "CREATE ROLE") {
        return match parse_create_role(toks) {
            Some(r0) => Some(role_to_statement(r0)),
            None => skip_statement("ROLE"),
        };
    }
    if contains_ci_exec(sql, "ALTER ROLE") || contains_ci_exec(sql, "DROP ROLE") {
        return skip_statement("ROLE");
    }
    skipped_server_object_exec(sql)
}

/// Reads a security statement from its text, tokenized once. A text that
/// starts with `GRANT `, `DENY ` or `REVOKE ` is always answered, by the verb
/// it starts with.
pub fn try_security_statement_dispatch(sql: &str) -> (r: Option<FallbackStatementType>)
    ensures
        opt_fallback(r) == security_dispatch(sql@, shared_tokens(sql@)),
        is_permission_text(sql@) ==> crate::statement_laws::answered_by_verb(sql@, opt_fallback(r)),
{
    let toks = tokenize_or_empty(sql);
    proof {
        if is_permission_text(sql@) {
            let s = views(toks@);
            assert forall|k: int| #[trigger] is_leading_word(sql@, k) implies s.len() == 0 || s[0]
                == plain_word(sql@.subrange(0, k)) by {
                if toks@.len() > 0 {
                    assert(s[0] == toks@[0]@);
                }
            }
            crate::statement_laws::law_permission_answered_by_text_verb(sql@, s);
        }
    }
    try_security_statement_dispatch_with_tokens(sql, &toks)
}

} // verus!
