//! Security statements: `CREATE USER`, `CREATE ROLE`, `ALTER ROLE ... ADD|DROP MEMBER`,
//! `GRANT`/`DENY`/`REVOKE`, and `sp_addrolemember`/`sp_droprolemember`.

use vstd::prelude::*;
use crate::text::{to_uppercase, unicode_upper, push_char, append_string};
use crate::lexer::{SqlToken, TokenKind, TokenView, views, lex_sql, tokenize};
use crate::cursor::{
    skip_ws, kw_at, word_at, kind_at, lemma_skip_ws, ident, adv, skip_whitespace, check_keyword,
    check_word_ci, check_kind, parse_identifier, advance, opt_str,
};

verus! {

/// Authentication of a `CREATE USER`.
#[derive(Debug, Clone, PartialEq, Eq)]
pub enum UserAuthType {
    /// `FOR LOGIN [login]`
    Login(String),
    /// `WITHOUT LOGIN`
    WithoutLogin,
    /// `FROM EXTERNAL PROVIDER`
    ExternalProvider,
    /// No authentication clause.
    Default,
}

/// A parsed `CREATE USER`.
#[derive(Debug, Clone)]
pub struct TokenParsedUser {
    pub name: String,
    pub auth_type: UserAuthType,
    pub default_schema: Option<String>,
}

/// A parsed `CREATE ROLE`.
#[derive(Debug, Clone)]
pub struct TokenParsedRole {
    pub name: String,
    pub owner: Option<String>,
}

/// A parsed role membership change.
#[derive(Debug, Clone)]
pub struct TokenParsedRoleMembership {
    pub role: String,
    pub member: String,
    pub is_add: bool,
}

/// `GRANT`, `DENY` or `REVOKE`.
#[derive(Debug, Clone, Copy, PartialEq, Eq, Structural)]
pub enum PermissionAction {
    Grant,
    Deny,
    Revoke,
}

/// What a permission is granted on.
#[derive(Debug, Clone, PartialEq, Eq)]
pub enum PermissionTarget {
    /// `ON [schema].[object]` or `ON [object]`
    Object { schema: Option<String>, name: String },
    /// `ON SCHEMA::[schema]`
    Schema(String),
    /// No `ON` clause.
    Database,
}

/// A parsed `GRANT`/`DENY`/`REVOKE`.
#[derive(Debug, Clone)]
pub struct TokenParsedPermission {
    pub action: PermissionAction,
    pub permission: String,
    pub target: PermissionTarget,
    pub principal: String,
    pub with_grant_option: bool,
    pub cascade: bool,
}

// ---------------------------------------------------------------------------
// Models
// ---------------------------------------------------------------------------

pub enum AuthView {
    Login(Seq<char>),
    WithoutLogin,
    ExternalProvider,
    Default,
}

impl View for UserAuthType {
    type V = AuthView;

    open spec fn view(&self) -> AuthView {
        match self {
            UserAuthType::Login(l) => AuthView::Login(l@),
            UserAuthType::WithoutLogin => AuthView::WithoutLogin,
            UserAuthType::ExternalProvider => AuthView::ExternalProvider,
            UserAuthType::Default => AuthView::Default,
        }
    }
}

pub struct UserView {
    pub name: Seq<char>,
    pub auth_type: AuthView,
    pub default_schema: Option<Seq<char>>,
}

impl View for TokenParsedUser {
    type V = UserView;

    open spec fn view(&self) -> UserView {
        UserView {
            name: self.name@,
            auth_type: self.auth_type@,
            default_schema: opt_str(self.default_schema),
        }
    }
}

pub struct RoleView {
    pub name: Seq<char>,
    pub owner: Option<Seq<char>>,
}

impl View for TokenParsedRole {
    type V = RoleView;

    open spec fn view(&self) -> RoleView {
        RoleView { name: self.name@, owner: opt_str(self.owner) }
    }
}

pub struct MembershipView {
    pub role: Seq<char>,
    pub member: Seq<char>,
    pub is_add: bool,
}

impl View for TokenParsedRoleMembership {
    type V = MembershipView;

    open spec fn view(&self) -> MembershipView {
        MembershipView { role: self.role@, member: self.member@, is_add: self.is_add }
    }
}

pub enum TargetView {
    Object { schema: Option<Seq<char>>, name: Seq<char> },
    Schema(Seq<char>),
    Database,
}

impl View for PermissionTarget {
    type V = TargetView;

    open spec fn view(&self) -> TargetView {
        match self {
            PermissionTarget::Object { schema, name } => TargetView::Object {
                schema: opt_str(*schema),
                name: name@,
            },
            PermissionTarget::Schema(s) => TargetView::Schema(s@),
            PermissionTarget::Database => TargetView::Database,
        }
    }
}

pub struct PermissionView {
    pub action: PermissionAction,
    pub permission: Seq<char>,
    pub target: TargetView,
    pub principal: Seq<char>,
    pub with_grant_option: bool,
    pub cascade: bool,
}

impl View for TokenParsedPermission {
    type V = PermissionView;

    open spec fn view(&self) -> PermissionView {
        PermissionView {
            action: self.action,
            permission: self.permission@,
            target: self.target@,
            principal: self.principal@,
            with_grant_option: self.with_grant_option,
            cascade: self.cascade,
        }
    }
}

pub open spec fn opt_user_view(r: Option<TokenParsedUser>) -> Option<UserView> {
    match r {
        Some(x) => Some(x@),
        None => None,
    }
}

pub open spec fn opt_role_view(r: Option<TokenParsedRole>) -> Option<RoleView> {
    match r {
        Some(x) => Some(x@),
        None => None,
    }
}

pub open spec fn opt_membership_view(r: Option<TokenParsedRoleMembership>) -> Option<MembershipView> {
    match r {
        Some(x) => Some(x@),
        None => None,
    }
}

pub open spec fn opt_permission_view(r: Option<TokenParsedPermission>) -> Option<PermissionView> {
    match r {
        Some(x) => Some(x@),
        None => None,
    }
}

// ---------------------------------------------------------------------------
// CREATE USER
// ---------------------------------------------------------------------------

/// What one pass over the user options does: go on with a new state, fall
/// through to the next clause at a position, or fail.
pub enum UserStep {
    Next(int, AuthView, Option<Seq<char>>),
    Fall(int),
    Fail,
}

/// `FOR LOGIN [login]` at `p`.
pub open spec fn user_for_login(s: Seq<TokenView>, p: int, d: Option<Seq<char>>) -> UserStep {
    if kw_at(s, p, "FOR"@) {
        let q = skip_ws(s, p + 1);
        if word_at(s, q, "LOGIN"@) {
            let (l, q3) = ident(s, skip_ws(s, q + 1));
            match l {
                None => UserStep::Fail,
                Some(x) => UserStep::Next(skip_ws(s, q3), AuthView::Login(x), d),
            }
        } else {
            UserStep::Fall(q)
        }
    } else {
        UserStep::Fall(p)
    }
}

/// `WITHOUT LOGIN` at `p`.
pub open spec fn user_without_login(s: Seq<TokenView>, p: int, d: Option<Seq<char>>) -> UserStep {
    if word_at(s, p, "WITHOUT"@) {
        let q = skip_ws(s, p + 1);
        if word_at(s, q, "LOGIN"@) {
            UserStep::Next(skip_ws(s, q + 1), AuthView::WithoutLogin, d)
        } else {
            UserStep::Fall(q)
        }
    } else {
        UserStep::Fall(p)
    }
}

/// `FROM EXTERNAL PROVIDER` at `p`.
pub open spec fn user_external(s: Seq<TokenView>, p: int, d: Option<Seq<char>>) -> UserStep {
    if kw_at(s, p, "FROM"@) {
        let q = skip_ws(s, p + 1);
        if word_at(s, q, "EXTERNAL"@) {
            let q2 = skip_ws(s, q + 1);
            if word_at(s, q2, "PROVIDER"@) {
                UserStep::Next(skip_ws(s, q2 + 1), AuthView::ExternalProvider, d)
            } else {
                UserStep::Fall(q2)
            }
        } else {
            UserStep::Fall(q)
        }
    } else {
        UserStep::Fall(p)
    }
}

/// `WITH DEFAULT_SCHEMA [=] [schema]` at `p`.
pub open spec fn user_default_schema(s: Seq<TokenView>, p: int, a: AuthView) -> UserStep {
    if kw_at(s, p, "WITH"@) {
        let q = skip_ws(s, p + 1);
        if word_at(s, q, "DEFAULT_SCHEMA"@) {
            let q2 = skip_ws(s, q + 1);
            let q3 = if kind_at(s, q2, TokenKind::Eq) {
                skip_ws(s, q2 + 1)
            } else {
                q2
            };
            let (d, q4) = ident(s, q3);
            match d {
                None => UserStep::Fail,
                Some(x) => UserStep::Next(skip_ws(s, q4), a, Some(x)),
            }
        } else {
            UserStep::Fall(q)
        }
    } else {
        UserStep::Fall(p)
    }
}

/// One pass over the user options at `p`: the four clauses tried in turn,
/// each starting where the previous one fell through.
pub open spec fn user_step(s: Seq<TokenView>, p: int, a: AuthView, d: Option<Seq<char>>) -> UserStep {
    match user_for_login(s, p, d) {
        UserStep::Fall(p1) => match user_without_login(s, p1, d) {
            UserStep::Fall(p2) => match user_external(s, p2, d) {
                UserStep::Fall(p3) => user_default_schema(s, p3, a),
                other => other,
            },
            other => other,
        },
        other => other,
    }
}

/// The options of `CREATE USER` from `p` on; `None` when a clause is cut short.
pub open spec fn user_options(s: Seq<TokenView>, p: int, a: AuthView, d: Option<Seq<char>>) -> Option<
    (AuthView, Option<Seq<char>>),
>
    decreases s.len() - p,
{
    if p < 0 || p >= s.len() {
        Some((a, d))
    } else {
        let st = user_step(s, p, a, d);
        proof {
            lemma_user_steps(s, p, a, d);

        }
        if st is Next {
            user_options(s, st->Next_0, st->Next_1, st->Next_2)
        } else if st is Fall {
            user_options(s, adv(s, st->Fall_0), a, d)
        } else {
            None
        }
    }
}

/// Whether a step moves past `p` (on `Next`) or not back (on `Fall`).
pub open spec fn step_after(st: UserStep, p: int, n: int) -> bool {
    match st {
        UserStep::Next(q, _, _) => p < q <= n,
        UserStep::Fall(q) => p <= q <= n,
        UserStep::Fail => true,
    }
}

pub open spec fn fall_pos(st: UserStep, p: int) -> int {
    match st {
        UserStep::Fall(x) => x,
        _ => p,
    }
}

pub proof fn lemma_for_login_step(s: Seq<TokenView>, p: int, d: Option<Seq<char>>)
    requires
        0 <= p <= s.len(),
    ensures
        step_after(user_for_login(s, p, d), p, s.len() as int),
{
    lemma_skip_ws(s, p + 1);
    lemma_skip_ws(s, skip_ws(s, p + 1) + 1);
    lemma_skip_ws(s, ident(s, skip_ws(s, skip_ws(s, p + 1) + 1)).1);
}

pub proof fn lemma_without_login_step(s: Seq<TokenView>, p: int, d: Option<Seq<char>>)
    requires
        0 <= p <= s.len(),
    ensures
        step_after(user_without_login(s, p, d), p, s.len() as int),
{
    lemma_skip_ws(s, p + 1);
    lemma_skip_ws(s, skip_ws(s, p + 1) + 1);
}

pub proof fn lemma_external_step(s: Seq<TokenView>, p: int, d: Option<Seq<char>>)
    requires
        0 <= p <= s.len(),
    ensures
        step_after(user_external(s, p, d), p, s.len() as int),
{
    lemma_skip_ws(s, p + 1);
    lemma_skip_ws(s, skip_ws(s, p + 1) + 1);
    lemma_skip_ws(s, skip_ws(s, skip_ws(s, p + 1) + 1) + 1);
}

pub proof fn lemma_default_schema_step(s: Seq<TokenView>, p: int, a: AuthView)
    requires
        0 <= p <= s.len(),
    ensures
        step_after(user_default_schema(s, p, a), p, s.len() as int),
{
    lemma_skip_ws(s, p + 1);
    let q2 = skip_ws(s, skip_ws(s, p + 1) + 1);
    lemma_skip_ws(s, skip_ws(s, p + 1) + 1);
    lemma_skip_ws(s, q2 + 1);
    let q3 = if kind_at(s, q2, TokenKind::Eq) {
        skip_ws(s, q2 + 1)
    } else {
        q2
    };
    lemma_skip_ws(s, ident(s, q3).1);
}

/// Every pass over the user options moves past `p`.
pub proof fn lemma_user_steps(s: Seq<TokenView>, p: int, a: AuthView, d: Option<Seq<char>>)
    requires
        0 <= p <= s.len(),
    ensures
        step_after(user_step(s, p, a, d), p, s.len() as int),
        user_step(s, p, a, d) is Next ==> p < user_step(s, p, a, d)->Next_0 <= s.len(),
        user_step(s, p, a, d) is Fall ==> p <= user_step(s, p, a, d)->Fall_0 <= s.len(),
{
    lemma_for_login_step(s, p, d);
    let p1 = fall_pos(user_for_login(s, p, d), p);
    lemma_without_login_step(s, p1, d);
    let p2 = fall_pos(user_without_login(s, p1, d), p);
    lemma_external_step(s, p2, d);
    let p3 = fall_pos(user_external(s, p2, d), p);
    lemma_default_schema_step(s, p3, a);
}

pub open spec fn create_user(s: Seq<TokenView>) -> Option<UserView> {
    let p0 = skip_ws(s, 0);
    if !kw_at(s, p0, "CREATE"@) {
        None
    } else {
        let p1 = skip_ws(s, p0 + 1);
        if !word_at(s, p1, "USER"@) {
            None
        } else {
            let (n, p2) = ident(s, skip_ws(s, p1 + 1));
            match n {
                None => None,
                Some(name) => match user_options(s, skip_ws(s, p2), AuthView::Default, None) {
                    None => None,
                    Some((a, d)) => Some(UserView { name, auth_type: a, default_schema: d }),
                },
            }
        }
    }
}

// ---------------------------------------------------------------------------
// CREATE ROLE, ALTER ROLE
// ---------------------------------------------------------------------------

pub open spec fn create_role(s: Seq<TokenView>) -> Option<RoleView> {
    let p0 = skip_ws(s, 0);
    if !kw_at(s, p0, "CREATE"@) {
        None
    } else {
        let p1 = skip_ws(s, p0 + 1);
        if !word_at(s, p1, "ROLE"@) {
            None
        } else {
            let (n, p2) = ident(s, skip_ws(s, p1 + 1));
            match n {
                None => None,
                Some(name) => {
                    let p3 = skip_ws(s, p2);
                    if word_at(s, p3, "AUTHORIZATION"@) {
                        match ident(s, skip_ws(s, p3 + 1)).0 {
                            None => None,
                            Some(o) => Some(RoleView { name, owner: Some(o) }),
                        }
                    } else {
                        Some(RoleView { name, owner: None })
                    }
                },
            }
        }
    }
}

pub open spec fn alter_role_membership(s: Seq<TokenView>) -> Option<MembershipView> {
    let p0 = skip_ws(s, 0);
    if !kw_at(s, p0, "ALTER"@) {
        None
    } else {
        let p1 = skip_ws(s, p0 + 1);
        if !word_at(s, p1, "ROLE"@) {
            None
        } else {
            let (r, p2) = ident(s, skip_ws(s, p1 + 1));
            match r {
                None => None,
                Some(role) => {
                    let p3 = skip_ws(s, p2);
                    if !kw_at(s, p3, "ADD"@) && !kw_at(s, p3, "DROP"@) {
                        None
                    } else {
                        let p4 = skip_ws(s, p3 + 1);
                        if !word_at(s, p4, "MEMBER"@) {
                            None
                        } else {
                            match ident(s, skip_ws(s, p4 + 1)).0 {
                                None => None,
                                Some(member) => Some(
                                    MembershipView { role, member, is_add: kw_at(s, p3, "ADD"@) },
                                ),
                            }
                        }
                    }
                },
            }
        }
    }
}

/// A string literal's content, or else an identifier.
pub open spec fn string_or_ident(s: Seq<TokenView>, p: int) -> Option<Seq<char>> {
    if kind_at(s, p, TokenKind::SingleQuotedString) || kind_at(s, p, TokenKind::NationalStringLiteral) {
        Some(s[p].value)
    } else {
        ident(s, p).0
    }
}

pub open spec fn string_or_ident_end(s: Seq<TokenView>, p: int) -> int {
    if kind_at(s, p, TokenKind::SingleQuotedString) || kind_at(s, p, TokenKind::NationalStringLiteral) {
        p + 1
    } else {
        ident(s, p).1
    }
}

/// `[EXEC] sp_addrolemember 'role', 'member'` (or `sp_droprolemember`).
pub open spec fn sp_role_member(s: Seq<TokenView>) -> Option<MembershipView> {
    let p0 = skip_ws(s, 0);
    let p1 = if kw_at(s, p0, "EXECUTE"@) || word_at(s, p0, "EXEC"@) {
        skip_ws(s, p0 + 1)
    } else {
        p0
    };
    if !word_at(s, p1, "sp_addrolemember"@) && !word_at(s, p1, "sp_droprolemember"@) {
        None
    } else {
        let p2 = skip_ws(s, p1 + 1);
        match string_or_ident(s, p2) {
            None => None,
            Some(role) => {
                let p3 = skip_ws(s, string_or_ident_end(s, p2));
                let p4 = if kind_at(s, p3, TokenKind::Comma) {
                    skip_ws(s, p3 + 1)
                } else {
                    p3
                };
                match string_or_ident(s, p4) {
                    None => None,
                    Some(member) => Some(
                        MembershipView {
                            role,
                            member,
                            is_add: word_at(s, p1, "sp_addrolemember"@),
                        },
                    ),
                }
            },
        }
    }
}

// ---------------------------------------------------------------------------
// GRANT / DENY / REVOKE
// ---------------------------------------------------------------------------

/// Words joined by single spaces.
pub open spec fn join_space(parts: Seq<Seq<char>>) -> Seq<char>
    decreases parts.len(),
{
    if parts.len() == 0 {
        Seq::empty()
    } else if parts.len() == 1 {
        parts[0]
    } else {
        join_space(parts.drop_last()) + seq![' '] + parts.last()
    }
}

/// The words of a permission name up to `ON`, `TO`, `FROM` or a non-word.
pub open spec fn permission_words(s: Seq<TokenView>, p: int, parts: Seq<Seq<char>>) -> (Seq<Seq<char>>, int)
    decreases s.len() - p,
{
    if p < 0 || p >= s.len() || kw_at(s, p, "ON"@) || kw_at(s, p, "TO"@) || kw_at(s, p, "FROM"@)
        || !kind_at(s, p, TokenKind::Word) {
        (parts, p)
    } else {
        proof {
            lemma_skip_ws(s, p + 1);
        }
        permission_words(s, skip_ws(s, p + 1), parts.push(unicode_upper(s[p].value)))
    }
}

/// The permission name, upper-cased words joined by spaces.
pub open spec fn permission_name(s: Seq<TokenView>, p: int) -> (Option<Seq<char>>, int) {
    let (parts, q) = permission_words(s, p, Seq::empty());
    (if parts.len() == 0 {
        None
    } else {
        Some(join_space(parts))
    }, q)
}

/// The target after `ON`, and the position after it.
pub open spec fn permission_target(s: Seq<TokenView>, p: int) -> (Option<TargetView>, int) {
    if word_at(s, p, "SCHEMA"@) {
        let q = skip_ws(s, p + 1);
        let q2 = if kind_at(s, q, TokenKind::DoubleColon) {
            skip_ws(s, q + 1)
        } else {
            q
        };
        let (n, q3) = ident(s, q2);
        match n {
            None => (None, q3),
            Some(x) => (Some(TargetView::Schema(x)), q3),
        }
    } else {
        let q = if word_at(s, p, "OBJECT"@) {
            let q1 = skip_ws(s, p + 1);
            if kind_at(s, q1, TokenKind::DoubleColon) {
                skip_ws(s, q1 + 1)
            } else {
                q1
            }
        } else {
            p
        };
        let (first, q4) = ident(s, q);
        match first {
            None => (None, q4),
            Some(a) => {
                let q5 = skip_ws(s, q4);
                if kind_at(s, q5, TokenKind::Period) {
                    let (second, q6) = ident(s, skip_ws(s, q5 + 1));
                    match second {
                        None => (None, q6),
                        Some(b) => (Some(TargetView::Object { schema: Some(a), name: b }), q6),
                    }
                } else {
                    (Some(TargetView::Object { schema: None, name: a }), q5)
                }
            },
        }
    }
}

/// `WITH GRANT OPTION` and `CASCADE` after the principal.
pub open spec fn permission_tail(s: Seq<TokenView>, p: int, w: bool, c: bool) -> (bool, bool)
    decreases s.len() - p,
{
    if p < 0 || p >= s.len() {
        (w, c)
    } else {
        proof {
            lemma_skip_ws(s, p + 1);
            lemma_skip_ws(s, skip_ws(s, p + 1) + 1);
            lemma_skip_ws(s, skip_ws(s, skip_ws(s, p + 1) + 1) + 1);
        }
        let q = skip_ws(s, p + 1);
        let q2 = skip_ws(s, q + 1);
        if kw_at(s, p, "WITH"@) && kw_at(s, q, "GRANT"@) && word_at(s, q2, "OPTION"@) {
            permission_tail(s, skip_ws(s, q2 + 1), true, c)
        } else {
            let p1 = if kw_at(s, p, "WITH"@) {
                if kw_at(s, q, "GRANT"@) {
                    q2
                } else {
                    q
                }
            } else {
                p
            };
            proof {
                lemma_skip_ws(s, p1 + 1);
            }
            if kw_at(s, p1, "CASCADE"@) {
                permission_tail(s, skip_ws(s, p1 + 1), w, true)
            } else {
                (w, c)
            }
        }
    }
}

pub open spec fn permission_action(s: Seq<TokenView>, p: int) -> Option<PermissionAction> {
    if kw_at(s, p, "GRANT"@) {
        Some(PermissionAction::Grant)
    } else if word_at(s, p, "DENY"@) {
        Some(PermissionAction::Deny)
    } else if word_at(s, p, "REVOKE"@) {
        Some(PermissionAction::Revoke)
    } else {
        None
    }
}

/// `GRANT OPTION FOR` after `REVOKE`: the position after whatever of it is there.
pub open spec fn revoke_grant_option(s: Seq<TokenView>, p: int) -> int {
    if kw_at(s, p, "GRANT"@) {
        let q = skip_ws(s, p + 1);
        if word_at(s, q, "OPTION"@) {
            let q2 = skip_ws(s, q + 1);
            if kw_at(s, q2, "FOR"@) {
                skip_ws(s, q2 + 1)
            } else {
                q2
            }
        } else {
            q
        }
    } else {
        p
    }
}

pub open spec fn permission_statement(s: Seq<TokenView>) -> Option<PermissionView> {
    let p0 = skip_ws(s, 0);
    match permission_action(s, p0) {
        None => None,
        Some(action) => {
            let p1 = skip_ws(s, p0 + 1);
            let p2 = if action == PermissionAction::Revoke {
                revoke_grant_option(s, p1)
            } else {
                p1
            };
            let (perm, p3) = permission_name(s, p2);
            match perm {
                None => None,
                Some(permission) => {
                    let p4 = skip_ws(s, p3);
                    let (tgt, p5) = if kw_at(s, p4, "ON"@) {
                        permission_target(s, skip_ws(s, p4 + 1))
                    } else {
                        (Some(TargetView::Database), p4)
                    };
                    match tgt {
                        None => None,
                        Some(target) => {
                            let p6 = skip_ws(s, p5);
                            if !kw_at(s, p6, "TO"@) && !kw_at(s, p6, "FROM"@) {
                                None
                            } else {
                                let (pr, p7) = ident(s, skip_ws(s, p6 + 1));
                                match pr {
                                    None => None,
                                    Some(principal) => {
                                        let (w, c) = permission_tail(s, skip_ws(s, p7), false, false);
                                        Some(
                                            PermissionView {
                                                action,
                                                permission,
                                                target,
                                                principal,
                                                with_grant_option: w,
                                                cascade: c,
                                            },
                                        )
                                    },
                                }
                            }
                        },
                    }
                },
            }
        },
    }
}

// ---------------------------------------------------------------------------
// Executable parsers
// ---------------------------------------------------------------------------

/// One executable pass step: go on (with a new authentication or default
/// schema, where the clause sets one), fall through, or fail.
pub enum UserStepExec {
    Next(usize, Option<UserAuthType>, Option<String>),
    Fall(usize),
    Fail,
}

pub open spec fn step_matches(x: UserStepExec, st: UserStep, a: AuthView, d: Option<Seq<char>>) -> bool {
    match x {
        UserStepExec::Next(q, na, nd) => st == UserStep::Next(
            q as int,
            match na {
                Some(n) => n@,
                None => a,
            },
            match nd {
                Some(n) => Some(n@),
                None => d,
            },
        ),
        UserStepExec::Fall(q) => st == UserStep::Fall(q as int),
        UserStepExec::Fail => st == UserStep::Fail,
    }
}

pub open spec fn step_pos_ok(x: UserStepExec, n: nat) -> bool {
    match x {
        UserStepExec::Next(q, _, _) => q <= n,
        UserStepExec::Fall(q) => q <= n,
        UserStepExec::Fail => true,
    }
}

fn for_login_exec(toks: &Vec<SqlToken>, p: usize, Ghost(a): Ghost<AuthView>, Ghost(d): Ghost<Option<Seq<char>>>) -> (r: UserStepExec)
    requires
        p <= toks.len(),
    ensures
        step_matches(r, user_for_login(views(toks@), p as int, d), a, d),
        step_pos_ok(r, toks@.len()),
{
    if check_keyword(toks, p, "FOR") {
        let q = skip_whitespace(toks, p + 1);
        if check_word_ci(toks, q, "LOGIN") {
            let (l, q3) = parse_identifier(toks, skip_whitespace(toks, q + 1));
            match l {
                None => UserStepExec::Fail,
                Some(x) => UserStepExec::Next(skip_whitespace(toks, q3), Some(UserAuthType::Login(x)), None),
            }
        } else {
            UserStepExec::Fall(q)
        }
    } else {
        UserStepExec::Fall(p)
    }
}

fn without_login_exec(toks: &Vec<SqlToken>, p: usize, Ghost(a): Ghost<AuthView>, Ghost(d): Ghost<Option<Seq<char>>>) -> (r: UserStepExec)
    requires
        p <= toks.len(),
    ensures
        step_matches(r, user_without_login(views(toks@), p as int, d), a, d),
        step_pos_ok(r, toks@.len()),
{
    if check_word_ci(toks, p, "WITHOUT") {
        let q = skip_whitespace(toks, p + 1);
        if check_word_ci(toks, q, "LOGIN") {
            UserStepExec::Next(skip_whitespace(toks, q + 1), Some(UserAuthType::WithoutLogin), None)
        } else {
            UserStepExec::Fall(q)
        }
    } else {
        UserStepExec::Fall(p)
    }
}

fn external_exec(toks: &Vec<SqlToken>, p: usize, Ghost(a): Ghost<AuthView>, Ghost(d): Ghost<Option<Seq<char>>>) -> (r: UserStepExec)
    requires
        p <= toks.len(),
    ensures
        step_matches(r, user_external(views(toks@), p as int, d), a, d),
        step_pos_ok(r, toks@.len()),
{
    if check_keyword(toks, p, "FROM") {
        let q = skip_whitespace(toks, p + 1);
        if check_word_ci(toks, q, "EXTERNAL") {
            let q2 = skip_whitespace(toks, q + 1);
            if check_word_ci(toks, q2, "PROVIDER") {
                UserStepExec::Next(skip_whitespace(toks, q2 + 1), Some(UserAuthType::ExternalProvider), None)
            } else {
                UserStepExec::Fall(q2)
            }
        } else {
            UserStepExec::Fall(q)
        }
    } else {
        UserStepExec::Fall(p)
    }
}

fn default_schema_exec(toks: &Vec<SqlToken>, p: usize, Ghost(a): Ghost<AuthView>, Ghost(d): Ghost<Option<Seq<char>>>) -> (r: UserStepExec)
    requires
        p <= toks.len(),
    ensures
        step_matches(r, user_default_schema(views(toks@), p as int, a), a, d),
        step_pos_ok(r, toks@.len()),
{
    if check_keyword(toks, p, "WITH") {
        let q = skip_whitespace(toks, p + 1);
        if check_word_ci(toks, q, "DEFAULT_SCHEMA") {
            let q2 = skip_whitespace(toks, q + 1);
            let q3 = if check_kind(toks, q2, TokenKind::Eq) {
                skip_whitespace(toks, q2 + 1)
            } else {
                q2
            };
            let (x, q4) = parse_identifier(toks, q3);
            match x {
                None => UserStepExec::Fail,
                Some(v) => UserStepExec::Next(skip_whitespace(toks, q4), None, Some(v)),
            }
        } else {
            UserStepExec::Fall(q)
        }
    } else {
        UserStepExec::Fall(p)
    }
}

/// `CREATE USER`, over tokens.
#[verifier::loop_isolation(false)]
pub fn parse_create_user(toks: &Vec<SqlToken>) -> (r: Option<TokenParsedUser>)
    ensures
        opt_user_view(r) == create_user(views(toks@)),
{
    let ghost s = views(toks@);
    let p0 = skip_whitespace(toks, 0);
    if !check_keyword(toks, p0, "CREATE") {
        return None;
    }
    let p1 = skip_whitespace(toks, p0 + 1);
    if !check_word_ci(toks, p1, "USER") {
        return None;
    }
    let (n, p2) = parse_identifier(toks, skip_whitespace(toks, p1 + 1));
    let name = match n {
        None => {
            return None;
        },
        Some(x) => x,
    };
    let start = skip_whitespace(toks, p2);
    let mut pos: usize = start;
    let mut auth = UserAuthType::Default;
    let mut dsch: Option<String> = None;
    loop
        invariant
            s == views(toks@),
            pos <= toks.len(),
            user_options(s, start as int, AuthView::Default, None) == user_options(
                s,
                pos as int,
                auth@,
                opt_str(dsch),
            ),
        decreases toks.len() - pos,
    {
        if pos >= toks.len() {
            return Some(TokenParsedUser { name, auth_type: auth, default_schema: dsch });
        }
        let ghost a = auth@;
        let ghost d = opt_str(dsch);
        proof {
            lemma_user_steps(s, pos as int, a, d);
        }
        let step = match for_login_exec(toks, pos, Ghost(a), Ghost(d)) {
            UserStepExec::Fall(p1) => match without_login_exec(toks, p1, Ghost(a), Ghost(d)) {
                UserStepExec::Fall(p2) => match external_exec(toks, p2, Ghost(a), Ghost(d)) {
                    UserStepExec::Fall(p3) => match default_schema_exec(toks, p3, Ghost(a), Ghost(d)) {
                        UserStepExec::Fall(p4) => UserStepExec::Fall(p4),
                        other => other,
                    },
                    other => other,
                },
                other => other,
            },
            other => other,
        };
        match step {
            UserStepExec::Fail => {
                return None;
            },
            UserStepExec::Next(q, na, nd) => {
                match na {
                    Some(x) => {
                        auth = x;
                    },
                    None => {},
                }
                match nd {
                    Some(x) => {
                        dsch = Some(x);
                    },
                    None => {},
                }
                pos = q;
            },
            UserStepExec::Fall(p4) => {
                pos = advance(toks, p4);
            },
        }
    }
}

/// `CREATE ROLE`, over tokens.
pub fn parse_create_role(toks: &Vec<SqlToken>) -> (r: Option<TokenParsedRole>)
    ensures
        opt_role_view(r) == create_role(views(toks@)),
{
    let p0 = skip_whitespace(toks, 0);
    if !check_keyword(toks, p0, "CREATE") {
        return None;
    }
    let p1 = skip_whitespace(toks, p0 + 1);
    if !check_word_ci(toks, p1, "ROLE") {
        return None;
    }
    let (n, p2) = parse_identifier(toks, skip_whitespace(toks, p1 + 1));
    let name = match n {
        None => {
            return None;
        },
        Some(x) => x,
    };
    let p3 = skip_whitespace(toks, p2);
    if check_word_ci(toks, p3, "AUTHORIZATION") {
        match parse_identifier(toks, skip_whitespace(toks, p3 + 1)).0 {
            None => None,
            Some(o) => Some(TokenParsedRole { name, owner: Some(o) }),
        }
    } else {
        Some(TokenParsedRole { name, owner: None })
    }
}

/// `ALTER ROLE ... ADD|DROP MEMBER`, over tokens.
pub fn parse_alter_role_membership(toks: &Vec<SqlToken>) -> (r: Option<TokenParsedRoleMembership>)
    ensures
        opt_membership_view(r) == alter_role_membership(views(toks@)),
{
    let p0 = skip_whitespace(toks, 0);
    if !check_keyword(toks, p0, "ALTER") {
        return None;
    }
    let p1 = skip_whitespace(toks, p0 + 1);
    if !check_word_ci(toks, p1, "ROLE") {
        return None;
    }
    let (r, p2) = parse_identifier(toks, skip_whitespace(toks, p1 + 1));
    let role = match r {
        None => {
            return None;
        },
        Some(x) => x,
    };
    let p3 = skip_whitespace(toks, p2);
    let is_add = check_keyword(toks, p3, "ADD");
    if !is_add && !check_keyword(toks, p3, "DROP") {
        return None;
    }
    let p4 = skip_whitespace(toks, p3 + 1);
    if !check_word_ci(toks, p4, "MEMBER") {
        return None;
    }
    match parse_identifier(toks, skip_whitespace(toks, p4 + 1)).0 {
        None => None,
        Some(member) => Some(TokenParsedRoleMembership { role, member, is_add }),
    }
}

fn string_or_ident_exec(toks: &Vec<SqlToken>, p: usize) -> (r: (Option<String>, usize))
    requires
        p <= toks.len(),
    ensures
        opt_str(r.0) == string_or_ident(views(toks@), p as int),
        r.1 == string_or_ident_end(views(toks@), p as int),
        r.1 <= toks.len(),
{
    if check_kind(toks, p, TokenKind::SingleQuotedString) || check_kind(toks, p, TokenKind::NationalStringLiteral) {
        assert(views(toks@)[p as int] == toks@[p as int]@);
        (Some(toks[p].value.clone()), p + 1)
    } else {
        parse_identifier(toks, p)
    }
}

/// `[EXEC] sp_addrolemember|sp_droprolemember 'role', 'member'`, over tokens.
pub fn parse_sp_role_member(toks: &Vec<SqlToken>) -> (r: Option<TokenParsedRoleMembership>)
    ensures
        opt_membership_view(r) == sp_role_member(views(toks@)),
{
    let p0 = skip_whitespace(toks, 0);
    let p1 = if check_keyword(toks, p0, "EXECUTE") || check_word_ci(toks, p0, "EXEC") {
        skip_whitespace(toks, p0 + 1)
    } else {
        p0
    };
    let is_add = check_word_ci(toks, p1, "sp_addrolemember");
    if !is_add && !check_word_ci(toks, p1, "sp_droprolemember") {
        return None;
    }
    let p2 = skip_whitespace(toks, p1 + 1);
    let (r, e) = string_or_ident_exec(toks, p2);
    let role = match r {
        None => {
            return None;
        },
        Some(x) => x,
    };
    let p3 = skip_whitespace(toks, e);
    let p4 = if check_kind(toks, p3, TokenKind::Comma) {
        skip_whitespace(toks, p3 + 1)
    } else {
        p3
    };
    match string_or_ident_exec(toks, p4).0 {
        None => None,
        Some(member) => Some(TokenParsedRoleMembership { role, member, is_add }),
    }
}

fn permission_name_exec(toks: &Vec<SqlToken>, p: usize) -> (r: (Option<String>, usize))
    requires
        p <= toks.len(),
    ensures
        (opt_str(r.0), r.1 as int) == permission_name(views(toks@), p as int),
        p <= r.1 <= toks.len(),
{
    let ghost s = views(toks@);
    let mut pos: usize = p;
    let mut out = String::new();
    let mut count: usize = 0;
    let ghost mut parts: Seq<Seq<char>> = Seq::empty();
    while pos < toks.len() && !check_keyword(toks, pos, "ON") && !check_keyword(toks, pos, "TO")
        && !check_keyword(toks, pos, "FROM") && check_kind(toks, pos, TokenKind::Word)
        invariant
            s == views(toks@),
            p <= pos <= toks.len(),
            out@ == join_space(parts),
            count == parts.len(),
            count <= pos - p,
            permission_words(s, p as int, Seq::empty()) == permission_words(s, pos as int, parts),
        decreases toks.len() - pos,
    {
        assert(s[pos as int] == toks@[pos as int]@);
        let w = to_uppercase(toks[pos].value.as_str());
        if count > 0 {
            push_char(&mut out, ' ');
        }
        append_string(&mut out, &w);
        proof {
            let ps = parts.push(w@);
            assert(ps.drop_last() =~= parts);
            if count == 0 {
                assert(out@ =~= join_space(ps));
            } else {
                assert(out@ =~= join_space(ps));
            }
            parts = ps;
        }
        count = count + 1;
        pos = skip_whitespace(toks, pos + 1);
    }
    if count == 0 {
        (None, pos)
    } else {
        (Some(out), pos)
    }
}

pub open spec fn opt_target_view(x: Option<PermissionTarget>) -> Option<TargetView> {
    match x {
        Some(t) => Some(t@),
        None => None,
    }
}

fn permission_target_exec(toks: &Vec<SqlToken>, p: usize) -> (r: (Option<PermissionTarget>, usize))
    requires
        p <= toks.len(),
    ensures
        (opt_target_view(r.0), r.1 as int) == permission_target(views(toks@), p as int),
        r.1 <= toks.len(),
{
    if check_word_ci(toks, p, "SCHEMA") {
        let q = skip_whitespace(toks, p + 1);
        let q2 = if check_kind(toks, q, TokenKind::DoubleColon) {
            skip_whitespace(toks, q + 1)
        } else {
            q
        };
        let (n, q3) = parse_identifier(toks, q2);
        return match n {
            None => (None, q3),
            Some(x) => (Some(PermissionTarget::Schema(x)), q3),
        };
    }
    let q = if check_word_ci(toks, p, "OBJECT") {
        let q1 = skip_whitespace(toks, p + 1);
        if check_kind(toks, q1, TokenKind::DoubleColon) {
            skip_whitespace(toks, q1 + 1)
        } else {
            q1
        }
    } else {
        p
    };
    let (first, q4) = parse_identifier(toks, q);
    match first {
        None => (None, q4),
        Some(a) => {
            let q5 = skip_whitespace(toks, q4);
            if check_kind(toks, q5, TokenKind::Period) {
                let (second, q6) = parse_identifier(toks, skip_whitespace(toks, q5 + 1));
                match second {
                    None => (None, q6),
                    Some(b) => (Some(PermissionTarget::Object { schema: Some(a), name: b }), q6),
                }
            } else {
                (Some(PermissionTarget::Object { schema: None, name: a }), q5)
            }
        },
    }
}

fn permission_tail_exec(toks: &Vec<SqlToken>, p: usize) -> (r: (bool, bool))
    requires
        p <= toks.len(),
    ensures
        r == permission_tail(views(toks@), p as int, false, false),
{
    let ghost s = views(toks@);
    let mut pos: usize = p;
    let mut w = false;
    let mut c = false;
    loop
        invariant
            s == views(toks@),
            pos <= toks.len(),
            permission_tail(s, p as int, false, false) == permission_tail(s, pos as int, w, c),
        decreases toks.len() - pos,
    {
        if pos >= toks.len() {
            return (w, c);
        }
        let q = skip_whitespace(toks, pos + 1);
        let q2 = if q < toks.len() {
            skip_whitespace(toks, q + 1)
        } else {
            q
        };
        proof {
            lemma_skip_ws(s, q + 1);
        }
        if check_keyword(toks, pos, "WITH") && check_keyword(toks, q, "GRANT") && check_word_ci(toks, q2, "OPTION") {
            w = true;
            pos = skip_whitespace(toks, q2 + 1);
            continue;
        }
        let p1 = if check_keyword(toks, pos, "WITH") {
            if check_keyword(toks, q, "GRANT") {
                q2
            } else {
                q
            }
        } else {
            pos
        };
        if check_keyword(toks, p1, "CASCADE") {
            c = true;
            pos = skip_whitespace(toks, p1 + 1);
            continue;
        }
        return (w, c);
    }
}

/// `GRANT`/`DENY`/`REVOKE`, over tokens.
pub fn parse_permission(toks: &Vec<SqlToken>) -> (r: Option<TokenParsedPermission>)
    ensures
        opt_permission_view(r) == permission_statement(views(toks@)),
{
    let p0 = skip_whitespace(toks, 0);
    let action = if check_keyword(toks, p0, "GRANT") {
        PermissionAction::Grant
    } else if check_word_ci(toks, p0, "DENY") {
        PermissionAction::Deny
    } else if check_word_ci(toks, p0, "REVOKE") {
        PermissionAction::Revoke
    } else {
        return None;
    };
    let p1 = skip_whitespace(toks, p0 + 1);
    let p2 = if matches!(action, PermissionAction::Revoke) && check_keyword(toks, p1, "GRANT") {
        let q = skip_whitespace(toks, p1 + 1);
        if check_word_ci(toks, q, "OPTION") {
            let q2 = skip_whitespace(toks, q + 1);
            if check_keyword(toks, q2, "FOR") {
                skip_whitespace(toks, q2 + 1)
            } else {
                q2
            }
        } else {
            q
        }
    } else {
        p1
    };
    let (perm, p3) = permission_name_exec(toks, p2);
    let permission = match perm {
        None => {
            return None;
        },
        Some(x) => x,
    };
    let p4 = skip_whitespace(toks, p3);
    let (tgt, p5) = if check_keyword(toks, p4, "ON") {
        permission_target_exec(toks, skip_whitespace(toks, p4 + 1))
    } else {
        (Some(PermissionTarget::Database), p4)
    };
    let target = match tgt {
        None => {
            return None;
        },
        Some(t) => t,
    };
    let p6 = skip_whitespace(toks, p5);
    if !check_keyword(toks, p6, "TO") && !check_keyword(toks, p6, "FROM") {
        return None;
    }
    let (pr, p7) = parse_identifier(toks, skip_whitespace(toks, p6 + 1));
    let principal = match pr {
        None => {
            return None;
        },
        Some(x) => x,
    };
    let (w, c) = permission_tail_exec(toks, skip_whitespace(toks, p7));
    Some(
        TokenParsedPermission {
            action,
            permission,
            target,
            principal,
            with_grant_option: w,
            cascade: c,
        },
    )
}

/// Parses a `CREATE USER` text.
pub fn parse_create_user_tokens(sql: &str) -> (r: Option<TokenParsedUser>)
    ensures
        match lex_sql(sql@) {
            Some(s) => opt_user_view(r) == create_user(s),
            None => r is None,
        },
{
    match tokenize(sql) {
        Some(toks) => parse_create_user(&toks),
        None => None,
    }
}

/// Parses a `CREATE ROLE` text.
pub fn parse_create_role_tokens(sql: &str) -> (r: Option<TokenParsedRole>)
    ensures
        match lex_sql(sql@) {
            Some(s) => opt_role_view(r) == create_role(s),
            None => r is None,
        },
{
    match tokenize(sql) {
        Some(toks) => parse_create_role(&toks),
        None => None,
    }
}

/// Parses an `ALTER ROLE ... ADD|DROP MEMBER` text.
pub fn parse_alter_role_membership_tokens(sql: &str) -> (r: Option<TokenParsedRoleMembership>)
    ensures
        match lex_sql(sql@) {
            Some(s) => opt_membership_view(r) == alter_role_membership(s),
            None => r is None,
        },
{
    match tokenize(sql) {
        Some(toks) => parse_alter_role_membership(&toks),
        None => None,
    }
}

/// Parses a `GRANT`/`DENY`/`REVOKE` text.
pub fn parse_permission_tokens(sql: &str) -> (r: Option<TokenParsedPermission>)
    ensures
        match lex_sql(sql@) {
            Some(s) => opt_permission_view(r) == permission_statement(s),
            None => r is None,
        },
{
    match tokenize(sql) {
        Some(toks) => parse_permission(&toks),
        None => None,
    }
}

/// Parses an `sp_addrolemember`/`sp_droprolemember` call.
pub fn parse_sp_addrolemember(sql: &str) -> (r: Option<TokenParsedRoleMembership>)
    ensures
        match lex_sql(sql@) {
            Some(s) => opt_membership_view(r) == sp_role_member(s),
            None => r is None,
        },
{
    match tokenize(sql) {
        Some(toks) => parse_sp_role_member(&toks),
        None => None,
    }
}

} // verus!
