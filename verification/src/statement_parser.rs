//! Detection of statements by their leading tokens: a CTE followed by DML,
//! `MERGE ... OUTPUT`, `UPDATE ... .modify(`/`.value(`, `DROP SYNONYM|TRIGGER|INDEX|PROC`,
//! and a generic `CREATE <type> <name>`.

use vstd::prelude::*;
use crate::text::{push_char, append_string, str_to_string};
use crate::lexer::{SqlToken, TokenKind, TokenView, views, lex_sql, tokenize};
use crate::cursor::{skip_ws, kw_at, word_at, kind_at, schema_qualified_name, lemma_skip_ws, ident, adv, skip_whitespace, check_keyword, check_word_ci, check_kind, parse_schema_qualified_name, parse_identifier, advance};

verus! {

/// A DML statement kind.
#[derive(Debug, Clone, Copy, PartialEq, Eq, Structural)]
pub enum DmlType {
    Delete,
    Update,
    Insert,
    Merge,
}

pub open spec fn dml_name(d: DmlType) -> Seq<char> {
    match d {
        DmlType::Delete => "DELETE"@,
        DmlType::Update => "UPDATE"@,
        DmlType::Insert => "INSERT"@,
        DmlType::Merge => "MERGE"@,
    }
}

impl DmlType {
    /// The keyword of the DML kind.
    pub fn as_str(&self) -> (r: &'static str)
        ensures
            r@ == dml_name(*self),
    {
        match self {
            DmlType::Delete => "DELETE",
            DmlType::Update => "UPDATE",
            DmlType::Insert => "INSERT",
            DmlType::Merge => "MERGE",
        }
    }
}

/// The kind of object a `DROP` removes.
#[derive(Debug, Clone, Copy, PartialEq, Eq, Structural)]
pub enum DropType {
    Synonym,
    Trigger,
    Index,
    Procedure,
}

pub open spec fn drop_type_name(d: DropType) -> Seq<char> {
    match d {
        DropType::Synonym => "DropSynonym"@,
        DropType::Trigger => "DropTrigger"@,
        DropType::Index => "DropIndex"@,
        DropType::Procedure => "DropProcedure"@,
    }
}

impl DropType {
    /// The statement type name of the drop.
    pub fn object_type_str(&self) -> (r: &'static str)
        ensures
            r@ == drop_type_name(*self),
    {
        match self {
            DropType::Synonym => "DropSynonym",
            DropType::Trigger => "DropTrigger",
            DropType::Index => "DropIndex",
            DropType::Procedure => "DropProcedure",
        }
    }
}

/// A CTE followed by DML.
#[derive(Debug, Clone)]
pub struct TokenParsedCteDml {
    pub dml_type: DmlType,
}

/// The target of a `MERGE ... OUTPUT`.
#[derive(Debug, Clone)]
pub struct TokenParsedMergeOutput {
    pub schema: String,
    pub name: String,
}

/// The target of an `UPDATE` with XML method calls.
#[derive(Debug, Clone)]
pub struct TokenParsedXmlUpdate {
    pub schema: String,
    pub name: String,
}

/// A parsed `DROP`.
#[derive(Debug, Clone)]
pub struct TokenParsedDrop {
    pub drop_type: DropType,
    pub schema: String,
    /// For `DROP INDEX i ON t`, the name is `t_i`.
    pub name: String,
}

/// A generic `CREATE <type> <name>`.
#[derive(Debug, Clone)]
pub struct TokenParsedGenericCreate {
    pub object_type: String,
    pub schema: String,
    pub name: String,
}

pub struct DropView {
    pub drop_type: DropType,
    pub schema: Seq<char>,
    pub name: Seq<char>,
}

impl View for TokenParsedDrop {
    type V = DropView;

    open spec fn view(&self) -> DropView {
        DropView { drop_type: self.drop_type, schema: self.schema@, name: self.name@ }
    }
}

pub struct GenericCreateView {
    pub object_type: Seq<char>,
    pub schema: Seq<char>,
    pub name: Seq<char>,
}

impl View for TokenParsedGenericCreate {
    type V = GenericCreateView;

    open spec fn view(&self) -> GenericCreateView {
        GenericCreateView { object_type: self.object_type@, schema: self.schema@, name: self.name@ }
    }
}

pub open spec fn opt_dml(r: Option<TokenParsedCteDml>) -> Option<DmlType> {
    match r {
        Some(x) => Some(x.dml_type),
        None => None,
    }
}

pub open spec fn opt_merge(r: Option<TokenParsedMergeOutput>) -> Option<(Seq<char>, Seq<char>)> {
    match r {
        Some(x) => Some((x.schema@, x.name@)),
        None => None,
    }
}

pub open spec fn opt_xml(r: Option<TokenParsedXmlUpdate>) -> Option<(Seq<char>, Seq<char>)> {
    match r {
        Some(x) => Some((x.schema@, x.name@)),
        None => None,
    }
}

pub open spec fn opt_drop(r: Option<TokenParsedDrop>) -> Option<DropView> {
    match r {
        Some(x) => Some(x@),
        None => None,
    }
}

pub open spec fn opt_generic(r: Option<TokenParsedGenericCreate>) -> Option<GenericCreateView> {
    match r {
        Some(x) => Some(x@),
        None => None,
    }
}

// ---------------------------------------------------------------------------
// Specification
// ---------------------------------------------------------------------------

pub open spec fn dml_at(s: Seq<TokenView>, p: int) -> Option<DmlType> {
    if kw_at(s, p, "DELETE"@) {
        Some(DmlType::Delete)
    } else if kw_at(s, p, "UPDATE"@) {
        Some(DmlType::Update)
    } else if kw_at(s, p, "INSERT"@) {
        Some(DmlType::Insert)
    } else if kw_at(s, p, "MERGE"@) {
        Some(DmlType::Merge)
    } else {
        None
    }
}

/// Scan of CTE definitions: after a top-level `AS (...)` comes `,` (another
/// CTE), a DML keyword (found), or `SELECT` (not found).
pub open spec fn cte_scan(s: Seq<TokenView>, p: int, depth: nat, found_as: bool) -> Option<DmlType>
    decreases s.len() - p,
{
    if p < 0 || p >= s.len() {
        None
    } else {
        let t = s[p];
        if t.kind == TokenKind::LParen {
            cte_scan(s, p + 1, depth + 1, found_as)
        } else if t.kind == TokenKind::RParen {
            let d2: nat = if depth > 0 {
                (depth - 1) as nat
            } else {
                0
            };
            if d2 == 0 && found_as {
                let q = skip_ws(s, p + 1);
                proof {
                    lemma_skip_ws(s, p + 1);
                    lemma_skip_ws(s, q + 1);
                }
                if kind_at(s, q, TokenKind::Comma) {
                    cte_scan(s, skip_ws(s, q + 1), d2, false)
                } else if dml_at(s, q) is Some {
                    dml_at(s, q)
                } else if kw_at(s, q, "SELECT"@) {
                    None
                } else {
                    cte_scan(s, q, d2, found_as)
                }
            } else {
                cte_scan(s, p + 1, d2, found_as)
            }
        } else if t.kind == TokenKind::Word && kw_at(s, p, "AS"@) && depth == 0 {
            cte_scan(s, p + 1, depth, true)
        } else {
            cte_scan(s, p + 1, depth, found_as)
        }
    }
}

/// `WITH [RECURSIVE] cte AS (...) [, ...] DELETE|UPDATE|INSERT|MERGE`.
pub open spec fn cte_dml(s: Seq<TokenView>) -> Option<DmlType> {
    let p0 = skip_ws(s, 0);
    if !kw_at(s, p0, "WITH"@) {
        None
    } else {
        let p1 = skip_ws(s, p0 + 1);
        let p2 = if word_at(s, p1, "RECURSIVE"@) {
            skip_ws(s, p1 + 1)
        } else {
            p1
        };
        cte_scan(s, p2, 0, false)
    }
}

/// Whether an `OUTPUT` word comes at or after `p`.
pub open spec fn output_ahead(s: Seq<TokenView>, p: int) -> bool
    decreases s.len() - p,
{
    if p < 0 || p >= s.len() {
        false
    } else {
        let q = skip_ws(s, p);
        proof {
            lemma_skip_ws(s, p);
        }
        if word_at(s, q, "OUTPUT"@) {
            true
        } else {
            output_ahead(s, adv(s, q))
        }
    }
}

/// `MERGE [INTO] target ... OUTPUT`.
pub open spec fn merge_output(s: Seq<TokenView>) -> Option<(Seq<char>, Seq<char>)> {
    let p0 = skip_ws(s, 0);
    if !kw_at(s, p0, "MERGE"@) {
        None
    } else {
        let p1 = skip_ws(s, p0 + 1);
        let p2 = if kw_at(s, p1, "INTO"@) {
            skip_ws(s, p1 + 1)
        } else {
            p1
        };
        let (n, p3) = schema_qualified_name(s, p2);
        match n {
            None => None,
            Some(x) => if output_ahead(s, p3) {
                Some(x)
            } else {
                None
            },
        }
    }
}

/// Whether `. modify (` or `. value (` comes at or after `p`.
pub open spec fn xml_method_ahead(s: Seq<TokenView>, p: int) -> bool
    decreases s.len() - p,
{
    if p < 0 || p >= s.len() {
        false
    } else if kind_at(s, p, TokenKind::Period) {
        let q = skip_ws(s, p + 1);
        proof {
            lemma_skip_ws(s, p + 1);
            lemma_skip_ws(s, q + 1);
        }
        if word_at(s, q, "MODIFY"@) || word_at(s, q, "VALUE"@) {
            let q2 = skip_ws(s, q + 1);
            if kind_at(s, q2, TokenKind::LParen) {
                true
            } else {
                xml_method_ahead(s, q2)
            }
        } else {
            xml_method_ahead(s, q)
        }
    } else {
        xml_method_ahead(s, p + 1)
    }
}

/// `UPDATE target ... .modify(` or `.value(`.
pub open spec fn xml_update(s: Seq<TokenView>) -> Option<(Seq<char>, Seq<char>)> {
    let p0 = skip_ws(s, 0);
    if !kw_at(s, p0, "UPDATE"@) {
        None
    } else {
        let (n, p3) = schema_qualified_name(s, skip_ws(s, p0 + 1));
        match n {
            None => None,
            Some(x) => if xml_method_ahead(s, p3) {
                Some(x)
            } else {
                None
            },
        }
    }
}

/// Past an optional `IF [EXISTS]`.
pub open spec fn skip_if_exists(s: Seq<TokenView>, p: int) -> int {
    if kw_at(s, p, "IF"@) {
        let q = skip_ws(s, p + 1);
        if kw_at(s, q, "EXISTS"@) {
            skip_ws(s, q + 1)
        } else {
            q
        }
    } else {
        p
    }
}

/// `t_i` for `DROP INDEX i ON t`.
pub open spec fn index_drop_name(table: Seq<char>, index: Seq<char>) -> Seq<char> {
    table + seq!['_'] + index
}

pub open spec fn drop_named(d: DropType, s: Seq<TokenView>, p: int) -> Option<DropView> {
    match schema_qualified_name(s, skip_if_exists(s, skip_ws(s, p + 1))).0 {
        None => None,
        Some((a, b)) => Some(DropView { drop_type: d, schema: a, name: b }),
    }
}

/// `DROP SYNONYM|TRIGGER|INDEX ... ON|PROC`.
pub open spec fn drop_statement(s: Seq<TokenView>) -> Option<DropView> {
    let p0 = skip_ws(s, 0);
    if !kw_at(s, p0, "DROP"@) {
        None
    } else {
        let p1 = skip_ws(s, p0 + 1);
        if word_at(s, p1, "SYNONYM"@) {
            drop_named(DropType::Synonym, s, p1)
        } else if kw_at(s, p1, "TRIGGER"@) {
            drop_named(DropType::Trigger, s, p1)
        } else if kw_at(s, p1, "INDEX"@) {
            let (i, q) = ident(s, skip_if_exists(s, skip_ws(s, p1 + 1)));
            match i {
                None => None,
                Some(index) => {
                    let q1 = skip_ws(s, q);
                    if !kw_at(s, q1, "ON"@) {
                        None
                    } else {
                        match schema_qualified_name(s, skip_ws(s, q1 + 1)).0 {
                            None => None,
                            Some((ts, tn)) => Some(
                                DropView {
                                    drop_type: DropType::Index,
                                    schema: ts,
                                    name: index_drop_name(tn, index),
                                },
                            ),
                        }
                    }
                },
            }
        } else if word_at(s, p1, "PROC"@) {
            drop_named(DropType::Procedure, s, p1)
        } else {
            None
        }
    }
}

/// `CREATE [OR ALTER] <type> <name>`.
pub open spec fn generic_create(s: Seq<TokenView>) -> Option<GenericCreateView> {
    let p0 = skip_ws(s, 0);
    if !kw_at(s, p0, "CREATE"@) {
        None
    } else {
        let p1 = skip_ws(s, p0 + 1);
        let p2 = if kw_at(s, p1, "OR"@) {
            let q = skip_ws(s, p1 + 1);
            if word_at(s, q, "ALTER"@) {
                Some(skip_ws(s, q + 1))
            } else {
                None
            }
        } else {
            Some(p1)
        };
        match p2 {
            None => None,
            Some(p2) => {
                let (t, p3) = ident(s, p2);
                match t {
                    None => None,
                    Some(ty) => match schema_qualified_name(s, skip_ws(s, p3)).0 {
                        None => None,
                        Some((a, b)) => Some(GenericCreateView { object_type: ty, schema: a, name: b }),
                    },
                }
            },
        }
    }
}

/// `ALTER VIEW [schema.]name ...`: a view, the schema `dbo` when not given.
pub open spec fn alter_view(s: Seq<TokenView>) -> Option<GenericCreateView> {
    let p0 = skip_ws(s, 0);
    if !kw_at(s, p0, "ALTER"@) {
        None
    } else {
        let p1 = skip_ws(s, p0 + 1);
        if !kw_at(s, p1, "VIEW"@) {
            None
        } else {
            match schema_qualified_name(s, skip_ws(s, p1 + 1)).0 {
                None => None,
                Some((a, b)) => Some(GenericCreateView { object_type: "VIEW"@, schema: a, name: b }),
            }
        }
    }
}

// ---------------------------------------------------------------------------
// Executable parsers
// ---------------------------------------------------------------------------

fn dml_at_exec(toks: &Vec<SqlToken>, p: usize) -> (r: Option<DmlType>)
    ensures
        r == dml_at(views(toks@), p as int),
{
    if check_keyword(toks, p, "DELETE") {
        Some(DmlType::Delete)
    } else if check_keyword(toks, p, "UPDATE") {
        Some(DmlType::Update)
    } else if check_keyword(toks, p, "INSERT") {
        Some(DmlType::Insert)
    } else if check_keyword(toks, p, "MERGE") {
        Some(DmlType::Merge)
    } else {
        None
    }
}

/// A CTE followed by DML, over tokens.
pub fn try_parse_cte_dml(toks: &Vec<SqlToken>) -> (r: Option<TokenParsedCteDml>)
    ensures
        opt_dml(r) == cte_dml(views(toks@)),
{
    let ghost s = views(toks@);
    let p0 = skip_whitespace(toks, 0);
    if !check_keyword(toks, p0, "WITH") {
        return None;
    }
    let p1 = skip_whitespace(toks, p0 + 1);
    let start = if check_word_ci(toks, p1, "RECURSIVE") {
        skip_whitespace(toks, p1 + 1)
    } else {
        p1
    };
    let mut pos: usize = start;
    let mut depth: usize = 0;
    let mut found_as = false;
    while pos < toks.len()
        invariant
            s == views(toks@),
            pos <= toks.len(),
            depth <= pos,
            cte_dml(s) == cte_scan(s, pos as int, depth as nat, found_as),
        decreases toks.len() - pos,
    {
        assert(s[pos as int] == toks@[pos as int]@);
        if matches!(toks[pos].kind, TokenKind::LParen) {
            depth = depth + 1;
            pos = pos + 1;
        } else if matches!(toks[pos].kind, TokenKind::RParen) {
            if depth > 0 {
                depth = depth - 1;
            }
            pos = pos + 1;
            if depth == 0 && found_as {
                let q = skip_whitespace(toks, pos);
                if check_kind(toks, q, TokenKind::Comma) {
                    pos = skip_whitespace(toks, q + 1);
                    found_as = false;
                } else {
                    match dml_at_exec(toks, q) {
                        Some(d) => {
                            return Some(TokenParsedCteDml { dml_type: d });
                        },
                        None => {},
                    }
                    if check_keyword(toks, q, "SELECT") {
                        return None;
                    }
                    pos = q;
                }
            }
        } else if matches!(toks[pos].kind, TokenKind::Word) && check_keyword(toks, pos, "AS") && depth
            == 0 {
            found_as = true;
            pos = pos + 1;
        } else {
            pos = pos + 1;
        }
    }
    None
}

fn output_ahead_exec(toks: &Vec<SqlToken>, p: usize) -> (r: bool)
    requires
        p <= toks.len(),
    ensures
        r == output_ahead(views(toks@), p as int),
{
    let ghost s = views(toks@);
    let mut pos: usize = p;
    while pos < toks.len()
        invariant
            s == views(toks@),
            pos <= toks.len(),
            output_ahead(s, p as int) == output_ahead(s, pos as int),
        decreases toks.len() - pos,
    {
        let q = skip_whitespace(toks, pos);
        if check_word_ci(toks, q, "OUTPUT") {
            return true;
        }
        pos = advance(toks, q);
    }
    false
}

/// `MERGE ... OUTPUT`, over tokens.
pub fn try_parse_merge_output(toks: &Vec<SqlToken>) -> (r: Option<TokenParsedMergeOutput>)
    ensures
        opt_merge(r) == merge_output(views(toks@)),
{
    let p0 = skip_whitespace(toks, 0);
    if !check_keyword(toks, p0, "MERGE") {
        return None;
    }
    let p1 = skip_whitespace(toks, p0 + 1);
    let p2 = if check_keyword(toks, p1, "INTO") {
        skip_whitespace(toks, p1 + 1)
    } else {
        p1
    };
    let (n, p3) = parse_schema_qualified_name(toks, p2);
    match n {
        None => None,
        Some((schema, name)) => if output_ahead_exec(toks, p3) {
            Some(TokenParsedMergeOutput { schema, name })
        } else {
            None
        },
    }
}

fn xml_method_ahead_exec(toks: &Vec<SqlToken>, p: usize) -> (r: bool)
    requires
        p <= toks.len(),
    ensures
        r == xml_method_ahead(views(toks@), p as int),
{
    let ghost s = views(toks@);
    let mut pos: usize = p;
    while pos < toks.len()
        invariant
            s == views(toks@),
            pos <= toks.len(),
            xml_method_ahead(s, p as int) == xml_method_ahead(s, pos as int),
        decreases toks.len() - pos,
    {
        if check_kind(toks, pos, TokenKind::Period) {
            let q = skip_whitespace(toks, pos + 1);
            if check_word_ci(toks, q, "MODIFY") || check_word_ci(toks, q, "VALUE") {
                let q2 = skip_whitespace(toks, q + 1);
                if check_kind(toks, q2, TokenKind::LParen) {
                    return true;
                }
                pos = q2;
            } else {
                pos = q;
            }
        } else {
            pos = pos + 1;
        }
    }
    false
}

/// `UPDATE ... .modify(`/`.value(`, over tokens.
pub fn try_parse_xml_update(toks: &Vec<SqlToken>) -> (r: Option<TokenParsedXmlUpdate>)
    ensures
        opt_xml(r) == xml_update(views(toks@)),
{
    let p0 = skip_whitespace(toks, 0);
    if !check_keyword(toks, p0, "UPDATE") {
        return None;
    }
    let (n, p3) = parse_schema_qualified_name(toks, skip_whitespace(toks, p0 + 1));
    match n {
        None => None,
        Some((schema, name)) => if xml_method_ahead_exec(toks, p3) {
            Some(TokenParsedXmlUpdate { schema, name })
        } else {
            None
        },
    }
}

fn skip_if_exists_exec(toks: &Vec<SqlToken>, p: usize) -> (r: usize)
    requires
        p <= toks.len(),
    ensures
        r == skip_if_exists(views(toks@), p as int),
        r <= toks.len(),
{
    if check_keyword(toks, p, "IF") {
        let q = skip_whitespace(toks, p + 1);
        if check_keyword(toks, q, "EXISTS") {
            skip_whitespace(toks, q + 1)
        } else {
            q
        }
    } else {
        p
    }
}

fn drop_named_exec(d: DropType, toks: &Vec<SqlToken>, p: usize) -> (r: Option<TokenParsedDrop>)
    requires
        p < toks.len(),
    ensures
        opt_drop(r) == drop_named(d, views(toks@), p as int),
{
    let q = skip_if_exists_exec(toks, skip_whitespace(toks, p + 1));
    match parse_schema_qualified_name(toks, q).0 {
        None => None,
        Some((a, b)) => Some(TokenParsedDrop { drop_type: d, schema: a, name: b }),
    }
}

/// `DROP SYNONYM|TRIGGER|INDEX|PROC`, over tokens.
pub fn try_parse_drop(toks: &Vec<SqlToken>) -> (r: Option<TokenParsedDrop>)
    ensures
        opt_drop(r) == drop_statement(views(toks@)),
{
    let p0 = skip_whitespace(toks, 0);
    if !check_keyword(toks, p0, "DROP") {
        return None;
    }
    let p1 = skip_whitespace(toks, p0 + 1);
    if check_word_ci(toks, p1, "SYNONYM") {
        drop_named_exec(DropType::Synonym, toks, p1)
    } else if check_keyword(toks, p1, "TRIGGER") {
        drop_named_exec(DropType::Trigger, toks, p1)
    } else if check_keyword(toks, p1, "INDEX") {
        let (i, q) = parse_identifier(toks, skip_if_exists_exec(toks, skip_whitespace(toks, p1 + 1)));
        match i {
            None => None,
            Some(index) => {
                let q1 = skip_whitespace(toks, q);
                if !check_keyword(toks, q1, "ON") {
                    return None;
                }
                match parse_schema_qualified_name(toks, skip_whitespace(toks, q1 + 1)).0 {
                    None => None,
                    Some((ts, tn)) => {
                        let mut name = tn;
                        push_char(&mut name, '_');
                        append_string(&mut name, &index);
                        assert(name@ =~= index_drop_name(tn@, index@));
                        Some(TokenParsedDrop { drop_type: DropType::Index, schema: ts, name })
                    },
                }
            },
        }
    } else if check_word_ci(toks, p1, "PROC") {
        drop_named_exec(DropType::Procedure, toks, p1)
    } else {
        None
    }
}

/// Generic `CREATE <type> <name>`, over tokens.
pub fn try_parse_generic_create(toks: &Vec<SqlToken>) -> (r: Option<TokenParsedGenericCreate>)
    ensures
        opt_generic(r) == generic_create(views(toks@)),
{
    let p0 = skip_whitespace(toks, 0);
    if !check_keyword(toks, p0, "CREATE") {
        return None;
    }
    let p1 = skip_whitespace(toks, p0 + 1);
    let p2 = if check_keyword(toks, p1, "OR") {
        let q = skip_whitespace(toks, p1 + 1);
        if check_word_ci(toks, q, "ALTER") {
            skip_whitespace(toks, q + 1)
        } else {
            return None;
        }
    } else {
        p1
    };
    let (t, p3) = parse_identifier(toks, p2);
    match t {
        None => None,
        Some(ty) => match parse_schema_qualified_name(toks, skip_whitespace(toks, p3)).0 {
            None => None,
            Some((a, b)) => Some(TokenParsedGenericCreate { object_type: ty, schema: a, name: b }),
        },
    }
}

/// Parses a CTE followed by DML; `None` for a CTE followed by `SELECT`.
pub fn try_parse_cte_dml_tokens(sql: &str) -> (r: Option<TokenParsedCteDml>)
    ensures
        match lex_sql(sql@) {
            Some(s) => opt_dml(r) == cte_dml(s),
            None => r is None,
        },
{
    match tokenize(sql) {
        Some(toks) => try_parse_cte_dml(&toks),
        None => None,
    }
}

/// Parses a `MERGE` with an `OUTPUT` clause.
pub fn try_parse_merge_output_tokens(sql: &str) -> (r: Option<TokenParsedMergeOutput>)
    ensures
        match lex_sql(sql@) {
            Some(s) => opt_merge(r) == merge_output(s),
            None => r is None,
        },
{
    match tokenize(sql) {
        Some(toks) => try_parse_merge_output(&toks),
        None => None,
    }
}

/// Parses an `UPDATE` with `.modify(` or `.value(`.
pub fn try_parse_xml_update_tokens(sql: &str) -> (r: Option<TokenParsedXmlUpdate>)
    ensures
        match lex_sql(sql@) {
            Some(s) => opt_xml(r) == xml_update(s),
            None => r is None,
        },
{
    match tokenize(sql) {
        Some(toks) => try_parse_xml_update(&toks),
        None => None,
    }
}

/// Parses `DROP SYNONYM|TRIGGER|INDEX ... ON|PROC`.
pub fn try_parse_drop_tokens(sql: &str) -> (r: Option<TokenParsedDrop>)
    ensures
        match lex_sql(sql@) {
            Some(s) => opt_drop(r) == drop_statement(s),
            None => r is None,
        },
{
    match tokenize(sql) {
        Some(toks) => try_parse_drop(&toks),
        None => None,
    }
}

/// Parses a generic `CREATE [OR ALTER] <type> <name>`.
pub fn try_parse_generic_create_tokens(sql: &str) -> (r: Option<TokenParsedGenericCreate>)
    ensures
        match lex_sql(sql@) {
            Some(s) => opt_generic(r) == generic_create(s),
            None => r is None,
        },
{
    match tokenize(sql) {
        Some(toks) => try_parse_generic_create(&toks),
        None => None,
    }
}

/// Parses `ALTER VIEW [schema.]name ...` as a view statement.
pub fn try_parse_alter_view_tokens_with_tokens(toks: &Vec<SqlToken>) -> (r: Option<TokenParsedGenericCreate>)
    ensures
        opt_generic(r) == alter_view(views(toks@)),
{
    let p0 = skip_whitespace(toks, 0);
    if !check_keyword(toks, p0, "ALTER") {
        return None;
    }
    let p1 = skip_whitespace(toks, p0 + 1);
    if !check_keyword(toks, p1, "VIEW") {
        return None;
    }
    match parse_schema_qualified_name(toks, skip_whitespace(toks, p1 + 1)).0 {
        None => None,
        Some((a, b)) => Some(TokenParsedGenericCreate { object_type: str_to_string("VIEW"), schema: a, name: b }),
    }
}

/// Parses `ALTER VIEW [schema.]name ...` from its text.
pub fn try_parse_alter_view_tokens(sql: &str) -> (r: Option<TokenParsedGenericCreate>)
    ensures
        match lex_sql(sql@) {
            Some(s) => opt_generic(r) == alter_view(s),
            None => r is None,
        },
{
    match tokenize(sql) {
        Some(toks) => try_parse_alter_view_tokens_with_tokens(&toks),
        None => None,
    }
}

} // verus!
