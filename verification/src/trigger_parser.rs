//! `CREATE [OR ALTER] TRIGGER name ON parent (AFTER | FOR | INSTEAD OF) events AS ...`.

use vstd::prelude::*;
use crate::lexer::{SqlToken, TokenKind, TokenView, views, lex_sql, tokenize};
use crate::cursor::{
    skip_ws, kw_at, word_at, kind_at, schema_qualified_name, lemma_skip_ws, skip_whitespace,
    check_keyword, check_word_ci, check_kind, parse_schema_qualified_name,
};

verus! {

/// A parsed trigger definition.
#[derive(Debug, Clone, Default)]
pub struct TokenParsedTrigger {
    /// Schema of the trigger (`dbo` when not given).
    pub schema: String,
    /// Name of the trigger.
    pub name: String,
    /// Schema of the parent table or view (`dbo` when not given).
    pub parent_schema: String,
    /// Name of the parent table or view.
    pub parent_name: String,
    /// Fires on `INSERT`.
    pub is_insert: bool,
    /// Fires on `UPDATE`.
    pub is_update: bool,
    /// Fires on `DELETE`.
    pub is_delete: bool,
    /// 2 for `AFTER`/`FOR`, 3 for `INSTEAD OF`.
    pub trigger_type: u8,
}

pub struct TriggerView {
    pub schema: Seq<char>,
    pub name: Seq<char>,
    pub parent_schema: Seq<char>,
    pub parent_name: Seq<char>,
    pub is_insert: bool,
    pub is_update: bool,
    pub is_delete: bool,
    pub trigger_type: u8,
}

impl View for TokenParsedTrigger {
    type V = TriggerView;

    open spec fn view(&self) -> TriggerView {
        TriggerView {
            schema: self.schema@,
            name: self.name@,
            parent_schema: self.parent_schema@,
            parent_name: self.parent_name@,
            is_insert: self.is_insert,
            is_update: self.is_update,
            is_delete: self.is_delete,
            trigger_type: self.trigger_type,
        }
    }
}

pub open spec fn opt_trigger(r: Option<TokenParsedTrigger>) -> Option<TriggerView> {
    match r {
        Some(x) => Some(x@),
        None => None,
    }
}

// ---------------------------------------------------------------------------
// Specification
// ---------------------------------------------------------------------------

/// The events `INSERT`, `UPDATE`, `DELETE` separated by commas, from `p`,
/// added to the flags `(insert, update, delete)`.
pub open spec fn trigger_events(s: Seq<TokenView>, p: int, ev: (bool, bool, bool)) -> (
    bool,
    bool,
    bool,
)
    decreases s.len() - p,
{
    if p < 0 {
        ev
    } else {
        let next = if kw_at(s, p, "INSERT"@) {
            Some((true, ev.1, ev.2))
        } else if kw_at(s, p, "UPDATE"@) {
            Some((ev.0, true, ev.2))
        } else if kw_at(s, p, "DELETE"@) {
            Some((ev.0, ev.1, true))
        } else {
            None
        };
        match next {
            None => ev,
            Some(ev2) => {
                let q = skip_ws(s, p + 1);
                proof {
                    lemma_skip_ws(s, p + 1);
                    lemma_skip_ws(s, q + 1);
                }
                if kind_at(s, q, TokenKind::Comma) {
                    trigger_events(s, skip_ws(s, q + 1), ev2)
                } else {
                    ev2
                }
            },
        }
    }
}

/// `(INSTEAD OF | AFTER | FOR) events`: the trigger type and the event flags.
/// At least one event is needed.
pub open spec fn trigger_clause(s: Seq<TokenView>, p: int) -> Option<(u8, bool, bool, bool)> {
    let head: Option<(u8, int)> = if word_at(s, p, "INSTEAD"@) {
        let q = skip_ws(s, p + 1);
        if kw_at(s, q, "OF"@) {
            Some((3u8, skip_ws(s, q + 1)))
        } else {
            None
        }
    } else if kw_at(s, p, "AFTER"@) || kw_at(s, p, "FOR"@) {
        Some((2u8, skip_ws(s, p + 1)))
    } else {
        None
    };
    match head {
        None => None,
        Some((ty, q)) => {
            let (i, u, d) = trigger_events(s, q, (false, false, false));
            if !i && !u && !d {
                None
            } else {
                Some((ty, i, u, d))
            }
        },
    }
}

/// Position after `CREATE [OR ALTER] TRIGGER`.
pub open spec fn trigger_head(s: Seq<TokenView>) -> Option<int> {
    let p0 = skip_ws(s, 0);
    if !kw_at(s, p0, "CREATE"@) {
        None
    } else {
        let p1 = skip_ws(s, p0 + 1);
        let p2 = if kw_at(s, p1, "OR"@) {
            let q = skip_ws(s, p1 + 1);
            if kw_at(s, q, "ALTER"@) {
                Some(skip_ws(s, q + 1))
            } else {
                None
            }
        } else {
            Some(p1)
        };
        match p2 {
            None => None,
            Some(p2) => if kw_at(s, p2, "TRIGGER"@) {
                Some(skip_ws(s, p2 + 1))
            } else {
                None
            },
        }
    }
}

/// `CREATE [OR ALTER] TRIGGER name ON parent clause`.
pub open spec fn trigger_definition(s: Seq<TokenView>) -> Option<TriggerView> {
    match trigger_head(s) {
        None => None,
        Some(p3) => {
            let (n, p4) = schema_qualified_name(s, p3);
            let p5 = skip_ws(s, p4);
            match n {
                None => None,
                Some((schema, name)) => if !kw_at(s, p5, "ON"@) {
                    None
                } else {
                    let (parent, p7) = schema_qualified_name(s, skip_ws(s, p5 + 1));
                    match parent {
                        None => None,
                        Some((ps, pn)) => match trigger_clause(s, skip_ws(s, p7)) {
                            None => None,
                            Some((ty, i, u, d)) => Some(
                                TriggerView {
                                    schema,
                                    name,
                                    parent_schema: ps,
                                    parent_name: pn,
                                    is_insert: i,
                                    is_update: u,
                                    is_delete: d,
                                    trigger_type: ty,
                                },
                            ),
                        },
                    }
                },
            }
        },
    }
}

// ---------------------------------------------------------------------------
// Executable parser
// ---------------------------------------------------------------------------

fn trigger_events_exec(toks: &Vec<SqlToken>, p: usize, ev: (bool, bool, bool)) -> (r: (
    bool,
    bool,
    bool,
))
    requires
        p <= toks.len(),
    ensures
        r == trigger_events(views(toks@), p as int, ev),
    decreases toks.len() - p,
{
    let next = if check_keyword(toks, p, "INSERT") {
        Some((true, ev.1, ev.2))
    } else if check_keyword(toks, p, "UPDATE") {
        Some((ev.0, true, ev.2))
    } else if check_keyword(toks, p, "DELETE") {
        Some((ev.0, ev.1, true))
    } else {
        None
    };
    match next {
        None => ev,
        Some(ev2) => {
            let q = skip_whitespace(toks, p + 1);
            if check_kind(toks, q, TokenKind::Comma) {
                trigger_events_exec(toks, skip_whitespace(toks, q + 1), ev2)
            } else {
                ev2
            }
        },
    }
}

fn trigger_clause_exec(toks: &Vec<SqlToken>, p: usize) -> (r: Option<(u8, bool, bool, bool)>)
    requires
        p <= toks.len(),
    ensures
        r == trigger_clause(views(toks@), p as int),
{
    let ty: u8;
    let q: usize;
    if check_word_ci(toks, p, "INSTEAD") {
        let q1 = skip_whitespace(toks, p + 1);
        if !check_keyword(toks, q1, "OF") {
            return None;
        }
        ty = 3;
        q = skip_whitespace(toks, q1 + 1);
    } else if check_keyword(toks, p, "AFTER") || check_keyword(toks, p, "FOR") {
        ty = 2;
        q = skip_whitespace(toks, p + 1);
    } else {
        return None;
    }
    let (i, u, d) = trigger_events_exec(toks, q, (false, false, false));
    if !i && !u && !d {
        None
    } else {
        Some((ty, i, u, d))
    }
}

fn trigger_head_exec(toks: &Vec<SqlToken>) -> (r: Option<usize>)
    ensures
        match trigger_head(views(toks@)) {
            Some(p) => r == Some(p as usize) && 0 <= p <= toks.len(),
            None => r is None,
        },
{
    let p0 = skip_whitespace(toks, 0);
    if !check_keyword(toks, p0, "CREATE") {
        return None;
    }
    let p1 = skip_whitespace(toks, p0 + 1);
    let p2 = if check_keyword(toks, p1, "OR") {
        let q = skip_whitespace(toks, p1 + 1);
        if !check_keyword(toks, q, "ALTER") {
            return None;
        }
        skip_whitespace(toks, q + 1)
    } else {
        p1
    };
    if !check_keyword(toks, p2, "TRIGGER") {
        return None;
    }
    Some(skip_whitespace(toks, p2 + 1))
}

/// `CREATE TRIGGER`, over tokens.
pub fn parse_create_trigger(toks: &Vec<SqlToken>) -> (r: Option<TokenParsedTrigger>)
    ensures
        opt_trigger(r) == trigger_definition(views(toks@)),
{
    let p3 = match trigger_head_exec(toks) {
        Some(p) => p,
        None => return None,
    };
    let (n, p4) = parse_schema_qualified_name(toks, p3);
    let p5 = skip_whitespace(toks, p4);
    let (schema, name) = match n {
        Some(x) => x,
        None => return None,
    };
    if !check_keyword(toks, p5, "ON") {
        return None;
    }
    let (parent, p7) = parse_schema_qualified_name(toks, skip_whitespace(toks, p5 + 1));
    let (parent_schema, parent_name) = match parent {
        Some(x) => x,
        None => return None,
    };
    match trigger_clause_exec(toks, skip_whitespace(toks, p7)) {
        None => None,
        Some((trigger_type, is_insert, is_update, is_delete)) => Some(
            TokenParsedTrigger {
                schema,
                name,
                parent_schema,
                parent_name,
                is_insert,
                is_update,
                is_delete,
                trigger_type,
            },
        ),
    }
}

/// Parses `CREATE [OR ALTER] TRIGGER`.
pub fn parse_create_trigger_tokens(sql: &str) -> (r: Option<TokenParsedTrigger>)
    ensures
        match lex_sql(sql@) {
            Some(s) => opt_trigger(r) == trigger_definition(s),
            None => r is None,
        },
{
    match tokenize(sql) {
        Some(toks) => parse_create_trigger(&toks),
        None => None,
    }
}

} // verus!
