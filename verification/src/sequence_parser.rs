//! `CREATE SEQUENCE` and `ALTER SEQUENCE`.
//!
//! ```sql
//! CREATE SEQUENCE [schema].[name] AS BIGINT START WITH 1 INCREMENT BY 1
//! CREATE SEQUENCE [schema].[name] NO MINVALUE NO MAXVALUE CYCLE NO CACHE
//! ALTER SEQUENCE [schema].[name] RESTART WITH 1000
//! ```

use vstd::prelude::*;
use crate::text::{to_uppercase, unicode_upper};
use crate::lexer::{SqlToken, TokenKind, TokenView, views, lex_sql, tokenize};
use crate::cursor::{skip_ws, kw_at, word_at, kind_at, schema_qualified_name, signed_integer, lemma_skip_ws, lemma_signed_integer_pos, skip_whitespace, check_keyword, check_word_ci, check_kind, parse_schema_qualified_name, parse_signed_integer};

verus! {

/// A parsed sequence definition.
#[derive(Debug, Clone)]
pub struct TokenParsedSequence {
    /// Schema (defaults to `dbo`).
    pub schema: String,
    pub name: String,
    /// Data type from `AS <type>`, upper-cased (CREATE only).
    pub data_type: Option<String>,
    /// `START WITH` (CREATE) or `RESTART WITH` (ALTER).
    pub start_value: Option<i64>,
    pub increment_value: Option<i64>,
    pub min_value: Option<i64>,
    pub max_value: Option<i64>,
    pub is_cycling: bool,
    pub has_no_min_value: bool,
    pub has_no_max_value: bool,
    /// `CACHE n`; `NO CACHE` gives `Some(0)`.
    pub cache_size: Option<i64>,
}

/// Model of a parsed sequence definition.
pub struct SequenceView {
    pub schema: Seq<char>,
    pub name: Seq<char>,
    pub data_type: Option<Seq<char>>,
    pub start_value: Option<i64>,
    pub increment_value: Option<i64>,
    pub min_value: Option<i64>,
    pub max_value: Option<i64>,
    pub is_cycling: bool,
    pub has_no_min_value: bool,
    pub has_no_max_value: bool,
    pub cache_size: Option<i64>,
}

impl View for TokenParsedSequence {
    type V = SequenceView;

    open spec fn view(&self) -> SequenceView {
        SequenceView {
            schema: self.schema@,
            name: self.name@,
            data_type: match self.data_type {
                Some(d) => Some(d@),
                None => None,
            },
            start_value: self.start_value,
            increment_value: self.increment_value,
            min_value: self.min_value,
            max_value: self.max_value,
            is_cycling: self.is_cycling,
            has_no_min_value: self.has_no_min_value,
            has_no_max_value: self.has_no_max_value,
            cache_size: self.cache_size,
        }
    }
}

pub open spec fn opt_sequence_view(r: Option<TokenParsedSequence>) -> Option<SequenceView> {
    match r {
        Some(x) => Some(x@),
        None => None,
    }
}

/// A sequence with only its name set.
pub open spec fn sequence_named(schema: Seq<char>, name: Seq<char>) -> SequenceView {
    SequenceView {
        schema,
        name,
        data_type: None,
        start_value: None,
        increment_value: None,
        min_value: None,
        max_value: None,
        is_cycling: false,
        has_no_min_value: false,
        has_no_max_value: false,
        cache_size: None,
    }
}

/// A data type word, upper-cased.
pub open spec fn data_type_word(s: Seq<TokenView>, p: int) -> (Option<Seq<char>>, int) {
    if kind_at(s, p, TokenKind::Word) {
        (Some(unicode_upper(s[p].value)), p + 1)
    } else {
        (None, p)
    }
}

/// `<keyword> WITH <integer>` after the first keyword at `q`: the integer and the next position.
pub open spec fn with_value(s: Seq<TokenView>, q: int, second: Seq<char>) -> (Option<i64>, int) {
    let q1 = skip_ws(s, q + 1);
    if kw_at(s, q1, second) {
        signed_integer(s, skip_ws(s, q1 + 1))
    } else {
        (None, q1)
    }
}

/// The sequence options from position `p` on, applied to `r`.
pub open spec fn sequence_options(s: Seq<TokenView>, p: int, r: SequenceView, is_alter: bool) -> SequenceView
    decreases s.len() - p,
{
    if p < 0 || p >= s.len() {
        r
    } else {
        let q = skip_ws(s, p);
        proof {
            lemma_skip_ws(s, p);
        }
        if q >= s.len() {
            r
        } else if !is_alter && kw_at(s, q, "AS"@) {
            let q1 = skip_ws(s, q + 1);
            proof {
                lemma_skip_ws(s, q + 1);
            }
            let (dt, q2) = data_type_word(s, q1);
            sequence_options(
                s,
                q2,
                if dt is Some {
                    SequenceView { data_type: dt, ..r }
                } else {
                    r
                },
                is_alter,
            )
        } else if (!is_alter && word_at(s, q, "START"@)) || (is_alter && word_at(s, q, "RESTART"@)) {
            let (v, q2) = with_value(s, q, "WITH"@);
            proof {
                lemma_skip_ws(s, q + 1);
                lemma_skip_ws(s, skip_ws(s, q + 1) + 1);
                lemma_signed_integer_pos(s, skip_ws(s, skip_ws(s, q + 1) + 1));
            }
            sequence_options(
                s,
                q2,
                if v is Some {
                    SequenceView { start_value: v, ..r }
                } else {
                    r
                },
                is_alter,
            )
        } else if word_at(s, q, "INCREMENT"@) {
            let (v, q2) = with_value(s, q, "BY"@);
            proof {
                lemma_skip_ws(s, q + 1);
                lemma_skip_ws(s, skip_ws(s, q + 1) + 1);
                lemma_signed_integer_pos(s, skip_ws(s, skip_ws(s, q + 1) + 1));
            }
            sequence_options(
                s,
                q2,
                if v is Some {
                    SequenceView { increment_value: v, ..r }
                } else {
                    r
                },
                is_alter,
            )
        } else if kw_at(s, q, "NO"@) {
            let q1 = skip_ws(s, q + 1);
            proof {
                lemma_skip_ws(s, q + 1);
            }
            if word_at(s, q1, "MINVALUE"@) {
                sequence_options(
                    s,
                    q1 + 1,
                    SequenceView { has_no_min_value: true, min_value: None, ..r },
                    is_alter,
                )
            } else if word_at(s, q1, "MAXVALUE"@) {
                sequence_options(
                    s,
                    q1 + 1,
                    SequenceView { has_no_max_value: true, max_value: None, ..r },
                    is_alter,
                )
            } else if kw_at(s, q1, "CYCLE"@) {
                sequence_options(s, q1 + 1, SequenceView { is_cycling: false, ..r }, is_alter)
            } else if word_at(s, q1, "CACHE"@) {
                sequence_options(s, q1 + 1, SequenceView { cache_size: Some(0), ..r }, is_alter)
            } else {
                sequence_options(s, q1, r, is_alter)
            }
        } else if word_at(s, q, "MINVALUE"@) || word_at(s, q, "MAXVALUE"@) || word_at(s, q, "CACHE"@) {
            let (v, q2) = signed_integer(s, skip_ws(s, q + 1));
            proof {
                lemma_skip_ws(s, q + 1);
                lemma_signed_integer_pos(s, skip_ws(s, q + 1));
            }
            {
                let r2 = if v is None {
                    r
                } else if word_at(s, q, "MINVALUE"@) {
                    SequenceView { min_value: v, ..r }
                } else if word_at(s, q, "MAXVALUE"@) {
                    SequenceView { max_value: v, ..r }
                } else {
                    SequenceView { cache_size: v, ..r }
                };
                sequence_options(s, q2, r2, is_alter)
            }
        } else if kw_at(s, q, "CYCLE"@) {
            sequence_options(s, q + 1, SequenceView { is_cycling: true, ..r }, is_alter)
        } else {
            sequence_options(s, q + 1, r, is_alter)
        }
    }
}

/// `CREATE SEQUENCE name options` or `ALTER SEQUENCE name options`.
pub open spec fn sequence_statement(s: Seq<TokenView>, verb: Seq<char>, is_alter: bool) -> Option<SequenceView> {
    let p0 = skip_ws(s, 0);
    if !kw_at(s, p0, verb) {
        None
    } else {
        let p1 = skip_ws(s, p0 + 1);
        if !kw_at(s, p1, "SEQUENCE"@) {
            None
        } else {
            let (n, p3) = schema_qualified_name(s, skip_ws(s, p1 + 1));
            match n {
                None => None,
                Some((sc, nm)) => Some(
                    sequence_options(s, skip_ws(s, p3), sequence_named(sc, nm), is_alter),
                ),
            }
        }
    }
}

pub open spec fn create_sequence(s: Seq<TokenView>) -> Option<SequenceView> {
    sequence_statement(s, "CREATE"@, false)
}

pub open spec fn alter_sequence(s: Seq<TokenView>) -> Option<SequenceView> {
    sequence_statement(s, "ALTER"@, true)
}

fn parse_options(toks: &Vec<SqlToken>, p: usize, r: TokenParsedSequence, is_alter: bool) -> (out: TokenParsedSequence)
    requires
        p <= toks.len(),
    ensures
        out@ == sequence_options(views(toks@), p as int, r@, is_alter),
{
    let ghost s = views(toks@);
    let mut pos: usize = p;
    let mut res = r;
    while pos < toks.len()
        invariant
            s == views(toks@),
            pos <= toks.len(),
            sequence_options(s, p as int, r@, is_alter) == sequence_options(s, pos as int, res@, is_alter),
        decreases toks.len() - pos,
    {
        let q = skip_whitespace(toks, pos);
        if q >= toks.len() {
            pos = q;
            continue;
        }
        if !is_alter && check_keyword(toks, q, "AS") {
            let q1 = skip_whitespace(toks, q + 1);
            if check_kind(toks, q1, TokenKind::Word) {
                assert(s[q1 as int] == toks@[q1 as int]@);
                res.data_type = Some(to_uppercase(toks[q1].value.as_str()));
                pos = q1 + 1;
            } else {
                pos = q1;
            }
            continue;
        }
        if (!is_alter && check_word_ci(toks, q, "START")) || (is_alter && check_word_ci(toks, q, "RESTART")) {
            let q1 = skip_whitespace(toks, q + 1);
            if check_keyword(toks, q1, "WITH") {
                let q15 = skip_whitespace(toks, q1 + 1);
                let (v, q2) = parse_signed_integer(toks, q15);
                if v.is_some() {
                    res.start_value = v;
                }
                pos = q2;
            } else {
                pos = q1;
            }
            continue;
        }
        if check_word_ci(toks, q, "INCREMENT") {
            let q1 = skip_whitespace(toks, q + 1);
            if check_keyword(toks, q1, "BY") {
                let q15 = skip_whitespace(toks, q1 + 1);
                let (v, q2) = parse_signed_integer(toks, q15);
                if v.is_some() {
                    res.increment_value = v;
                }
                pos = q2;
            } else {
                pos = q1;
            }
            continue;
        }
        if check_keyword(toks, q, "NO") {
            let q1 = skip_whitespace(toks, q + 1);
            if check_word_ci(toks, q1, "MINVALUE") {
                res.has_no_min_value = true;
                res.min_value = None;
                pos = q1 + 1;
            } else if check_word_ci(toks, q1, "MAXVALUE") {
                res.has_no_max_value = true;
                res.max_value = None;
                pos = q1 + 1;
            } else if check_keyword(toks, q1, "CYCLE") {
                res.is_cycling = false;
                pos = q1 + 1;
            } else if check_word_ci(toks, q1, "CACHE") {
                res.cache_size = Some(0);
                pos = q1 + 1;
            } else {
                pos = q1;
            }
            continue;
        }
        let is_min = check_word_ci(toks, q, "MINVALUE");
        let is_max = check_word_ci(toks, q, "MAXVALUE");
        let is_cache = check_word_ci(toks, q, "CACHE");
        if is_min || is_max || is_cache {
            let q1 = skip_whitespace(toks, q + 1);
            let (v, q2) = parse_signed_integer(toks, q1);
            if v.is_some() {
                if is_min {
                    res.min_value = v;
                } else if is_max {
                    res.max_value = v;
                } else {
                    res.cache_size = v;
                }
            }
            pos = q2;
            continue;
        }
        if check_keyword(toks, q, "CYCLE") {
            res.is_cycling = true;
            pos = q + 1;
            continue;
        }
        pos = q + 1;
    }
    res
}

fn parse_sequence_statement(toks: &Vec<SqlToken>, verb: &str, is_alter: bool) -> (r: Option<TokenParsedSequence>)
    ensures
        opt_sequence_view(r) == sequence_statement(views(toks@), verb@, is_alter),
{
    let p0 = skip_whitespace(toks, 0);
    if !check_keyword(toks, p0, verb) {
        return None;
    }
    let p1 = skip_whitespace(toks, p0 + 1);
    if !check_keyword(toks, p1, "SEQUENCE") {
        return None;
    }
    let p2 = skip_whitespace(toks, p1 + 1);
    let (n, p3) = parse_schema_qualified_name(toks, p2);
    match n {
        None => None,
        Some((schema, name)) => {
            let p4 = skip_whitespace(toks, p3);
            let r = TokenParsedSequence {
                schema,
                name,
                data_type: None,
                start_value: None,
                increment_value: None,
                min_value: None,
                max_value: None,
                is_cycling: false,
                has_no_min_value: false,
                has_no_max_value: false,
                cache_size: None,
            };
            Some(parse_options(toks, p4, r, is_alter))
        },
    }
}

/// `CREATE SEQUENCE` over tokens.
pub fn parse_create_sequence(toks: &Vec<SqlToken>) -> (r: Option<TokenParsedSequence>)
    ensures
        opt_sequence_view(r) == create_sequence(views(toks@)),
{
    parse_sequence_statement(toks, "CREATE", false)
}

/// `ALTER SEQUENCE` over tokens.
pub fn parse_alter_sequence(toks: &Vec<SqlToken>) -> (r: Option<TokenParsedSequence>)
    ensures
        opt_sequence_view(r) == alter_sequence(views(toks@)),
{
    parse_sequence_statement(toks, "ALTER", true)
}

/// Parses `CREATE SEQUENCE` text.
pub fn parse_create_sequence_tokens(sql: &str) -> (r: Option<TokenParsedSequence>)
    ensures
        match lex_sql(sql@) {
            Some(s) => opt_sequence_view(r) == create_sequence(s),
            None => r is None,
        },
{
    match tokenize(sql) {
        Some(toks) => parse_create_sequence(&toks),
        None => None,
    }
}

/// Parses `ALTER SEQUENCE` text.
pub fn parse_alter_sequence_tokens(sql: &str) -> (r: Option<TokenParsedSequence>)
    ensures
        match lex_sql(sql@) {
            Some(s) => opt_sequence_view(r) == alter_sequence(s),
            None => r is None,
        },
{
    match tokenize(sql) {
        Some(toks) => parse_alter_sequence(&toks),
        None => None,
    }
}

} // verus!
