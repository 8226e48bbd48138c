//! `CREATE FULLTEXT INDEX ON t (col [LANGUAGE n], ...) KEY INDEX k [ON catalog]
//! [WITH CHANGE_TRACKING AUTO|MANUAL|OFF]` and `CREATE FULLTEXT CATALOG name [AS DEFAULT]`.

use vstd::prelude::*;
use crate::text::str_to_string;
use crate::lexer::{SqlToken, TokenKind, TokenView, views, lex_sql, tokenize};
use crate::cursor::{
    skip_ws, kw_at, word_at, kind_at, ident, adv, schema_qualified_name, positive_integer,
    lemma_skip_ws, skip_whitespace, check_keyword, check_word_ci, check_kind, parse_identifier,
    parse_schema_qualified_name, parse_positive_integer, advance, opt_str,
};
use crate::constraint_parser::close_list;

verus! {

/// A full-text index column.
#[derive(Debug, Clone)]
pub struct TokenParsedFullTextColumn {
    /// Column name.
    pub name: String,
    /// `LANGUAGE` id (1033 for English).
    pub language_id: Option<u32>,
}

/// A parsed `CREATE FULLTEXT INDEX`.
#[derive(Debug, Clone)]
pub struct TokenParsedFullTextIndex {
    /// Schema of the table (`dbo` when not given).
    pub table_schema: String,
    /// Table name.
    pub table_name: String,
    /// Indexed columns.
    pub columns: Vec<TokenParsedFullTextColumn>,
    /// Name of the key index.
    pub key_index: String,
    /// Full-text catalog.
    pub catalog: Option<String>,
    /// Change tracking mode (`AUTO`, `MANUAL`, `OFF`).
    pub change_tracking: Option<String>,
}

/// A parsed `CREATE FULLTEXT CATALOG`.
#[derive(Debug, Clone)]
pub struct TokenParsedFullTextCatalog {
    /// Catalog name.
    pub name: String,
    /// `AS DEFAULT`.
    pub is_default: bool,
}

pub struct FullTextIndexView {
    pub table_schema: Seq<char>,
    pub table_name: Seq<char>,
    pub columns: Seq<(Seq<char>, Option<u32>)>,
    pub key_index: Seq<char>,
    pub catalog: Option<Seq<char>>,
    pub change_tracking: Option<Seq<char>>,
}

impl View for TokenParsedFullTextColumn {
    type V = (Seq<char>, Option<u32>);

    open spec fn view(&self) -> (Seq<char>, Option<u32>) {
        (self.name@, self.language_id)
    }
}

pub open spec fn fulltext_columns_view(v: Seq<TokenParsedFullTextColumn>) -> Seq<
    (Seq<char>, Option<u32>),
> {
    v.map_values(|c: TokenParsedFullTextColumn| c@)
}

impl View for TokenParsedFullTextIndex {
    type V = FullTextIndexView;

    open spec fn view(&self) -> FullTextIndexView {
        FullTextIndexView {
            table_schema: self.table_schema@,
            table_name: self.table_name@,
            columns: fulltext_columns_view(self.columns@),
            key_index: self.key_index@,
            catalog: opt_str(self.catalog),
            change_tracking: opt_str(self.change_tracking),
        }
    }
}

impl View for TokenParsedFullTextCatalog {
    type V = (Seq<char>, bool);

    open spec fn view(&self) -> (Seq<char>, bool) {
        (self.name@, self.is_default)
    }
}

pub open spec fn opt_fulltext_index(r: Option<TokenParsedFullTextIndex>) -> Option<FullTextIndexView> {
    match r {
        Some(x) => Some(x@),
        None => None,
    }
}

pub open spec fn opt_fulltext_catalog(r: Option<TokenParsedFullTextCatalog>) -> Option<
    (Seq<char>, bool),
> {
    match r {
        Some(x) => Some(x@),
        None => None,
    }
}

// ---------------------------------------------------------------------------
// Specification
// ---------------------------------------------------------------------------

/// The clauses after a column name: `[LANGUAGE n] [TYPE COLUMN c]
/// [STATISTICAL_SEMANTICS]`, from `b`: the language id and the position after.
pub open spec fn column_options(s: Seq<TokenView>, b: int) -> (Option<u32>, int) {
    let (lang, e) = if word_at(s, b, "LANGUAGE"@) {
        let (li, d) = positive_integer(s, skip_ws(s, b + 1));
        (
            match li {
                Some(v) => Some(v as u32),
                None => None,
            },
            skip_ws(s, d),
        )
    } else {
        (None, b)
    };
    let i = if kw_at(s, e, "TYPE"@) {
        let f = skip_ws(s, e + 1);
        if word_at(s, f, "COLUMN"@) {
            skip_ws(s, ident(s, skip_ws(s, f + 1)).1)
        } else {
            f
        }
    } else {
        e
    };
    let j = if word_at(s, i, "STATISTICAL_SEMANTICS"@) {
        skip_ws(s, i + 1)
    } else {
        i
    };
    (lang, j)
}

/// Columns `name [options], ...` from `p`; a missing name ends the list.
pub open spec fn fulltext_column_list(s: Seq<TokenView>, p: int, acc: Seq<(Seq<char>, Option<u32>)>) -> (
    Seq<(Seq<char>, Option<u32>)>,
    int,
)
    decreases s.len() - p,
{
    if p < 0 || p >= s.len() || kind_at(s, p, TokenKind::RParen) {
        (acc, p)
    } else {
        let a = skip_ws(s, p);
        proof {
            lemma_skip_ws(s, p);
        }
        let (n, b) = ident(s, a);
        match n {
            None => (acc, a),
            Some(name) => {
                let (lang, j) = column_options(s, skip_ws(s, b));
                let acc2 = acc.push((name, lang));
                if j <= p || j > s.len() {
                    (acc2, j)
                } else if kind_at(s, j, TokenKind::Comma) {
                    proof {
                        lemma_skip_ws(s, j + 1);
                    }
                    fulltext_column_list(s, skip_ws(s, j + 1), acc2)
                } else if kind_at(s, j, TokenKind::RParen) {
                    (acc2, j)
                } else {
                    fulltext_column_list(s, adv(s, j), acc2)
                }
            },
        }
    }
}

/// `(col [LANGUAGE n], ...)` at `p`.
pub open spec fn fulltext_columns(s: Seq<TokenView>, p: int) -> Option<(Seq<(Seq<char>, Option<u32>)>, int)> {
    if !kind_at(s, p, TokenKind::LParen) {
        None
    } else {
        let (acc, e) = fulltext_column_list(s, skip_ws(s, p + 1), Seq::empty());
        close_list(s, acc, e)
    }
}

/// `WITH CHANGE_TRACKING AUTO|MANUAL|OFF`: the mode.
pub open spec fn change_tracking(s: Seq<TokenView>, p: int) -> Option<Seq<char>> {
    if !kw_at(s, p, "WITH"@) {
        None
    } else {
        let a = skip_ws(s, p + 1);
        if !word_at(s, a, "CHANGE_TRACKING"@) {
            None
        } else {
            let b = skip_ws(s, a + 1);
            if word_at(s, b, "AUTO"@) {
                Some("AUTO"@)
            } else if word_at(s, b, "MANUAL"@) {
                Some("MANUAL"@)
            } else if word_at(s, b, "OFF"@) {
                Some("OFF"@)
            } else {
                None
            }
        }
    }
}

/// Position after `CREATE FULLTEXT INDEX ON`.
pub open spec fn fulltext_index_head(s: Seq<TokenView>) -> Option<int> {
    let p0 = skip_ws(s, 0);
    let p1 = skip_ws(s, p0 + 1);
    let p2 = skip_ws(s, p1 + 1);
    let p3 = skip_ws(s, p2 + 1);
    if kw_at(s, p0, "CREATE"@) && word_at(s, p1, "FULLTEXT"@) && kw_at(s, p2, "INDEX"@) && kw_at(
        s,
        p3,
        "ON"@,
    ) {
        Some(skip_ws(s, p3 + 1))
    } else {
        None
    }
}

/// `CREATE FULLTEXT INDEX ON t (cols) KEY INDEX k [ON catalog] [WITH ...]`.
pub open spec fn fulltext_index(s: Seq<TokenView>) -> Option<FullTextIndexView> {
    match fulltext_index_head(s) {
        None => None,
        Some(p4) => {
            let (t, p5) = schema_qualified_name(s, p4);
            match t {
                None => None,
                Some((ts, tn)) => match fulltext_columns(s, skip_ws(s, p5)) {
                    None => None,
                    Some((cols, p7)) => {
                        let p8 = skip_ws(s, p7);
                        let p9 = skip_ws(s, p8 + 1);
                        if !kw_at(s, p8, "KEY"@) || !kw_at(s, p9, "INDEX"@) {
                            None
                        } else {
                            let (k, p11) = ident(s, skip_ws(s, p9 + 1));
                            match k {
                                None => None,
                                Some(key) => {
                                    let p12 = skip_ws(s, p11);
                                    let (cat, p13) = if kw_at(s, p12, "ON"@) {
                                        ident(s, skip_ws(s, p12 + 1))
                                    } else {
                                        (None, p12)
                                    };
                                    Some(
                                        FullTextIndexView {
                                            table_schema: ts,
                                            table_name: tn,
                                            columns: cols,
                                            key_index: key,
                                            catalog: cat,
                                            change_tracking: change_tracking(s, skip_ws(s, p13)),
                                        },
                                    )
                                },
                            }
                        }
                    },
                },
            }
        },
    }
}

/// `CREATE FULLTEXT CATALOG name [AS DEFAULT]`.
pub open spec fn fulltext_catalog(s: Seq<TokenView>) -> Option<(Seq<char>, bool)> {
    let p0 = skip_ws(s, 0);
    let p1 = skip_ws(s, p0 + 1);
    let p2 = skip_ws(s, p1 + 1);
    if !(kw_at(s, p0, "CREATE"@) && word_at(s, p1, "FULLTEXT"@) && word_at(s, p2, "CATALOG"@)) {
        None
    } else {
        let (n, p3) = ident(s, skip_ws(s, p2 + 1));
        match n {
            None => None,
            Some(name) => {
                let p = skip_ws(s, p3);
                Some((name, kw_at(s, p, "AS"@) && kw_at(s, skip_ws(s, p + 1), "DEFAULT"@)))
            },
        }
    }
}

// ---------------------------------------------------------------------------
// Executable parser
// ---------------------------------------------------------------------------

fn column_options_exec(toks: &Vec<SqlToken>, b: usize) -> (r: (Option<u32>, usize))
    requires
        b <= toks.len(),
    ensures
        (r.0, r.1 as int) == column_options(views(toks@), b as int),
        b <= r.1 <= toks.len(),
{
    let (lang, e) = if check_word_ci(toks, b, "LANGUAGE") {
        let c = skip_whitespace(toks, b + 1);
        let (li, d) = parse_positive_integer(toks, c);
        let l: Option<u32> = match li {
            Some(v) => Some(v as u32),
            None => None,
        };
        (l, skip_whitespace(toks, d))
    } else {
        (None, b)
    };
    let i = if check_keyword(toks, e, "TYPE") {
        let f = skip_whitespace(toks, e + 1);
        if check_word_ci(toks, f, "COLUMN") {
            let (_c, h) = parse_identifier(toks, skip_whitespace(toks, f + 1));
            skip_whitespace(toks, h)
        } else {
            f
        }
    } else {
        e
    };
    let j = if check_word_ci(toks, i, "STATISTICAL_SEMANTICS") {
        skip_whitespace(toks, i + 1)
    } else {
        i
    };
    (lang, j)
}

fn fulltext_columns_exec(toks: &Vec<SqlToken>, p: usize) -> (r: Option<(Vec<TokenParsedFullTextColumn>, usize)>)
    requires
        p <= toks.len(),
    ensures
        match fulltext_columns(views(toks@), p as int) {
            Some((v, e)) => r matches Some((x, q)) && fulltext_columns_view(x@) == v && q == e && q
                <= toks.len(),
            None => r is None,
        },
{
    let ghost s = views(toks@);
    if !check_kind(toks, p, TokenKind::LParen) {
        return None;
    }
    let start = skip_whitespace(toks, p + 1);
    let mut pos: usize = start;
    let mut cols: Vec<TokenParsedFullTextColumn> = Vec::new();
    let mut done = false;
    proof {
        assert(fulltext_columns_view(cols@) =~= Seq::<(Seq<char>, Option<u32>)>::empty());
    }
    while !done
        invariant
            s == views(toks@),
            pos <= toks.len(),
            done ==> fulltext_column_list(s, start as int, Seq::empty()) == (
                fulltext_columns_view(cols@),
                pos as int,
            ),
            !done ==> fulltext_column_list(s, start as int, Seq::empty()) == fulltext_column_list(
                s,
                pos as int,
                fulltext_columns_view(cols@),
            ),
        decreases toks.len() - pos + (if done {
            0int
        } else {
            1int
        }),
    {
        if pos >= toks.len() || check_kind(toks, pos, TokenKind::RParen) {
            done = true;
        } else {
            let a = skip_whitespace(toks, pos);
            let (n, b) = parse_identifier(toks, a);
            match n {
                None => {
                    pos = a;
                    done = true;
                },
                Some(name) => {
                    let (language_id, j) = column_options_exec(toks, skip_whitespace(toks, b));
                    let ghost before = fulltext_columns_view(cols@);
                    cols.push(TokenParsedFullTextColumn { name, language_id });
                    assert(fulltext_columns_view(cols@) =~= before.push((name@, language_id)));
                    if check_kind(toks, j, TokenKind::Comma) {
                        pos = skip_whitespace(toks, j + 1);
                    } else if check_kind(toks, j, TokenKind::RParen) {
                        pos = j;
                        done = true;
                    } else {
                        pos = advance(toks, j);
                    }
                },
            }
        }
    }
    if cols.len() == 0 {
        None
    } else if check_kind(toks, pos, TokenKind::RParen) {
        Some((cols, pos + 1))
    } else {
        Some((cols, pos))
    }
}

fn change_tracking_exec(toks: &Vec<SqlToken>, p: usize) -> (r: Option<String>)
    requires
        p <= toks.len(),
    ensures
        opt_str(r) == change_tracking(views(toks@), p as int),
{
    if !check_keyword(toks, p, "WITH") {
        return None;
    }
    let a = skip_whitespace(toks, p + 1);
    if !check_word_ci(toks, a, "CHANGE_TRACKING") {
        return None;
    }
    let b = skip_whitespace(toks, a + 1);
    if check_word_ci(toks, b, "AUTO") {
        Some(str_to_string("AUTO"))
    } else if check_word_ci(toks, b, "MANUAL") {
        Some(str_to_string("MANUAL"))
    } else if check_word_ci(toks, b, "OFF") {
        Some(str_to_string("OFF"))
    } else {
        None
    }
}

fn fulltext_index_head_exec(toks: &Vec<SqlToken>) -> (r: Option<usize>)
    ensures
        match fulltext_index_head(views(toks@)) {
            Some(p) => r == Some(p as usize) && 0 <= p <= toks.len(),
            None => r is None,
        },
{
    let p0 = skip_whitespace(toks, 0);
    if !check_keyword(toks, p0, "CREATE") {
        return None;
    }
    let p1 = skip_whitespace(toks, p0 + 1);
    if !check_word_ci(toks, p1, "FULLTEXT") {
        return None;
    }
    let p2 = skip_whitespace(toks, p1 + 1);
    if !check_keyword(toks, p2, "INDEX") {
        return None;
    }
    let p3 = skip_whitespace(toks, p2 + 1);
    if !check_keyword(toks, p3, "ON") {
        return None;
    }
    Some(skip_whitespace(toks, p3 + 1))
}

/// `CREATE FULLTEXT INDEX`, over tokens.
pub fn parse_fulltext_index_tokens_with_tokens(toks: &Vec<SqlToken>) -> (r: Option<TokenParsedFullTextIndex>)
    ensures
        opt_fulltext_index(r) == fulltext_index(views(toks@)),
{
    let p4 = match fulltext_index_head_exec(toks) {
        Some(p) => p,
        None => return None,
    };
    let (t, p5) = parse_schema_qualified_name(toks, p4);
    let (table_schema, table_name) = match t {
        Some(x) => x,
        None => return None,
    };
    let (columns, p7) = match fulltext_columns_exec(toks, skip_whitespace(toks, p5)) {
        Some(x) => x,
        None => return None,
    };
    let p8 = skip_whitespace(toks, p7);
    if !check_keyword(toks, p8, "KEY") {
        return None;
    }
    let p9 = skip_whitespace(toks, p8 + 1);
    if !check_keyword(toks, p9, "INDEX") {
        return None;
    }
    let (k, p11) = parse_identifier(toks, skip_whitespace(toks, p9 + 1));
    let key_index = match k {
        Some(x) => x,
        None => return None,
    };
    let p12 = skip_whitespace(toks, p11);
    let (catalog, p13) = if check_keyword(toks, p12, "ON") {
        parse_identifier(toks, skip_whitespace(toks, p12 + 1))
    } else {
        (None, p12)
    };
    let change_tracking = change_tracking_exec(toks, skip_whitespace(toks, p13));
    Some(
        TokenParsedFullTextIndex {
            table_schema,
            table_name,
            columns,
            key_index,
            catalog,
            change_tracking,
        },
    )
}

/// `CREATE FULLTEXT CATALOG`, over tokens.
pub fn parse_fulltext_catalog_tokens_with_tokens(toks: &Vec<SqlToken>) -> (r: Option<TokenParsedFullTextCatalog>)
    ensures
        opt_fulltext_catalog(r) == fulltext_catalog(views(toks@)),
{
    let p0 = skip_whitespace(toks, 0);
    if !check_keyword(toks, p0, "CREATE") {
        return None;
    }
    let p1 = skip_whitespace(toks, p0 + 1);
    if !check_word_ci(toks, p1, "FULLTEXT") {
        return None;
    }
    let p2 = skip_whitespace(toks, p1 + 1);
    if !check_word_ci(toks, p2, "CATALOG") {
        return None;
    }
    let (n, p3) = parse_identifier(toks, skip_whitespace(toks, p2 + 1));
    let name = match n {
        Some(x) => x,
        None => return None,
    };
    let p = skip_whitespace(toks, p3);
    let is_default = check_keyword(toks, p, "AS") && check_keyword(
        toks,
        skip_whitespace(toks, p + 1),
        "DEFAULT",
    );
    Some(TokenParsedFullTextCatalog { name, is_default })
}

/// Parses `CREATE FULLTEXT INDEX`.
pub fn parse_fulltext_index_tokens(sql: &str) -> (r: Option<TokenParsedFullTextIndex>)
    ensures
        match lex_sql(sql@) {
            Some(s) => opt_fulltext_index(r) == fulltext_index(s),
            None => r is None,
        },
{
    match tokenize(sql) {
        Some(toks) => parse_fulltext_index_tokens_with_tokens(&toks),
        None => None,
    }
}

/// Parses `CREATE FULLTEXT CATALOG`.
pub fn parse_fulltext_catalog_tokens(sql: &str) -> (r: Option<TokenParsedFullTextCatalog>)
    ensures
        match lex_sql(sql@) {
            Some(s) => opt_fulltext_catalog(r) == fulltext_catalog(s),
            None => r is None,
        },
{
    match tokenize(sql) {
        Some(toks) => parse_fulltext_catalog_tokens_with_tokens(&toks),
        None => None,
    }
}

} // verus!
