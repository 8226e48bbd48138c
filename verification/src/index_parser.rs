//! `CREATE [UNIQUE] CLUSTERED|NONCLUSTERED INDEX`.
//!
//! ```sql
//! CREATE NONCLUSTERED INDEX [IX_Name] ON [dbo].[Table] ([Col1], [Col2] DESC)
//! CREATE UNIQUE CLUSTERED INDEX [IX_Name] ON [dbo].[Table] ([Col]) INCLUDE ([Col2])
//! CREATE NONCLUSTERED INDEX [IX_Name] ON [dbo].[Table] ([Col]) WHERE [Status] = 'Active'
//! CREATE NONCLUSTERED INDEX [IX_Name] ON [dbo].[Table] ([Col]) WITH (FILLFACTOR = 80)
//! ```
//!
//! A `CREATE INDEX` without `CLUSTERED`/`NONCLUSTERED` is not taken.
//! `CREATE [CLUSTERED|NONCLUSTERED] COLUMNSTORE INDEX` has a reader of its own.

use vstd::prelude::*;
use crate::text::{trim, to_uppercase, unicode_upper, chars_of, CharSet, trim_set, string_from_chars, push_char, append_string};
use crate::lexer::{SqlToken, TokenKind, TokenView, views, lex_sql, tokenize};
use crate::cursor::{
    skip_ws, kw_at, word_at, kind_at, schema_qualified_name, lemma_skip_ws, ident, adv, parse_i64,
    skip_whitespace, check_keyword, check_word_ci, check_kind, parse_schema_qualified_name,
    parse_identifier, advance, parse_i64_exec, opt_str,
};
use crate::identifier_utils::bracketed;

verus! {

/// A parsed index definition.
#[derive(Debug, Clone)]
pub struct TokenParsedIndex {
    pub name: String,
    /// Schema of the table (defaults to `dbo`).
    pub table_schema: String,
    pub table_name: String,
    /// Key columns, without `ASC`/`DESC`.
    pub columns: Vec<String>,
    /// `INCLUDE` columns.
    pub include_columns: Vec<String>,
    pub is_unique: bool,
    pub is_clustered: bool,
    /// `FILLFACTOR` (0..=100).
    pub fill_factor: Option<u8>,
    /// The `WHERE` condition of a filtered index.
    pub filter_predicate: Option<String>,
    /// `DATA_COMPRESSION`, upper-cased.
    pub data_compression: Option<String>,
}

pub struct IndexView {
    pub name: Seq<char>,
    pub table_schema: Seq<char>,
    pub table_name: Seq<char>,
    pub columns: Seq<Seq<char>>,
    pub include_columns: Seq<Seq<char>>,
    pub is_unique: bool,
    pub is_clustered: bool,
    pub fill_factor: Option<u8>,
    pub filter_predicate: Option<Seq<char>>,
    pub data_compression: Option<Seq<char>>,
}

impl View for TokenParsedIndex {
    type V = IndexView;

    open spec fn view(&self) -> IndexView {
        IndexView {
            name: self.name@,
            table_schema: self.table_schema@,
            table_name: self.table_name@,
            columns: self.columns.deep_view(),
            include_columns: self.include_columns.deep_view(),
            is_unique: self.is_unique,
            is_clustered: self.is_clustered,
            fill_factor: self.fill_factor,
            filter_predicate: opt_str(self.filter_predicate),
            data_compression: opt_str(self.data_compression),
        }
    }
}

pub open spec fn opt_index_view(r: Option<TokenParsedIndex>) -> Option<IndexView> {
    match r {
        Some(x) => Some(x@),
        None => None,
    }
}

// ---------------------------------------------------------------------------
// Specification
// ---------------------------------------------------------------------------

/// End of a column list: past the `)` if there is one; `None` for no columns.
pub open spec fn finish_columns(s: Seq<TokenView>, p: int, cols: Seq<Seq<char>>) -> (Option<Seq<Seq<char>>>, int) {
    let p2 = if kind_at(s, p, TokenKind::RParen) {
        p + 1
    } else {
        p
    };
    (if cols.len() == 0 {
        None
    } else {
        Some(cols)
    }, p2)
}

/// Column names of a list after its `(`, `ASC`/`DESC` dropped.
pub open spec fn column_items(s: Seq<TokenView>, p: int, cols: Seq<Seq<char>>) -> (Option<Seq<Seq<char>>>, int)
    decreases s.len() - p,
{
    if p < 0 || p >= s.len() || kind_at(s, p, TokenKind::RParen) {
        finish_columns(s, p, cols)
    } else {
        let q = skip_ws(s, p);
        let (name, q1) = ident(s, q);
        proof {
            lemma_skip_ws(s, p);
        }
        match name {
            None => finish_columns(s, q1, cols),
            Some(n) => {
                let q2 = skip_ws(s, q1);
                let q3 = if kw_at(s, q2, "ASC"@) || kw_at(s, q2, "DESC"@) {
                    skip_ws(s, q2 + 1)
                } else {
                    q2
                };
                proof {
                    lemma_skip_ws(s, q1);
                    lemma_skip_ws(s, q2 + 1);
                    lemma_skip_ws(s, q3 + 1);
                }
                if kind_at(s, q3, TokenKind::Comma) {
                    column_items(s, skip_ws(s, q3 + 1), cols.push(n))
                } else if kind_at(s, q3, TokenKind::RParen) {
                    finish_columns(s, q3, cols.push(n))
                } else {
                    column_items(s, adv(s, q3), cols.push(n))
                }
            },
        }
    }
}

/// A parenthesized column list.
pub open spec fn column_list(s: Seq<TokenView>, p: int) -> (Option<Seq<Seq<char>>>, int) {
    if !kind_at(s, p, TokenKind::LParen) {
        (None, p)
    } else {
        column_items(s, skip_ws(s, p + 1), Seq::empty())
    }
}

/// First position at or after `p` that is the end, `WITH` or `;`.
pub open spec fn predicate_end(s: Seq<TokenView>, p: int) -> int
    decreases s.len() - p,
{
    if p < 0 || p >= s.len() || kw_at(s, p, "WITH"@) || kind_at(s, p, TokenKind::SemiColon) {
        p
    } else {
        predicate_end(s, p + 1)
    }
}

/// Text of a token in a filter predicate: quoted words in brackets,
/// whitespace as one space.
pub open spec fn predicate_token_text(t: TokenView) -> Seq<char> {
    if t.kind == TokenKind::Word && t.quote is Some {
        bracketed(t.value)
    } else if t.kind == TokenKind::Whitespace {
        seq![' ']
    } else {
        t.text
    }
}

pub open spec fn predicate_text(s: Seq<TokenView>, a: int, b: int) -> Seq<char>
    decreases b - a,
{
    if a >= b {
        Seq::empty()
    } else {
        predicate_text(s, a, b - 1) + predicate_token_text(s[b - 1])
    }
}

/// The `WHERE` condition: tokens up to `WITH`, `;` or the end, trimmed.
pub open spec fn filter_predicate(s: Seq<TokenView>, p: int) -> (Option<Seq<char>>, int) {
    let e = predicate_end(s, p);
    if e <= p {
        (None, p)
    } else {
        let t = trim(predicate_text(s, p, e));
        (if t.len() == 0 {
            None
        } else {
            Some(t)
        }, e)
    }
}

/// Skips to just past the next `,`, or to the next `)`, or to the end.
pub open spec fn skip_to_comma_or_paren(s: Seq<TokenView>, p: int) -> int
    decreases s.len() - p,
{
    if p < 0 || p >= s.len() {
        p
    } else if kind_at(s, p, TokenKind::Comma) {
        p + 1
    } else if kind_at(s, p, TokenKind::RParen) {
        p
    } else {
        skip_to_comma_or_paren(s, p + 1)
    }
}

/// A number token parsed as `i64`.
pub open spec fn number_i64(s: Seq<TokenView>, p: int) -> (Option<i64>, int) {
    if kind_at(s, p, TokenKind::Number) && parse_i64(s[p].value) is Some {
        (parse_i64(s[p].value), p + 1)
    } else {
        (None, p)
    }
}

/// `NAME = value` inside `WITH (...)`: the value position, if there is an `=`.
pub open spec fn option_value_pos(s: Seq<TokenView>, q: int) -> Option<int> {
    let q1 = skip_ws(s, q + 1);
    if kind_at(s, q1, TokenKind::Eq) {
        Some(skip_ws(s, q1 + 1))
    } else {
        None
    }
}

/// The options inside `WITH (...)` from `p` on.
pub open spec fn with_items(s: Seq<TokenView>, p: int, r: IndexView) -> (IndexView, int)
    decreases s.len() - p,
{
    if p < 0 || p >= s.len() || kind_at(s, p, TokenKind::RParen) {
        (r, p)
    } else {
        let q = skip_ws(s, p);
        proof {
            lemma_skip_ws(s, p);
            lemma_skip_ws(s, q + 1);
        }
        if word_at(s, q, "FILLFACTOR"@) {
            let (r2, q2) = match option_value_pos(s, q) {
                None => (r, skip_ws(s, q + 1)),
                Some(v) => {
                    let (n, q2) = number_i64(s, v);
                    proof {
                        lemma_skip_ws(s, skip_ws(s, q + 1) + 1);
                    }
                    (match n {
                        Some(x) => if x <= 100 {
                            IndexView { fill_factor: Some(x as u8), ..r }
                        } else {
                            r
                        },
                        None => r,
                    }, q2)
                },
            };
            proof {
                lemma_skip_to_comma_or_paren(s, q2);
            }
            with_items(s, skip_to_comma_or_paren(s, q2), r2)
        } else if word_at(s, q, "DATA_COMPRESSION"@) {
            let (r2, q2) = match option_value_pos(s, q) {
                None => (r, skip_ws(s, q + 1)),
                Some(v) => {
                    let (n, q2) = ident(s, v);
                    proof {
                        lemma_skip_ws(s, skip_ws(s, q + 1) + 1);
                    }
                    (match n {
                        Some(x) => IndexView { data_compression: Some(unicode_upper(x)), ..r },
                        None => r,
                    }, q2)
                },
            };
            proof {
                lemma_skip_to_comma_or_paren(s, q2);
            }
            with_items(s, skip_to_comma_or_paren(s, q2), r2)
        } else {
            proof {
                lemma_skip_to_comma_or_paren(s, q);
            }
            with_items(s, skip_to_comma_or_paren(s, q), r)
        }
    }
}

/// `(options)` after `WITH`.
pub open spec fn with_options(s: Seq<TokenView>, p: int, r: IndexView) -> (IndexView, int) {
    if !kind_at(s, p, TokenKind::LParen) {
        (r, p)
    } else {
        let (r2, q) = with_items(s, skip_ws(s, p + 1), r);
        (r2, if kind_at(s, q, TokenKind::RParen) {
            q + 1
        } else {
            q
        })
    }
}

/// The clauses after the key columns: `INCLUDE`, `WHERE`, `WITH`, up to `;`.
pub open spec fn index_clauses(s: Seq<TokenView>, p: int, r: IndexView) -> IndexView
    decreases s.len() - p,
{
    if p < 0 || p >= s.len() {
        r
    } else {
        let q = skip_ws(s, p);
        proof {
            lemma_skip_ws(s, p);
            lemma_skip_ws(s, q + 1);
        }
        if q >= s.len() {
            r
        } else if kw_at(s, q, "INCLUDE"@) {
            let (cols, q2) = column_list(s, skip_ws(s, q + 1));
            proof {
                lemma_column_list_pos(s, skip_ws(s, q + 1));
            }
            index_clauses(s, q2, match cols {
                Some(c) => IndexView { include_columns: c, ..r },
                None => r,
            })
        } else if kw_at(s, q, "WHERE"@) {
            let (pred, q2) = filter_predicate(s, skip_ws(s, q + 1));
            proof {
                lemma_predicate_end(s, skip_ws(s, q + 1));
            }
            index_clauses(s, q2, match pred {
                Some(x) => IndexView { filter_predicate: Some(x), ..r },
                None => r,
            })
        } else if kw_at(s, q, "WITH"@) {
            let (r2, q2) = with_options(s, skip_ws(s, q + 1), r);
            proof {
                lemma_with_options_pos(s, skip_ws(s, q + 1), r);
            }
            index_clauses(s, q2, r2)
        } else if kind_at(s, q, TokenKind::SemiColon) {
            r
        } else {
            index_clauses(s, q + 1, r)
        }
    }
}

pub open spec fn index_start(
    name: Seq<char>,
    schema: Seq<char>,
    table: Seq<char>,
    cols: Seq<Seq<char>>,
    uniq: bool,
    clus: bool,
) -> IndexView {
    IndexView {
        name,
        table_schema: schema,
        table_name: table,
        columns: cols,
        include_columns: Seq::empty(),
        is_unique: uniq,
        is_clustered: clus,
        fill_factor: None,
        filter_predicate: None,
        data_compression: None,
    }
}

pub open spec fn create_index(s: Seq<TokenView>) -> Option<IndexView> {
    let p0 = skip_ws(s, 0);
    if !kw_at(s, p0, "CREATE"@) {
        None
    } else {
        let p1 = skip_ws(s, p0 + 1);
        let uniq = kw_at(s, p1, "UNIQUE"@);
        let p2 = if uniq {
            skip_ws(s, p1 + 1)
        } else {
            p1
        };
        let clus = word_at(s, p2, "CLUSTERED"@);
        let has_clustering = clus || word_at(s, p2, "NONCLUSTERED"@);
        let p3 = if has_clustering {
            skip_ws(s, p2 + 1)
        } else {
            p2
        };
        if !kw_at(s, p3, "INDEX"@) || !has_clustering {
            None
        } else {
            let (name, p5) = ident(s, skip_ws(s, p3 + 1));
            match name {
                None => None,
                Some(n) => {
                    let p6 = skip_ws(s, p5);
                    if !kw_at(s, p6, "ON"@) {
                        None
                    } else {
                        let (tn, p7) = schema_qualified_name(s, skip_ws(s, p6 + 1));
                        match tn {
                            None => None,
                            Some((sc, tb)) => {
                                let (cols, p9) = column_list(s, skip_ws(s, p7));
                                match cols {
                                    None => None,
                                    Some(c) => Some(
                                        index_clauses(
                                            s,
                                            skip_ws(s, p9),
                                            index_start(n, sc, tb, c, uniq, clus),
                                        ),
                                    ),
                                }
                            },
                        }
                    }
                }
            }
        }
    }
}

/// `CREATE [CLUSTERED|NONCLUSTERED] COLUMNSTORE INDEX name ON [schema.]table
/// [(columns)] [WHERE ...] [WITH (...)]`: the column list is kept for a
/// nonclustered index only; the filter and `DATA_COMPRESSION` are read as for
/// other indexes.
pub open spec fn create_columnstore_index(s: Seq<TokenView>) -> Option<IndexView> {
    let p0 = skip_ws(s, 0);
    if !kw_at(s, p0, "CREATE"@) {
        None
    } else {
        let p1 = skip_ws(s, p0 + 1);
        let clus = word_at(s, p1, "CLUSTERED"@);
        let p2 = if clus || word_at(s, p1, "NONCLUSTERED"@) {
            skip_ws(s, p1 + 1)
        } else {
            p1
        };
        let p3 = skip_ws(s, p2 + 1);
        if !word_at(s, p2, "COLUMNSTORE"@) || !kw_at(s, p3, "INDEX"@) {
            None
        } else {
            let (name, p5) = ident(s, skip_ws(s, p3 + 1));
            let p6 = skip_ws(s, p5);
            match name {
                None => None,
                Some(n) => if !kw_at(s, p6, "ON"@) {
                    None
                } else {
                    let (tn, p7) = schema_qualified_name(s, skip_ws(s, p6 + 1));
                    match tn {
                        None => None,
                        Some((sc, tb)) => {
                            let p8 = skip_ws(s, p7);
                            let (cols, p9) = column_list(s, p8);
                            let (c, p10) = match cols {
                                Some(c) => (c, p9),
                                None => (Seq::empty(), p8),
                            };
                            Some(
                                index_clauses(
                                    s,
                                    skip_ws(s, p10),
                                    index_start(n, sc, tb, if clus { Seq::empty() } else { c }, false, clus),
                                ),
                            )
                        },
                    }
                },
            }
        }
    }
}

/// The condition after the first `WHERE` among the tokens from `p` on.
pub open spec fn where_predicate(s: Seq<TokenView>, p: int) -> Option<Seq<char>>
    decreases s.len() - p,
{
    if p < 0 || p >= s.len() {
        None
    } else if kw_at(s, p, "WHERE"@) {
        filter_predicate(s, skip_ws(s, p + 1)).0
    } else {
        where_predicate(s, p + 1)
    }
}

// ---------------------------------------------------------------------------
// Lemmas
// ---------------------------------------------------------------------------

pub proof fn lemma_skip_to_comma_or_paren(s: Seq<TokenView>, p: int)
    requires
        0 <= p,
    ensures
        p <= skip_to_comma_or_paren(s, p),
        p <= s.len() ==> skip_to_comma_or_paren(s, p) <= s.len(),
        p < s.len() && !kind_at(s, p, TokenKind::RParen) ==> p < skip_to_comma_or_paren(s, p),
    decreases s.len() - p,
{
    if p < s.len() && !kind_at(s, p, TokenKind::Comma) && !kind_at(s, p, TokenKind::RParen) {
        lemma_skip_to_comma_or_paren(s, p + 1);
    }
}

pub proof fn lemma_column_items_pos(s: Seq<TokenView>, p: int, cols: Seq<Seq<char>>)
    requires
        0 <= p,
    ensures
        p <= column_items(s, p, cols).1,
        p <= s.len() ==> column_items(s, p, cols).1 <= s.len(),
    decreases s.len() - p,
{
    if p < s.len() && !kind_at(s, p, TokenKind::RParen) {
        lemma_skip_ws(s, p);
        let q = skip_ws(s, p);
        let (name, q1) = ident(s, q);
        if let Some(n) = name {
            lemma_skip_ws(s, q1);
            let q2 = skip_ws(s, q1);
            lemma_skip_ws(s, q2 + 1);
            let q3 = if kw_at(s, q2, "ASC"@) || kw_at(s, q2, "DESC"@) {
                skip_ws(s, q2 + 1)
            } else {
                q2
            };
            lemma_skip_ws(s, q3 + 1);
            if kind_at(s, q3, TokenKind::Comma) {
                lemma_column_items_pos(s, skip_ws(s, q3 + 1), cols.push(n));
            } else if !kind_at(s, q3, TokenKind::RParen) {
                lemma_column_items_pos(s, adv(s, q3), cols.push(n));
            }
        }
    }
}

pub proof fn lemma_column_list_pos(s: Seq<TokenView>, p: int)
    requires
        0 <= p,
    ensures
        p <= column_list(s, p).1,
        p <= s.len() ==> column_list(s, p).1 <= s.len(),
{
    if kind_at(s, p, TokenKind::LParen) {
        lemma_skip_ws(s, p + 1);
        lemma_column_items_pos(s, skip_ws(s, p + 1), Seq::empty());
    }
}

pub proof fn lemma_predicate_end(s: Seq<TokenView>, p: int)
    requires
        0 <= p,
    ensures
        p <= predicate_end(s, p),
        p <= s.len() ==> predicate_end(s, p) <= s.len(),
    decreases s.len() - p,
{
    if p < s.len() && !kw_at(s, p, "WITH"@) && !kind_at(s, p, TokenKind::SemiColon) {
        lemma_predicate_end(s, p + 1);
    }
}

pub proof fn lemma_with_items_pos(s: Seq<TokenView>, p: int, r: IndexView)
    requires
        0 <= p,
    ensures
        p <= with_items(s, p, r).1,
        p <= s.len() ==> with_items(s, p, r).1 <= s.len(),
    decreases s.len() - p,
{
    if p < s.len() && !kind_at(s, p, TokenKind::RParen) {
        let q = skip_ws(s, p);
        lemma_skip_ws(s, p);
        lemma_skip_ws(s, q + 1);
        if word_at(s, q, "FILLFACTOR"@) || word_at(s, q, "DATA_COMPRESSION"@) {
            lemma_skip_ws(s, skip_ws(s, q + 1) + 1);
            let q2 = match option_value_pos(s, q) {
                None => skip_ws(s, q + 1),
                Some(v) => if word_at(s, q, "FILLFACTOR"@) {
                    number_i64(s, v).1
                } else {
                    ident(s, v).1
                },
            };
            lemma_skip_to_comma_or_paren(s, q2);
            let r2 = if word_at(s, q, "FILLFACTOR"@) {
                match option_value_pos(s, q) {
                    None => r,
                    Some(v) => match number_i64(s, v).0 {
                        Some(x) => if x <= 100 {
                            IndexView { fill_factor: Some(x as u8), ..r }
                        } else {
                            r
                        },
                        None => r,
                    },
                }
            } else {
                match option_value_pos(s, q) {
                    None => r,
                    Some(v) => match ident(s, v).0 {
                        Some(x) => IndexView { data_compression: Some(unicode_upper(x)), ..r },
                        None => r,
                    },
                }
            };
            lemma_with_items_pos(s, skip_to_comma_or_paren(s, q2), r2);
        } else {
            lemma_skip_to_comma_or_paren(s, q);
            lemma_with_items_pos(s, skip_to_comma_or_paren(s, q), r);
        }
    }
}

pub proof fn lemma_with_options_pos(s: Seq<TokenView>, p: int, r: IndexView)
    requires
        0 <= p,
    ensures
        p <= with_options(s, p, r).1,
        p <= s.len() ==> with_options(s, p, r).1 <= s.len(),
{
    if kind_at(s, p, TokenKind::LParen) {
        lemma_skip_ws(s, p + 1);
        lemma_with_items_pos(s, skip_ws(s, p + 1), r);
    }
}

// ---------------------------------------------------------------------------
// Executable parser
// ---------------------------------------------------------------------------

fn finish_columns_exec(toks: &Vec<SqlToken>, p: usize, cols: Vec<String>) -> (r: (Option<Vec<String>>, usize))
    requires
        p <= toks.len(),
    ensures
        (r.0.deep_view(), r.1 as int) == finish_columns(views(toks@), p as int, cols.deep_view()),
        p <= r.1 <= toks.len(),
{
    let p2 = if check_kind(toks, p, TokenKind::RParen) {
        p + 1
    } else {
        p
    };
    if cols.len() == 0 {
        (None, p2)
    } else {
        (Some(cols), p2)
    }
}

fn column_list_exec(toks: &Vec<SqlToken>, p: usize) -> (r: (Option<Vec<String>>, usize))
    requires
        p <= toks.len(),
    ensures
        (r.0.deep_view(), r.1 as int) == column_list(views(toks@), p as int),
        p <= r.1 <= toks.len(),
{
    let ghost s = views(toks@);
    if !check_kind(toks, p, TokenKind::LParen) {
        return (None, p);
    }
    let mut pos = skip_whitespace(toks, p + 1);
    let mut cols: Vec<String> = Vec::new();
    assert(cols.deep_view() =~= Seq::<Seq<char>>::empty());
    loop
        invariant
            s == views(toks@),
            p < pos <= toks.len(),
            column_list(s, p as int) == column_items(s, pos as int, cols.deep_view()),
        decreases toks.len() - pos,
    {
        if pos >= toks.len() || check_kind(toks, pos, TokenKind::RParen) {
            return finish_columns_exec(toks, pos, cols);
        }
        let q = skip_whitespace(toks, pos);
        let (name, q1) = parse_identifier(toks, q);
        match name {
            None => {
                return finish_columns_exec(toks, q1, cols);
            },
            Some(n) => {
                let q2 = skip_whitespace(toks, q1);
                let q3 = if check_keyword(toks, q2, "ASC") || check_keyword(toks, q2, "DESC") {
                    skip_whitespace(toks, q2 + 1)
                } else {
                    q2
                };
                let ghost before = cols.deep_view();
                cols.push(n);
                assert(cols.deep_view() =~= before.push(n@));
                if check_kind(toks, q3, TokenKind::Comma) {
                    pos = skip_whitespace(toks, q3 + 1);
                } else if check_kind(toks, q3, TokenKind::RParen) {
                    return finish_columns_exec(toks, q3, cols);
                } else {
                    pos = advance(toks, q3);
                }
            },
        }
    }
}

fn predicate_token_push(out: &mut String, t: &SqlToken)
    ensures
        final(out)@ == old(out)@ + predicate_token_text(t@),
{
    let ghost start = out@;
    if matches!(t.kind, TokenKind::Word) && t.quote.is_some() {
        push_char(out, '[');
        append_string(out, &t.value);
        push_char(out, ']');
        assert(out@ =~= start + bracketed(t.value@));
    } else if matches!(t.kind, TokenKind::Whitespace) {
        push_char(out, ' ');
        assert(out@ =~= start + seq![' ']);
    } else {
        append_string(out, &t.text);
    }
}

fn filter_predicate_exec(toks: &Vec<SqlToken>, p: usize) -> (r: (Option<String>, usize))
    requires
        p <= toks.len(),
    ensures
        (opt_str(r.0), r.1 as int) == filter_predicate(views(toks@), p as int),
        p <= r.1 <= toks.len(),
{
    let ghost s = views(toks@);
    let mut e: usize = p;
    while e < toks.len() && !check_keyword(toks, e, "WITH") && !check_kind(toks, e, TokenKind::SemiColon)
        invariant
            s == views(toks@),
            p <= e <= toks.len(),
            predicate_end(s, p as int) == predicate_end(s, e as int),
        decreases toks.len() - e,
    {
        e = e + 1;
    }
    if e <= p {
        return (None, p);
    }
    let mut out = String::new();
    let mut i: usize = p;
    while i < e
        invariant
            s == views(toks@),
            p <= i <= e <= toks.len(),
            out@ == predicate_text(s, p as int, i as int),
        decreases e - i,
    {
        assert(s[i as int] == toks@[i as int]@);
        predicate_token_push(&mut out, &toks[i]);
        i = i + 1;
    }
    let v = chars_of(out.as_str());
    let t = trim_set(&v, CharSet::Whitespace);
    if t.len() == 0 {
        (None, e)
    } else {
        (Some(string_from_chars(&t)), e)
    }
}

fn skip_to_comma_or_paren_exec(toks: &Vec<SqlToken>, p: usize) -> (r: usize)
    requires
        p <= toks.len(),
    ensures
        r == skip_to_comma_or_paren(views(toks@), p as int),
        p <= r <= toks.len(),
{
    let ghost s = views(toks@);
    let mut i: usize = p;
    while i < toks.len() && !check_kind(toks, i, TokenKind::Comma) && !check_kind(toks, i, TokenKind::RParen)
        invariant
            s == views(toks@),
            p <= i <= toks.len(),
            skip_to_comma_or_paren(s, p as int) == skip_to_comma_or_paren(s, i as int),
        decreases toks.len() - i,
    {
        i = i + 1;
    }
    if i < toks.len() && check_kind(toks, i, TokenKind::Comma) {
        i + 1
    } else {
        i
    }
}

fn option_value_pos_exec(toks: &Vec<SqlToken>, q: usize) -> (r: Option<usize>)
    requires
        q < toks.len(),
    ensures
        match r {
            Some(v) => option_value_pos(views(toks@), q as int) == Some(v as int) && q < v <= toks.len(),
            None => option_value_pos(views(toks@), q as int) is None,
        },
{
    let q1 = skip_whitespace(toks, q + 1);
    if check_kind(toks, q1, TokenKind::Eq) {
        Some(skip_whitespace(toks, q1 + 1))
    } else {
        None
    }
}

fn with_options_exec(toks: &Vec<SqlToken>, p: usize, r: &mut TokenParsedIndex) -> (out: usize)
    requires
        p <= toks.len(),
    ensures
        (final(r)@, out as int) == with_options(views(toks@), p as int, old(r)@),
        p <= out <= toks.len(),
{
    let ghost s = views(toks@);
    if !check_kind(toks, p, TokenKind::LParen) {
        return p;
    }
    let start = skip_whitespace(toks, p + 1);
    let mut pos: usize = start;
    let ghost r0 = r@;
    while pos < toks.len() && !check_kind(toks, pos, TokenKind::RParen)
        invariant
            s == views(toks@),
            start <= pos <= toks.len(),
            with_items(s, start as int, r0) == with_items(s, pos as int, r@),
        decreases toks.len() - pos,
    {
        let q = skip_whitespace(toks, pos);
        proof {
            lemma_skip_to_comma_or_paren(s, q as int);
        }
        if check_word_ci(toks, q, "FILLFACTOR") {
            let mut q2 = skip_whitespace(toks, q + 1);
            match option_value_pos_exec(toks, q) {
                None => {},
                Some(v) => {
                    if check_kind(toks, v, TokenKind::Number) {
                        assert(s[v as int] == toks@[v as int]@);
                        match parse_i64_exec(&toks[v].value) {
                            Some(x) => {
                                if x <= 100 {
                                    r.fill_factor = Some(x as u8);
                                }
                                q2 = v + 1;
                            },
                            None => {
                                q2 = v;
                            },
                        }
                    } else {
                        q2 = v;
                    }
                },
            }
            proof {
                lemma_skip_to_comma_or_paren(s, q2 as int);
            }
            pos = skip_to_comma_or_paren_exec(toks, q2);
        } else if check_word_ci(toks, q, "DATA_COMPRESSION") {
            let mut q2 = skip_whitespace(toks, q + 1);
            match option_value_pos_exec(toks, q) {
                None => {},
                Some(v) => {
                    let (n, q3) = parse_identifier(toks, v);
                    match n {
                        Some(x) => {
                            r.data_compression = Some(to_uppercase(x.as_str()));
                        },
                        None => {},
                    }
                    q2 = q3;
                },
            }
            proof {
                lemma_skip_to_comma_or_paren(s, q2 as int);
            }
            pos = skip_to_comma_or_paren_exec(toks, q2);
        } else {
            pos = skip_to_comma_or_paren_exec(toks, q);
        }
    }
    if check_kind(toks, pos, TokenKind::RParen) {
        pos + 1
    } else {
        pos
    }
}

fn index_clauses_exec(toks: &Vec<SqlToken>, p: usize, r: &mut TokenParsedIndex)
    requires
        p <= toks.len(),
    ensures
        final(r)@ == index_clauses(views(toks@), p as int, old(r)@),
{
    let ghost s = views(toks@);
    let ghost r0 = r@;
    let mut pos: usize = p;
    let mut done = false;
    while !done && pos < toks.len()
        invariant
            s == views(toks@),
            pos <= toks.len(),
            done ==> index_clauses(s, p as int, r0) == r@,
            !done ==> index_clauses(s, p as int, r0) == index_clauses(s, pos as int, r@),
        decreases toks.len() - pos + (if done { 0int } else { 1int }),
    {
        let q = skip_whitespace(toks, pos);
        if q >= toks.len() {
            done = true;
        } else if check_keyword(toks, q, "INCLUDE") {
            let (cols, q2) = column_list_exec(toks, skip_whitespace(toks, q + 1));
            match cols {
                Some(c) => {
                    r.include_columns = c;
                },
                None => {},
            }
            pos = q2;
        } else if check_keyword(toks, q, "WHERE") {
            let (pred, q2) = filter_predicate_exec(toks, skip_whitespace(toks, q + 1));
            match pred {
                Some(x) => {
                    r.filter_predicate = Some(x);
                },
                None => {},
            }
            pos = q2;
        } else if check_keyword(toks, q, "WITH") {
            pos = with_options_exec(toks, skip_whitespace(toks, q + 1), r);
        } else if check_kind(toks, q, TokenKind::SemiColon) {
            done = true;
        } else {
            pos = q + 1;
        }
    }
}

/// `CREATE [UNIQUE] CLUSTERED|NONCLUSTERED INDEX`, over tokens.
pub fn parse_create_index(toks: &Vec<SqlToken>) -> (r: Option<TokenParsedIndex>)
    ensures
        opt_index_view(r) == create_index(views(toks@)),
{
    let p0 = skip_whitespace(toks, 0);
    if !check_keyword(toks, p0, "CREATE") {
        return None;
    }
    let p1 = skip_whitespace(toks, p0 + 1);
    let uniq = check_keyword(toks, p1, "UNIQUE");
    let p2 = if uniq {
        skip_whitespace(toks, p1 + 1)
    } else {
        p1
    };
    let clus = check_word_ci(toks, p2, "CLUSTERED");
    let has_clustering = clus || check_word_ci(toks, p2, "NONCLUSTERED");
    let p3 = if has_clustering {
        skip_whitespace(toks, p2 + 1)
    } else {
        p2
    };
    if !check_keyword(toks, p3, "INDEX") || !has_clustering {
        return None;
    }
    let (name, p5) = parse_identifier(toks, skip_whitespace(toks, p3 + 1));
    let n = match name {
        None => {
            return None;
        },
        Some(n) => n,
    };
    let p6 = skip_whitespace(toks, p5);
    if !check_keyword(toks, p6, "ON") {
        return None;
    }
    let (tn, p7) = parse_schema_qualified_name(toks, skip_whitespace(toks, p6 + 1));
    let (sc, tb) = match tn {
        None => {
            return None;
        },
        Some(x) => x,
    };
    let (cols, p9) = column_list_exec(toks, skip_whitespace(toks, p7));
    let c = match cols {
        None => {
            return None;
        },
        Some(c) => c,
    };
    let mut r = TokenParsedIndex {
        name: n,
        table_schema: sc,
        table_name: tb,
        columns: c,
        include_columns: Vec::new(),
        is_unique: uniq,
        is_clustered: clus,
        fill_factor: None,
        filter_predicate: None,
        data_compression: None,
    };
    assert(r.include_columns.deep_view() =~= Seq::<Seq<char>>::empty());
    index_clauses_exec(toks, skip_whitespace(toks, p9), &mut r);
    Some(r)
}

/// Parses a `CREATE [UNIQUE] CLUSTERED|NONCLUSTERED INDEX` text.
pub fn parse_create_index_tokens(sql: &str) -> (r: Option<TokenParsedIndex>)
    ensures
        match lex_sql(sql@) {
            Some(s) => opt_index_view(r) == create_index(s),
            None => r is None,
        },
{
    match tokenize(sql) {
        Some(toks) => parse_create_index(&toks),
        None => None,
    }
}

/// `CREATE [CLUSTERED|NONCLUSTERED] COLUMNSTORE INDEX`, over tokens.
pub fn parse_create_columnstore_index_tokens_with_tokens(toks: &Vec<SqlToken>) -> (r: Option<TokenParsedIndex>)
    ensures
        opt_index_view(r) == create_columnstore_index(views(toks@)),
{
    let p0 = skip_whitespace(toks, 0);
    if !check_keyword(toks, p0, "CREATE") {
        return None;
    }
    let p1 = skip_whitespace(toks, p0 + 1);
    let clus = check_word_ci(toks, p1, "CLUSTERED");
    let p2 = if clus || check_word_ci(toks, p1, "NONCLUSTERED") {
        skip_whitespace(toks, p1 + 1)
    } else {
        p1
    };
    if !check_word_ci(toks, p2, "COLUMNSTORE") {
        return None;
    }
    let p3 = skip_whitespace(toks, p2 + 1);
    if !check_keyword(toks, p3, "INDEX") {
        return None;
    }
    let (name, p5) = parse_identifier(toks, skip_whitespace(toks, p3 + 1));
    let n = match name {
        None => {
            return None;
        },
        Some(n) => n,
    };
    let p6 = skip_whitespace(toks, p5);
    if !check_keyword(toks, p6, "ON") {
        return None;
    }
    let (tn, p7) = parse_schema_qualified_name(toks, skip_whitespace(toks, p6 + 1));
    let (sc, tb) = match tn {
        None => {
            return None;
        },
        Some(x) => x,
    };
    let p8 = skip_whitespace(toks, p7);
    let (cols, p9) = column_list_exec(toks, p8);
    let (c, p10) = match cols {
        Some(c) => (c, p9),
        None => (Vec::new(), p8),
    };
    let c = if clus {
        Vec::new()
    } else {
        c
    };
    let mut r = TokenParsedIndex {
        name: n,
        table_schema: sc,
        table_name: tb,
        columns: c,
        include_columns: Vec::new(),
        is_unique: false,
        is_clustered: clus,
        fill_factor: None,
        filter_predicate: None,
        data_compression: None,
    };
    assert(r.include_columns.deep_view() =~= Seq::<Seq<char>>::empty());
    assert(clus ==> r.columns.deep_view() =~= Seq::<Seq<char>>::empty());
    index_clauses_exec(toks, skip_whitespace(toks, p10), &mut r);
    Some(r)
}

/// Parses a `CREATE [CLUSTERED|NONCLUSTERED] COLUMNSTORE INDEX` text.
pub fn parse_create_columnstore_index_tokens(sql: &str) -> (r: Option<TokenParsedIndex>)
    ensures
        match lex_sql(sql@) {
            Some(s) => opt_index_view(r) == create_columnstore_index(s),
            None => r is None,
        },
{
    match tokenize(sql) {
        Some(toks) => parse_create_columnstore_index_tokens_with_tokens(&toks),
        None => None,
    }
}

/// The condition of a filtered index: the text after the first `WHERE`, up
/// to `WITH`, `;` or the end.
pub fn index_filter_predicate(toks: &Vec<SqlToken>) -> (r: Option<String>)
    ensures
        opt_str(r) == where_predicate(views(toks@), 0),
{
    let ghost s = views(toks@);
    let mut i: usize = 0;
    while i < toks.len()
        invariant
            s == views(toks@),
            i <= toks.len(),
            where_predicate(s, 0) == where_predicate(s, i as int),
        decreases toks.len() - i,
    {
        if check_keyword(toks, i, "WHERE") {
            proof { lemma_skip_ws(s, i + 1); }
            let q = skip_whitespace(toks, i + 1);
            return filter_predicate_exec(toks, q).0;
        }
        i = i + 1;
    }
    None
}

/// The condition of a filtered index, read from its text.
pub fn extract_index_filter_predicate_tokenized(sql: &str) -> (r: Option<String>)
    ensures
        match lex_sql(sql@) {
            Some(s) => opt_str(r) == where_predicate(s, 0),
            None => r is None,
        },
{
    match tokenize(sql) {
        Some(toks) => index_filter_predicate(&toks),
        None => None,
    }
}

} // verus!
