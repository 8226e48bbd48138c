//! Constraints: `ALTER TABLE t [WITH CHECK|NOCHECK] ADD CONSTRAINT name ...` and
//! table-level `[CONSTRAINT name] PRIMARY KEY|UNIQUE|FOREIGN KEY|CHECK ...`.

use vstd::prelude::*;
use crate::text::{push_char, append_string, str_to_string, trim};
use crate::lexer::{SqlToken, TokenKind, TokenView, views, lex_sql, tokenize};
use crate::cursor::{
    skip_ws, kw_at, word_at, kind_at, ident, adv, schema_qualified_name, lemma_skip_ws,
    skip_whitespace, check_keyword, check_word_ci, check_kind, parse_identifier,
    parse_schema_qualified_name, advance, pair_view,
};
use crate::column_parser::trimmed;
use crate::storage_parser::strings_view;

verus! {

/// A key column and its sort order.
#[derive(Debug, Clone)]
pub struct TokenParsedConstraintColumn {
    /// Column name.
    pub name: String,
    /// Sorted descending (`DESC`); ascending is the default.
    pub descending: bool,
}

/// A parsed constraint.
#[derive(Debug, Clone)]
pub enum TokenParsedConstraint {
    PrimaryKey { name: String, columns: Vec<TokenParsedConstraintColumn>, is_clustered: bool },
    Unique { name: String, columns: Vec<TokenParsedConstraintColumn>, is_clustered: bool },
    ForeignKey {
        name: String,
        columns: Vec<String>,
        referenced_table: String,
        referenced_columns: Vec<String>,
    },
    Check { name: String, expression: String },
}

/// `ALTER TABLE ... ADD CONSTRAINT`.
#[derive(Debug, Clone)]
pub struct TokenParsedAlterTableConstraint {
    /// Schema of the table (`dbo` when not given).
    pub table_schema: String,
    /// Table name.
    pub table_name: String,
    /// The constraint added.
    pub constraint: TokenParsedConstraint,
}

pub enum ConstraintView {
    PrimaryKey { name: Seq<char>, columns: Seq<(Seq<char>, bool)>, is_clustered: bool },
    Unique { name: Seq<char>, columns: Seq<(Seq<char>, bool)>, is_clustered: bool },
    ForeignKey {
        name: Seq<char>,
        columns: Seq<Seq<char>>,
        referenced_table: Seq<char>,
        referenced_columns: Seq<Seq<char>>,
    },
    Check { name: Seq<char>, expression: Seq<char> },
}

pub struct AlterTableConstraintView {
    pub table_schema: Seq<char>,
    pub table_name: Seq<char>,
    pub constraint: ConstraintView,
}

impl View for TokenParsedConstraintColumn {
    type V = (Seq<char>, bool);

    open spec fn view(&self) -> (Seq<char>, bool) {
        (self.name@, self.descending)
    }
}

pub open spec fn key_columns_view(v: Seq<TokenParsedConstraintColumn>) -> Seq<(Seq<char>, bool)> {
    v.map_values(|c: TokenParsedConstraintColumn| c@)
}

impl View for TokenParsedConstraint {
    type V = ConstraintView;

    open spec fn view(&self) -> ConstraintView {
        match self {
            TokenParsedConstraint::PrimaryKey { name, columns, is_clustered } => ConstraintView::PrimaryKey {
                name: name@,
                columns: key_columns_view(columns@),
                is_clustered: *is_clustered,
            },
            TokenParsedConstraint::Unique { name, columns, is_clustered } => ConstraintView::Unique {
                name: name@,
                columns: key_columns_view(columns@),
                is_clustered: *is_clustered,
            },
            TokenParsedConstraint::ForeignKey {
                name,
                columns,
                referenced_table,
                referenced_columns,
            } => ConstraintView::ForeignKey {
                name: name@,
                columns: strings_view(columns@),
                referenced_table: referenced_table@,
                referenced_columns: strings_view(referenced_columns@),
            },
            TokenParsedConstraint::Check { name, expression } => ConstraintView::Check {
                name: name@,
                expression: expression@,
            },
        }
    }
}

impl View for TokenParsedAlterTableConstraint {
    type V = AlterTableConstraintView;

    open spec fn view(&self) -> AlterTableConstraintView {
        AlterTableConstraintView {
            table_schema: self.table_schema@,
            table_name: self.table_name@,
            constraint: self.constraint@,
        }
    }
}

pub open spec fn opt_constraint(r: Option<TokenParsedConstraint>) -> Option<ConstraintView> {
    match r {
        Some(x) => Some(x@),
        None => None,
    }
}

pub open spec fn opt_alter_constraint(r: Option<TokenParsedAlterTableConstraint>) -> Option<
    AlterTableConstraintView,
> {
    match r {
        Some(x) => Some(x@),
        None => None,
    }
}

// ---------------------------------------------------------------------------
// Specification
// ---------------------------------------------------------------------------

/// The printed text of the tokens from `p` up to the `)` closing `depth`
/// parentheses.
pub open spec fn text_body(s: Seq<TokenView>, p: int, depth: nat, acc: Seq<char>) -> (Seq<char>, int)
    decreases s.len() - p,
{
    if p < 0 || p >= s.len() || depth == 0 {
        (acc, p)
    } else {
        let t = s[p];
        let d2: nat = if t.kind == TokenKind::LParen {
            depth + 1
        } else if t.kind == TokenKind::RParen {
            (depth - 1) as nat
        } else {
            depth
        };
        text_body(s, p + 1, d2, if d2 > 0 {
            acc + t.text
        } else {
            acc
        })
    }
}

/// The trimmed, non-empty content of the parentheses at `p`.
pub open spec fn paren_text(s: Seq<TokenView>, p: int) -> Option<(Seq<char>, int)> {
    if !kind_at(s, p, TokenKind::LParen) {
        None
    } else {
        let (c, e) = text_body(s, p + 1, 1, Seq::empty());
        if trim(c).len() == 0 {
            None
        } else {
            Some((trim(c), e))
        }
    }
}

/// The end of a column list: past its `)`, and `None` when it is empty.
pub open spec fn close_list<A>(s: Seq<TokenView>, acc: Seq<A>, p: int) -> Option<(Seq<A>, int)> {
    if acc.len() == 0 {
        None
    } else if kind_at(s, p, TokenKind::RParen) {
        Some((acc, p + 1))
    } else {
        Some((acc, p))
    }
}

/// Key columns `name [ASC|DESC], ...` from `p`; a missing name fails the list.
pub open spec fn key_column_list(s: Seq<TokenView>, p: int, acc: Seq<(Seq<char>, bool)>) -> Option<
    (Seq<(Seq<char>, bool)>, int),
>
    decreases s.len() - p,
{
    if p < 0 || p >= s.len() || kind_at(s, p, TokenKind::RParen) {
        close_list(s, acc, p)
    } else {
        let a = skip_ws(s, p);
        proof {
            lemma_skip_ws(s, p);
        }
        let (n, b) = ident(s, a);
        match n {
            None => None,
            Some(name) => {
                let c = skip_ws(s, b);
                proof {
                    lemma_skip_ws(s, b);
                    lemma_skip_ws(s, c + 1);
                }
                let (desc, d) = if kw_at(s, c, "ASC"@) {
                    (false, skip_ws(s, c + 1))
                } else if kw_at(s, c, "DESC"@) {
                    (true, skip_ws(s, c + 1))
                } else {
                    (false, c)
                };
                let acc2 = acc.push((name, desc));
                proof {
                    lemma_skip_ws(s, d + 1);
                }
                if kind_at(s, d, TokenKind::Comma) {
                    key_column_list(s, skip_ws(s, d + 1), acc2)
                } else if kind_at(s, d, TokenKind::RParen) {
                    close_list(s, acc2, d)
                } else {
                    key_column_list(s, adv(s, d), acc2)
                }
            },
        }
    }
}

/// `(col [ASC|DESC], ...)` at `p`.
pub open spec fn key_columns(s: Seq<TokenView>, p: int) -> Option<(Seq<(Seq<char>, bool)>, int)> {
    if !kind_at(s, p, TokenKind::LParen) {
        None
    } else {
        key_column_list(s, skip_ws(s, p + 1), Seq::empty())
    }
}

/// Column names `name, ...` from `p`; a missing name ends the list.
pub open spec fn name_list(s: Seq<TokenView>, p: int, acc: Seq<Seq<char>>) -> (Seq<Seq<char>>, int)
    decreases s.len() - p,
{
    if p < 0 || p >= s.len() || kind_at(s, p, TokenKind::RParen) {
        (acc, p)
    } else {
        let a = skip_ws(s, p);
        proof {
            lemma_skip_ws(s, p);
        }
        let (n, b) = ident(s, a);
        match n {
            None => (acc, a),
            Some(name) => {
                let c = skip_ws(s, b);
                proof {
                    lemma_skip_ws(s, b);
                    lemma_skip_ws(s, c + 1);
                }
                let acc2 = acc.push(name);
                if kind_at(s, c, TokenKind::Comma) {
                    name_list(s, skip_ws(s, c + 1), acc2)
                } else if kind_at(s, c, TokenKind::RParen) {
                    (acc2, c)
                } else {
                    name_list(s, adv(s, c), acc2)
                }
            },
        }
    }
}

/// `(col, ...)` at `p`.
pub open spec fn name_columns(s: Seq<TokenView>, p: int) -> Option<(Seq<Seq<char>>, int)> {
    if !kind_at(s, p, TokenKind::LParen) {
        None
    } else {
        let (acc, e) = name_list(s, skip_ws(s, p + 1), Seq::empty());
        close_list(s, acc, e)
    }
}

/// `[schema].[table]`.
pub open spec fn bracketed_table(schema: Seq<char>, table: Seq<char>) -> Seq<char> {
    seq!['['] + schema + "].["@ + table + seq![']']
}

/// The constraint at `p` (its keyword), named `name`.
pub open spec fn constraint_body(s: Seq<TokenView>, p: int, name: Seq<char>) -> Option<ConstraintView> {
    if kw_at(s, p, "PRIMARY"@) {
        let a = skip_ws(s, p + 1);
        if !kw_at(s, a, "KEY"@) {
            None
        } else {
            let b = skip_ws(s, a + 1);
            let (clustered, c) = if kw_at(s, b, "CLUSTERED"@) {
                (true, skip_ws(s, b + 1))
            } else if word_at(s, b, "NONCLUSTERED"@) {
                (false, skip_ws(s, b + 1))
            } else {
                (true, b)
            };
            match key_columns(s, c) {
                None => None,
                Some((cols, _e)) => Some(
                    ConstraintView::PrimaryKey { name, columns: cols, is_clustered: clustered },
                ),
            }
        }
    } else if kw_at(s, p, "UNIQUE"@) {
        let b = skip_ws(s, p + 1);
        let (clustered, c) = if kw_at(s, b, "CLUSTERED"@) {
            (true, skip_ws(s, b + 1))
        } else if word_at(s, b, "NONCLUSTERED"@) {
            (false, skip_ws(s, b + 1))
        } else {
            (false, b)
        };
        match key_columns(s, c) {
            None => None,
            Some((cols, _e)) => Some(
                ConstraintView::Unique { name, columns: cols, is_clustered: clustered },
            ),
        }
    } else if kw_at(s, p, "FOREIGN"@) {
        let a = skip_ws(s, p + 1);
        if !kw_at(s, a, "KEY"@) {
            None
        } else {
            match name_columns(s, skip_ws(s, a + 1)) {
                None => None,
                Some((cols, c)) => {
                    let d = skip_ws(s, c);
                    if !kw_at(s, d, "REFERENCES"@) {
                        None
                    } else {
                        let (t, e) = schema_qualified_name(s, skip_ws(s, d + 1));
                        match t {
                            None => None,
                            Some((rs, rt)) => match name_columns(s, skip_ws(s, e)) {
                                None => None,
                                Some((rcols, _f)) => Some(
                                    ConstraintView::ForeignKey {
                                        name,
                                        columns: cols,
                                        referenced_table: bracketed_table(rs, rt),
                                        referenced_columns: rcols,
                                    },
                                ),
                            },
                        }
                    }
                },
            }
        }
    } else if kw_at(s, p, "CHECK"@) {
        match paren_text(s, skip_ws(s, p + 1)) {
            None => None,
            Some((e, _q)) => Some(ConstraintView::Check { name, expression: e }),
        }
    } else {
        None
    }
}

/// Position after `ALTER TABLE`, and the table name.
pub open spec fn alter_table_name(s: Seq<TokenView>) -> (Option<(Seq<char>, Seq<char>)>, int) {
    let p0 = skip_ws(s, 0);
    if !kw_at(s, p0, "ALTER"@) {
        (None, p0)
    } else {
        let p1 = skip_ws(s, p0 + 1);
        if !kw_at(s, p1, "TABLE"@) {
            (None, p1)
        } else {
            schema_qualified_name(s, skip_ws(s, p1 + 1))
        }
    }
}

/// Past an optional `WITH CHECK` / `WITH NOCHECK`.
pub open spec fn skip_with_check(s: Seq<TokenView>, p: int) -> int {
    if kw_at(s, p, "WITH"@) {
        let a = skip_ws(s, p + 1);
        if kw_at(s, a, "CHECK"@) || word_at(s, a, "NOCHECK"@) {
            skip_ws(s, a + 1)
        } else {
            a
        }
    } else {
        p
    }
}

/// `ALTER TABLE t [WITH CHECK|NOCHECK] ADD CONSTRAINT name <constraint>`.
pub open spec fn alter_add_constraint(s: Seq<TokenView>) -> Option<AlterTableConstraintView> {
    let (t, p2) = alter_table_name(s);
    match t {
        None => None,
        Some((ts, tn)) => {
            let p3 = skip_with_check(s, skip_ws(s, p2));
            let p4 = skip_ws(s, p3 + 1);
            if !kw_at(s, p3, "ADD"@) || !kw_at(s, p4, "CONSTRAINT"@) {
                None
            } else {
                let (n, p5) = ident(s, skip_ws(s, p4 + 1));
                match n {
                    None => None,
                    Some(name) => match constraint_body(s, skip_ws(s, p5), name) {
                        None => None,
                        Some(c) => Some(
                            AlterTableConstraintView { table_schema: ts, table_name: tn, constraint: c },
                        ),
                    },
                }
            }
        },
    }
}

/// The name an unnamed constraint gets: `PK_`, `UQ_`, `FK_` or `CK_` and the table.
pub open spec fn default_constraint_name(s: Seq<TokenView>, p: int, table: Seq<char>) -> Seq<char> {
    if kw_at(s, p, "PRIMARY"@) {
        "PK_"@ + table
    } else if kw_at(s, p, "UNIQUE"@) {
        "UQ_"@ + table
    } else if kw_at(s, p, "FOREIGN"@) {
        "FK_"@ + table
    } else {
        "CK_"@ + table
    }
}

/// `[CONSTRAINT name] PRIMARY KEY|UNIQUE|FOREIGN KEY|CHECK ...` of table `table`.
pub open spec fn table_constraint(s: Seq<TokenView>, table: Seq<char>) -> Option<ConstraintView> {
    let p0 = skip_ws(s, 0);
    if kw_at(s, p0, "CONSTRAINT"@) {
        let (n, p1) = ident(s, skip_ws(s, p0 + 1));
        match n {
            None => None,
            Some(name) => constraint_body(s, skip_ws(s, p1), name),
        }
    } else {
        constraint_body(s, p0, default_constraint_name(s, p0, table))
    }
}

// ---------------------------------------------------------------------------
// Executable steps
// ---------------------------------------------------------------------------

fn text_body_exec(toks: &Vec<SqlToken>, p: usize) -> (r: (String, usize))
    requires
        p <= toks.len(),
    ensures
        (r.0@, r.1 as int) == text_body(views(toks@), p as int, 1, Seq::empty()),
        p <= r.1 <= toks.len(),
{
    let ghost s = views(toks@);
    let mut pos: usize = p;
    let mut depth: u128 = 1;
    let mut out = String::new();
    while pos < toks.len() && depth > 0
        invariant
            s == views(toks@),
            p <= pos <= toks.len(),
            depth <= pos - p + 1,
            text_body(s, p as int, 1, Seq::empty()) == text_body(s, pos as int, depth as nat, out@),
        decreases toks.len() - pos,
    {
        assert(s[pos as int] == toks@[pos as int]@);
        let t = &toks[pos];
        if matches!(t.kind, TokenKind::LParen) {
            depth = depth + 1;
        } else if matches!(t.kind, TokenKind::RParen) {
            depth = depth - 1;
        }
        if depth > 0 {
            append_string(&mut out, &t.text);
        }
        pos = pos + 1;
    }
    (out, pos)
}

fn paren_text_exec(toks: &Vec<SqlToken>, p: usize) -> (r: Option<(String, usize)>)
    requires
        p <= toks.len(),
    ensures
        match paren_text(views(toks@), p as int) {
            Some((v, e)) => r matches Some((x, q)) && x@ == v && q == e,
            None => r is None,
        },
{
    if !check_kind(toks, p, TokenKind::LParen) {
        return None;
    }
    let (c, e) = text_body_exec(toks, p + 1);
    let t = trimmed(&c);
    if t.unicode_len() == 0 {
        None
    } else {
        Some((t, e))
    }
}

fn key_columns_exec(toks: &Vec<SqlToken>, p: usize) -> (r: Option<Vec<TokenParsedConstraintColumn>>)
    requires
        p <= toks.len(),
    ensures
        match key_columns(views(toks@), p as int) {
            Some((v, _e)) => r matches Some(x) && key_columns_view(x@) == v,
            None => r is None,
        },
{
    let ghost s = views(toks@);
    if !check_kind(toks, p, TokenKind::LParen) {
        return None;
    }
    let start = skip_whitespace(toks, p + 1);
    let mut pos: usize = start;
    let mut cols: Vec<TokenParsedConstraintColumn> = Vec::new();
    proof {
        assert(key_columns_view(cols@) =~= Seq::<(Seq<char>, bool)>::empty());
    }
    loop
        invariant
            s == views(toks@),
            pos <= toks.len(),
            key_columns(s, p as int) == key_column_list(s, start as int, Seq::empty()),
            key_column_list(s, start as int, Seq::empty()) == key_column_list(
                s,
                pos as int,
                key_columns_view(cols@),
            ),
        decreases toks.len() - pos,
    {
        if pos >= toks.len() || check_kind(toks, pos, TokenKind::RParen) {
            let n = cols.len();
            if n == 0 {
                return None;
            }
            return Some(cols);
        }
        let a = skip_whitespace(toks, pos);
        let (n, b) = parse_identifier(toks, a);
        let name = match n {
            Some(x) => x,
            None => return None,
        };
        let c = skip_whitespace(toks, b);
        let (desc, d) = if check_keyword(toks, c, "ASC") {
            (false, skip_whitespace(toks, c + 1))
        } else if check_keyword(toks, c, "DESC") {
            (true, skip_whitespace(toks, c + 1))
        } else {
            (false, c)
        };
        let ghost before = key_columns_view(cols@);
        cols.push(TokenParsedConstraintColumn { name, descending: desc });
        assert(key_columns_view(cols@) =~= before.push((name@, desc)));
        if check_kind(toks, d, TokenKind::Comma) {
            pos = skip_whitespace(toks, d + 1);
        } else if check_kind(toks, d, TokenKind::RParen) {
            return Some(cols);
        } else {
            pos = advance(toks, d);
        }
    }
}

fn name_columns_exec(toks: &Vec<SqlToken>, p: usize) -> (r: Option<(Vec<String>, usize)>)
    requires
        p <= toks.len(),
    ensures
        match name_columns(views(toks@), p as int) {
            Some((v, e)) => r matches Some((x, q)) && strings_view(x@) == v && q == e && q
                <= toks.len(),
            None => r is None,
        },
{
    let ghost s = views(toks@);
    if !check_kind(toks, p, TokenKind::LParen) {
        return None;
    }
    let start = skip_whitespace(toks, p + 1);
    let mut pos: usize = start;
    let mut cols: Vec<String> = Vec::new();
    let mut done = false;
    proof {
        assert(strings_view(cols@) =~= Seq::<Seq<char>>::empty());
    }
    while !done
        invariant
            s == views(toks@),
            pos <= toks.len(),
            done ==> name_list(s, start as int, Seq::empty()) == (strings_view(cols@), pos as int),
            !done ==> name_list(s, start as int, Seq::empty()) == name_list(
                s,
                pos as int,
                strings_view(cols@),
            ),
        decreases toks.len() - pos + (if done {
            0int
        } else {
            1int
        }),
    {
        if pos >= toks.len() || check_kind(toks, pos, TokenKind::RParen) {
            done = true;
        } else {
            let a = skip_whitespace(toks, pos);
            let (n, b) = parse_identifier(toks, a);
            match n {
                None => {
                    pos = a;
                    done = true;
                },
                Some(name) => {
                    let c = skip_whitespace(toks, b);
                    let ghost before = strings_view(cols@);
                    cols.push(name);
                    assert(strings_view(cols@) =~= before.push(name@));
                    if check_kind(toks, c, TokenKind::Comma) {
                        pos = skip_whitespace(toks, c + 1);
                    } else if check_kind(toks, c, TokenKind::RParen) {
                        pos = c;
                        done = true;
                    } else {
                        pos = advance(toks, c);
                    }
                },
            }
        }
    }
    if cols.len() == 0 {
        None
    } else if check_kind(toks, pos, TokenKind::RParen) {
        Some((cols, pos + 1))
    } else {
        Some((cols, pos))
    }
}

fn clustered_exec(toks: &Vec<SqlToken>, b: usize, default: bool) -> (r: (bool, usize))
    requires
        b <= toks.len(),
    ensures
        r.1 <= toks.len(),
        (r.0, r.1 as int) == (if kw_at(views(toks@), b as int, "CLUSTERED"@) {
            (true, skip_ws(views(toks@), b + 1))
        } else if word_at(views(toks@), b as int, "NONCLUSTERED"@) {
            (false, skip_ws(views(toks@), b + 1))
        } else {
            (default, b as int)
        }),
{
    if check_keyword(toks, b, "CLUSTERED") {
        (true, skip_whitespace(toks, b + 1))
    } else if check_word_ci(toks, b, "NONCLUSTERED") {
        (false, skip_whitespace(toks, b + 1))
    } else {
        (default, b)
    }
}

fn constraint_body_exec(toks: &Vec<SqlToken>, p: usize, name: String) -> (r: Option<
    TokenParsedConstraint,
>)
    requires
        p <= toks.len(),
    ensures
        opt_constraint(r) == constraint_body(views(toks@), p as int, name@),
{
    if check_keyword(toks, p, "PRIMARY") {
        let a = skip_whitespace(toks, p + 1);
        if !check_keyword(toks, a, "KEY") {
            return None;
        }
        let b = skip_whitespace(toks, a + 1);
        let (is_clustered, c) = clustered_exec(toks, b, true);
        match key_columns_exec(toks, c) {
            None => None,
            Some(columns) => Some(TokenParsedConstraint::PrimaryKey { name, columns, is_clustered }),
        }
    } else if check_keyword(toks, p, "UNIQUE") {
        let b = skip_whitespace(toks, p + 1);
        let (is_clustered, c) = clustered_exec(toks, b, false);
        match key_columns_exec(toks, c) {
            None => None,
            Some(columns) => Some(TokenParsedConstraint::Unique { name, columns, is_clustered }),
        }
    } else if check_keyword(toks, p, "FOREIGN") {
        let a = skip_whitespace(toks, p + 1);
        if !check_keyword(toks, a, "KEY") {
            return None;
        }
        let (columns, c) = match name_columns_exec(toks, skip_whitespace(toks, a + 1)) {
            Some(x) => x,
            None => return None,
        };
        let d = skip_whitespace(toks, c);
        if !check_keyword(toks, d, "REFERENCES") {
            return None;
        }
        let (t, e) = parse_schema_qualified_name(toks, skip_whitespace(toks, d + 1));
        let (rs, rt) = match t {
            Some(x) => x,
            None => return None,
        };
        let mut referenced_table = String::new();
        push_char(&mut referenced_table, '[');
        append_string(&mut referenced_table, &rs);
        referenced_table.append("].[");
        append_string(&mut referenced_table, &rt);
        push_char(&mut referenced_table, ']');
        assert(referenced_table@ =~= bracketed_table(rs@, rt@));
        match name_columns_exec(toks, skip_whitespace(toks, e)) {
            None => None,
            Some((referenced_columns, _f)) => Some(
                TokenParsedConstraint::ForeignKey {
                    name,
                    columns,
                    referenced_table,
                    referenced_columns,
                },
            ),
        }
    } else if check_keyword(toks, p, "CHECK") {
        match paren_text_exec(toks, skip_whitespace(toks, p + 1)) {
            None => None,
            Some((expression, _q)) => Some(TokenParsedConstraint::Check { name, expression }),
        }
    } else {
        None
    }
}

pub(crate) fn alter_table_name_exec(toks: &Vec<SqlToken>) -> (r: (Option<(String, String)>, usize))
    ensures
        (pair_view(r.0), r.1 as int) == alter_table_name(views(toks@)),
        r.1 <= toks.len(),
{
    let p0 = skip_whitespace(toks, 0);
    if !check_keyword(toks, p0, "ALTER") {
        return (None, p0);
    }
    let p1 = skip_whitespace(toks, p0 + 1);
    if !check_keyword(toks, p1, "TABLE") {
        return (None, p1);
    }
    parse_schema_qualified_name(toks, skip_whitespace(toks, p1 + 1))
}

fn skip_with_check_exec(toks: &Vec<SqlToken>, p: usize) -> (r: usize)
    requires
        p <= toks.len(),
    ensures
        r == skip_with_check(views(toks@), p as int),
        r <= toks.len(),
{
    if check_keyword(toks, p, "WITH") {
        let a = skip_whitespace(toks, p + 1);
        if check_keyword(toks, a, "CHECK") || check_word_ci(toks, a, "NOCHECK") {
            skip_whitespace(toks, a + 1)
        } else {
            a
        }
    } else {
        p
    }
}

/// `ALTER TABLE ... ADD CONSTRAINT`, over tokens.
pub fn parse_alter_table_add_constraint(toks: &Vec<SqlToken>) -> (r: Option<
    TokenParsedAlterTableConstraint,
>)
    ensures
        opt_alter_constraint(r) == alter_add_constraint(views(toks@)),
{
    let (t, p2) = alter_table_name_exec(toks);
    let (table_schema, table_name) = match t {
        Some(x) => x,
        None => return None,
    };
    let p3 = skip_with_check_exec(toks, skip_whitespace(toks, p2));
    if !check_keyword(toks, p3, "ADD") {
        return None;
    }
    let p4 = skip_whitespace(toks, p3 + 1);
    if !check_keyword(toks, p4, "CONSTRAINT") {
        return None;
    }
    let (n, p5) = parse_identifier(toks, skip_whitespace(toks, p4 + 1));
    let name = match n {
        Some(x) => x,
        None => return None,
    };
    match constraint_body_exec(toks, skip_whitespace(toks, p5), name) {
        None => None,
        Some(constraint) => Some(TokenParsedAlterTableConstraint { table_schema, table_name, constraint }),
    }
}

fn default_name_exec(toks: &Vec<SqlToken>, p: usize, table: &str) -> (r: String)
    ensures
        r@ == default_constraint_name(views(toks@), p as int, table@),
{
    let prefix = if check_keyword(toks, p, "PRIMARY") {
        "PK_"
    } else if check_keyword(toks, p, "UNIQUE") {
        "UQ_"
    } else if check_keyword(toks, p, "FOREIGN") {
        "FK_"
    } else {
        "CK_"
    };
    let mut out = str_to_string(prefix);
    out.append(table);
    out
}

/// A table-level constraint of table `table`, over tokens.
pub fn parse_table_constraint(toks: &Vec<SqlToken>, table: &str) -> (r: Option<TokenParsedConstraint>)
    ensures
        opt_constraint(r) == table_constraint(views(toks@), table@),
{
    let p0 = skip_whitespace(toks, 0);
    if check_keyword(toks, p0, "CONSTRAINT") {
        let (n, p1) = parse_identifier(toks, skip_whitespace(toks, p0 + 1));
        match n {
            None => None,
            Some(name) => constraint_body_exec(toks, skip_whitespace(toks, p1), name),
        }
    } else {
        let name = default_name_exec(toks, p0, table);
        constraint_body_exec(toks, p0, name)
    }
}

/// Parses `ALTER TABLE t [WITH CHECK|NOCHECK] ADD CONSTRAINT name ...`.
pub fn parse_alter_table_add_constraint_tokens(sql: &str) -> (r: Option<
    TokenParsedAlterTableConstraint,
>)
    ensures
        match lex_sql(sql@) {
            Some(s) => opt_alter_constraint(r) == alter_add_constraint(s),
            None => r is None,
        },
{
    match tokenize(sql) {
        Some(toks) => parse_alter_table_add_constraint(&toks),
        None => None,
    }
}

/// Parses a table-level constraint; an unnamed one is named after `table_name`.
pub fn parse_table_constraint_tokens(constraint_def: &str, table_name: &str) -> (r: Option<
    TokenParsedConstraint,
>)
    ensures
        match lex_sql(constraint_def@) {
            Some(s) => opt_constraint(r) == table_constraint(s, table_name@),
            None => r is None,
        },
{
    match tokenize(constraint_def) {
        Some(toks) => parse_table_constraint(&toks, table_name),
        None => None,
    }
}

/// The `(schema, table)` of an `ALTER TABLE` statement.
pub fn parse_alter_table_name_tokens(sql: &str) -> (r: Option<(String, String)>)
    ensures
        match lex_sql(sql@) {
            Some(s) => pair_view(r) == alter_table_name(s).0,
            None => r is None,
        },
{
    match tokenize(sql) {
        Some(toks) => alter_table_name_exec(&toks).0,
        None => None,
    }
}

} // verus!
