//! `CREATE TYPE name AS TABLE (columns and constraints)`: columns are read with
//! the column-definition parser, constraints are `PRIMARY KEY`, `UNIQUE`,
//! `CHECK` and `INDEX`, with or without commas between the items.

use vstd::prelude::*;
use crate::lexer::{SqlToken, TokenKind, TokenView, views, lex_sql, tokenize};
use crate::cursor::{
    skip_ws, kw_at, word_at, kind_at, ident, adv, schema_qualified_name, lemma_skip_ws,
    skip_whitespace, check_keyword, check_word_ci, check_kind, parse_identifier,
    parse_schema_qualified_name, advance, opt_str, token_string, push_token_string,
};
use crate::text::trim;
use crate::column_parser::{
    ColumnView, column_definition, paren_expr, paren_expr_exec, parse_column_definition_tokens,
    trimmed,
};
use crate::storage_parser::strings_view;

verus! {

/// A key column of a table type constraint.
#[derive(Debug, Clone)]
pub struct ExtractedConstraintColumn {
    pub name: String,
    pub descending: bool,
}

/// A column of a table type.
#[derive(Debug, Clone)]
pub struct ExtractedTableTypeColumn {
    /// Column name.
    pub name: String,
    /// Data type (`NVARCHAR(50)`, `INT`).
    pub data_type: String,
    /// `Some(true)` for `NULL`, `Some(false)` for `NOT NULL`, `None` otherwise.
    pub nullability: Option<bool>,
    /// Default value expression.
    pub default_value: Option<String>,
}

/// A constraint of a table type.
#[derive(Debug, Clone)]
pub enum ExtractedTableTypeConstraint {
    PrimaryKey { columns: Vec<ExtractedConstraintColumn>, is_clustered: bool },
    Unique { columns: Vec<ExtractedConstraintColumn>, is_clustered: bool },
    Check { expression: String },
    Index { name: String, columns: Vec<String>, is_unique: bool, is_clustered: bool },
}

/// A parsed `CREATE TYPE ... AS TABLE`.
#[derive(Debug, Clone, Default)]
pub struct TokenParsedTableType {
    /// Schema (`dbo` when not given).
    pub schema: String,
    /// Type name.
    pub name: String,
    /// Columns in order.
    pub columns: Vec<ExtractedTableTypeColumn>,
    /// Constraints in order.
    pub constraints: Vec<ExtractedTableTypeConstraint>,
}

pub struct TableTypeColumnView {
    pub name: Seq<char>,
    pub data_type: Seq<char>,
    pub nullability: Option<bool>,
    pub default_value: Option<Seq<char>>,
}

pub enum TableTypeConstraintView {
    PrimaryKey { columns: Seq<(Seq<char>, bool)>, is_clustered: bool },
    Unique { columns: Seq<(Seq<char>, bool)>, is_clustered: bool },
    Check { expression: Seq<char> },
    Index { name: Seq<char>, columns: Seq<Seq<char>>, is_unique: bool, is_clustered: bool },
}

pub struct TableTypeView {
    pub schema: Seq<char>,
    pub name: Seq<char>,
    pub columns: Seq<TableTypeColumnView>,
    pub constraints: Seq<TableTypeConstraintView>,
}

impl View for ExtractedConstraintColumn {
    type V = (Seq<char>, bool);

    open spec fn view(&self) -> (Seq<char>, bool) {
        (self.name@, self.descending)
    }
}

pub open spec fn key_cols_view(v: Seq<ExtractedConstraintColumn>) -> Seq<(Seq<char>, bool)> {
    v.map_values(|c: ExtractedConstraintColumn| c@)
}

impl View for ExtractedTableTypeColumn {
    type V = TableTypeColumnView;

    open spec fn view(&self) -> TableTypeColumnView {
        TableTypeColumnView {
            name: self.name@,
            data_type: self.data_type@,
            nullability: self.nullability,
            default_value: opt_str(self.default_value),
        }
    }
}

impl View for ExtractedTableTypeConstraint {
    type V = TableTypeConstraintView;

    open spec fn view(&self) -> TableTypeConstraintView {
        match self {
            ExtractedTableTypeConstraint::PrimaryKey { columns, is_clustered } => TableTypeConstraintView::PrimaryKey {
                columns: key_cols_view(columns@),
                is_clustered: *is_clustered,
            },
            ExtractedTableTypeConstraint::Unique { columns, is_clustered } => TableTypeConstraintView::Unique {
                columns: key_cols_view(columns@),
                is_clustered: *is_clustered,
            },
            ExtractedTableTypeConstraint::Check { expression } => TableTypeConstraintView::Check {
                expression: expression@,
            },
            ExtractedTableTypeConstraint::Index { name, columns, is_unique, is_clustered } => TableTypeConstraintView::Index {
                name: name@,
                columns: strings_view(columns@),
                is_unique: *is_unique,
                is_clustered: *is_clustered,
            },
        }
    }
}

pub open spec fn tt_columns_view(v: Seq<ExtractedTableTypeColumn>) -> Seq<TableTypeColumnView> {
    v.map_values(|c: ExtractedTableTypeColumn| c@)
}

pub open spec fn tt_constraints_view(v: Seq<ExtractedTableTypeConstraint>) -> Seq<TableTypeConstraintView> {
    v.map_values(|c: ExtractedTableTypeConstraint| c@)
}

impl View for TokenParsedTableType {
    type V = TableTypeView;

    open spec fn view(&self) -> TableTypeView {
        TableTypeView {
            schema: self.schema@,
            name: self.name@,
            columns: tt_columns_view(self.columns@),
            constraints: tt_constraints_view(self.constraints@),
        }
    }
}

pub open spec fn opt_table_type(r: Option<TokenParsedTableType>) -> Option<TableTypeView> {
    match r {
        Some(x) => Some(x@),
        None => None,
    }
}

// ---------------------------------------------------------------------------
// Specification
// ---------------------------------------------------------------------------

/// An optional `CLUSTERED` (true) or `NONCLUSTERED` (false); true when absent.
pub open spec fn clustered_option(s: Seq<TokenView>, p: int) -> (bool, int) {
    if word_at(s, p, "CLUSTERED"@) {
        (true, p + 1)
    } else if word_at(s, p, "NONCLUSTERED"@) {
        (false, p + 1)
    } else {
        (true, p)
    }
}

/// Key columns `name [ASC|DESC]` after a `(`, up to and past the `)`.
pub open spec fn key_col_loop(s: Seq<TokenView>, q: int, acc: Seq<(Seq<char>, bool)>) -> (
    Seq<(Seq<char>, bool)>,
    int,
)
    decreases s.len() - q,
{
    if q < 0 {
        (acc, q)
    } else {
        let a = skip_ws(s, q);
        proof {
            lemma_skip_ws(s, q);
        }
        if a >= s.len() || kind_at(s, a, TokenKind::RParen) {
            (acc, adv(s, a))
        } else if kind_at(s, a, TokenKind::Comma) {
            key_col_loop(s, a + 1, acc)
        } else {
            let (n, b) = ident(s, a);
            match n {
                None => (acc, a),
                Some(name) => {
                    let c = skip_ws(s, b);
                    proof {
                        lemma_skip_ws(s, b);
                    }
                    let (desc, d) = if kw_at(s, c, "DESC"@) {
                        (true, c + 1)
                    } else if kw_at(s, c, "ASC"@) {
                        (false, c + 1)
                    } else {
                        (false, c)
                    };
                    key_col_loop(s, d, acc.push((name, desc)))
                },
            }
        }
    }
}

pub open spec fn key_cols(s: Seq<TokenView>, p: int) -> (Seq<(Seq<char>, bool)>, int) {
    if !kind_at(s, p, TokenKind::LParen) {
        (Seq::empty(), p)
    } else {
        key_col_loop(s, p + 1, Seq::empty())
    }
}

/// Column names after a `(` (an `ASC`/`DESC` after a name is read over), up to
/// and past the `)`.
pub open spec fn name_col_loop(s: Seq<TokenView>, q: int, acc: Seq<Seq<char>>) -> (Seq<Seq<char>>, int)
    decreases s.len() - q,
{
    if q < 0 {
        (acc, q)
    } else {
        let a = skip_ws(s, q);
        proof {
            lemma_skip_ws(s, q);
        }
        if a >= s.len() || kind_at(s, a, TokenKind::RParen) {
            (acc, adv(s, a))
        } else if kind_at(s, a, TokenKind::Comma) {
            name_col_loop(s, a + 1, acc)
        } else {
            let (n, b) = ident(s, a);
            match n {
                None => (acc, a),
                Some(name) => {
                    let c = skip_ws(s, b);
                    proof {
                        lemma_skip_ws(s, b);
                    }
                    let d = if kw_at(s, c, "ASC"@) || kw_at(s, c, "DESC"@) {
                        c + 1
                    } else {
                        c
                    };
                    name_col_loop(s, d, acc.push(name))
                },
            }
        }
    }
}

pub open spec fn name_cols(s: Seq<TokenView>, p: int) -> (Seq<Seq<char>>, int) {
    if !kind_at(s, p, TokenKind::LParen) {
        (Seq::empty(), p)
    } else {
        name_col_loop(s, p + 1, Seq::empty())
    }
}

/// A table-level constraint at `a`, and the position after it.
pub open spec fn type_constraint(s: Seq<TokenView>, a: int) -> Option<(TableTypeConstraintView, int)> {
    if kw_at(s, a, "PRIMARY"@) && kw_at(s, skip_ws(s, a + 1), "KEY"@) {
        let (cl, d) = clustered_option(s, skip_ws(s, skip_ws(s, a + 1) + 1));
        let (cols, f) = key_cols(s, skip_ws(s, d));
        Some((TableTypeConstraintView::PrimaryKey { columns: cols, is_clustered: cl }, f))
    } else if kw_at(s, a, "UNIQUE"@) {
        let (cl, d) = clustered_option(s, skip_ws(s, a + 1));
        let (cols, f) = key_cols(s, skip_ws(s, d));
        Some((TableTypeConstraintView::Unique { columns: cols, is_clustered: cl }, f))
    } else if kw_at(s, a, "CHECK"@) && kind_at(s, skip_ws(s, a + 1), TokenKind::LParen) {
        let (e, f) = paren_expr(s, skip_ws(s, a + 1));
        Some((TableTypeConstraintView::Check { expression: e }, f))
    } else if kw_at(s, a, "INDEX"@) {
        let (n, c) = ident(s, skip_ws(s, a + 1));
        let c1 = skip_ws(s, c);
        let (unique, c2) = if kw_at(s, c1, "UNIQUE"@) {
            (true, skip_ws(s, c1 + 1))
        } else {
            (false, c1)
        };
        let (cl, d) = clustered_option(s, c2);
        let (cols, f) = name_cols(s, skip_ws(s, d));
        Some(
            (
                TableTypeConstraintView::Index {
                    name: match n {
                        Some(x) => x,
                        None => Seq::empty(),
                    },
                    columns: cols,
                    is_unique: unique,
                    is_clustered: cl,
                },
                f,
            ),
        )
    } else {
        None
    }
}

/// A word that starts a table-level constraint.
pub open spec fn constraint_start(s: Seq<TokenView>, p: int) -> bool {
    kw_at(s, p, "PRIMARY"@) || kw_at(s, p, "UNIQUE"@) || kw_at(s, p, "CHECK"@) || kw_at(
        s,
        p,
        "INDEX"@,
    )
}

/// The printed tokens of a column definition from `p`, up to a top-level `,`,
/// `)` or constraint keyword.
pub open spec fn column_text(s: Seq<TokenView>, p: int, depth: nat, acc: Seq<char>) -> (Seq<char>, int)
    decreases s.len() - p,
{
    if p < 0 || p >= s.len() {
        (acc, p)
    } else {
        let t = s[p];
        if t.kind == TokenKind::LParen {
            column_text(s, p + 1, depth + 1, acc + token_string(t))
        } else if t.kind == TokenKind::RParen {
            if depth == 0 {
                (acc, p)
            } else {
                column_text(s, p + 1, (depth - 1) as nat, acc + token_string(t))
            }
        } else if depth == 0 && (t.kind == TokenKind::Comma || constraint_start(s, p)) {
            (acc, p)
        } else {
            column_text(s, p + 1, depth, acc + token_string(t))
        }
    }
}

/// A table type column from a parsed column definition: only a column with a
/// name and a data type that is not computed.
pub open spec fn type_column_of(c: Option<ColumnView>) -> Option<TableTypeColumnView> {
    match c {
        None => None,
        Some(col) => if col.computed_expression is Some || col.name.len() == 0
            || col.data_type.len() == 0 {
            None
        } else {
            Some(
                TableTypeColumnView {
                    name: col.name,
                    data_type: col.data_type,
                    nullability: col.nullability,
                    default_value: col.default_value,
                },
            )
        },
    }
}

/// A column at `p`: the column and the position after its text.
pub open spec fn type_column(s: Seq<TokenView>, p: int) -> (Option<TableTypeColumnView>, int) {
    let (text, q) = column_text(s, p, 0, Seq::empty());
    let t = trim(text);
    if t.len() == 0 {
        (None, q)
    } else {
        (type_column_of(column_definition(t)), q)
    }
}

/// One item of the body at `a` (not whitespace, not `)`, not the end): the
/// column or constraint read, and the next position.
pub open spec fn body_step(s: Seq<TokenView>, a: int) -> (
    Option<TableTypeColumnView>,
    Option<TableTypeConstraintView>,
    int,
) {
    if kind_at(s, a, TokenKind::Comma) {
        (None, None, a + 1)
    } else {
        match type_constraint(s, a) {
            Some((c, q)) => (None, Some(c), q),
            None => {
                let (col, q) = type_column(s, a);
                match col {
                    Some(c) => (Some(c), None, q),
                    None => (None, None, adv(s, q)),
                }
            },
        }
    }
}

/// The body from `p` up to its `)`. Every step moves forward; the bound on the
/// step's result only makes the recursion evidently finite.
pub open spec fn type_body(
    s: Seq<TokenView>,
    p: int,
    cols: Seq<TableTypeColumnView>,
    cons: Seq<TableTypeConstraintView>,
) -> (Seq<TableTypeColumnView>, Seq<TableTypeConstraintView>)
    decreases s.len() - p,
{
    if p < 0 {
        (cols, cons)
    } else {
        let a = skip_ws(s, p);
        if a >= s.len() || kind_at(s, a, TokenKind::RParen) {
            (cols, cons)
        } else {
            let (col, con, q) = body_step(s, a);
            if q <= p || q > s.len() {
                (cols, cons)
            } else {
                type_body(
                    s,
                    q,
                    match col {
                        Some(c) => cols.push(c),
                        None => cols,
                    },
                    match con {
                        Some(c) => cons.push(c),
                        None => cons,
                    },
                )
            }
        }
    }
}

/// `CREATE TYPE name AS TABLE (body)`.
pub open spec fn table_type(s: Seq<TokenView>) -> Option<TableTypeView> {
    let p0 = skip_ws(s, 0);
    let p1 = skip_ws(s, p0 + 1);
    if !kw_at(s, p0, "CREATE"@) || !kw_at(s, p1, "TYPE"@) {
        None
    } else {
        let (n, p2) = schema_qualified_name(s, skip_ws(s, p1 + 1));
        match n {
            None => None,
            Some((schema, name)) => {
                let p3 = skip_ws(s, p2);
                let p4 = skip_ws(s, p3 + 1);
                let p5 = skip_ws(s, p4 + 1);
                if !kw_at(s, p3, "AS"@) || !kw_at(s, p4, "TABLE"@) || !kind_at(
                    s,
                    p5,
                    TokenKind::LParen,
                ) {
                    None
                } else {
                    let (cols, cons) = type_body(s, p5 + 1, Seq::empty(), Seq::empty());
                    Some(TableTypeView { schema, name, columns: cols, constraints: cons })
                }
            },
        }
    }
}

// ---------------------------------------------------------------------------
// Executable parser
// ---------------------------------------------------------------------------

fn clustered_option_exec(toks: &Vec<SqlToken>, p: usize) -> (r: (bool, usize))
    requires
        p <= toks.len(),
    ensures
        (r.0, r.1 as int) == clustered_option(views(toks@), p as int),
        p <= r.1 <= toks.len(),
{
    if check_word_ci(toks, p, "CLUSTERED") {
        (true, p + 1)
    } else if check_word_ci(toks, p, "NONCLUSTERED") {
        (false, p + 1)
    } else {
        (true, p)
    }
}

fn key_cols_exec(toks: &Vec<SqlToken>, p: usize) -> (r: (Vec<ExtractedConstraintColumn>, usize))
    requires
        p <= toks.len(),
    ensures
        (key_cols_view(r.0@), r.1 as int) == key_cols(views(toks@), p as int),
        p <= r.1 <= toks.len(),
{
    let ghost s = views(toks@);
    let mut cols: Vec<ExtractedConstraintColumn> = Vec::new();
    assert(key_cols_view(cols@) =~= Seq::<(Seq<char>, bool)>::empty());
    if !check_kind(toks, p, TokenKind::LParen) {
        return (cols, p);
    }
    let mut q: usize = p + 1;
    loop
        invariant
            s == views(toks@),
            p < q <= toks.len(),
            key_cols(s, p as int) == key_col_loop(s, q as int, key_cols_view(cols@)),
        decreases toks.len() - q,
    {
        let a = skip_whitespace(toks, q);
        if a >= toks.len() || check_kind(toks, a, TokenKind::RParen) {
            let e = advance(toks, a);
            return (cols, e);
        }
        if check_kind(toks, a, TokenKind::Comma) {
            q = a + 1;
        } else {
            let (n, b) = parse_identifier(toks, a);
            let name = match n {
                Some(x) => x,
                None => return (cols, a),
            };
            let c = skip_whitespace(toks, b);
            let (desc, d) = if check_keyword(toks, c, "DESC") {
                (true, c + 1)
            } else if check_keyword(toks, c, "ASC") {
                (false, c + 1)
            } else {
                (false, c)
            };
            let ghost before = key_cols_view(cols@);
            cols.push(ExtractedConstraintColumn { name, descending: desc });
            assert(key_cols_view(cols@) =~= before.push((name@, desc)));
            q = d;
        }
    }
}

fn name_cols_exec(toks: &Vec<SqlToken>, p: usize) -> (r: (Vec<String>, usize))
    requires
        p <= toks.len(),
    ensures
        (strings_view(r.0@), r.1 as int) == name_cols(views(toks@), p as int),
        p <= r.1 <= toks.len(),
{
    let ghost s = views(toks@);
    let mut cols: Vec<String> = Vec::new();
    assert(strings_view(cols@) =~= Seq::<Seq<char>>::empty());
    if !check_kind(toks, p, TokenKind::LParen) {
        return (cols, p);
    }
    let mut q: usize = p + 1;
    loop
        invariant
            s == views(toks@),
            p < q <= toks.len(),
            name_cols(s, p as int) == name_col_loop(s, q as int, strings_view(cols@)),
        decreases toks.len() - q,
    {
        let a = skip_whitespace(toks, q);
        if a >= toks.len() || check_kind(toks, a, TokenKind::RParen) {
            let e = advance(toks, a);
            return (cols, e);
        }
        if check_kind(toks, a, TokenKind::Comma) {
            q = a + 1;
        } else {
            let (n, b) = parse_identifier(toks, a);
            let name = match n {
                Some(x) => x,
                None => return (cols, a),
            };
            let c = skip_whitespace(toks, b);
            let d = if check_keyword(toks, c, "ASC") || check_keyword(toks, c, "DESC") {
                c + 1
            } else {
                c
            };
            let ghost before = strings_view(cols@);
            cols.push(name);
            assert(strings_view(cols@) =~= before.push(name@));
            q = d;
        }
    }
}

fn type_constraint_exec(toks: &Vec<SqlToken>, a: usize) -> (r: Option<(ExtractedTableTypeConstraint, usize)>)
    requires
        a < toks.len(),
    ensures
        match type_constraint(views(toks@), a as int) {
            Some((c, q)) => r matches Some((x, e)) && x@ == c && e == q && a < e <= toks.len(),
            None => r is None,
        },
{
    if check_keyword(toks, a, "PRIMARY") {
        let b = skip_whitespace(toks, a + 1);
        if check_keyword(toks, b, "KEY") {
            let (is_clustered, d) = clustered_option_exec(toks, skip_whitespace(toks, b + 1));
            let (columns, f) = key_cols_exec(toks, skip_whitespace(toks, d));
            return Some((ExtractedTableTypeConstraint::PrimaryKey { columns, is_clustered }, f));
        }
    }
    if check_keyword(toks, a, "UNIQUE") {
        let (is_clustered, d) = clustered_option_exec(toks, skip_whitespace(toks, a + 1));
        let (columns, f) = key_cols_exec(toks, skip_whitespace(toks, d));
        return Some((ExtractedTableTypeConstraint::Unique { columns, is_clustered }, f));
    }
    if check_keyword(toks, a, "CHECK") {
        let b = skip_whitespace(toks, a + 1);
        if check_kind(toks, b, TokenKind::LParen) {
            let (expression, f) = paren_expr_exec(toks, b);
            return Some((ExtractedTableTypeConstraint::Check { expression }, f));
        }
    }
    if check_keyword(toks, a, "INDEX") {
        let (n, c) = parse_identifier(toks, skip_whitespace(toks, a + 1));
        let c1 = skip_whitespace(toks, c);
        let (is_unique, c2) = if check_keyword(toks, c1, "UNIQUE") {
            (true, skip_whitespace(toks, c1 + 1))
        } else {
            (false, c1)
        };
        let (is_clustered, d) = clustered_option_exec(toks, c2);
        let (columns, f) = name_cols_exec(toks, skip_whitespace(toks, d));
        let name = match n {
            Some(x) => x,
            None => String::new(),
        };
        return Some((ExtractedTableTypeConstraint::Index { name, columns, is_unique, is_clustered }, f));
    }
    None
}

fn constraint_start_exec(toks: &Vec<SqlToken>, p: usize) -> (r: bool)
    ensures
        r == constraint_start(views(toks@), p as int),
{
    check_keyword(toks, p, "PRIMARY") || check_keyword(toks, p, "UNIQUE") || check_keyword(
        toks,
        p,
        "CHECK",
    ) || check_keyword(toks, p, "INDEX")
}

fn column_text_exec(toks: &Vec<SqlToken>, p: usize) -> (r: (String, usize))
    requires
        p <= toks.len(),
    ensures
        (r.0@, r.1 as int) == column_text(views(toks@), p as int, 0, Seq::empty()),
        p <= r.1 <= toks.len(),
        r.1 == p ==> r.0@ == Seq::<char>::empty(),
{
    let ghost s = views(toks@);
    let mut pos: usize = p;
    let mut depth: usize = 0;
    let mut out = String::new();
    let mut done = false;
    while !done && pos < toks.len()
        invariant
            s == views(toks@),
            p <= pos <= toks.len(),
            depth <= pos - p,
            pos == p ==> out@ == Seq::<char>::empty(),
            done ==> column_text(s, p as int, 0, Seq::empty()) == (out@, pos as int),
            !done ==> column_text(s, p as int, 0, Seq::empty()) == column_text(
                s,
                pos as int,
                depth as nat,
                out@,
            ),
        decreases toks.len() - pos + (if done {
            0int
        } else {
            1int
        }),
    {
        assert(s[pos as int] == toks@[pos as int]@);
        let t = &toks[pos];
        if matches!(t.kind, TokenKind::LParen) {
            depth = depth + 1;
            push_token_string(&mut out, t);
            pos = pos + 1;
        } else if matches!(t.kind, TokenKind::RParen) {
            if depth == 0 {
                done = true;
            } else {
                depth = depth - 1;
                push_token_string(&mut out, t);
                pos = pos + 1;
            }
        } else if depth == 0 && (matches!(t.kind, TokenKind::Comma) || constraint_start_exec(toks, pos)) {
            done = true;
        } else {
            push_token_string(&mut out, t);
            pos = pos + 1;
        }
    }
    (out, pos)
}

fn type_column_exec(toks: &Vec<SqlToken>, p: usize) -> (r: (Option<ExtractedTableTypeColumn>, usize))
    requires
        p <= toks.len(),
    ensures
        (match r.0 {
            Some(c) => Some(c@),
            None => None,
        }, r.1 as int) == type_column(views(toks@), p as int),
        p <= r.1 <= toks.len(),
        r.0 is Some ==> p < r.1,
{
    let (text, q) = column_text_exec(toks, p);
    let t = trimmed(&text);
    if t.unicode_len() == 0 {
        return (None, q);
    }
    match parse_column_definition_tokens(t.as_str()) {
        None => (None, q),
        Some(col) => {
            if col.computed_expression.is_some() || col.name.unicode_len() == 0
                || col.data_type.unicode_len() == 0 {
                (None, q)
            } else {
                (
                    Some(
                        ExtractedTableTypeColumn {
                            name: col.name,
                            data_type: col.data_type,
                            nullability: col.nullability,
                            default_value: col.default_value,
                        },
                    ),
                    q,
                )
            }
        },
    }
}

/// `CREATE TYPE ... AS TABLE`, over tokens.
pub fn parse_create_table_type_tokens_with_tokens(toks: &Vec<SqlToken>) -> (r: Option<TokenParsedTableType>)
    ensures
        opt_table_type(r) == table_type(views(toks@)),
{
    let ghost s = views(toks@);
    let p0 = skip_whitespace(toks, 0);
    if !check_keyword(toks, p0, "CREATE") {
        return None;
    }
    let p1 = skip_whitespace(toks, p0 + 1);
    if !check_keyword(toks, p1, "TYPE") {
        return None;
    }
    let (n, p2) = parse_schema_qualified_name(toks, skip_whitespace(toks, p1 + 1));
    let (schema, name) = match n {
        Some(x) => x,
        None => return None,
    };
    let p3 = skip_whitespace(toks, p2);
    if !check_keyword(toks, p3, "AS") {
        return None;
    }
    let p4 = skip_whitespace(toks, p3 + 1);
    if !check_keyword(toks, p4, "TABLE") {
        return None;
    }
    let p5 = skip_whitespace(toks, p4 + 1);
    if !check_kind(toks, p5, TokenKind::LParen) {
        return None;
    }
    let start = p5 + 1;
    let mut pos: usize = start;
    let mut columns: Vec<ExtractedTableTypeColumn> = Vec::new();
    let mut constraints: Vec<ExtractedTableTypeConstraint> = Vec::new();
    let mut done = false;
    assert(tt_columns_view(columns@) =~= Seq::<TableTypeColumnView>::empty());
    assert(tt_constraints_view(constraints@) =~= Seq::<TableTypeConstraintView>::empty());
    while !done
        invariant
            s == views(toks@),
            pos <= toks.len(),
            done ==> type_body(s, start as int, Seq::empty(), Seq::empty()) == (
                tt_columns_view(columns@),
                tt_constraints_view(constraints@),
            ),
            !done ==> type_body(s, start as int, Seq::empty(), Seq::empty()) == type_body(
                s,
                pos as int,
                tt_columns_view(columns@),
                tt_constraints_view(constraints@),
            ),
        decreases toks.len() - pos + (if done {
            0int
        } else {
            1int
        }),
    {
        let a = skip_whitespace(toks, pos);
        if a >= toks.len() || check_kind(toks, a, TokenKind::RParen) {
            done = true;
        } else if check_kind(toks, a, TokenKind::Comma) {
            pos = a + 1;
        } else {
            match type_constraint_exec(toks, a) {
                Some((c, q)) => {
                    let ghost before = tt_constraints_view(constraints@);
                    constraints.push(c);
                    assert(tt_constraints_view(constraints@) =~= before.push(c@));
                    pos = q;
                },
                None => {
                    let (col, q) = type_column_exec(toks, a);
                    match col {
                        Some(c) => {
                            let ghost before = tt_columns_view(columns@);
                            columns.push(c);
                            assert(tt_columns_view(columns@) =~= before.push(c@));
                            pos = q;
                        },
                        None => {
                            pos = advance(toks, q);
                        },
                    }
                },
            }
        }
    }
    Some(TokenParsedTableType { schema, name, columns, constraints })
}

/// Parses `CREATE TYPE name AS TABLE (...)`.
pub fn parse_create_table_type_tokens(sql: &str) -> (r: Option<TokenParsedTableType>)
    ensures
        match lex_sql(sql@) {
            Some(s) => opt_table_type(r) == table_type(s),
            None => r is None,
        },
{
    match tokenize(sql) {
        Some(toks) => parse_create_table_type_tokens_with_tokens(&toks),
        None => None,
    }
}

} // verus!
