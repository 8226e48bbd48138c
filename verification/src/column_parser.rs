//! Column definitions:
//! `[Name] TYPE [COLLATE c] [IDENTITY(s, i)] [NOT NULL|NULL] [CONSTRAINT n] DEFAULT v
//! [CONSTRAINT n] CHECK (e) [ROWGUIDCOL] [SPARSE] [FILESTREAM] ...` in any order,
//! and computed columns `[Name] AS (expr) [PERSISTED] [NOT NULL]`.

use vstd::prelude::*;
use crate::text::{push_char, append_string, chars_of, trim, trim_set, string_from_chars, CharSet, to_uppercase, unicode_upper, string_from_range};
use crate::lexer::{SqlToken, TokenKind, TokenView, views, lex_sql, tokenize};
use crate::cursor::{skip_ws, kw_at, word_at, kind_at, ident, skip_whitespace, check_keyword, check_word_ci, check_kind, parse_identifier, opt_str, token_string, token_sql, push_token_string, push_token_sql};

verus! {

/// A parsed column definition.
#[derive(Debug, Clone, Default)]
pub struct TokenParsedColumn {
    /// Column name.
    pub name: String,
    /// Data type (`NVARCHAR(50)`, `INT`, `DECIMAL(18, 2)`); empty for a computed column.
    pub data_type: String,
    /// `Some(true)` for an explicit `NULL`, `Some(false)` for `NOT NULL`, `None` otherwise.
    pub nullability: Option<bool>,
    /// `IDENTITY`.
    pub is_identity: bool,
    /// `ROWGUIDCOL`.
    pub is_rowguidcol: bool,
    /// `SPARSE`.
    pub is_sparse: bool,
    /// `FILESTREAM`.
    pub is_filestream: bool,
    /// Name of the default constraint.
    pub default_constraint_name: Option<String>,
    /// Default value expression.
    pub default_value: Option<String>,
    /// The default's name is emitted: `CONSTRAINT [n]` came after `NOT NULL`.
    pub emit_default_constraint_name: bool,
    /// Name of the inline `CHECK` constraint.
    pub check_constraint_name: Option<String>,
    /// Expression of the inline `CHECK` constraint.
    pub check_expression: Option<String>,
    /// The check's name is emitted: `CONSTRAINT [n]` came after `NOT NULL`.
    pub emit_check_constraint_name: bool,
    /// Expression of a computed column, with its parentheses.
    pub computed_expression: Option<String>,
    /// `PERSISTED`.
    pub is_persisted: bool,
    /// `COLLATE` name.
    pub collation: Option<String>,
    /// `GENERATED ALWAYS AS ROW START`.
    pub is_generated_always_start: bool,
    /// `GENERATED ALWAYS AS ROW END`.
    pub is_generated_always_end: bool,
    /// `HIDDEN`.
    pub is_hidden: bool,
}

pub struct ColumnView {
    pub name: Seq<char>,
    pub data_type: Seq<char>,
    pub nullability: Option<bool>,
    pub is_identity: bool,
    pub is_rowguidcol: bool,
    pub is_sparse: bool,
    pub is_filestream: bool,
    pub default_constraint_name: Option<Seq<char>>,
    pub default_value: Option<Seq<char>>,
    pub emit_default_constraint_name: bool,
    pub check_constraint_name: Option<Seq<char>>,
    pub check_expression: Option<Seq<char>>,
    pub emit_check_constraint_name: bool,
    pub computed_expression: Option<Seq<char>>,
    pub is_persisted: bool,
    pub collation: Option<Seq<char>>,
    pub is_generated_always_start: bool,
    pub is_generated_always_end: bool,
    pub is_hidden: bool,
}

impl View for TokenParsedColumn {
    type V = ColumnView;

    open spec fn view(&self) -> ColumnView {
        ColumnView {
            name: self.name@,
            data_type: self.data_type@,
            nullability: self.nullability,
            is_identity: self.is_identity,
            is_rowguidcol: self.is_rowguidcol,
            is_sparse: self.is_sparse,
            is_filestream: self.is_filestream,
            default_constraint_name: opt_str(self.default_constraint_name),
            default_value: opt_str(self.default_value),
            emit_default_constraint_name: self.emit_default_constraint_name,
            check_constraint_name: opt_str(self.check_constraint_name),
            check_expression: opt_str(self.check_expression),
            emit_check_constraint_name: self.emit_check_constraint_name,
            computed_expression: opt_str(self.computed_expression),
            is_persisted: self.is_persisted,
            collation: opt_str(self.collation),
            is_generated_always_start: self.is_generated_always_start,
            is_generated_always_end: self.is_generated_always_end,
            is_hidden: self.is_hidden,
        }
    }
}

pub open spec fn opt_column(r: Option<TokenParsedColumn>) -> Option<ColumnView> {
    match r {
        Some(x) => Some(x@),
        None => None,
    }
}

/// A column with a name, a data type and a collation, and nothing else set.
pub open spec fn base_column(name: Seq<char>, data_type: Seq<char>, collation: Option<Seq<char>>) -> ColumnView {
    ColumnView {
        name,
        data_type,
        nullability: None,
        is_identity: false,
        is_rowguidcol: false,
        is_sparse: false,
        is_filestream: false,
        default_constraint_name: None,
        default_value: None,
        emit_default_constraint_name: false,
        check_constraint_name: None,
        check_expression: None,
        emit_check_constraint_name: false,
        computed_expression: None,
        is_persisted: false,
        collation,
        is_generated_always_start: false,
        is_generated_always_end: false,
        is_hidden: false,
    }
}

/// State of the modifier scan: the column so far, the name of a pending
/// `CONSTRAINT`, and whether that `CONSTRAINT` came after `NOT NULL`.
pub struct ModifierState {
    pub col: ColumnView,
    pub pending: Option<Seq<char>>,
    pub after_not_null: bool,
}

// ---------------------------------------------------------------------------
// Specification
// ---------------------------------------------------------------------------

/// The text of the tokens from `p` up to the `)` that closes `depth` open
/// parentheses (every token printed, nested parentheses included).
pub open spec fn paren_body(s: Seq<TokenView>, p: int, depth: nat, acc: Seq<char>) -> (Seq<char>, int)
    decreases s.len() - p,
{
    if p < 0 || p >= s.len() || depth == 0 {
        (acc, p)
    } else {
        let t = s[p];
        let d2: nat = if t.kind == TokenKind::LParen {
            depth + 1
        } else if t.kind == TokenKind::RParen {
            (depth - 1) as nat
        } else {
            depth
        };
        paren_body(s, p + 1, d2, if d2 > 0 {
            acc + token_string(t)
        } else {
            acc
        })
    }
}

/// A parenthesized expression at `p` (a `(`): its trimmed content and the
/// position after the closing `)`.
pub open spec fn paren_expr(s: Seq<TokenView>, p: int) -> (Seq<char>, int) {
    let (c, e) = paren_body(s, p + 1, 1, Seq::empty());
    (trim(c), e)
}

/// Position after the parenthesized group that starts at `p`.
pub open spec fn skip_paren(s: Seq<TokenView>, p: int, depth: nat) -> int
    decreases s.len() - p,
{
    if p < 0 || p >= s.len() {
        p
    } else if s[p].kind == TokenKind::LParen {
        skip_paren(s, p + 1, depth + 1)
    } else if s[p].kind == TokenKind::RParen {
        if depth <= 1 {
            p + 1
        } else {
            skip_paren(s, p + 1, (depth - 1) as nat)
        }
    } else {
        skip_paren(s, p + 1, depth)
    }
}

/// A data type at `p`: an upper-cased word and its raw parenthesized arguments.
pub open spec fn col_data_type(s: Seq<TokenView>, p: int) -> (Option<Seq<char>>, int) {
    let a = skip_ws(s, p);
    if !kind_at(s, a, TokenKind::Word) {
        (None, a)
    } else {
        let base = unicode_upper(s[a].value);
        let b = skip_ws(s, a + 1);
        if kind_at(s, b, TokenKind::LParen) {
            let (c, e) = paren_expr(s, b);
            (Some(base.push('(') + c + seq![')']), e)
        } else {
            (Some(base), b)
        }
    }
}

/// An optional `COLLATE name`.
pub open spec fn col_collation(s: Seq<TokenView>, p: int) -> (Option<Seq<char>>, int) {
    let b = skip_ws(s, p);
    if !word_at(s, b, "COLLATE"@) {
        (None, b)
    } else {
        let c = skip_ws(s, b + 1);
        if kind_at(s, c, TokenKind::Word) {
            (Some(s[c].value), c + 1)
        } else {
            (None, c)
        }
    }
}

/// A default value at `p`: `(expr)`, `f()`, `f(args)`, a word, a string
/// literal, a number or a negative number.
pub open spec fn col_default(s: Seq<TokenView>, p: int) -> (Option<Seq<char>>, int) {
    let a = skip_ws(s, p);
    if kind_at(s, a, TokenKind::LParen) {
        let (c, e) = paren_expr(s, a);
        (Some(seq!['('] + c + seq![')']), e)
    } else if kind_at(s, a, TokenKind::Word) {
        let f = s[a].value;
        let b = skip_ws(s, a + 1);
        if kind_at(s, b, TokenKind::LParen) {
            let c = skip_ws(s, b + 1);
            if kind_at(s, c, TokenKind::RParen) {
                (Some(f + "()"@), c + 1)
            } else {
                let (args, e) = paren_body(s, c, 1, Seq::empty());
                (Some(f + seq!['('] + trim(args) + seq![')']), e)
            }
        } else {
            (Some(f), b)
        }
    } else if kind_at(s, a, TokenKind::SingleQuotedString) || kind_at(
        s,
        a,
        TokenKind::NationalStringLiteral,
    ) {
        (Some(token_sql(s[a])), a + 1)
    } else if kind_at(s, a, TokenKind::Number) {
        (Some(s[a].value), a + 1)
    } else if kind_at(s, a, TokenKind::Minus) {
        if kind_at(s, a + 1, TokenKind::Number) {
            (Some(seq!['-'] + s[a + 1].value), a + 2)
        } else {
            (None, a + 1)
        }
    } else {
        (None, a)
    }
}

/// First position at or after `p` holding `CONSTRAINT`, `DEFAULT` or `CHECK`, or the end.
pub open spec fn skip_to_constraint_kw(s: Seq<TokenView>, p: int) -> int
    decreases s.len() - p,
{
    if p < 0 || p >= s.len() || kw_at(s, p, "CONSTRAINT"@) || kw_at(s, p, "DEFAULT"@) || kw_at(
        s,
        p,
        "CHECK"@,
    ) {
        p
    } else {
        skip_to_constraint_kw(s, p + 1)
    }
}

/// Past an optional `CLUSTERED`/`NONCLUSTERED`.
pub open spec fn skip_clustered(s: Seq<TokenView>, p: int) -> int {
    if kw_at(s, p, "CLUSTERED"@) || word_at(s, p, "NONCLUSTERED"@) {
        p + 1
    } else {
        p
    }
}

/// `GENERATED ALWAYS AS ROW START|END` from the token after `GENERATED`: the
/// flags `(start, end)` and the position after what was read.
pub open spec fn generated_clause(s: Seq<TokenView>, p: int) -> (bool, bool, int) {
    let a = skip_ws(s, p);
    if !word_at(s, a, "ALWAYS"@) {
        (false, false, a)
    } else {
        let b = skip_ws(s, a + 1);
        if !kw_at(s, b, "AS"@) {
            (false, false, b)
        } else {
            let c = skip_ws(s, b + 1);
            if !word_at(s, c, "ROW"@) {
                (false, false, c)
            } else {
                let d = skip_ws(s, c + 1);
                if word_at(s, d, "START"@) {
                    (true, false, d + 1)
                } else if word_at(s, d, "END"@) {
                    (false, true, d + 1)
                } else {
                    (false, false, d)
                }
            }
        }
    }
}

/// One column modifier at `q` (not whitespace): the new state and the position
/// after it, or `None` when the token is no modifier.
pub open spec fn modifier_step(s: Seq<TokenView>, q: int, st: ModifierState) -> Option<
    (ModifierState, int),
> {
    match constraint_step(s, q, st) {
        Some(x) => Some(x),
        None => match flag_step(s, q, st) {
            Some(x) => Some(x),
            None => key_step(s, q, st),
        },
    }
}

/// `IDENTITY`, `NOT NULL`, `NULL`, `CONSTRAINT name`, `DEFAULT v`, `CHECK (e)`.
pub open spec fn constraint_step(s: Seq<TokenView>, q: int, st: ModifierState) -> Option<
    (ModifierState, int),
> {
    let col = st.col;
    if kw_at(s, q, "IDENTITY"@) {
        let b = skip_ws(s, q + 1);
        let c = if kind_at(s, b, TokenKind::LParen) {
            skip_paren(s, b, 0)
        } else {
            b
        };
        Some((ModifierState { col: ColumnView { is_identity: true, ..col }, ..st }, c))
    } else if kw_at(s, q, "NOT"@) {
        let a = skip_ws(s, q + 1);
        if kw_at(s, a, "NULL"@) {
            Some(
                (
                    ModifierState { col: ColumnView { nullability: Some(false), ..col }, ..st },
                    a + 1,
                ),
            )
        } else {
            Some((st, a))
        }
    } else if kw_at(s, q, "NULL"@) {
        if col.nullability is None {
            Some(
                (
                    ModifierState { col: ColumnView { nullability: Some(true), ..col }, ..st },
                    q + 1,
                ),
            )
        } else {
            Some((st, q + 1))
        }
    } else if kw_at(s, q, "CONSTRAINT"@) {
        let (id, b) = ident(s, skip_ws(s, q + 1));
        Some((ModifierState { pending: id, after_not_null: col.nullability == Some(false), ..st }, b))
    } else if kw_at(s, q, "DEFAULT"@) {
        let (dv, b) = col_default(s, skip_ws(s, q + 1));
        Some(
            (
                ModifierState {
                    col: ColumnView {
                        default_value: dv,
                        default_constraint_name: st.pending,
                        emit_default_constraint_name: st.pending is Some && st.after_not_null,
                        ..col
                    },
                    pending: None,
                    after_not_null: false,
                },
                b,
            ),
        )
    } else if kw_at(s, q, "CHECK"@) {
        let a = skip_ws(s, q + 1);
        if kind_at(s, a, TokenKind::LParen) {
            let (e, b) = paren_expr(s, a);
            Some(
                (
                    ModifierState {
                        col: ColumnView {
                            check_expression: Some(e),
                            check_constraint_name: st.pending,
                            emit_check_constraint_name: st.pending is Some && st.after_not_null,
                            ..col
                        },
                        pending: None,
                        after_not_null: false,
                    },
                    b,
                ),
            )
        } else {
            Some((st, a))
        }
    } else {
        None
    }
}

/// `ROWGUIDCOL`, `SPARSE`, `FILESTREAM`, `GENERATED ...`, `HIDDEN`, `PERSISTED`.
pub open spec fn flag_step(s: Seq<TokenView>, q: int, st: ModifierState) -> Option<
    (ModifierState, int),
> {
    let col = st.col;
    if word_at(s, q, "ROWGUIDCOL"@) {
        Some((ModifierState { col: ColumnView { is_rowguidcol: true, ..col }, ..st }, q + 1))
    } else if word_at(s, q, "SPARSE"@) {
        Some((ModifierState { col: ColumnView { is_sparse: true, ..col }, ..st }, q + 1))
    } else if word_at(s, q, "FILESTREAM"@) {
        Some((ModifierState { col: ColumnView { is_filestream: true, ..col }, ..st }, q + 1))
    } else if word_at(s, q, "GENERATED"@) {
        let (gs, ge, b) = generated_clause(s, q + 1);
        Some(
            (
                ModifierState {
                    col: ColumnView {
                        is_generated_always_start: col.is_generated_always_start || gs,
                        is_generated_always_end: col.is_generated_always_end || ge,
                        ..col
                    },
                    ..st
                },
                b,
            ),
        )
    } else if word_at(s, q, "HIDDEN"@) {
        Some(
            (
                ModifierState { col: ColumnView { is_hidden: true, ..col }, ..st },
                q + 1,
            ),
        )
    } else if word_at(s, q, "PERSISTED"@) {
        Some((ModifierState { col: ColumnView { is_persisted: true, ..col }, ..st }, q + 1))
    } else {
        None
    }
}

/// Inline `PRIMARY KEY`, `UNIQUE` and `FOREIGN KEY ... REFERENCES ...`, read over.
pub open spec fn key_step(s: Seq<TokenView>, q: int, st: ModifierState) -> Option<
    (ModifierState, int),
> {
    if kw_at(s, q, "PRIMARY"@) {
        let a = skip_ws(s, q + 1);
        if kw_at(s, a, "KEY"@) {
            Some((st, skip_clustered(s, skip_ws(s, a + 1))))
        } else {
            Some((st, a))
        }
    } else if kw_at(s, q, "UNIQUE"@) {
        Some((st, skip_clustered(s, skip_ws(s, q + 1))))
    } else if kw_at(s, q, "FOREIGN"@) {
        let a = skip_ws(s, q + 1);
        let b = if kw_at(s, a, "KEY"@) {
            a + 1
        } else {
            a
        };
        let c = skip_ws(s, b);
        if kw_at(s, c, "REFERENCES"@) {
            Some((st, skip_to_constraint_kw(s, c)))
        } else {
            Some((st, c))
        }
    } else {
        None
    }
}

/// The modifiers from `p` on. Every step moves forward; the bound on the
/// step's result only makes the recursion evidently finite.
pub open spec fn col_modifiers(s: Seq<TokenView>, p: int, st: ModifierState) -> ColumnView
    decreases s.len() - p,
{
    if p < 0 {
        st.col
    } else {
        let q = skip_ws(s, p);
        if q >= s.len() {
            st.col
        } else {
            match modifier_step(s, q, st) {
                None => st.col,
                Some((st2, q2)) => if q2 <= p || q2 > s.len() {
                    st.col
                } else {
                    col_modifiers(s, q2, st2)
                },
            }
        }
    }
}

/// One of `PERSISTED`, `NOT NULL`, `NULL` at `q` after a computed column's
/// expression: the updated column and the position after it.
pub open spec fn computed_step(s: Seq<TokenView>, q: int, col: ColumnView) -> Option<(ColumnView, int)> {
    if word_at(s, q, "PERSISTED"@) {
        Some((ColumnView { is_persisted: true, ..col }, q + 1))
    } else if kw_at(s, q, "NOT"@) {
        let a = skip_ws(s, q + 1);
        if kw_at(s, a, "NULL"@) {
            Some((ColumnView { nullability: Some(false), ..col }, a + 1))
        } else {
            Some((col, a))
        }
    } else if kw_at(s, q, "NULL"@) {
        Some((ColumnView { nullability: Some(true), ..col }, q + 1))
    } else {
        None
    }
}

/// `PERSISTED`, `NOT NULL` and `NULL` after a computed column's expression.
/// Every step moves forward; the bound on the step's result only makes the
/// recursion evidently finite.
pub open spec fn computed_tail(s: Seq<TokenView>, p: int, col: ColumnView) -> ColumnView
    decreases s.len() - p,
{
    if p < 0 {
        col
    } else {
        let q = skip_ws(s, p);
        if q >= s.len() {
            col
        } else {
            match computed_step(s, q, col) {
                None => col,
                Some((c2, q2)) => if q2 <= p || q2 > s.len() {
                    col
                } else {
                    computed_tail(s, q2, c2)
                },
            }
        }
    }
}

/// A column definition over tokens.
pub open spec fn column_def(s: Seq<TokenView>) -> Option<ColumnView> {
    let p0 = skip_ws(s, 0);
    if p0 >= s.len() || !kind_at(s, p0, TokenKind::Word) {
        None
    } else {
        let name = s[p0].value;
        let p1 = skip_ws(s, p0 + 1);
        if kw_at(s, p1, "AS"@) {
            let a = skip_ws(s, p1 + 1);
            if !kind_at(s, a, TokenKind::LParen) {
                None
            } else {
                let (e, b) = paren_expr(s, a);
                let col = ColumnView {
                    computed_expression: Some(seq!['('] + e + seq![')']),
                    ..base_column(name, Seq::empty(), None)
                };
                Some(computed_tail(s, b, col))
            }
        } else {
            let (dt, p2) = col_data_type(s, p1);
            match dt {
                None => None,
                Some(d) => {
                    let (coll, p3) = col_collation(s, p2);
                    Some(
                        col_modifiers(
                            s,
                            p3,
                            ModifierState { col: base_column(name, d, coll), pending: None, after_not_null: false },
                        ),
                    )
                },
            }
        }
    }
}

/// `str::lines`: the text split at `\n`, a `\r` right before a `\n` dropped,
/// no final empty line after a last `\n`.
pub open spec fn text_lines(s: Seq<char>) -> Seq<Seq<char>>
    decreases s.len(),
{
    if s.len() == 0 {
        Seq::empty()
    } else {
        let i = first_newline(s, 0);
        proof {
            lemma_first_newline(s, 0);
        }
        if i >= s.len() {
            seq![s]
        } else {
            seq![drop_cr(s.subrange(0, i))] + text_lines(s.subrange(i + 1, s.len() as int))
        }
    }
}

/// Index of the first `\n` at or after `i`, or the length.
pub open spec fn first_newline(s: Seq<char>, i: int) -> int
    decreases s.len() - i,
{
    if i < 0 || i >= s.len() {
        s.len() as int
    } else if s[i] == '\n' {
        i
    } else {
        first_newline(s, i + 1)
    }
}

pub open spec fn drop_cr(l: Seq<char>) -> Seq<char> {
    if l.len() > 0 && l.last() == '\r' {
        l.drop_last()
    } else {
        l
    }
}

/// Whether a trimmed line starts with `--`.
pub open spec fn is_comment_line(l: Seq<char>) -> bool {
    let t = trim(l);
    t.len() >= 2 && t[0] == '-' && t[1] == '-'
}

/// Lines joined by single spaces, leaving out comment lines and the blank
/// lines right after them.
pub open spec fn join_code_lines(lines: Seq<Seq<char>>, in_comment: bool, acc: Seq<char>) -> Seq<char>
    decreases lines.len(),
{
    if lines.len() == 0 {
        acc
    } else {
        let l = lines[0];
        let rest = lines.drop_first();
        if is_comment_line(l) {
            join_code_lines(rest, true, acc)
        } else if in_comment && trim(l).len() == 0 {
            join_code_lines(rest, true, acc)
        } else {
            join_code_lines(rest, false, if acc.len() > 0 {
                acc.push(' ') + l
            } else {
                acc + l
            })
        }
    }
}

/// The definition text without its `--` comment lines.
pub open spec fn strip_comment_lines(s: Seq<char>) -> Seq<char> {
    join_code_lines(text_lines(s), false, Seq::empty())
}

/// A column definition from its text.
pub open spec fn column_definition(sql: Seq<char>) -> Option<ColumnView> {
    let t = trim(strip_comment_lines(sql));
    if t.len() == 0 {
        None
    } else {
        match lex_sql(t) {
            Some(s) => column_def(s),
            None => None,
        }
    }
}

// ---------------------------------------------------------------------------
// Lemmas
// ---------------------------------------------------------------------------

pub proof fn lemma_first_newline(s: Seq<char>, i: int)
    requires
        0 <= i <= s.len(),
    ensures
        i <= first_newline(s, i) <= s.len(),
    decreases s.len() - i,
{
    if i < s.len() && s[i] != '\n' {
        lemma_first_newline(s, i + 1);
    }
}

// ---------------------------------------------------------------------------
// Executable steps
// ---------------------------------------------------------------------------

fn paren_body_exec(toks: &Vec<SqlToken>, p: usize) -> (r: (String, usize))
    requires
        p <= toks.len(),
    ensures
        (r.0@, r.1 as int) == paren_body(views(toks@), p as int, 1, Seq::empty()),
        p <= r.1 <= toks.len(),
{
    let ghost s = views(toks@);
    let mut pos: usize = p;
    let mut depth: u128 = 1;
    let mut out = String::new();
    while pos < toks.len() && depth > 0
        invariant
            s == views(toks@),
            p <= pos <= toks.len(),
            depth <= pos - p + 1,
            paren_body(s, p as int, 1, Seq::empty()) == paren_body(s, pos as int, depth as nat, out@),
        decreases toks.len() - pos,
    {
        assert(s[pos as int] == toks@[pos as int]@);
        let t = &toks[pos];
        if matches!(t.kind, TokenKind::LParen) {
            depth = depth + 1;
        } else if matches!(t.kind, TokenKind::RParen) {
            depth = depth - 1;
        }
        if depth > 0 {
            push_token_string(&mut out, t);
        }
        pos = pos + 1;
    }
    (out, pos)
}

pub(crate) fn trimmed(s: &String) -> (r: String)
    ensures
        r@ == trim(s@),
{
    let v = chars_of(s.as_str());
    let tv = trim_set(&v, CharSet::Whitespace);
    string_from_chars(&tv)
}

pub(crate) fn paren_expr_exec(toks: &Vec<SqlToken>, p: usize) -> (r: (String, usize))
    requires
        p < toks.len(),
    ensures
        (r.0@, r.1 as int) == paren_expr(views(toks@), p as int),
        p < r.1 <= toks.len(),
{
    let (c, e) = paren_body_exec(toks, p + 1);
    (trimmed(&c), e)
}

fn skip_paren_exec(toks: &Vec<SqlToken>, p: usize) -> (r: usize)
    requires
        p <= toks.len(),
    ensures
        r == skip_paren(views(toks@), p as int, 0),
        p <= r <= toks.len(),
{
    let ghost s = views(toks@);
    let mut pos: usize = p;
    let mut depth: usize = 0;
    let mut done = false;
    while !done && pos < toks.len()
        invariant
            s == views(toks@),
            p <= pos <= toks.len(),
            depth <= pos - p,
            done ==> skip_paren(s, p as int, 0) == pos,
            !done ==> skip_paren(s, p as int, 0) == skip_paren(s, pos as int, depth as nat),
        decreases toks.len() - pos + (if done {
            0int
        } else {
            1int
        }),
    {
        assert(s[pos as int] == toks@[pos as int]@);
        if matches!(toks[pos].kind, TokenKind::LParen) {
            depth = depth + 1;
            pos = pos + 1;
        } else if matches!(toks[pos].kind, TokenKind::RParen) {
            if depth <= 1 {
                pos = pos + 1;
                done = true;
            } else {
                depth = depth - 1;
                pos = pos + 1;
            }
        } else {
            pos = pos + 1;
        }
    }
    pos
}

fn col_data_type_exec(toks: &Vec<SqlToken>, p: usize) -> (r: (Option<String>, usize))
    requires
        p <= toks.len(),
    ensures
        (opt_str(r.0), r.1 as int) == col_data_type(views(toks@), p as int),
        p <= r.1 <= toks.len(),
{
    let a = skip_whitespace(toks, p);
    if !check_kind(toks, a, TokenKind::Word) {
        return (None, a);
    }
    assert(views(toks@)[a as int] == toks@[a as int]@);
    let mut base = to_uppercase(toks[a].value.as_str());
    let b = skip_whitespace(toks, a + 1);
    if check_kind(toks, b, TokenKind::LParen) {
        let (c, e) = paren_expr_exec(toks, b);
        push_char(&mut base, '(');
        append_string(&mut base, &c);
        push_char(&mut base, ')');
        (Some(base), e)
    } else {
        (Some(base), b)
    }
}

fn col_collation_exec(toks: &Vec<SqlToken>, p: usize) -> (r: (Option<String>, usize))
    requires
        p <= toks.len(),
    ensures
        (opt_str(r.0), r.1 as int) == col_collation(views(toks@), p as int),
        p <= r.1 <= toks.len(),
{
    let b = skip_whitespace(toks, p);
    if !check_word_ci(toks, b, "COLLATE") {
        return (None, b);
    }
    let c = skip_whitespace(toks, b + 1);
    if check_kind(toks, c, TokenKind::Word) {
        assert(views(toks@)[c as int] == toks@[c as int]@);
        (Some(toks[c].value.clone()), c + 1)
    } else {
        (None, c)
    }
}

fn col_default_exec(toks: &Vec<SqlToken>, p: usize) -> (r: (Option<String>, usize))
    requires
        p <= toks.len(),
    ensures
        (opt_str(r.0), r.1 as int) == col_default(views(toks@), p as int),
        p <= r.1 <= toks.len(),
{
    let ghost s = views(toks@);
    let a = skip_whitespace(toks, p);
    if check_kind(toks, a, TokenKind::LParen) {
        let (c, e) = paren_expr_exec(toks, a);
        let mut out = String::new();
        push_char(&mut out, '(');
        append_string(&mut out, &c);
        push_char(&mut out, ')');
        assert(out@ =~= seq!['('] + c@ + seq![')']);
        return (Some(out), e);
    }
    if a >= toks.len() {
        return (None, a);
    }
    assert(s[a as int] == toks@[a as int]@);
    if matches!(toks[a].kind, TokenKind::Word) {
        let f = toks[a].value.clone();
        let b = skip_whitespace(toks, a + 1);
        if check_kind(toks, b, TokenKind::LParen) {
            let c = skip_whitespace(toks, b + 1);
            if check_kind(toks, c, TokenKind::RParen) {
                let mut out = f;
                out.append("()");
                return (Some(out), c + 1);
            }
            let (args, e) = paren_body_exec(toks, c);
            let targs = trimmed(&args);
            let mut out = f;
            push_char(&mut out, '(');
            append_string(&mut out, &targs);
            push_char(&mut out, ')');
            return (Some(out), e);
        }
        return (Some(f), b);
    }
    if matches!(toks[a].kind, TokenKind::SingleQuotedString) || matches!(
        toks[a].kind,
        TokenKind::NationalStringLiteral
    ) {
        let mut out = String::new();
        push_token_sql(&mut out, &toks[a]);
        assert(out@ =~= token_sql(s[a as int]));
        return (Some(out), a + 1);
    }
    if matches!(toks[a].kind, TokenKind::Number) {
        return (Some(toks[a].value.clone()), a + 1);
    }
    if matches!(toks[a].kind, TokenKind::Minus) {
        if check_kind(toks, a + 1, TokenKind::Number) {
            assert(s[a + 1] == toks@[a + 1]@);
            let mut out = String::new();
            push_char(&mut out, '-');
            append_string(&mut out, &toks[a + 1].value);
            return (Some(out), a + 2);
        }
        return (None, a + 1);
    }
    (None, a)
}

fn skip_to_constraint_kw_exec(toks: &Vec<SqlToken>, p: usize) -> (r: usize)
    requires
        p <= toks.len(),
    ensures
        r == skip_to_constraint_kw(views(toks@), p as int),
        p <= r <= toks.len(),
{
    let mut pos: usize = p;
    while pos < toks.len() && !(check_keyword(toks, pos, "CONSTRAINT") || check_keyword(
        toks,
        pos,
        "DEFAULT",
    ) || check_keyword(toks, pos, "CHECK"))
        invariant
            p <= pos <= toks.len(),
            skip_to_constraint_kw(views(toks@), p as int) == skip_to_constraint_kw(
                views(toks@),
                pos as int,
            ),
        decreases toks.len() - pos,
    {
        pos = pos + 1;
    }
    pos
}

fn skip_clustered_exec(toks: &Vec<SqlToken>, p: usize) -> (r: usize)
    requires
        p <= toks.len(),
    ensures
        r == skip_clustered(views(toks@), p as int),
        p <= r <= toks.len(),
{
    if check_keyword(toks, p, "CLUSTERED") || check_word_ci(toks, p, "NONCLUSTERED") {
        p + 1
    } else {
        p
    }
}

fn generated_clause_exec(toks: &Vec<SqlToken>, p: usize) -> (r: (bool, bool, usize))
    requires
        p <= toks.len(),
    ensures
        (r.0, r.1, r.2 as int) == generated_clause(views(toks@), p as int),
        p <= r.2 <= toks.len(),
{
    let a = skip_whitespace(toks, p);
    if !check_word_ci(toks, a, "ALWAYS") {
        return (false, false, a);
    }
    let b = skip_whitespace(toks, a + 1);
    if !check_keyword(toks, b, "AS") {
        return (false, false, b);
    }
    let c = skip_whitespace(toks, b + 1);
    if !check_word_ci(toks, c, "ROW") {
        return (false, false, c);
    }
    let d = skip_whitespace(toks, c + 1);
    if check_word_ci(toks, d, "START") {
        (true, false, d + 1)
    } else if check_word_ci(toks, d, "END") {
        (false, true, d + 1)
    } else {
        (false, false, d)
    }
}

/// The executable state of the modifier scan.
struct ModifierScan {
    col: TokenParsedColumn,
    pending: Option<String>,
    after_not_null: bool,
}

impl View for ModifierScan {
    type V = ModifierState;

    closed spec fn view(&self) -> ModifierState {
        ModifierState { col: self.col@, pending: opt_str(self.pending), after_not_null: self.after_not_null }
    }
}

#[verifier::rlimit(100)]
fn constraint_step_exec(toks: &Vec<SqlToken>, q: usize, st: ModifierScan) -> (r: (
    ModifierScan,
    Option<usize>,
))
    requires
        q < toks.len(),
    ensures
        match constraint_step(views(toks@), q as int, st@) {
            Some((st2, q2)) => r.0@ == st2 && r.1 == Some(q2 as usize) && q < q2 <= toks.len(),
            None => r.0@ == st@ && r.1 is None,
        },
{
    let mut st = st;
    if check_keyword(toks, q, "IDENTITY") {
        let b = skip_whitespace(toks, q + 1);
        let c = if check_kind(toks, b, TokenKind::LParen) {
            skip_paren_exec(toks, b)
        } else {
            b
        };
        st.col.is_identity = true;
        (st, Some(c))
    } else if check_keyword(toks, q, "NOT") {
        let a = skip_whitespace(toks, q + 1);
        if check_keyword(toks, a, "NULL") {
            st.col.nullability = Some(false);
            (st, Some(a + 1))
        } else {
            (st, Some(a))
        }
    } else if check_keyword(toks, q, "NULL") {
        if st.col.nullability.is_none() {
            st.col.nullability = Some(true);
        }
        (st, Some(q + 1))
    } else if check_keyword(toks, q, "CONSTRAINT") {
        let (id, b) = parse_identifier(toks, skip_whitespace(toks, q + 1));
        st.pending = id;
        st.after_not_null = matches!(st.col.nullability, Some(false));
        (st, Some(b))
    } else if check_keyword(toks, q, "DEFAULT") {
        let (dv, b) = col_default_exec(toks, skip_whitespace(toks, q + 1));
        let named = st.pending.is_some();
        st.col.default_value = dv;
        st.col.emit_default_constraint_name = named && st.after_not_null;
        st.col.default_constraint_name = st.pending.take();
        st.after_not_null = false;
        (st, Some(b))
    } else if check_keyword(toks, q, "CHECK") {
        let a = skip_whitespace(toks, q + 1);
        if check_kind(toks, a, TokenKind::LParen) {
            let (e, b) = paren_expr_exec(toks, a);
            let named = st.pending.is_some();
            st.col.check_expression = Some(e);
            st.col.emit_check_constraint_name = named && st.after_not_null;
            st.col.check_constraint_name = st.pending.take();
            st.after_not_null = false;
            (st, Some(b))
        } else {
            (st, Some(a))
        }
    } else {
        (st, None)
    }
}

#[verifier::rlimit(60)]
fn flag_step_exec(toks: &Vec<SqlToken>, q: usize, st: ModifierScan) -> (r: (
    ModifierScan,
    Option<usize>,
))
    requires
        q < toks.len(),
    ensures
        match flag_step(views(toks@), q as int, st@) {
            Some((st2, q2)) => r.0@ == st2 && r.1 == Some(q2 as usize) && q < q2 <= toks.len(),
            None => r.0@ == st@ && r.1 is None,
        },
{
    let mut st = st;
    if check_word_ci(toks, q, "ROWGUIDCOL") {
        st.col.is_rowguidcol = true;
        (st, Some(q + 1))
    } else if check_word_ci(toks, q, "SPARSE") {
        st.col.is_sparse = true;
        (st, Some(q + 1))
    } else if check_word_ci(toks, q, "FILESTREAM") {
        st.col.is_filestream = true;
        (st, Some(q + 1))
    } else if check_word_ci(toks, q, "GENERATED") {
        let (gs, ge, b) = generated_clause_exec(toks, q + 1);
        st.col.is_generated_always_start = st.col.is_generated_always_start || gs;
        st.col.is_generated_always_end = st.col.is_generated_always_end || ge;
        (st, Some(b))
    } else if check_word_ci(toks, q, "HIDDEN") {
        st.col.is_hidden = true;
        (st, Some(q + 1))
    } else if check_word_ci(toks, q, "PERSISTED") {
        st.col.is_persisted = true;
        (st, Some(q + 1))
    } else {
        (st, None)
    }
}

fn key_step_exec(toks: &Vec<SqlToken>, q: usize, st: ModifierScan) -> (r: (
    ModifierScan,
    Option<usize>,
))
    requires
        q < toks.len(),
    ensures
        match key_step(views(toks@), q as int, st@) {
            Some((st2, q2)) => r.0@ == st2 && r.1 == Some(q2 as usize) && q < q2 <= toks.len(),
            None => r.0@ == st@ && r.1 is None,
        },
{
    if check_keyword(toks, q, "PRIMARY") {
        let a = skip_whitespace(toks, q + 1);
        if check_keyword(toks, a, "KEY") {
            let b = skip_clustered_exec(toks, skip_whitespace(toks, a + 1));
            (st, Some(b))
        } else {
            (st, Some(a))
        }
    } else if check_keyword(toks, q, "UNIQUE") {
        let b = skip_clustered_exec(toks, skip_whitespace(toks, q + 1));
        (st, Some(b))
    } else if check_keyword(toks, q, "FOREIGN") {
        let a = skip_whitespace(toks, q + 1);
        let b = if check_keyword(toks, a, "KEY") {
            a + 1
        } else {
            a
        };
        let c = skip_whitespace(toks, b);
        if check_keyword(toks, c, "REFERENCES") {
            (st, Some(skip_to_constraint_kw_exec(toks, c)))
        } else {
            (st, Some(c))
        }
    } else {
        (st, None)
    }
}

fn modifier_step_exec(toks: &Vec<SqlToken>, q: usize, st: ModifierScan) -> (r: (
    ModifierScan,
    Option<usize>,
))
    requires
        q < toks.len(),
    ensures
        match modifier_step(views(toks@), q as int, st@) {
            Some((st2, q2)) => r.0@ == st2 && r.1 == Some(q2 as usize) && q < q2 <= toks.len(),
            None => r.0@ == st@ && r.1 is None,
        },
{
    let (st, r1) = constraint_step_exec(toks, q, st);
    if r1.is_some() {
        return (st, r1);
    }
    let (st, r2) = flag_step_exec(toks, q, st);
    if r2.is_some() {
        return (st, r2);
    }
    key_step_exec(toks, q, st)
}

fn col_modifiers_exec(toks: &Vec<SqlToken>, p: usize, st: ModifierScan) -> (r: TokenParsedColumn)
    requires
        p <= toks.len(),
    ensures
        r@ == col_modifiers(views(toks@), p as int, st@),
{
    let ghost s = views(toks@);
    let ghost st0 = st@;
    let mut pos: usize = p;
    let mut st = st;
    let mut done = false;
    while !done
        invariant
            s == views(toks@),
            pos <= toks.len(),
            done ==> col_modifiers(s, p as int, st0) == st@.col,
            !done ==> col_modifiers(s, p as int, st0) == col_modifiers(s, pos as int, st@),
        decreases toks.len() - pos + (if done {
            0int
        } else {
            1int
        }),
    {
        let q = skip_whitespace(toks, pos);
        if q >= toks.len() {
            done = true;
        } else {
            let (st2, next) = modifier_step_exec(toks, q, st);
            st = st2;
            match next {
                None => {
                    done = true;
                },
                Some(q2) => {
                    pos = q2;
                },
            }
        }
    }
    st.col
}

fn computed_step_exec(toks: &Vec<SqlToken>, q: usize, col: TokenParsedColumn) -> (r: (
    TokenParsedColumn,
    Option<usize>,
))
    requires
        q < toks.len(),
    ensures
        match computed_step(views(toks@), q as int, col@) {
            Some((c2, q2)) => r.0@ == c2 && r.1 == Some(q2 as usize) && q < q2 <= toks.len(),
            None => r.0@ == col@ && r.1 is None,
        },
{
    let mut col = col;
    if check_word_ci(toks, q, "PERSISTED") {
        col.is_persisted = true;
        (col, Some(q + 1))
    } else if check_keyword(toks, q, "NOT") {
        let a = skip_whitespace(toks, q + 1);
        if check_keyword(toks, a, "NULL") {
            col.nullability = Some(false);
            (col, Some(a + 1))
        } else {
            (col, Some(a))
        }
    } else if check_keyword(toks, q, "NULL") {
        col.nullability = Some(true);
        (col, Some(q + 1))
    } else {
        (col, None)
    }
}

fn computed_tail_exec(toks: &Vec<SqlToken>, p: usize, col: TokenParsedColumn) -> (r: TokenParsedColumn)
    requires
        p <= toks.len(),
    ensures
        r@ == computed_tail(views(toks@), p as int, col@),
{
    let ghost s = views(toks@);
    let ghost c0 = col@;
    let mut pos: usize = p;
    let mut col = col;
    let mut done = false;
    while !done
        invariant
            s == views(toks@),
            pos <= toks.len(),
            done ==> computed_tail(s, p as int, c0) == col@,
            !done ==> computed_tail(s, p as int, c0) == computed_tail(s, pos as int, col@),
        decreases toks.len() - pos + (if done {
            0int
        } else {
            1int
        }),
    {
        let q = skip_whitespace(toks, pos);
        if q >= toks.len() {
            done = true;
        } else {
            let (c2, next) = computed_step_exec(toks, q, col);
            col = c2;
            match next {
                None => {
                    done = true;
                },
                Some(q2) => {
                    pos = q2;
                },
            }
        }
    }
    col
}

fn empty_column(name: String, data_type: String, collation: Option<String>) -> (r: TokenParsedColumn)
    ensures
        r@ == base_column(name@, data_type@, opt_str(collation)),
{
    TokenParsedColumn {
        name,
        data_type,
        nullability: None,
        is_identity: false,
        is_rowguidcol: false,
        is_sparse: false,
        is_filestream: false,
        default_constraint_name: None,
        default_value: None,
        emit_default_constraint_name: false,
        check_constraint_name: None,
        check_expression: None,
        emit_check_constraint_name: false,
        computed_expression: None,
        is_persisted: false,
        collation,
        is_generated_always_start: false,
        is_generated_always_end: false,
        is_hidden: false,
    }
}

/// A column definition, over tokens.
pub fn parse_column(toks: &Vec<SqlToken>) -> (r: Option<TokenParsedColumn>)
    ensures
        opt_column(r) == column_def(views(toks@)),
{
    let p0 = skip_whitespace(toks, 0);
    if p0 >= toks.len() || !check_kind(toks, p0, TokenKind::Word) {
        return None;
    }
    assert(views(toks@)[p0 as int] == toks@[p0 as int]@);
    let name = toks[p0].value.clone();
    let p1 = skip_whitespace(toks, p0 + 1);
    if check_keyword(toks, p1, "AS") {
        let a = skip_whitespace(toks, p1 + 1);
        if !check_kind(toks, a, TokenKind::LParen) {
            return None;
        }
        let (e, b) = paren_expr_exec(toks, a);
        let mut expr = String::new();
        push_char(&mut expr, '(');
        append_string(&mut expr, &e);
        push_char(&mut expr, ')');
        assert(expr@ =~= seq!['('] + e@ + seq![')']);
        let mut col = empty_column(name, String::new(), None);
        col.computed_expression = Some(expr);
        Some(computed_tail_exec(toks, b, col))
    } else {
        let (dt, p2) = col_data_type_exec(toks, p1);
        match dt {
            None => None,
            Some(d) => {
                let (coll, p3) = col_collation_exec(toks, p2);
                let st = ModifierScan { col: empty_column(name, d, coll), pending: None, after_not_null: false };
                Some(col_modifiers_exec(toks, p3, st))
            },
        }
    }
}

fn first_newline_exec(v: &Vec<char>, i: usize) -> (r: usize)
    requires
        i <= v.len(),
    ensures
        r == first_newline(v@, i as int),
        i <= r <= v.len(),
{
    let mut k: usize = i;
    while k < v.len() && v[k] != '\n'
        invariant
            i <= k <= v.len(),
            first_newline(v@, i as int) == first_newline(v@, k as int),
        decreases v.len() - k,
    {
        k = k + 1;
    }
    k
}

/// Searching a suffix finds the same newline, shifted.
pub proof fn lemma_first_newline_suffix(s: Seq<char>, i: int, j: int)
    requires
        0 <= i <= s.len(),
        0 <= j,
    ensures
        first_newline(s.subrange(i, s.len() as int), j) + i == first_newline(s, i + j),
    decreases s.len() - (i + j),
{
    let t = s.subrange(i, s.len() as int);
    if i + j < s.len() {
        assert(t[j] == s[i + j]);
        if s[i + j] != '\n' {
            lemma_first_newline_suffix(s, i, j + 1);
        }
    }
}

/// The definition text without its `--` comment lines (and the blank lines
/// right after them), the remaining lines joined by single spaces.
pub fn strip_leading_comments(sql: &str) -> (r: String)
    ensures
        r@ == strip_comment_lines(sql@),
{
    let v = chars_of(sql);
    let mut out = String::new();
    let mut in_comment = false;
    let mut i: usize = 0;
    assert(v@.subrange(0, v@.len() as int) =~= v@);
    while i < v.len()
        invariant
            v@ == sql@,
            i <= v.len(),
            strip_comment_lines(sql@) == join_code_lines(
                text_lines(v@.subrange(i as int, v@.len() as int)),
                in_comment,
                out@,
            ),
        decreases v.len() - i,
    {
        let ghost rest = v@.subrange(i as int, v@.len() as int);
        let k = first_newline_exec(&v, i);
        proof {
            lemma_first_newline_suffix(v@, i as int, 0);
        }
        let mut e = k;
        if k < v.len() && e > i && v[e - 1] == '\r' {
            e = e - 1;
        }
        let line_v = string_from_range(&v, i, e);
        let ghost line = v@.subrange(i as int, k as int);
        let ghost first = if k < v.len() {
            drop_cr(line)
        } else {
            line
        };
        assert(line_v@ =~= first);
        let lv = chars_of(line_v.as_str());
        let t = trim_set(&lv, CharSet::Whitespace);
        let is_comment = t.len() >= 2 && t[0] == '-' && t[1] == '-';
        let ghost tail = if k < v.len() {
            v@.subrange(k + 1, v@.len() as int)
        } else {
            Seq::<char>::empty()
        };
        proof {
            assert(rest.subrange(0, k - i) =~= line);
            if k < v.len() {
                assert(rest.subrange(k - i + 1, rest.len() as int) =~= tail);
            } else {
                assert(line =~= rest);
            }
            assert(text_lines(rest) == seq![first] + text_lines(tail));
            assert((seq![first] + text_lines(tail))[0] == first);
            assert((seq![first] + text_lines(tail)).drop_first() =~= text_lines(tail));
        }
        if is_comment {
            in_comment = true;
        } else if in_comment && t.len() == 0 {
        } else {
            in_comment = false;
            if out.unicode_len() > 0 {
                push_char(&mut out, ' ');
            }
            append_string(&mut out, &line_v);
        }
        i = if k < v.len() {
            k + 1
        } else {
            v.len()
        };
        proof {
            if k >= v.len() {
                assert(v@.subrange(v@.len() as int, v@.len() as int) =~= Seq::<char>::empty());
            }
        }
    }
    out
}

/// Parses a column definition (comment lines dropped, text trimmed).
pub fn parse_column_definition_tokens(col_def: &str) -> (r: Option<TokenParsedColumn>)
    ensures
        opt_column(r) == column_definition(col_def@),
{
    let stripped = strip_leading_comments(col_def);
    let t = trimmed(&stripped);
    if t.unicode_len() == 0 {
        return None;
    }
    match tokenize(t.as_str()) {
        Some(toks) => parse_column(&toks),
        None => None,
    }
}

} // verus!
