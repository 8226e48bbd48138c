//! `CREATE TABLE` read without a full SQL parse: the body is split into its
//! column and constraint definitions (also where SQL Server lets a constraint
//! follow a column without a comma), each is read by the column or constraint
//! parser, and the temporal-table clauses are read around it.

use vstd::prelude::*;
use crate::text::{trim, chars_of, string_from_chars, trim_set, CharSet, push_char, str_to_string, contains_ci, starts_with_ci, contains_ci_exec, starts_with_ci_exec, find, find_from, find_from_exec, trim_start_by, trim_end_by, open_bracket_pred, close_bracket_pred, trim_start_set, trim_end_set, string_from_range, append_string, sub_vec, lemma_find_from_props};
use crate::lexer::{SqlToken, TokenKind, TokenView, views, lex_sql, tokenize};
use crate::cursor::opt_str;
use crate::cursor::{is_kw, kw_at, skip_ws, token_sql, skip_whitespace, check_keyword, push_token_sql};
use crate::column_parser::trimmed;
use crate::storage_parser::strings_view;
use crate::column_parser::{ColumnView, column_definition, parse_column_definition_tokens, TokenParsedColumn};
use crate::constraint_parser::{ConstraintView, table_constraint, parse_table_constraint_tokens};
use crate::fallback::{ExtractedTableColumn, ExtractedTableConstraint, TableColumnView, FallbackStatementType, FallbackView, table_columns_view, table_constraints_view, convert_token_parsed_constraint, opt_fallback};
use crate::patterns::{regex_capture_groups, group_of, regex_captures, capture_group, regex_escaped, escape_pattern, regex_find_split, regex_find};
use crate::scalar_type::{schema_and_name, type_name_of};
use crate::cursor::pair_view;

verus! {

// ---------------------------------------------------------------------------
// Splitting a table body
// ---------------------------------------------------------------------------

/// `FOREIGN` at `i` is followed (past whitespace) by `KEY`.
pub open spec fn foreign_key_ahead(s: Seq<TokenView>, i: int) -> bool {
    kw_at(s, skip_ws(s, i + 1), "KEY"@)
}

/// `CONSTRAINT` at `i` starts a table-level constraint: a name, then `PRIMARY`,
/// `UNIQUE`, `CHECK` or `FOREIGN KEY`.
pub open spec fn table_level_constraint_ahead(s: Seq<TokenView>, i: int) -> bool {
    let a = skip_ws(s, i + 1);
    if a < s.len() && s[a].kind != TokenKind::Word {
        false
    } else {
        let b = skip_ws(s, if a < s.len() { a + 1 } else { a });
        b < s.len() && s[b].kind == TokenKind::Word && (is_kw(s[b], "PRIMARY"@) || is_kw(
            s[b],
            "UNIQUE"@,
        ) || is_kw(s[b], "CHECK"@) || (is_kw(s[b], "FOREIGN"@) && foreign_key_ahead(s, b)))
    }
}

/// The word at `i` starts a table-level constraint: `CONSTRAINT name <kind>`,
/// or, outside a `CONSTRAINT` clause, `PRIMARY`, `UNIQUE` or `FOREIGN KEY`
/// (a bare `CHECK` belongs to its column).
pub open spec fn constraint_start_at(s: Seq<TokenView>, i: int, in_constraint: bool) -> bool {
    if is_kw(s[i], "CONSTRAINT"@) {
        table_level_constraint_ahead(s, i)
    } else if !in_constraint {
        is_kw(s[i], "PRIMARY"@) || is_kw(s[i], "UNIQUE"@) || (is_kw(s[i], "FOREIGN"@)
            && foreign_key_ahead(s, i))
    } else {
        false
    }
}

/// The parts so far, with the trimmed current part added when not empty.
pub open spec fn push_trimmed(parts: Seq<Seq<char>>, cur: Seq<char>) -> Seq<Seq<char>> {
    if trim(cur).len() == 0 {
        parts
    } else {
        parts.push(trim(cur))
    }
}

pub struct SplitState {
    pub parts: Seq<Seq<char>>,
    pub cur: Seq<char>,
    pub depth: nat,
    pub seen: bool,
    pub in_constraint: bool,
}

/// One token of the split.
pub open spec fn split_step(s: Seq<TokenView>, i: int, st: SplitState) -> SplitState {
    let t = s[i];
    if t.kind == TokenKind::LParen {
        SplitState {
            parts: st.parts,
            cur: st.cur + seq!['('],
            depth: st.depth + 1,
            seen: true,
            in_constraint: st.in_constraint,
        }
    } else if t.kind == TokenKind::RParen {
        SplitState {
            parts: st.parts,
            cur: st.cur + seq![')'],
            depth: if st.depth > 0 {
                (st.depth - 1) as nat
            } else {
                0
            },
            seen: true,
            in_constraint: st.in_constraint,
        }
    } else if t.kind == TokenKind::Comma && st.depth == 0 {
        SplitState {
            parts: push_trimmed(st.parts, st.cur),
            cur: Seq::empty(),
            depth: st.depth,
            seen: false,
            in_constraint: false,
        }
    } else if t.kind == TokenKind::Word && st.depth == 0 {
        let split = constraint_start_at(s, i, st.in_constraint) && st.seen;
        SplitState {
            parts: if split {
                push_trimmed(st.parts, st.cur)
            } else {
                st.parts
            },
            cur: (if split {
                Seq::empty()
            } else {
                st.cur
            }) + token_sql(t),
            depth: st.depth,
            seen: true,
            in_constraint: st.in_constraint || is_kw(t, "CONSTRAINT"@),
        }
    } else if t.kind == TokenKind::Whitespace {
        SplitState {
            parts: st.parts,
            cur: st.cur + t.text,
            depth: st.depth,
            seen: st.seen,
            in_constraint: st.in_constraint,
        }
    } else {
        SplitState {
            parts: st.parts,
            cur: st.cur + token_sql(t),
            depth: st.depth,
            seen: true,
            in_constraint: st.in_constraint,
        }
    }
}

pub open spec fn split_scan(s: Seq<TokenView>, i: int, st: SplitState) -> SplitState
    decreases s.len() - i,
{
    if i < 0 || i >= s.len() {
        st
    } else {
        split_scan(s, i + 1, split_step(s, i, st))
    }
}

/// The trimmed, non-empty parts of a table body, split at top-level commas and
/// before table-level constraints that follow without a comma.
pub open spec fn split_parts(s: Seq<TokenView>) -> Seq<Seq<char>> {
    let st = split_scan(
        s,
        0,
        SplitState {
            parts: Seq::empty(),
            cur: Seq::empty(),
            depth: 0,
            seen: false,
            in_constraint: false,
        },
    );
    push_trimmed(st.parts, st.cur)
}

/// Character split at top-level commas (every part trimmed; the last kept only
/// when not empty).
pub open spec fn simple_scan(c: Seq<char>, i: int, parts: Seq<Seq<char>>, cur: Seq<char>, depth: int) -> (
    Seq<Seq<char>>,
    Seq<char>,
)
    decreases c.len() - i,
{
    if i < 0 || i >= c.len() {
        (parts, cur)
    } else if c[i] == '(' {
        simple_scan(c, i + 1, parts, cur.push(c[i]), depth + 1)
    } else if c[i] == ')' {
        simple_scan(c, i + 1, parts, cur.push(c[i]), depth - 1)
    } else if c[i] == ',' && depth == 0 {
        simple_scan(c, i + 1, parts.push(trim(cur)), Seq::empty(), depth)
    } else {
        simple_scan(c, i + 1, parts, cur.push(c[i]), depth)
    }
}

pub open spec fn simple_split(c: Seq<char>) -> Seq<Seq<char>> {
    let (parts, cur) = simple_scan(c, 0, Seq::empty(), Seq::empty(), 0);
    push_trimmed(parts, cur)
}

/// The parts of a table body: by tokens, or by characters where the text does
/// not tokenize.
pub open spec fn body_parts(body: Seq<char>) -> Seq<Seq<char>> {
    match lex_sql(body) {
        Some(s) => split_parts(s),
        None => simple_split(body),
    }
}

fn foreign_key_ahead_exec(toks: &Vec<SqlToken>, i: usize) -> (r: bool)
    requires
        i < toks.len(),
    ensures
        r == foreign_key_ahead(views(toks@), i as int),
{
    check_keyword(toks, skip_whitespace(toks, i + 1), "KEY")
}

fn table_level_constraint_ahead_exec(toks: &Vec<SqlToken>, i: usize) -> (r: bool)
    requires
        i < toks.len(),
    ensures
        r == table_level_constraint_ahead(views(toks@), i as int),
{
    let ghost s = views(toks@);
    let a = skip_whitespace(toks, i + 1);
    if a < toks.len() {
        assert(s[a as int] == toks@[a as int]@);
        if !matches!(toks[a].kind, TokenKind::Word) {
            return false;
        }
    }
    let b = skip_whitespace(toks, if a < toks.len() {
        a + 1
    } else {
        a
    });
    if b < toks.len() {
        assert(s[b as int] == toks@[b as int]@);
        if matches!(toks[b].kind, TokenKind::Word) {
            return check_keyword(toks, b, "PRIMARY") || check_keyword(toks, b, "UNIQUE")
                || check_keyword(toks, b, "CHECK") || (check_keyword(toks, b, "FOREIGN")
                && foreign_key_ahead_exec(toks, b));
        }
    }
    false
}

fn constraint_start_exec(toks: &Vec<SqlToken>, i: usize, in_constraint: bool) -> (r: bool)
    requires
        i < toks.len(),
    ensures
        r == constraint_start_at(views(toks@), i as int, in_constraint),
{
    assert(views(toks@)[i as int] == toks@[i as int]@);
    if check_keyword(toks, i, "CONSTRAINT") {
        table_level_constraint_ahead_exec(toks, i)
    } else if !in_constraint {
        check_keyword(toks, i, "PRIMARY") || check_keyword(toks, i, "UNIQUE") || (check_keyword(
            toks,
            i,
            "FOREIGN",
        ) && foreign_key_ahead_exec(toks, i))
    } else {
        false
    }
}

fn push_part(parts: &mut Vec<String>, cur: &String)
    ensures
        strings_view(final(parts)@) == push_trimmed(strings_view(old(parts)@), cur@),
{
    let t = trimmed(cur);
    let ghost before = strings_view(parts@);
    if t.unicode_len() > 0 {
        parts.push(t);
        assert(strings_view(parts@) =~= before.push(t@));
    }
}

/// Splits a tokenized table body into its column and constraint definitions:
/// at top-level commas, and before a table-level constraint that follows a
/// definition without a comma; each part trimmed, empty parts dropped.
pub fn split_by_comma_or_constraint_tokens(toks: &Vec<SqlToken>) -> (r: Vec<String>)
    ensures
        strings_view(r@) == split_parts(views(toks@)),
{
    let ghost s = views(toks@);
    let mut parts: Vec<String> = Vec::new();
    let mut cur = String::new();
    let mut depth: usize = 0;
    let mut seen = false;
    let mut in_constraint = false;
    let mut i: usize = 0;
    assert(strings_view(parts@) =~= Seq::<Seq<char>>::empty());
    while i < toks.len()
        invariant
            s == views(toks@),
            0 <= i <= toks.len(),
            depth <= i,
            split_parts(s) == push_trimmed(
                split_scan(
                    s,
                    i as int,
                    SplitState {
                        parts: strings_view(parts@),
                        cur: cur@,
                        depth: depth as nat,
                        seen,
                        in_constraint,
                    },
                ).parts,
                split_scan(
                    s,
                    i as int,
                    SplitState {
                        parts: strings_view(parts@),
                        cur: cur@,
                        depth: depth as nat,
                        seen,
                        in_constraint,
                    },
                ).cur,
            ),
        decreases toks.len() - i,
    {
        assert(s[i as int] == toks@[i as int]@);
        let ghost next = split_step(
            s,
            i as int,
            SplitState {
                parts: strings_view(parts@),
                cur: cur@,
                depth: depth as nat,
                seen,
                in_constraint,
            },
        );
        let t = &toks[i];
        if matches!(t.kind, TokenKind::LParen) {
            depth = depth + 1;
            push_char(&mut cur, '(');
            seen = true;
        } else if matches!(t.kind, TokenKind::RParen) {
            if depth > 0 {
                depth = depth - 1;
            }
            push_char(&mut cur, ')');
            seen = true;
        } else if matches!(t.kind, TokenKind::Comma) && depth == 0 {
            push_part(&mut parts, &cur);
            cur = String::new();
            seen = false;
            in_constraint = false;
        } else if matches!(t.kind, TokenKind::Word) && depth == 0 {
            if constraint_start_exec(toks, i, in_constraint) && seen {
                push_part(&mut parts, &cur);
                cur = String::new();
            }
            if check_keyword(toks, i, "CONSTRAINT") {
                in_constraint = true;
            }
            push_token_sql(&mut cur, t);
            seen = true;
        } else if matches!(t.kind, TokenKind::Whitespace) {
            let ghost before = cur@;
            cur.append(t.text.as_str());
            assert(cur@ == before + t.text@);
        } else {
            push_token_sql(&mut cur, t);
            seen = true;
        }
        assert(cur@ =~= next.cur);
        assert(strings_view(parts@) =~= next.parts);
        i = i + 1;
    }
    push_part(&mut parts, &cur);
    parts
}

/// Splits a body at top-level commas by characters: every part trimmed, the
/// last kept only when not empty.
pub fn split_by_top_level_comma_simple(body: &str) -> (r: Vec<String>)
    ensures
        strings_view(r@) == simple_split(body@),
{
    let c = chars_of(body);
    let mut parts: Vec<String> = Vec::new();
    let mut cur = String::new();
    let mut depth: i128 = 0;
    let mut i: usize = 0;
    assert(strings_view(parts@) =~= Seq::<Seq<char>>::empty());
    while i < c.len()
        invariant
            c@ == body@,
            0 <= i <= c.len(),
            -(i as int) <= depth <= i as int,
            simple_scan(body@, 0, Seq::empty(), Seq::empty(), 0) == simple_scan(
                body@,
                i as int,
                strings_view(parts@),
                cur@,
                depth as int,
            ),
        decreases c.len() - i,
    {
        let ch = c[i];
        if ch == '(' {
            depth = depth + 1;
            push_char(&mut cur, ch);
        } else if ch == ')' {
            depth = depth - 1;
            push_char(&mut cur, ch);
        } else if ch == ',' && depth == 0 {
            let t = trimmed(&cur);
            let ghost before = strings_view(parts@);
            parts.push(t);
            assert(strings_view(parts@) =~= before.push(trim(cur@)));
            cur = String::new();
        } else {
            push_char(&mut cur, ch);
        }
        i = i + 1;
    }
    push_part(&mut parts, &cur);
    parts
}

/// Splits a table body into its definitions: by tokens, or by characters where
/// the text does not tokenize.
pub fn split_by_top_level_comma(body: &str) -> (r: Vec<String>)
    ensures
        strings_view(r@) == body_parts(body@),
{
    match tokenize(body) {
        Some(toks) => split_by_comma_or_constraint_tokens(&toks),
        None => split_by_top_level_comma_simple(body),
    }
}

// ---------------------------------------------------------------------------
// Columns, constraints and the temporal period of a table body
// ---------------------------------------------------------------------------

/// A parsed column as a table column; the column parser reads no masking
/// function, so none is set.
pub open spec fn table_column_of(c: ColumnView) -> TableColumnView {
    TableColumnView {
        name: c.name,
        data_type: c.data_type,
        nullability: c.nullability,
        is_identity: c.is_identity,
        is_rowguidcol: c.is_rowguidcol,
        is_sparse: c.is_sparse,
        is_filestream: c.is_filestream,
        default_constraint_name: c.default_constraint_name,
        default_value: c.default_value,
        emit_default_constraint_name: c.emit_default_constraint_name,
        check_constraint_name: c.check_constraint_name,
        check_expression: c.check_expression,
        emit_check_constraint_name: c.emit_check_constraint_name,
        computed_expression: c.computed_expression,
        is_persisted: c.is_persisted,
        collation: c.collation,
        is_generated_always_start: c.is_generated_always_start,
        is_generated_always_end: c.is_generated_always_end,
        is_hidden: c.is_hidden,
        masking_function: None,
    }
}

pub open spec fn table_column(col_def: Seq<char>) -> Option<TableColumnView> {
    match column_definition(col_def) {
        Some(c) => Some(table_column_of(c)),
        None => None,
    }
}

pub open spec fn table_constraint_text(def: Seq<char>, table: Seq<char>) -> Option<ConstraintView> {
    match lex_sql(def) {
        Some(s) => table_constraint(s, table),
        None => None,
    }
}

/// Last index before `j` holding `c`.
pub open spec fn last_index_of(s: Seq<char>, c: char, j: int) -> Option<int>
    decreases j,
{
    if j <= 0 || j > s.len() {
        None
    } else if s[j - 1] == c {
        Some(j - 1)
    } else {
        last_index_of(s, c, j - 1)
    }
}

/// A column name with whitespace and surrounding brackets taken off.
pub open spec fn strip_brackets(p: Seq<char>) -> Seq<char> {
    trim_end_by(trim_start_by(trim(p), open_bracket_pred()), close_bracket_pred())
}

/// `PERIOD FOR SYSTEM_TIME (start, end)`: the two column names between the
/// first `(` and the last `)`, which must hold exactly one comma.
pub open spec fn system_time_period(def: Seq<char>) -> Option<(Seq<char>, Seq<char>)> {
    match find(def, seq!['(']) {
        None => None,
        Some(ps) => match last_index_of(def, ')', def.len() as int) {
            None => None,
            Some(pe) => if pe <= ps {
                None
            } else {
                let inner = def.subrange(ps + 1, pe);
                match find(inner, seq![',']) {
                    None => None,
                    Some(k) => if find_from(inner, seq![','], k + 1) is Some {
                        None
                    } else {
                        Some(
                            (
                                strip_brackets(inner.subrange(0, k)),
                                strip_brackets(inner.subrange(k + 1, inner.len() as int)),
                            ),
                        )
                    },
                }
            },
        },
    }
}

/// A part that starts a table-level constraint.
pub open spec fn is_constraint_part(t: Seq<char>) -> bool {
    starts_with_ci(t, "CONSTRAINT"@) || starts_with_ci(t, "PRIMARY KEY"@) || starts_with_ci(
        t,
        "FOREIGN KEY"@,
    ) || starts_with_ci(t, "UNIQUE"@) || starts_with_ci(t, "CHECK"@)
}

pub type BodyModel = (Seq<TableColumnView>, Seq<ConstraintView>, (Option<Seq<char>>, Option<Seq<char>>));

/// Columns, constraints and the system-time period read from the parts from
/// `i` on.
pub open spec fn body_scan(parts: Seq<Seq<char>>, i: int, table: Seq<char>, acc: BodyModel) -> BodyModel
    decreases parts.len() - i,
{
    if i < 0 || i >= parts.len() {
        acc
    } else {
        let t = trim(parts[i]);
        let (cols, cons, period) = acc;
        let next = if t.len() == 0 {
            acc
        } else if starts_with_ci(t, "PERIOD"@) && contains_ci(t, "SYSTEM_TIME"@) {
            (
                cols,
                cons,
                match system_time_period(t) {
                    Some((a, b)) => (Some(a), Some(b)),
                    None => period,
                },
            )
        } else if is_constraint_part(t) {
            (
                cols,
                match table_constraint_text(t, table) {
                    Some(c) => cons.push(c),
                    None => cons,
                },
                period,
            )
        } else {
            (
                match table_column(t) {
                    Some(c) => cols.push(c),
                    None => cols,
                },
                cons,
                period,
            )
        };
        body_scan(parts, i + 1, table, next)
    }
}

/// The columns, constraints and system-time period of a table body.
pub open spec fn table_body(body: Seq<char>, table: Seq<char>) -> BodyModel {
    body_scan(body_parts(body), 0, table, (Seq::empty(), Seq::empty(), (None, None)))
}

/// The system-time period columns of a table.
#[derive(Debug, Clone, Default)]
pub struct ParsedSystemTimePeriod {
    pub start_column: Option<String>,
    pub end_column: Option<String>,
}

impl View for ParsedSystemTimePeriod {
    type V = (Option<Seq<char>>, Option<Seq<char>>);

    open spec fn view(&self) -> (Option<Seq<char>>, Option<Seq<char>>) {
        (opt_str(self.start_column), opt_str(self.end_column))
    }
}

/// A parsed column as a table column (no masking function: the column parser
/// reads none).
pub fn convert_token_parsed_column(parsed: TokenParsedColumn) -> (r: ExtractedTableColumn)
    ensures
        r@ == table_column_of(parsed@),
{
    ExtractedTableColumn {
        name: parsed.name,
        data_type: parsed.data_type,
        nullability: parsed.nullability,
        is_identity: parsed.is_identity,
        is_rowguidcol: parsed.is_rowguidcol,
        is_sparse: parsed.is_sparse,
        is_filestream: parsed.is_filestream,
        default_constraint_name: parsed.default_constraint_name,
        default_value: parsed.default_value,
        emit_default_constraint_name: parsed.emit_default_constraint_name,
        check_constraint_name: parsed.check_constraint_name,
        check_expression: parsed.check_expression,
        emit_check_constraint_name: parsed.emit_check_constraint_name,
        computed_expression: parsed.computed_expression,
        is_persisted: parsed.is_persisted,
        collation: parsed.collation,
        is_generated_always_start: parsed.is_generated_always_start,
        is_generated_always_end: parsed.is_generated_always_end,
        is_hidden: parsed.is_hidden,
        masking_function: None,
    }
}

/// A column definition of a table.
pub fn parse_column_definition(col_def: &str) -> (r: Option<ExtractedTableColumn>)
    ensures
        match r {
            Some(c) => table_column(col_def@) == Some(c@),
            None => table_column(col_def@) is None,
        },
{
    match parse_column_definition_tokens(col_def) {
        Some(c) => Some(convert_token_parsed_column(c)),
        None => None,
    }
}

/// A table-level constraint of table `table_name`.
pub fn parse_table_constraint(constraint_def: &str, table_name: &str) -> (r: Option<
    ExtractedTableConstraint,
>)
    ensures
        match r {
            Some(c) => table_constraint_text(constraint_def@, table_name@) == Some(c@),
            None => table_constraint_text(constraint_def@, table_name@) is None,
        },
{
    match parse_table_constraint_tokens(constraint_def, table_name) {
        Some(c) => Some(convert_token_parsed_constraint(c)),
        None => None,
    }
}

fn strip_brackets_exec(v: &Vec<char>, a: usize, b: usize) -> (r: String)
    requires
        a <= b <= v.len(),
    ensures
        r@ == strip_brackets(v@.subrange(a as int, b as int)),
{
    let part = sub_vec(v, a, b);
    let t = trim_set(&part, CharSet::Whitespace);
    let t2 = trim_start_set(&t, CharSet::OpenBracket);
    let t3 = trim_end_set(&t2, CharSet::CloseBracket);
    string_from_chars(&t3)
}

/// Reads `PERIOD FOR SYSTEM_TIME ([start], [end])`: the two names between the
/// first `(` and the last `)`, brackets taken off; `None` unless there are
/// exactly two.
pub fn parse_period_for_system_time(def: &str) -> (r: Option<ParsedSystemTimePeriod>)
    ensures
        match r {
            Some(p) => system_time_period(def@) matches Some((a, b)) && p@ == (Some(a), Some(b)),
            None => system_time_period(def@) is None,
        },
{
    let v = chars_of(def);
    let open = vec!['('];
    assert(open@ =~= seq!['(']);
    let ps = match find_from_exec(&v, &open, 0) {
        Some(k) => k,
        None => return None,
    };
    proof {
        lemma_find_from_props(v@, seq!['('], 0);
    }
    let mut j: usize = v.len();
    let mut pe: usize = 0;
    let mut found = false;
    while j > 0 && !found
        invariant
            v@ == def@,
            j <= v.len(),
            found ==> last_index_of(v@, ')', v.len() as int) == Some(pe as int) && pe < v.len(),
            !found ==> last_index_of(v@, ')', v.len() as int) == last_index_of(v@, ')', j as int),
        decreases j + (if found {
            0int
        } else {
            1int
        }),
    {
        if v[j - 1] == ')' {
            pe = j - 1;
            found = true;
        } else {
            j = j - 1;
        }
    }
    if !found || pe <= ps {
        return None;
    }
    let inner = sub_vec(&v, ps + 1, pe);
    let comma = vec![','];
    assert(comma@ =~= seq![',']);
    let k = match find_from_exec(&inner, &comma, 0) {
        Some(k) => k,
        None => return None,
    };
    proof {
        lemma_find_from_props(inner@, seq![','], 0);
    }
    if find_from_exec(&inner, &comma, k + 1).is_some() {
        return None;
    }
    let start = strip_brackets_exec(&inner, 0, k);
    let end = strip_brackets_exec(&inner, k + 1, inner.len());
    Some(ParsedSystemTimePeriod { start_column: Some(start), end_column: Some(end) })
}

/// Splits a table body and reads each part: `PERIOD FOR SYSTEM_TIME`, a
/// table-level constraint (a part starting `CONSTRAINT`, `PRIMARY KEY`,
/// `FOREIGN KEY`, `UNIQUE` or `CHECK`), or a column; parts that do not parse
/// are left out.
pub fn parse_table_body(body: &str, table_name: &str) -> (r: (
    Vec<ExtractedTableColumn>,
    Vec<ExtractedTableConstraint>,
    ParsedSystemTimePeriod,
))
    ensures
        (table_columns_view(r.0@), table_constraints_view(r.1@), r.2@) == table_body(
            body@,
            table_name@,
        ),
{
    let parts = split_by_top_level_comma(body);
    let ghost ps = strings_view(parts@);
    let mut columns: Vec<ExtractedTableColumn> = Vec::new();
    let mut constraints: Vec<ExtractedTableConstraint> = Vec::new();
    let mut period = ParsedSystemTimePeriod { start_column: None, end_column: None };
    let mut i: usize = 0;
    assert(table_columns_view(columns@) =~= Seq::<TableColumnView>::empty());
    assert(table_constraints_view(constraints@) =~= Seq::<ConstraintView>::empty());
    while i < parts.len()
        invariant
            ps == strings_view(parts@),
            ps == body_parts(body@),
            0 <= i <= parts.len(),
            table_body(body@, table_name@) == body_scan(
                ps,
                i as int,
                table_name@,
                (table_columns_view(columns@), table_constraints_view(constraints@), period@),
            ),
        decreases parts.len() - i,
    {
        let t = trimmed(&parts[i]);
        assert(ps[i as int] == parts@[i as int]@);
        if t.unicode_len() == 0 {
        } else if starts_with_ci_exec(t.as_str(), "PERIOD") && contains_ci_exec(
            t.as_str(),
            "SYSTEM_TIME",
        ) {
            match parse_period_for_system_time(t.as_str()) {
                Some(p) => {
                    period = p;
                },
                None => {},
            }
        } else if starts_with_ci_exec(t.as_str(), "CONSTRAINT") || starts_with_ci_exec(
            t.as_str(),
            "PRIMARY KEY",
        ) || starts_with_ci_exec(t.as_str(), "FOREIGN KEY") || starts_with_ci_exec(
            t.as_str(),
            "UNIQUE",
        ) || starts_with_ci_exec(t.as_str(), "CHECK") {
            match parse_table_constraint(t.as_str(), table_name) {
                Some(c) => {
                    let ghost before = table_constraints_view(constraints@);
                    constraints.push(c);
                    assert(table_constraints_view(constraints@) =~= before.push(c@));
                },
                None => {},
            }
        } else {
            match parse_column_definition(t.as_str()) {
                Some(c) => {
                    let ghost before = table_columns_view(columns@);
                    columns.push(c);
                    assert(table_columns_view(columns@) =~= before.push(c@));
                },
                None => {},
            }
        }
        i = i + 1;
    }
    (columns, constraints, period)
}

// ---------------------------------------------------------------------------
// The table head and the clauses after the body
// ---------------------------------------------------------------------------

/// Index of the `)` that closes the `(` at 0, scanning from `i` at depth `d`.
pub open spec fn matching_close(c: Seq<char>, i: int, d: int) -> Option<int>
    decreases c.len() - i,
{
    if i < 0 || i >= c.len() {
        None
    } else if c[i] == '(' {
        matching_close(c, i + 1, d + 1)
    } else if c[i] == ')' {
        if d - 1 == 0 {
            Some(i)
        } else {
            matching_close(c, i + 1, d - 1)
        }
    } else {
        matching_close(c, i + 1, d)
    }
}

/// The `)` that closes a text's leading `(`.
pub open spec fn balanced_close(c: Seq<char>) -> Option<int> {
    if c.len() > 0 && c[0] == '(' {
        matching_close(c, 0, 0)
    } else {
        None
    }
}

/// What lies between a text's leading `(` and the `)` that closes it, when not
/// empty.
pub open spec fn balanced_parens(c: Seq<char>) -> Option<Seq<char>> {
    match balanced_close(c) {
        Some(e) => if e > 1 {
            Some(c.subrange(1, e))
        } else {
            None
        },
        None => None,
    }
}

fn balanced_close_exec(v: &Vec<char>) -> (r: Option<usize>)
    ensures
        match balanced_close(v@) {
            Some(e) => r == Some(e as usize) && 0 <= e < v.len(),
            None => r is None,
        },
{
    if v.len() == 0 || v[0] != '(' {
        return None;
    }
    let mut i: usize = 0;
    let mut d: i128 = 0;
    while i < v.len()
        invariant
            0 <= i <= v.len(),
            -(i as int) <= d <= i as int,
            v.len() > 0 && v@[0] == '(',
            balanced_close(v@) == matching_close(v@, i as int, d as int),
        decreases v.len() - i,
    {
        if v[i] == '(' {
            d = d + 1;
        } else if v[i] == ')' {
            if d - 1 == 0 {
                return Some(i);
            }
            d = d - 1;
        }
        i = i + 1;
    }
    None
}

/// The text between a leading `(` and the `)` that closes it; `None` when the
/// text does not start with `(`, the parenthesis is not closed, or nothing lies
/// between.
pub fn extract_balanced_parens(sql: &str) -> (r: Option<String>)
    ensures
        opt_str(r) == balanced_parens(sql@),
{
    let v = chars_of(sql);
    match balanced_close_exec(&v) {
        Some(e) => {
            if e > 1 {
                Some(string_from_range(&v, 1, e))
            } else {
                None
            }
        },
        None => None,
    }
}

/// `SYSTEM_VERSIONING = ON`.
pub const SYSTEM_VERSIONING_PATTERN: &'static str = "(?i)SYSTEM_VERSIONING\\s*=\\s*ON";

/// `HISTORY_TABLE = [schema].[name]`.
pub const HISTORY_TABLE_PATTERN: &'static str = "(?i)HISTORY_TABLE\\s*=\\s*\\[?(\\w+)\\]?\\.\\[?(\\w+)\\]?";

/// System versioning read from the text after a table body: on when
/// `SYSTEM_VERSIONING = ON` matches, with the history table's schema and name
/// when `HISTORY_TABLE = schema.name` matches.
pub open spec fn system_versioning(after: Seq<char>) -> (bool, Option<Seq<char>>, Option<Seq<char>>) {
    if !contains_ci(after, "SYSTEM_VERSIONING"@) || regex_capture_groups(
        SYSTEM_VERSIONING_PATTERN@,
        after,
    ) is None {
        (false, None, None)
    } else {
        let g = regex_capture_groups(HISTORY_TABLE_PATTERN@, after);
        match g {
            Some(_) => (true, group_of(g, 1), group_of(g, 2)),
            None => (true, None, None),
        }
    }
}

/// Reads `SYSTEM_VERSIONING = ON` and `HISTORY_TABLE = schema.name` from the
/// text after a table body. Whether `SYSTEM_VERSIONING = ON` matches is taken
/// from the pattern's captures (a match exists exactly when they do).
pub fn extract_system_versioning_options(after_body: &str) -> (r: (bool, Option<String>, Option<String>))
    ensures
        (r.0, opt_str(r.1), opt_str(r.2)) == system_versioning(after_body@),
{
    if !contains_ci_exec(after_body, "SYSTEM_VERSIONING") {
        return (false, None, None);
    }
    if regex_captures(SYSTEM_VERSIONING_PATTERN, after_body).is_none() {
        return (false, None, None);
    }
    let caps = regex_captures(HISTORY_TABLE_PATTERN, after_body);
    if caps.is_none() {
        return (true, None, None);
    }
    (true, capture_group(&caps, 1), capture_group(&caps, 2))
}

/// Start of the pattern that reads a `CREATE [OR ALTER] <object type>` name.
pub const GENERIC_NAME_PREFIX: &'static str = "(?i)CREATE\\s+(?:OR\\s+ALTER\\s+)?";

/// End of the pattern that reads a `CREATE [OR ALTER] <object type>` name.
pub const GENERIC_NAME_SUFFIX: &'static str = "\\s+(?:(?:\\[([^\\]]+)\\]|(\\w+))\\.)?(?:\\[([^\\]]+)\\]|(\\w+))";

/// Schema (`dbo` when not given) and name after `CREATE [OR ALTER] <object_type>`.
pub open spec fn generic_object_name(sql: Seq<char>, object_type: Seq<char>) -> Option<
    (Seq<char>, Seq<char>),
> {
    schema_and_name(
        regex_capture_groups(GENERIC_NAME_PREFIX@ + object_type + GENERIC_NAME_SUFFIX@, sql),
    )
}

/// Schema (`dbo` when not given) and name after `CREATE [OR ALTER]
/// <object_type>`; the object type is put into the pattern as it is.
pub fn extract_generic_object_name(sql: &str, object_type: &str) -> (r: Option<(String, String)>)
    ensures
        pair_view(r) == generic_object_name(sql@, object_type@),
{
    let mut pattern = str_to_string(GENERIC_NAME_PREFIX);
    pattern.append(object_type);
    pattern.append(GENERIC_NAME_SUFFIX);
    let caps = regex_captures(pattern.as_str(), sql);
    type_name_of(&caps)
}

pub const TABLE_HEAD_PREFIX: &'static str = "(?i)CREATE\\s+TABLE\\s+(?:\\[?";

pub const TABLE_HEAD_MIDDLE: &'static str = "\\]?\\.)?\\[?";

pub const TABLE_HEAD_SUFFIX: &'static str = "\\]?\\s*\\(";

/// The pattern of `CREATE TABLE [schema.]name (`, the names escaped.
pub open spec fn table_head_pattern(schema: Seq<char>, name: Seq<char>) -> Seq<char> {
    TABLE_HEAD_PREFIX@ + regex_escaped(schema) + TABLE_HEAD_MIDDLE@ + regex_escaped(name)
        + TABLE_HEAD_SUFFIX@
}

/// The text from the `(` that ends a table head's match: the match's last
/// character, then what follows the match.
pub open spec fn from_open_paren(m: Seq<char>, after: Seq<char>) -> Seq<char> {
    (if m.len() > 0 {
        seq![m.last()]
    } else {
        Seq::empty()
    }) + after
}

/// A `CREATE TABLE` from the head match: `m` the matched head (ending in the
/// body's `(`) and `after` the text after it; the body runs to its balanced
/// `)`, and the system-versioning clauses follow.
pub open spec fn table_from_head(
    sql: Seq<char>,
    schema: Seq<char>,
    name: Seq<char>,
    m: Seq<char>,
    after: Seq<char>,
) -> Option<FallbackView> {
    let rest = from_open_paren(m, after);
    match balanced_close(rest) {
        None => None,
        Some(e) => if e <= 1 {
            None
        } else {
            let (cols, cons, period) = table_body(rest.subrange(1, e), name);
            let (sv, hs, hn) = system_versioning(rest.subrange(e + 1, rest.len() as int));
            Some(
                FallbackView::Table {
                    schema,
                    name,
                    columns: cols,
                    constraints: cons,
                    is_node: contains_ci(sql, "AS NODE"@),
                    is_edge: contains_ci(sql, "AS EDGE"@),
                    system_time_start_column: period.0,
                    system_time_end_column: period.1,
                    is_system_versioned: sv,
                    history_table_schema: hs,
                    history_table_name: hn,
                },
            )
        },
    }
}

/// A `CREATE TABLE` read without a full parse: the name, graph kind
/// (`AS NODE`, `AS EDGE`), the body between the parentheses after the head,
/// and the system-versioning clauses after the body.
pub open spec fn table_structure(sql: Seq<char>) -> Option<FallbackView> {
    match generic_object_name(sql, "TABLE"@) {
        None => None,
        Some((schema, name)) => match regex_find_split(table_head_pattern(schema, name), sql) {
            None => None,
            Some((_, m, after)) => table_from_head(sql, schema, name, m, after),
        },
    }
}

/// The table of `sql` once its head is found: `m` the matched head and
/// `after` the text after it.
pub fn table_from_head_match(
    sql: &str,
    schema: String,
    name: String,
    m: &String,
    after: &String,
) -> (r: Option<FallbackStatementType>)
    ensures
        opt_fallback(r) == table_from_head(sql@, schema@, name@, m@, after@),
{
    let is_node = contains_ci_exec(sql, "AS NODE");
    let is_edge = contains_ci_exec(sql, "AS EDGE");
    let mv = chars_of(m.as_str());
    let mut rest = String::new();
    if mv.len() > 0 {
        push_char(&mut rest, mv[mv.len() - 1]);
    }
    append_string(&mut rest, after);
    assert(rest@ =~= from_open_paren(m@, after@));
    let rv = chars_of(rest.as_str());
    let e = match balanced_close_exec(&rv) {
        Some(e) => e,
        None => return None,
    };
    if e <= 1 {
        return None;
    }
    let body = string_from_range(&rv, 1, e);
    let after_body = string_from_range(&rv, e + 1, rv.len());
    let (columns, constraints, period) = parse_table_body(body.as_str(), name.as_str());
    let (is_system_versioned, history_table_schema, history_table_name) =
        extract_system_versioning_options(after_body.as_str());
    Some(
        FallbackStatementType::Table {
            schema,
            name,
            columns,
            constraints,
            is_node,
            is_edge,
            system_time_start_column: period.start_column,
            system_time_end_column: period.end_column,
            is_system_versioned,
            history_table_schema,
            history_table_name,
        },
    )
}

/// Reads a `CREATE TABLE` that the full parser does not take: name, columns,
/// constraints, graph kind, system-time period and system versioning.
pub fn extract_table_structure(sql: &str) -> (r: Option<FallbackStatementType>)
    ensures
        opt_fallback(r) == table_structure(sql@),
{
    let (schema, name) = match extract_generic_object_name(sql, "TABLE") {
        Some(x) => x,
        None => return None,
    };
    let mut pattern = str_to_string(TABLE_HEAD_PREFIX);
    let es = escape_pattern(schema.as_str());
    append_string(&mut pattern, &es);
    pattern.append(TABLE_HEAD_MIDDLE);
    let en = escape_pattern(name.as_str());
    append_string(&mut pattern, &en);
    pattern.append(TABLE_HEAD_SUFFIX);
    assert(pattern@ =~= table_head_pattern(schema@, name@));
    let (_before, m, after) = match regex_find(pattern.as_str(), sql) {
        Some(x) => x,
        None => return None,
    };
    table_from_head_match(sql, schema, name, &m, &after)
}

} // verus!
