//! Properties that hold across the parsers and helpers, for every input.

use vstd::prelude::*;
use crate::text::{trim, trim_by, ws_pred, ident_quote_pred, skip_fwd, skip_back, is_ws_char, lemma_skip_fwd_bounds, lemma_skip_back_bounds, occurs_at, find, contains, lemma_find_from_props, starts_with_char, trim_start_by, trim_end_by, open_bracket_pred, close_bracket_pred, before_first, after_first};
use crate::lexer::TokenView;
use crate::identifier_utils::{normalized_identifier, bracketed, is_bracketed_text, ensured_bracketed, normalized_object_name, two_part, split_qualified, qualified_name_text};
use crate::procedure_parser::{procedure_name, procedure_full};
use crate::function_parser::{function_full, detected_function_type};
use crate::trigger_parser::trigger_definition;
use crate::constraint_parser::{ConstraintView, constraint_body, table_constraint, alter_add_constraint, key_column_list};
use crate::synonym_parser::{synonym};
use crate::batches::{script_batches, split_from, line_at};
use crate::preprocess_parser::{preprocessed, needs_rewrite};
use crate::lexer::lex_sql;
use crate::table_fallback::{SplitState, split_step, split_scan, split_parts, push_trimmed};
use crate::security_dispatch::{security_dispatch, is_permission_text};
use crate::token_parser_base::close_index;
use crate::column_parser::skip_paren;
use crate::scalar_type::{type_scan, top_level_from, depth_after, scalar_type_kind};

verus! {

// ---------------------------------------------------------------------------
// Trimming
// ---------------------------------------------------------------------------

/// What `trim_by` leaves starts and ends with characters outside the class.
pub proof fn lemma_trim_by_edges(s: Seq<char>, p: spec_fn(char) -> bool)
    ensures
        trim_by(s, p).len() > 0 ==> !p(trim_by(s, p)[0]) && !p(
            trim_by(s, p)[trim_by(s, p).len() - 1],
        ),
{
    lemma_skip_fwd_bounds(s, 0, p);
    lemma_skip_back_bounds(s, s.len() as int, p);
}

/// A text that starts and ends outside the class is left as it is.
pub proof fn lemma_trim_by_fixed(s: Seq<char>, p: spec_fn(char) -> bool)
    requires
        s.len() == 0 || (!p(s[0]) && !p(s[s.len() - 1])),
    ensures
        trim_by(s, p) == s,
{
    if s.len() > 0 {
        assert(skip_fwd(s, 0, p) == 0);
        assert(skip_back(s, s.len() as int, p) == s.len());
        assert(s.subrange(0, s.len() as int) =~= s);
    }
}

/// Trimming one class character from each end of a text that starts and ends
/// outside the class gives that text back.
pub proof fn lemma_trim_by_wrapped(n: Seq<char>, p: spec_fn(char) -> bool, a: char, b: char)
    requires
        p(a),
        p(b),
        n.len() == 0 || (!p(n[0]) && !p(n[n.len() - 1])),
    ensures
        trim_by(seq![a] + n + seq![b], p) == n,
{
    let w = seq![a] + n + seq![b];
    assert(w[0] == a);
    assert(w[w.len() - 1] == b);
    if n.len() > 0 {
        assert(w[1] == n[0]);
        assert(w[w.len() - 2] == n[n.len() - 1]);
        assert(skip_fwd(w, 1, p) == 1);
        assert(skip_fwd(w, 0, p) == 1);
        assert(skip_back(w, w.len() - 1, p) == w.len() - 1);
        assert(skip_back(w, w.len() as int, p) == w.len() - 1);
        assert(w.subrange(1, w.len() - 1) =~= n);
    } else {
        assert(skip_fwd(w, 2, p) == 2);
        assert(skip_fwd(w, 1, p) == 2);
        assert(skip_fwd(w, 0, p) == 2);
        assert(skip_back(w, 0, p) == 0);
        assert(skip_back(w, 1, p) == 0);
        assert(skip_back(w, 2, p) == 0);
        assert(trim_by(w, p) =~= n);
    }
}

pub proof fn lemma_trim_idempotent(s: Seq<char>)
    ensures
        trim(trim(s)) == trim(s),
{
    lemma_trim_by_edges(s, ws_pred());
    lemma_trim_by_fixed(trim(s), ws_pred());
}

pub proof fn lemma_trim_bracketed(n: Seq<char>)
    ensures
        trim(bracketed(n)) == bracketed(n),
{
    let w = bracketed(n);
    assert(w[0] == '[');
    assert(w[w.len() - 1] == ']');
    assert(!is_ws_char('['));
    assert(!is_ws_char(']'));
    lemma_trim_by_fixed(w, ws_pred());
}

// ---------------------------------------------------------------------------
// Identifiers
// ---------------------------------------------------------------------------

/// `ensure_bracketed` always gives a bracketed identifier (`is_bracketed` holds
/// of its result).
pub proof fn law_ensure_bracketed_is_bracketed(x: Seq<char>)
    ensures
        is_bracketed_text(trim(ensured_bracketed(x))),
{
    let t = trim(x);
    lemma_trim_idempotent(x);
    if !is_bracketed_text(t) {
        let n = normalized_identifier(t);
        lemma_trim_bracketed(n);
        let w = bracketed(n);
        assert(w[0] == '[');
        assert(w[w.len() - 1] == ']');
    }
}

/// `ensure_bracketed` is idempotent.
pub proof fn law_ensure_bracketed_idempotent(x: Seq<char>)
    ensures
        ensured_bracketed(ensured_bracketed(x)) == ensured_bracketed(x),
{
    let t = trim(x);
    lemma_trim_idempotent(x);
    if !is_bracketed_text(t) {
        let n = normalized_identifier(t);
        lemma_trim_bracketed(n);
        let w = bracketed(n);
        assert(w[0] == '[');
        assert(w[w.len() - 1] == ']');
    }
}

/// Normalizing a bracketed identifier gives the same name as normalizing the
/// identifier itself: `normalize_identifier(ensure_bracketed(x)) == normalize_identifier(x)`.
pub proof fn law_normalize_after_bracketing(x: Seq<char>)
    ensures
        normalized_identifier(ensured_bracketed(x)) == normalized_identifier(x),
{
    let t = trim(x);
    lemma_trim_idempotent(x);
    if !is_bracketed_text(t) {
        let n = normalized_identifier(t);
        lemma_trim_bracketed(n);
        lemma_trim_by_edges(trim(t), ident_quote_pred());
        lemma_trim_by_wrapped(n, ident_quote_pred(), '[', ']');
    }
}

// ---------------------------------------------------------------------------
// Parsers
// ---------------------------------------------------------------------------

/// The short procedure parser (`parse_create_procedure_tokens`,
/// `parse_alter_procedure_tokens`) gives exactly the schema and name of the full
/// one (`parse_create_procedure_full`, `parse_alter_procedure_full`).
pub proof fn law_procedure_name_agrees(s: Seq<TokenView>, is_alter: bool)
    ensures
        procedure_name(s, is_alter) == (match procedure_full(s, is_alter) {
            Some(v) => Some((v.schema, v.name)),
            None => None,
        }),
{
}

/// When a `CREATE FUNCTION` header parses, `detect_function_type_tokens` gives
/// the kind that `parse_create_function_full` reports.
pub proof fn law_detected_kind_agrees(sql: Seq<char>, s: Seq<TokenView>)
    requires
        lex_sql(sql) == Some(s),
        function_full(s, false) is Some,
    ensures
        detected_function_type(sql) == function_full(s, false).unwrap().function_type,
{
}

/// A parsed trigger has type 2 (`AFTER`/`FOR`) or 3 (`INSTEAD OF`) and fires
/// on at least one event.
pub proof fn law_trigger_fires_on_an_event(s: Seq<TokenView>)
    ensures
        trigger_definition(s) matches Some(t) ==> (t.trigger_type == 2 || t.trigger_type == 3) && (t.is_insert
            || t.is_update || t.is_delete),
{
}

/// The key columns of a parsed key constraint are never empty.
pub proof fn lemma_key_column_list_nonempty(s: Seq<TokenView>, p: int, acc: Seq<(Seq<char>, bool)>)
    ensures
        key_column_list(s, p, acc) matches Some((v, _e)) ==> v.len() > 0,
    decreases s.len() - p,
{
    if !(p < 0 || p >= s.len() || crate::cursor::kind_at(s, p, crate::lexer::TokenKind::RParen)) {
        let a = crate::cursor::skip_ws(s, p);
        crate::cursor::lemma_skip_ws(s, p);
        let (n, b) = crate::cursor::ident(s, a);
        if let Some(name) = n {
            let c = crate::cursor::skip_ws(s, b);
            crate::cursor::lemma_skip_ws(s, b);
            crate::cursor::lemma_skip_ws(s, c + 1);
            let (desc, d) = if crate::cursor::kw_at(s, c, "ASC"@) {
                (false, crate::cursor::skip_ws(s, c + 1))
            } else if crate::cursor::kw_at(s, c, "DESC"@) {
                (true, crate::cursor::skip_ws(s, c + 1))
            } else {
                (false, c)
            };
            let acc2 = acc.push((name, desc));
            crate::cursor::lemma_skip_ws(s, d + 1);
            if crate::cursor::kind_at(s, d, crate::lexer::TokenKind::Comma) {
                lemma_key_column_list_nonempty(s, crate::cursor::skip_ws(s, d + 1), acc2);
            } else if !crate::cursor::kind_at(s, d, crate::lexer::TokenKind::RParen) {
                lemma_key_column_list_nonempty(s, crate::cursor::adv(s, d), acc2);
            }
        }
    }
}

pub open spec fn constraint_has_columns(c: ConstraintView) -> bool {
    match c {
        ConstraintView::PrimaryKey { columns, .. } => columns.len() > 0,
        ConstraintView::Unique { columns, .. } => columns.len() > 0,
        ConstraintView::ForeignKey { columns, referenced_columns, .. } => columns.len() > 0
            && referenced_columns.len() > 0,
        ConstraintView::Check { expression, .. } => expression.len() > 0,
    }
}

pub proof fn lemma_constraint_body_has_columns(s: Seq<TokenView>, p: int, name: Seq<char>)
    ensures
        constraint_body(s, p, name) matches Some(c) ==> constraint_has_columns(c),
{
    let b1 = crate::cursor::skip_ws(s, crate::cursor::skip_ws(s, p + 1) + 1);
    let k1 = if crate::cursor::kw_at(s, b1, "CLUSTERED"@) || crate::cursor::word_at(
        s,
        b1,
        "NONCLUSTERED"@,
    ) {
        crate::cursor::skip_ws(s, b1 + 1)
    } else {
        b1
    };
    if crate::cursor::kind_at(s, k1, crate::lexer::TokenKind::LParen) {
        lemma_key_column_list_nonempty(s, crate::cursor::skip_ws(s, k1 + 1), Seq::empty());
    }
    let b2 = crate::cursor::skip_ws(s, p + 1);
    let k2 = if crate::cursor::kw_at(s, b2, "CLUSTERED"@) || crate::cursor::word_at(
        s,
        b2,
        "NONCLUSTERED"@,
    ) {
        crate::cursor::skip_ws(s, b2 + 1)
    } else {
        b2
    };
    if crate::cursor::kind_at(s, k2, crate::lexer::TokenKind::LParen) {
        lemma_key_column_list_nonempty(s, crate::cursor::skip_ws(s, k2 + 1), Seq::empty());
    }
}

/// A parsed constraint (table-level or added by `ALTER TABLE`) has columns: a
/// primary key or unique constraint at least one key column, a foreign key at
/// least one column and one referenced column, a check a non-empty expression.
pub proof fn law_constraints_have_columns(s: Seq<TokenView>, table: Seq<char>)
    ensures
        table_constraint(s, table) matches Some(c) ==> constraint_has_columns(c),
        alter_add_constraint(s) matches Some(a) ==> constraint_has_columns(a.constraint),
{
    let p0 = crate::cursor::skip_ws(s, 0);
    let (n, p1) = crate::cursor::ident(s, crate::cursor::skip_ws(s, p0 + 1));
    if let Some(name) = n {
        lemma_constraint_body_has_columns(s, crate::cursor::skip_ws(s, p1), name);
    }
    lemma_constraint_body_has_columns(s, p0, crate::constraint_parser::default_constraint_name(s, p0, table));
    let (t, p2) = crate::constraint_parser::alter_table_name(s);
    let p3 = crate::constraint_parser::skip_with_check(s, crate::cursor::skip_ws(s, p2));
    let p4 = crate::cursor::skip_ws(s, p3 + 1);
    let (m, p5) = crate::cursor::ident(s, crate::cursor::skip_ws(s, p4 + 1));
    if let Some(name) = m {
        lemma_constraint_body_has_columns(s, crate::cursor::skip_ws(s, p5), name);
    }
}

/// A synonym with a target server also has a target database.
pub proof fn law_synonym_server_has_database(s: Seq<TokenView>)
    ensures
        synonym(s) matches Some(v) ==> (v.target_server is Some ==> v.target_database is Some),
{
}

/// Text that mentions neither `BINARY` nor `DEFAULT` and has no `,` before a
/// `)` comes back from `preprocess_tsql_tokens` unchanged, with no defaults.
pub proof fn law_preprocess_leaves_plain_text(sql: Seq<char>)
    ensures
        !needs_rewrite(sql) ==> preprocessed(sql) == (sql, Seq::<crate::preprocess_parser::DefaultView>::empty()),
{
}

// ---------------------------------------------------------------------------
// Batches
// ---------------------------------------------------------------------------

pub open spec fn good_batches(v: Seq<(Seq<char>, nat)>) -> bool {
    forall|i: int| 0 <= i < v.len() ==> (#[trigger] v[i]).0.len() > 0 && v[i].1 >= 1
}

pub proof fn lemma_split_from_good(
    c: Seq<char>,
    pos: int,
    line_no: nat,
    start: int,
    start_line: nat,
    open: bool,
    acc: Seq<(Seq<char>, nat)>,
)
    requires
        good_batches(acc),
        start_line >= 1,
        line_no >= 1,
        0 <= start <= c.len(),
        start <= pos || pos < 0,
    ensures
        good_batches(split_from(c, pos, line_no, start, start_line, open, acc)),
    decreases c.len() - pos,
{
    if pos < 0 || pos >= c.len() {
        if 0 <= start < c.len() {
            let b = (c.subrange(start, c.len() as int), start_line);
            assert(good_batches(acc.push(b))) by {
                assert forall|i: int| 0 <= i < acc.push(b).len() implies (#[trigger] acc.push(b)[i]).0.len()
                    > 0 && acc.push(b)[i].1 >= 1 by {
                    if i < acc.len() {
                        assert(acc.push(b)[i] == acc[i]);
                    }
                }
            }
        }
    } else {
        let (line, next) = line_at(c, pos);
        crate::column_parser::lemma_first_newline(c, pos);
        let open2 = crate::batches::comment_open_after(line, 0, open);
        if !open2 && crate::batches::is_go_line(line) {
            let acc2 = if pos > start {
                acc.push((c.subrange(start, pos), start_line))
            } else {
                acc
            };
            if pos > start {
                let b = (c.subrange(start, pos), start_line);
                assert(good_batches(acc.push(b))) by {
                    assert forall|i: int| 0 <= i < acc.push(b).len() implies (#[trigger] acc.push(
                        b,
                    )[i]).0.len() > 0 && acc.push(b)[i].1 >= 1 by {
                        if i < acc.len() {
                            assert(acc.push(b)[i] == acc[i]);
                        }
                    }
                }
            }
            lemma_split_from_good(c, next, line_no + 1, next, line_no + 1, open2, acc2);
        } else {
            lemma_split_from_good(c, next, line_no + 1, start, start_line, open2, acc);
        }
    }
}

/// Every batch of a script is non-empty and starts on a line numbered from 1.
pub proof fn law_batches_nonempty(c: Seq<char>)
    ensures
        good_batches(script_batches(c)),
{
    lemma_split_from_good(c, 0, 1, 0, 1, false, Seq::empty());
}

// ---------------------------------------------------------------------------
// Table bodies, security statements, alias types
// ---------------------------------------------------------------------------

/// Every part is non-empty and has no whitespace at either end.
pub open spec fn all_trimmed_nonempty(parts: Seq<Seq<char>>) -> bool {
    forall|k: int| 0 <= k < parts.len() ==> #[trigger] parts[k].len() > 0 && trim(parts[k]) == parts[k]
}

proof fn lemma_push_trimmed_keeps(parts: Seq<Seq<char>>, cur: Seq<char>)
    requires
        all_trimmed_nonempty(parts),
    ensures
        all_trimmed_nonempty(push_trimmed(parts, cur)),
{
    lemma_trim_idempotent(cur);
    if trim(cur).len() > 0 {
        let q = parts.push(trim(cur));
        assert forall|k: int| 0 <= k < q.len() implies #[trigger] q[k].len() > 0 && trim(q[k]) == q[k] by {
            if k < parts.len() {
                assert(q[k] == parts[k]);
            }
        }
    }
}

proof fn lemma_split_scan_keeps(s: Seq<TokenView>, i: int, st: SplitState)
    requires
        all_trimmed_nonempty(st.parts),
    ensures
        all_trimmed_nonempty(split_scan(s, i, st).parts),
    decreases s.len() - i,
{
    if 0 <= i < s.len() {
        lemma_push_trimmed_keeps(st.parts, st.cur);
        lemma_split_scan_keeps(s, i + 1, split_step(s, i, st));
    }
}

/// Every definition that a tokenized table body is split into is non-empty
/// and has no whitespace at either end.
pub proof fn law_split_parts_trimmed(s: Seq<TokenView>)
    ensures
        all_trimmed_nonempty(split_parts(s)),
{
    let init = SplitState {
        parts: Seq::empty(),
        cur: Seq::empty(),
        depth: 0,
        seen: false,
        in_constraint: false,
    };
    lemma_split_scan_keeps(s, 0, init);
    let st = split_scan(s, 0, init);
    lemma_push_trimmed_keeps(st.parts, st.cur);
}

/// A `GRANT`, `DENY` or `REVOKE` statement is always answered: read as a
/// permission, or, where it does not parse, marked as a skipped statement.
pub proof fn law_permission_text_always_answered(sql: Seq<char>, s: Seq<TokenView>)
    requires
        is_permission_text(sql),
    ensures
        security_dispatch(sql, s) matches Some(v) && (v is Permission || v is SkippedSecurityStatement),
{
}

proof fn lemma_from_seen_at_top_level(s: Seq<TokenView>, i: int, d: int, st: (bool, bool, bool))
    requires
        0 <= i,
        type_scan(s, i, d, st).1,
    ensures
        st.1 || top_level_from(s, i, d) is Some,
    decreases s.len() - i,
{
    if i < s.len() {
        let t = s[i];
        let (found_type, has_from, has_as_table) = st;
        let next = if t.kind == crate::lexer::TokenKind::LParen || t.kind
            == crate::lexer::TokenKind::RParen {
            st
        } else if crate::cursor::is_kw(t, "TYPE"@) && d == 0 {
            (true, has_from, has_as_table)
        } else if crate::cursor::is_kw(t, "FROM"@) && d == 0 && found_type {
            (found_type, true, has_as_table)
        } else if crate::cursor::is_kw(t, "AS"@) && d == 0 && found_type {
            (
                found_type,
                has_from,
                has_as_table || crate::cursor::kw_at(s, crate::cursor::skip_ws(s, i + 1), "TABLE"@),
            )
        } else {
            st
        };
        assert(type_scan(s, i, d, st) == type_scan(s, i + 1, depth_after(t, d), next));
        lemma_from_seen_at_top_level(s, i + 1, depth_after(t, d), next);
    }
}

/// A `CREATE TYPE` told apart as an alias type has a top-level `FROM`, where
/// the reading of its base type starts.
pub proof fn law_alias_type_has_top_level_from(s: Seq<TokenView>)
    requires
        scalar_type_kind(s) == Some(true),
    ensures
        top_level_from(s, 0, 0) is Some,
{
    lemma_from_seen_at_top_level(s, 0, 0, (false, false, false));
}

// ---------------------------------------------------------------------------
// Object names
// ---------------------------------------------------------------------------

/// The pieces of `[a].[b]` around its first `].[` are `a` and `b`, when `a`
/// and `b` hold no brackets.
proof fn lemma_two_part_pieces(a: Seq<char>, b: Seq<char>)
    requires
        forall|i: int| 0 <= i < a.len() ==> a[i] != '[' && a[i] != ']',
        forall|i: int| 0 <= i < b.len() ==> b[i] != '[' && b[i] != ']',
    ensures
        trim(two_part(a, b)) == two_part(a, b),
        starts_with_char(two_part(a, b), '['),
        contains(two_part(a, b), "].["@),
        trim_start_by(before_first(two_part(a, b), "].["@), open_bracket_pred()) == a,
        trim_end_by(after_first(two_part(a, b), "].["@), close_bracket_pred()) == b,
{
    let t = two_part(a, b);
    let pat = "].["@;
    reveal_strlit("].[");
    let k: int = a.len() as int + 1;
    assert(t.len() == a.len() + b.len() + 5);
    assert(t[0] == '[');
    assert(t[t.len() - 1] == ']');
    lemma_trim_by_fixed(t, ws_pred());
    assert(t.subrange(k, k + 3) =~= pat);
    assert(occurs_at(t, pat, k));
    lemma_find_from_props(t, pat, 0);
    assert forall|m: int| 0 <= m < k implies !occurs_at(t, pat, m) by {
        if occurs_at(t, pat, m) {
            assert(t.subrange(m, m + 3)[0] == t[m]);
            assert(pat[0] == ']');
            if m > 0 {
                assert(t[m] == a[m - 1]);
            }
        }
    }
    assert(find(t, pat) == Some(k));
    let x = t.subrange(0, k);
    let y = t.subrange(k + 3, t.len() as int);
    assert(x =~= seq!['['] + a);
    assert(y =~= b + seq![']']);
    assert(skip_fwd(x, 1, open_bracket_pred()) == 1) by {
        if a.len() > 0 {
            assert(x[1] == a[0]);
        }
    }
    assert(skip_fwd(x, 0, open_bracket_pred()) == 1);
    assert(trim_start_by(x, open_bracket_pred()) =~= a);
    let n: int = y.len() - 1;
    assert(skip_back(y, n, close_bracket_pred()) == n) by {
        if b.len() > 0 {
            assert(y[n - 1] == b[b.len() - 1]);
        }
    }
    assert(skip_back(y, y.len() as int, close_bracket_pred()) == n);
    assert(trim_end_by(y, close_bracket_pred()) =~= b);
}

/// A two-part name `[schema].[name]` whose parts hold no brackets is already
/// normalized: normalizing it gives it back, whatever the default schema.
pub proof fn law_normalized_name_is_kept(a: Seq<char>, b: Seq<char>, d: Seq<char>)
    requires
        forall|i: int| 0 <= i < a.len() ==> a[i] != '[' && a[i] != ']',
        forall|i: int| 0 <= i < b.len() ==> b[i] != '[' && b[i] != ']',
    ensures
        normalized_object_name(two_part(a, b), d) == two_part(a, b),
{
    lemma_two_part_pieces(a, b);
}

/// Splitting a two-part name `[schema].[name]` whose parts hold no brackets
/// gives its schema and name back, and the name counts as qualified.
pub proof fn law_split_reads_two_part(a: Seq<char>, b: Seq<char>, d: Seq<char>)
    requires
        forall|i: int| 0 <= i < a.len() ==> a[i] != '[' && a[i] != ']',
        forall|i: int| 0 <= i < b.len() ==> b[i] != '[' && b[i] != ']',
    ensures
        split_qualified(two_part(a, b), d) == (a, b),
        qualified_name_text(two_part(a, b)),
{
    lemma_two_part_pieces(a, b);
}

// ---------------------------------------------------------------------------
// Names written `x`, `[x]`, `x.y` and their bracketed forms
// ---------------------------------------------------------------------------

/// A character of a plain identifier: an ASCII letter or digit, or `_`.
pub open spec fn ident_char(c: char) -> bool {
    ('a' <= c && c <= 'z') || ('A' <= c && c <= 'Z') || ('0' <= c && c <= '9') || c == '_'
}

/// A non-empty identifier of plain characters.
pub open spec fn plain_ident(x: Seq<char>) -> bool {
    x.len() > 0 && forall|i: int| 0 <= i < x.len() ==> ident_char(#[trigger] x[i])
}

/// An identifier as written: bare, or in brackets.
pub open spec fn name_part(x: Seq<char>, quoted: bool) -> Seq<char> {
    if quoted {
        bracketed(x)
    } else {
        x
    }
}

proof fn lemma_first_at(t: Seq<char>, pat: Seq<char>, k: int)
    requires
        occurs_at(t, pat, k),
        forall|m: int| 0 <= m < k ==> !occurs_at(t, pat, m),
    ensures
        find(t, pat) == Some(k),
        contains(t, pat),
{
    lemma_find_from_props(t, pat, 0);
}

proof fn lemma_absent(t: Seq<char>, pat: Seq<char>, j: int)
    requires
        0 <= j < pat.len(),
        forall|i: int| j <= i < t.len() ==> t[i] != pat[j],
    ensures
        !contains(t, pat),
{
    lemma_find_from_props(t, pat, 0);
    if contains(t, pat) {
        let k = find(t, pat).unwrap();
        assert(t.subrange(k, k + pat.len())[j] == t[k + j]);
    }
}

proof fn lemma_plain_normalized(x: Seq<char>)
    requires
        plain_ident(x),
    ensures
        trim(x) == x,
        normalized_identifier(x) == x,
        normalized_identifier(bracketed(x)) == x,
        trim_start_by(seq!['['] + x, open_bracket_pred()) == x,
        normalized_identifier(x + seq![']']) == x,
{
    assert(ident_char(x[0]) && ident_char(x[x.len() - 1]));
    lemma_trim_by_fixed(x, ws_pred());
    lemma_trim_by_fixed(x, ident_quote_pred());
    lemma_trim_bracketed(x);
    lemma_trim_by_wrapped(x, ident_quote_pred(), '[', ']');
    let u = seq!['['] + x;
    assert(u[1] == x[0]);
    assert(skip_fwd(u, 1, open_bracket_pred()) == 1);
    assert(skip_fwd(u, 0, open_bracket_pred()) == 1);
    assert(trim_start_by(u, open_bracket_pred()) =~= x);
    let w = x + seq![']'];
    assert(w[0] == x[0]);
    assert(w[w.len() - 1] == ']');
    lemma_trim_by_fixed(w, ws_pred());
    let n: int = w.len() - 1;
    assert(w[n - 1] == x[x.len() - 1]);
    assert(skip_fwd(w, 0, ident_quote_pred()) == 0);
    assert(skip_back(w, n, ident_quote_pred()) == n);
    assert(skip_back(w, w.len() as int, ident_quote_pred()) == n);
    assert(trim_by(w, ident_quote_pred()) =~= x);
}

/// A name written `x` or `[x]` (plain characters) is read as `x` in the
/// default schema, by normalizing and by splitting alike.
pub proof fn law_one_part_name(x: Seq<char>, quoted: bool, d: Seq<char>)
    requires
        plain_ident(x),
    ensures
        normalized_object_name(name_part(x, quoted), d) == two_part(d, x),
        split_qualified(name_part(x, quoted), d) == (d, x),
{
    reveal_strlit(".");
    reveal_strlit("].[");
    reveal_strlit("].");
    reveal_strlit(".[");
    lemma_plain_normalized(x);
    let t = name_part(x, quoted);
    assert(trim(t) == t);
    assert forall|i: int| 0 <= i < t.len() implies t[i] != '.' by {
        if quoted && 0 < i < t.len() - 1 {
            assert(t[i] == x[i - 1]);
        }
    }
    lemma_absent(t, "."@, 0);
    assert forall|i: int| 1 <= i < t.len() implies t[i] != "].["@[1] by {}
    lemma_absent(t, "].["@, 1);
    lemma_absent(t, "]."@, 1);
    lemma_absent(t, ".["@, 0);
}

/// A name written `x.y`, `[x].y`, `x.[y]` or `[x].[y]` (plain characters) is
/// read as schema `x` and name `y`, by normalizing and by splitting alike.
pub proof fn law_two_part_name(x: Seq<char>, qx: bool, y: Seq<char>, qy: bool, d: Seq<char>)
    requires
        plain_ident(x),
        plain_ident(y),
    ensures
        normalized_object_name(name_part(x, qx) + seq!['.'] + name_part(y, qy), d) == two_part(x, y),
        split_qualified(name_part(x, qx) + seq!['.'] + name_part(y, qy), d) == (x, y),
{
    reveal_strlit(".");
    reveal_strlit("].[");
    reveal_strlit("].");
    reveal_strlit(".[");
    reveal_strlit("[");
    lemma_plain_normalized(x);
    lemma_plain_normalized(y);
    let a = name_part(x, qx);
    let b = name_part(y, qy);
    let t = a + seq!['.'] + b;
    let k: int = a.len() as int;
    assert(t[0] == a[0]);
    assert(t[t.len() - 1] == b[b.len() - 1]);
    assert(ident_char(x[0]) && ident_char(y[y.len() - 1]));
    lemma_trim_by_fixed(t, ws_pred());
    assert(trim(t) == t);
    assert(t[k] == '.');
    assert forall|i: int| 0 <= i < k implies t[i] != '.' && (i == 0 || t[i] != '[') by {
        assert(t[i] == a[i]);
        if qx && 0 < i < a.len() - 1 {
            assert(a[i] == x[i - 1]);
        } else if !qx {
            assert(a[i] == x[i]);
        }
    }
    assert forall|i: int| k < i < t.len() implies t[i] != '.' && (i == t.len() - 1 || t[i] != ']') by {
        assert(t[i] == b[i - k - 1]);
        if qy && 0 < i - k - 1 < b.len() - 1 {
            assert(b[i - k - 1] == y[i - k - 2]);
        } else if !qy {
            assert(b[i - k - 1] == y[i - k - 1]);
        }
    }
    assert forall|m: int| 0 <= m < k implies !occurs_at(t, "."@, m) by {
        if occurs_at(t, "."@, m) {
            assert(t.subrange(m, m + 1)[0] == t[m]);
        }
    }
    assert(t.subrange(k, k + 1) =~= "."@);
    lemma_first_at(t, "."@, k);
    assert(before_first(t, "."@) =~= a);
    assert(after_first(t, "."@) =~= b);
    if qx && qy {
        assert(t =~= two_part(x, y));
        law_normalized_name_is_kept(x, y, d);
        law_split_reads_two_part(x, y, d);
    } else if !qx && !qy {
        assert forall|i: int| 0 <= i < t.len() implies t[i] != '[' && t[i] != ']' by {
            if i < k {
                assert(t[i] == x[i]);
            } else if i > k {
                assert(t[i] == y[i - k - 1]);
            }
        }
        lemma_absent(t, "].["@, 0);
        lemma_absent(t, ".["@, 1);
        lemma_absent(t, "["@, 0);
    } else if qx {
        // `[x].y`: the only `[` opens the name.
        assert forall|i: int| 1 <= i < t.len() implies t[i] != '[' by {
            if i < k - 1 {
                assert(t[i] == x[i - 1]);
            } else if i > k {
                assert(t[i] == y[i - k - 1]);
            }
        }
        lemma_absent(t, "].["@, 2);
        lemma_absent(t, ".["@, 1);
        assert(t.subrange(k - 1, k + 1) =~= "]."@);
        assert forall|m: int| 0 <= m < k - 1 implies !occurs_at(t, "]."@, m) by {
            if occurs_at(t, "]."@, m) {
                assert(t.subrange(m, m + 2)[0] == t[m]);
                if m > 0 {
                    assert(t[m] == x[m - 1]);
                }
            }
        }
        lemma_first_at(t, "]."@, k - 1);
        assert(before_first(t, "]."@) =~= seq!['['] + x);
        assert(after_first(t, "]."@) =~= y);
    } else {
        // `x.[y]`: the only `]` closes the name.
        assert forall|i: int| 0 <= i < t.len() - 1 implies t[i] != ']' by {
            if i < k {
                assert(t[i] == x[i]);
            } else if i > k + 1 {
                assert(t[i] == y[i - k - 2]);
            }
        }
        lemma_find_from_props(t, "].["@, 0);
        if contains(t, "].["@) {
            let m = find(t, "].["@).unwrap();
            assert(t.subrange(m, m + 3)[0] == t[m]);
        }
        assert(t.subrange(k, k + 2) =~= ".["@);
        assert forall|m: int| 0 <= m < k implies !occurs_at(t, ".["@, m) by {
            if occurs_at(t, ".["@, m) {
                assert(t.subrange(m, m + 2)[0] == t[m]);
                assert(t[m] == x[m]);
            }
        }
        lemma_first_at(t, ".["@, k);
        assert(before_first(t, ".["@) =~= x);
        assert(after_first(t, ".["@) =~= y + seq![']']);
    }
}

// ---------------------------------------------------------------------------
// Parenthesized groups
// ---------------------------------------------------------------------------

proof fn lemma_skip_matches_close(s: Seq<TokenView>, p: int, depth: nat)
    requires
        0 <= p <= s.len(),
    ensures
        skip_paren(s, p, depth) == match close_index(s, p, depth) {
            Some(q) => q + 1,
            None => s.len() as int,
        },
    decreases s.len() - p,
{
    if p < s.len() {
        if s[p].kind == crate::lexer::TokenKind::LParen {
            lemma_skip_matches_close(s, p + 1, depth + 1);
        } else if s[p].kind == crate::lexer::TokenKind::RParen {
            if depth > 1 {
                lemma_skip_matches_close(s, p + 1, (depth - 1) as nat);
            }
        } else {
            lemma_skip_matches_close(s, p + 1, depth);
        }
    }
}

/// Skipping a parenthesized group and consuming it end at the same place:
/// just past the `)` that closes it, or at the end when it is not closed.
pub proof fn law_skip_and_consume_agree(s: Seq<TokenView>, p: int)
    requires
        0 <= p <= s.len(),
    ensures
        skip_paren(s, p, 0) == match close_index(s, p, 0) {
            Some(q) => q + 1,
            None => s.len() as int,
        },
{
    lemma_skip_matches_close(s, p, 0);
}

} // verus!
