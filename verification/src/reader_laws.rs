//! What the column, parameter, permission and index readers do with each part
//! they read, for every token sequence: a modifier sets its own field and no
//! later modifier undoes it, a default keeps the text of its tokens, a target
//! is a schema only where `SCHEMA` says so, and each index option sets only
//! its own field.

use vstd::prelude::*;
use crate::lexer::{TokenKind, TokenView};
use crate::cursor::{skip_ws, kw_at, word_at, kind_at, lemma_skip_ws, ident, token_string};
use crate::column_parser::{
    ColumnView, ModifierState, modifier_step, constraint_step, flag_step, key_step, col_modifiers,
    skip_paren,
};
use crate::procedure_parser::default_value_raw;
use crate::security_parser::{TargetView, permission_target};
use crate::index_parser::{IndexView, with_items, skip_to_comma_or_paren, lemma_skip_to_comma_or_paren};
use crate::text::lower_char;

verus! {

// ---------------------------------------------------------------------------
// Column modifiers
// ---------------------------------------------------------------------------

/// Skipping a parenthesized group never moves back, nor past the end.
pub proof fn lemma_skip_paren_bounds(s: Seq<TokenView>, p: int, depth: nat)
    requires
        0 <= p <= s.len(),
    ensures
        p <= skip_paren(s, p, depth) <= s.len(),
        p < s.len() ==> p < skip_paren(s, p, depth),
    decreases s.len() - p,
{
    if p < s.len() {
        if s[p].kind == TokenKind::LParen {
            lemma_skip_paren_bounds(s, p + 1, depth + 1);
        } else if s[p].kind == TokenKind::RParen {
            if depth > 1 {
                lemma_skip_paren_bounds(s, p + 1, (depth - 1) as nat);
            }
        } else {
            lemma_skip_paren_bounds(s, p + 1, depth);
        }
    }
}

/// What no modifier undoes: an explicit `NOT NULL`, and the flags
/// `IDENTITY`, `ROWGUIDCOL`, `SPARSE`, `FILESTREAM`.
pub open spec fn kept_by(c: ColumnView, d: ColumnView) -> bool {
    &&& c.nullability == Some(false) ==> d.nullability == Some(false)
    &&& c.nullability is Some ==> d.nullability is Some
    &&& c.is_identity ==> d.is_identity
    &&& c.is_rowguidcol ==> d.is_rowguidcol
    &&& c.is_sparse ==> d.is_sparse
    &&& c.is_filestream ==> d.is_filestream
}

proof fn lemma_constraint_step_keeps(s: Seq<TokenView>, q: int, st: ModifierState)
    ensures
        constraint_step(s, q, st) matches Some((st2, _)) ==> kept_by(st.col, st2.col),
{
}

proof fn lemma_flag_step_keeps(s: Seq<TokenView>, q: int, st: ModifierState)
    ensures
        flag_step(s, q, st) matches Some((st2, _)) ==> kept_by(st.col, st2.col),
{
}

proof fn lemma_key_step_keeps(s: Seq<TokenView>, q: int, st: ModifierState)
    ensures
        key_step(s, q, st) matches Some((st2, _)) ==> st2 == st,
{
}

/// Once a column is `NOT NULL`, or `IDENTITY`, `ROWGUIDCOL`, `SPARSE` or
/// `FILESTREAM`, no later modifier changes that.
pub proof fn law_modifiers_keep_settings(s: Seq<TokenView>, p: int, st: ModifierState)
    ensures
        kept_by(st.col, col_modifiers(s, p, st)),
    decreases s.len() - p,
{
    if p >= 0 {
        let q = skip_ws(s, p);
        if q < s.len() {
            lemma_constraint_step_keeps(s, q, st);
            lemma_flag_step_keeps(s, q, st);
            lemma_key_step_keeps(s, q, st);
            match modifier_step(s, q, st) {
                None => {},
                Some((st2, q2)) => {
                    if !(q2 <= p || q2 > s.len()) {
                        law_modifiers_keep_settings(s, q2, st2);
                    }
                },
            }
        }
    }
}

/// Two words whose first letters differ (ignoring case) are not both the
/// value of one token.
proof fn lemma_not_both(v: Seq<char>, a: Seq<char>, b: Seq<char>)
    requires
        crate::text::eq_ci(v, a),
        a.len() > 0,
        b.len() > 0,
        lower_char(a[0]) != lower_char(b[0]),
    ensures
        !crate::text::eq_ci(v, b),
{
    if crate::text::eq_ci(v, b) {
        assert(lower_char(v[0]) == lower_char(a[0]));
        assert(lower_char(v[0]) == lower_char(b[0]));
    }
}

proof fn lemma_words_differ()
    ensures
        lower_char('F') != lower_char('C') && lower_char('F') != lower_char('R') && lower_char('F')
            != lower_char('N') && lower_char('F') != lower_char('I') && lower_char('F') != lower_char('D')
            && lower_char('F') != lower_char('S') && lower_char('F') != lower_char('G') && lower_char('F')
            != lower_char('H') && lower_char('F') != lower_char('P') && lower_char('F') != lower_char('U'),
        lower_char('R') != lower_char('C') && lower_char('R') != lower_char('F'),
        lower_char('S') != lower_char('C') && lower_char('S') != lower_char('N') && lower_char('S')
            != lower_char('D') && lower_char('S') != lower_char('R') && lower_char('S') != lower_char('F')
            && lower_char('S') != lower_char('G') && lower_char('S') != lower_char('H') && lower_char('S')
            != lower_char('P') && lower_char('S') != lower_char('U') && lower_char('S') != lower_char('I'),
        lower_char('N') != lower_char('I'),
{
}

/// Where the next modifier is `NOT NULL`, the column comes out `NOT NULL`.
pub proof fn law_not_null_gives_not_nullable(s: Seq<TokenView>, p: int, st: ModifierState)
    requires
        0 <= p,
        kw_at(s, skip_ws(s, p), "NOT"@),
        kw_at(s, skip_ws(s, skip_ws(s, p) + 1), "NULL"@),
    ensures
        col_modifiers(s, p, st).nullability == Some(false),
{
    reveal_strlit("NOT");
    reveal_strlit("IDENTITY");
    let q = skip_ws(s, p);
    lemma_skip_ws(s, p);
    lemma_skip_ws(s, q + 1);
    assert(!kw_at(s, q, "IDENTITY"@));
    let a = skip_ws(s, q + 1);
    let st2 = ModifierState { col: ColumnView { nullability: Some(false), ..st.col }, ..st };
    assert(modifier_step(s, q, st) == Some((st2, a + 1)));
    law_modifiers_keep_settings(s, a + 1, st2);
}

/// `IDENTITY`, with or without its `(seed, increment)`, followed by `NOT
/// NULL`, gives an identity column that is `NOT NULL`: the group is read
/// over, and the `NOT NULL` after it is read as a modifier of its own.
pub proof fn law_identity_then_not_null(s: Seq<TokenView>, p: int, st: ModifierState)
    requires
        0 <= p,
        kw_at(s, skip_ws(s, p), "IDENTITY"@),
        ({
            let b = skip_ws(s, skip_ws(s, p) + 1);
            let c = if kind_at(s, b, TokenKind::LParen) { skip_paren(s, b, 0) } else { b };
            &&& kw_at(s, skip_ws(s, c), "NOT"@)
            &&& kw_at(s, skip_ws(s, skip_ws(s, c) + 1), "NULL"@)
        }),
    ensures
        col_modifiers(s, p, st).nullability == Some(false),
        col_modifiers(s, p, st).is_identity,
{
    let q = skip_ws(s, p);
    lemma_skip_ws(s, p);
    lemma_skip_ws(s, q + 1);
    let b = skip_ws(s, q + 1);
    let c = if kind_at(s, b, TokenKind::LParen) { skip_paren(s, b, 0) } else { b };
    if kind_at(s, b, TokenKind::LParen) {
        lemma_skip_paren_bounds(s, b, 0);
    }
    let st2 = ModifierState { col: ColumnView { is_identity: true, ..st.col }, ..st };
    assert(modifier_step(s, q, st) == Some((st2, c)));
    assert(p < c <= s.len());
    law_not_null_gives_not_nullable(s, c, st2);
    law_modifiers_keep_settings(s, c, st2);
}

/// Where the next modifier is the word `FILESTREAM`, `ROWGUIDCOL` or
/// `SPARSE`, the column comes out with that flag set.
pub proof fn law_flag_word_sets_flag(s: Seq<TokenView>, p: int, st: ModifierState)
    requires
        0 <= p,
    ensures
        word_at(s, skip_ws(s, p), "FILESTREAM"@) ==> col_modifiers(s, p, st).is_filestream,
        word_at(s, skip_ws(s, p), "ROWGUIDCOL"@) ==> col_modifiers(s, p, st).is_rowguidcol,
        word_at(s, skip_ws(s, p), "SPARSE"@) ==> col_modifiers(s, p, st).is_sparse,
{
    reveal_strlit("FILESTREAM");
    reveal_strlit("ROWGUIDCOL");
    reveal_strlit("SPARSE");
    reveal_strlit("IDENTITY");
    reveal_strlit("NOT");
    reveal_strlit("NULL");
    reveal_strlit("CONSTRAINT");
    reveal_strlit("DEFAULT");
    reveal_strlit("CHECK");
    lemma_words_differ();
    let q = skip_ws(s, p);
    lemma_skip_ws(s, p);
    if word_at(s, q, "FILESTREAM"@) || word_at(s, q, "ROWGUIDCOL"@) || word_at(s, q, "SPARSE"@) {
        let v = s[q].value;
        if word_at(s, q, "FILESTREAM"@) {
            lemma_not_both(v, "FILESTREAM"@, "CONSTRAINT"@);
            lemma_not_both(v, "FILESTREAM"@, "ROWGUIDCOL"@);
        }
        if word_at(s, q, "ROWGUIDCOL"@) {
            lemma_not_both(v, "ROWGUIDCOL"@, "CONSTRAINT"@);
        }
        assert(constraint_step(s, q, st) is None);
        let st2 = match flag_step(s, q, st) {
            Some((x, _)) => x,
            None => st,
        };
        assert(flag_step(s, q, st) matches Some((_, q2)) && q2 == q + 1);
        assert(word_at(s, q, "FILESTREAM"@) ==> st2.col.is_filestream);
        assert(word_at(s, q, "ROWGUIDCOL"@) ==> st2.col.is_rowguidcol);
        assert(word_at(s, q, "SPARSE"@) ==> st2.col.is_sparse);
        law_modifiers_keep_settings(s, q + 1, st2);
    }
}

/// Where the next modifier is `IDENTITY`, the column comes out an identity
/// column; where it is `NULL` on a column with no nullability yet, the column
/// comes out with an explicit nullability.
pub proof fn law_identity_and_null_words(s: Seq<TokenView>, p: int, st: ModifierState)
    requires
        0 <= p,
    ensures
        kw_at(s, skip_ws(s, p), "IDENTITY"@) ==> col_modifiers(s, p, st).is_identity,
        kw_at(s, skip_ws(s, p), "NULL"@) && st.col.nullability is None ==> col_modifiers(
            s,
            p,
            st,
        ).nullability is Some,
{
    reveal_strlit("IDENTITY");
    reveal_strlit("NOT");
    reveal_strlit("NULL");
    let q = skip_ws(s, p);
    lemma_skip_ws(s, p);
    lemma_skip_ws(s, q + 1);
    if kw_at(s, q, "IDENTITY"@) {
        let b = skip_ws(s, q + 1);
        let c = if kind_at(s, b, TokenKind::LParen) { skip_paren(s, b, 0) } else { b };
        if kind_at(s, b, TokenKind::LParen) {
            lemma_skip_paren_bounds(s, b, 0);
        }
        let st2 = ModifierState { col: ColumnView { is_identity: true, ..st.col }, ..st };
        assert(modifier_step(s, q, st) == Some((st2, c)));
        law_modifiers_keep_settings(s, c, st2);
    }
    if kw_at(s, q, "NULL"@) && st.col.nullability is None {
        assert(!kw_at(s, q, "IDENTITY"@));
        assert(!kw_at(s, q, "NOT"@));
        let st2 = ModifierState { col: ColumnView { nullability: Some(true), ..st.col }, ..st };
        assert(modifier_step(s, q, st) == Some((st2, q + 1)));
        law_modifiers_keep_settings(s, q + 1, st2);
    }
}

// ---------------------------------------------------------------------------
// Parameter defaults
// ---------------------------------------------------------------------------

/// `b` is a prefix of `a`.
pub open spec fn has_prefix(a: Seq<char>, b: Seq<char>) -> bool {
    a.len() >= b.len() && a.subrange(0, b.len() as int) == b
}

proof fn lemma_prefix_trans(a: Seq<char>, b: Seq<char>, c: Seq<char>)
    requires
        has_prefix(a, b),
        has_prefix(b, c),
    ensures
        has_prefix(a, c),
{
    assert(a.subrange(0, c.len() as int) =~= b.subrange(0, c.len() as int));
}

/// Reading a default only adds to what was read before it.
pub proof fn lemma_default_keeps_prefix(s: Seq<TokenView>, p: int, depth: nat, acc: Seq<char>)
    ensures
        has_prefix(default_value_raw(s, p, depth, acc).0, acc),
    decreases s.len() - p,
{
    if !(p < 0 || p >= s.len()) {
        let t = s[p];
        let next: Seq<char> = if t.kind == TokenKind::LParen {
            acc.push('(')
        } else if t.kind == TokenKind::RParen {
            acc.push(')')
        } else if t.kind == TokenKind::Whitespace {
            if acc.len() > 0 && acc.last() != ' ' {
                acc.push(' ')
            } else {
                acc
            }
        } else {
            acc + token_string(t)
        };
        assert(has_prefix(next, acc)) by {
            assert(next.subrange(0, acc.len() as int) =~= acc);
        }
        if t.kind == TokenKind::LParen {
            lemma_default_keeps_prefix(s, p + 1, depth + 1, next);
            lemma_prefix_trans(default_value_raw(s, p, depth, acc).0, next, acc);
        } else if t.kind == TokenKind::RParen {
            if depth != 0 {
                lemma_default_keeps_prefix(s, p + 1, (depth - 1) as nat, next);
                lemma_prefix_trans(default_value_raw(s, p, depth, acc).0, next, acc);
            } else {
                assert(acc.subrange(0, acc.len() as int) =~= acc);
            }
        } else if (t.kind == TokenKind::Comma && depth == 0) || (t.kind == TokenKind::Word && depth == 0
            && crate::procedure_parser::ends_default(s, p)) {
            assert(acc.subrange(0, acc.len() as int) =~= acc);
        } else {
            lemma_default_keeps_prefix(s, p + 1, depth, next);
            lemma_prefix_trans(default_value_raw(s, p, depth, acc).0, next, acc);
        }
    } else {
        assert(acc.subrange(0, acc.len() as int) =~= acc);
    }
}

/// A token of a default that is no whitespace, parenthesis, comma or word (an
/// operator such as `-`, a number, a string) keeps its text: what is read from
/// it on starts with that text, after what came before.
pub proof fn law_default_keeps_token_text(s: Seq<TokenView>, p: int, depth: nat, acc: Seq<char>)
    requires
        0 <= p < s.len(),
        s[p].kind != TokenKind::Whitespace,
        s[p].kind != TokenKind::LParen,
        s[p].kind != TokenKind::RParen,
        s[p].kind != TokenKind::Comma,
        s[p].kind != TokenKind::Word,
    ensures
        has_prefix(default_value_raw(s, p, depth, acc).0, acc + token_string(s[p])),
{
    lemma_default_keeps_prefix(s, p + 1, depth, acc + token_string(s[p]));
}

// ---------------------------------------------------------------------------
// Permission targets
// ---------------------------------------------------------------------------

/// A permission target is a schema only where it starts with the word
/// `SCHEMA`; otherwise it is an object, named by the last part of its name:
/// a one-part name `x` gives the object `x` with no schema.
pub proof fn law_permission_target_kind(s: Seq<TokenView>, p: int)
    ensures
        permission_target(s, p).0 matches Some(TargetView::Schema(_)) ==> word_at(s, p, "SCHEMA"@),
        !word_at(s, p, "SCHEMA"@) ==> (permission_target(s, p).0 matches Some(t) ==> t is Object),
        !word_at(s, p, "SCHEMA"@) && !word_at(s, p, "OBJECT"@) && kind_at(s, p, TokenKind::Word)
            && !kind_at(s, skip_ws(s, p + 1), TokenKind::Period) ==> permission_target(s, p).0
            == Some(TargetView::Object { schema: None, name: s[p].value }),
        ({
            let b = skip_ws(s, skip_ws(s, p + 1) + 1);
            !word_at(s, p, "SCHEMA"@) && !word_at(s, p, "OBJECT"@) && kind_at(s, p, TokenKind::Word)
                && kind_at(s, skip_ws(s, p + 1), TokenKind::Period) && kind_at(s, b, TokenKind::Word)
                ==> permission_target(s, p).0 == Some(
                TargetView::Object { schema: Some(s[p].value), name: s[b].value },
            )
        }),
        ({
            let q = skip_ws(s, p + 1);
            let x = if kind_at(s, q, TokenKind::DoubleColon) { skip_ws(s, q + 1) } else { q };
            word_at(s, p, "SCHEMA"@) && kind_at(s, x, TokenKind::Word) ==> permission_target(s, p).0
                == Some(TargetView::Schema(s[x].value))
        }),
{
}

// ---------------------------------------------------------------------------
// Index options
// ---------------------------------------------------------------------------

/// Whether the word `w` occurs among the tokens from `p` on.
pub open spec fn word_from(s: Seq<TokenView>, p: int, w: Seq<char>) -> bool {
    exists|i: int| p <= i < s.len() && #[trigger] word_at(s, i, w)
}

/// Each `WITH` option of an index sets only its own field: the fields other
/// than `FILLFACTOR` and `DATA_COMPRESSION` are left as they were, and each of
/// those two is left as it was unless its own option occurs.
pub proof fn law_index_options_own_fields(s: Seq<TokenView>, p: int, r: IndexView)
    requires
        0 <= p,
    ensures
        ({
            let o = with_items(s, p, r).0;
            &&& o.name == r.name && o.table_schema == r.table_schema && o.table_name == r.table_name
            &&& o.columns == r.columns && o.include_columns == r.include_columns
            &&& o.is_unique == r.is_unique && o.is_clustered == r.is_clustered
            &&& o.filter_predicate == r.filter_predicate
            &&& !word_from(s, p, "DATA_COMPRESSION"@) ==> o.data_compression == r.data_compression
            &&& !word_from(s, p, "FILLFACTOR"@) ==> o.fill_factor == r.fill_factor
        }),
    decreases s.len() - p,
{
    if !(p >= s.len() || kind_at(s, p, TokenKind::RParen)) {
        let q = skip_ws(s, p);
        lemma_skip_ws(s, p);
        lemma_skip_ws(s, q + 1);
        if word_at(s, q, "FILLFACTOR"@) || word_at(s, q, "DATA_COMPRESSION"@) {
            crate::index_parser::lemma_with_items_pos(s, p, r);
            lemma_skip_ws(s, skip_ws(s, q + 1) + 1);
            let q2 = match crate::index_parser::option_value_pos(s, q) {
                None => skip_ws(s, q + 1),
                Some(v) => if word_at(s, q, "FILLFACTOR"@) {
                    crate::index_parser::number_i64(s, v).1
                } else {
                    ident(s, v).1
                },
            };
            lemma_skip_to_comma_or_paren(s, q2);
            let r2 = if word_at(s, q, "FILLFACTOR"@) {
                match crate::index_parser::option_value_pos(s, q) {
                    None => r,
                    Some(v) => match crate::index_parser::number_i64(s, v).0 {
                        Some(x) => if x <= 100 {
                            IndexView { fill_factor: Some(x as u8), ..r }
                        } else {
                            r
                        },
                        None => r,
                    },
                }
            } else {
                match crate::index_parser::option_value_pos(s, q) {
                    None => r,
                    Some(v) => match ident(s, v).0 {
                        Some(x) => IndexView { data_compression: Some(crate::text::unicode_upper(x)), ..r },
                        None => r,
                    },
                }
            };
            let n = skip_to_comma_or_paren(s, q2);
            assert(q2 >= q);
            law_index_options_own_fields(s, n, r2);
            if word_at(s, q, "FILLFACTOR"@) {
                assert(!word_from(s, p, "DATA_COMPRESSION"@) ==> !word_from(s, n, "DATA_COMPRESSION"@));
                assert(word_from(s, p, "FILLFACTOR"@));
            } else {
                assert(!word_from(s, p, "FILLFACTOR"@) ==> !word_from(s, n, "FILLFACTOR"@));
                assert(word_from(s, p, "DATA_COMPRESSION"@));
            }
        } else {
            lemma_skip_to_comma_or_paren(s, q);
            let n = skip_to_comma_or_paren(s, q);
            law_index_options_own_fields(s, n, r);
            assert(!word_from(s, p, "FILLFACTOR"@) ==> !word_from(s, n, "FILLFACTOR"@));
            assert(!word_from(s, p, "DATA_COMPRESSION"@) ==> !word_from(s, n, "DATA_COMPRESSION"@));
        }
    }
}

/// A `DATA_COMPRESSION = v` option with no other `DATA_COMPRESSION` after it
/// gives the compression `v`, upper-cased, whatever options come after it; a
/// `FILLFACTOR = n` option (`n` at most 100) with no other `FILLFACTOR` after
/// it gives the fill factor `n`, whatever options come after it.
pub proof fn law_index_option_value_stays(s: Seq<TokenView>, p: int, r: IndexView)
    requires
        0 <= p < s.len(),
        !kind_at(s, p, TokenKind::RParen),
    ensures
        ({
            let q = skip_ws(s, p);
            let v = skip_ws(s, skip_ws(s, q + 1) + 1);
            word_at(s, q, "DATA_COMPRESSION"@) && kind_at(s, skip_ws(s, q + 1), TokenKind::Eq)
                && kind_at(s, v, TokenKind::Word) && !word_from(s, q + 1, "DATA_COMPRESSION"@)
                ==> with_items(s, p, r).0.data_compression == Some(crate::text::unicode_upper(s[v].value))
        }),
        ({
            let q = skip_ws(s, p);
            let v = skip_ws(s, skip_ws(s, q + 1) + 1);
            word_at(s, q, "FILLFACTOR"@) && kind_at(s, skip_ws(s, q + 1), TokenKind::Eq)
                && crate::index_parser::number_i64(s, v).0 is Some
                && crate::index_parser::number_i64(s, v).0.unwrap() <= 100
                && !word_from(s, q + 1, "FILLFACTOR"@) ==> with_items(s, p, r).0.fill_factor == Some(
                (crate::index_parser::number_i64(s, v).0.unwrap()) as u8,
            )
        }),
{
    reveal_strlit("FILLFACTOR");
    reveal_strlit("DATA_COMPRESSION");
    let q = skip_ws(s, p);
    lemma_skip_ws(s, p);
    lemma_skip_ws(s, q + 1);
    lemma_skip_ws(s, skip_ws(s, q + 1) + 1);
    let v = skip_ws(s, skip_ws(s, q + 1) + 1);
    if word_at(s, q, "DATA_COMPRESSION"@) && kind_at(s, skip_ws(s, q + 1), TokenKind::Eq) && kind_at(
        s,
        v,
        TokenKind::Word,
    ) && !word_from(s, q + 1, "DATA_COMPRESSION"@) {
        assert(!word_at(s, q, "FILLFACTOR"@)) by {
            if word_at(s, q, "FILLFACTOR"@) {
                assert(s[q].value.len() == "FILLFACTOR"@.len());
            }
        }
        let q2 = v + 1;
        lemma_skip_to_comma_or_paren(s, q2);
        let n = skip_to_comma_or_paren(s, q2);
        let r2 = IndexView { data_compression: Some(crate::text::unicode_upper(s[v].value)), ..r };
        law_index_options_own_fields(s, n, r2);
        assert(!word_from(s, n, "DATA_COMPRESSION"@));
    }
    if word_at(s, q, "FILLFACTOR"@) && kind_at(s, skip_ws(s, q + 1), TokenKind::Eq)
        && crate::index_parser::number_i64(s, v).0 is Some
        && crate::index_parser::number_i64(s, v).0.unwrap() <= 100 && !word_from(
        s,
        q + 1,
        "FILLFACTOR"@,
    ) {
        let q2 = v + 1;
        lemma_skip_to_comma_or_paren(s, q2);
        let n = skip_to_comma_or_paren(s, q2);
        let x = crate::index_parser::number_i64(s, v).0.unwrap();
        let r2 = IndexView { fill_factor: Some(x as u8), ..r };
        law_index_options_own_fields(s, n, r2);
        assert(!word_from(s, n, "FILLFACTOR"@));
    }
}

} // verus!
