//! Properties of the single-statement readers, for every token sequence.

use vstd::prelude::*;
use crate::text::starts_with_char;
use crate::lexer::{TokenKind, TokenView, is_leading_word, plain_word};
use crate::cursor::{skip_ws, kw_at, word_at, kind_at, lemma_skip_ws};
use crate::column_parser::{ColumnView, ModifierState, modifier_step, col_modifiers, computed_tail, column_def};
use crate::trigger_parser::trigger_clause;
use crate::extended_property_parser::{
    ExtendedPropertyView, param_step, param_scan, param_value, extended_property,
};
use crate::text::{unicode_upper, starts_with_ci, lower_char};
use crate::fallback::FallbackView;
use crate::security_dispatch::{security_dispatch, is_permission_text};
use crate::cursor::{signed_integer, lemma_signed_integer_pos};
use crate::sequence_parser::{SequenceView, sequence_options, sequence_statement, alter_sequence, with_value};

verus! {

// ---------------------------------------------------------------------------
// Column definitions
// ---------------------------------------------------------------------------

/// A constraint name is emitted only where the column has that name.
pub open spec fn emit_flags_named(c: ColumnView) -> bool {
    &&& c.emit_default_constraint_name ==> c.default_constraint_name is Some
    &&& c.emit_check_constraint_name ==> c.check_constraint_name is Some
}

proof fn lemma_modifiers_keep(s: Seq<TokenView>, p: int, st: ModifierState)
    requires
        emit_flags_named(st.col),
    ensures
        emit_flags_named(col_modifiers(s, p, st)),
        col_modifiers(s, p, st).computed_expression == st.col.computed_expression,
    decreases s.len() - p,
{
    if p >= 0 {
        let q = skip_ws(s, p);
        if q < s.len() {
            match modifier_step(s, q, st) {
                None => {},
                Some((st2, q2)) => {
                    if !(q2 <= p || q2 > s.len()) {
                        lemma_modifiers_keep(s, q2, st2);
                    }
                },
            }
        }
    }
}

proof fn lemma_computed_tail_keeps(s: Seq<TokenView>, p: int, c: ColumnView)
    ensures
        computed_tail(s, p, c).data_type == c.data_type,
        computed_tail(s, p, c).collation == c.collation,
        computed_tail(s, p, c).default_value == c.default_value,
        computed_tail(s, p, c).computed_expression == c.computed_expression,
        emit_flags_named(c) ==> emit_flags_named(computed_tail(s, p, c)),
    decreases s.len() - p,
{
    if p >= 0 {
        let q = skip_ws(s, p);
        if q < s.len() {
            match crate::column_parser::computed_step(s, q, c) {
                None => {},
                Some((c2, q2)) => {
                    if !(q2 <= p || q2 > s.len()) {
                        lemma_computed_tail_keeps(s, q2, c2);
                    }
                },
            }
        }
    }
}

/// A computed column (`name AS (expr)`) has no data type, collation or
/// default; and a column emits a `DEFAULT` or `CHECK` constraint name only
/// where it has that name.
pub proof fn law_column_definition_shape(s: Seq<TokenView>)
    ensures
        column_def(s) matches Some(c) ==> emit_flags_named(c) && (c.computed_expression is Some
            ==> c.data_type.len() == 0 && c.collation is None && c.default_value is None),
{
    let p0 = skip_ws(s, 0);
    if !(p0 >= s.len() || !kind_at(s, p0, TokenKind::Word)) {
        let p1 = skip_ws(s, p0 + 1);
        if kw_at(s, p1, "AS"@) {
            let a = skip_ws(s, p1 + 1);
            if kind_at(s, a, TokenKind::LParen) {
                let (e, b) = crate::column_parser::paren_expr(s, a);
                let col = ColumnView {
                    computed_expression: Some(seq!['('] + e + seq![')']),
                    ..crate::column_parser::base_column(s[p0].value, Seq::empty(), None)
                };
                lemma_computed_tail_keeps(s, b, col);
            }
        } else {
            let (dt, p2) = crate::column_parser::col_data_type(s, p1);
            if let Some(d) = dt {
                let (coll, p3) = crate::column_parser::col_collation(s, p2);
                let st = ModifierState {
                    col: crate::column_parser::base_column(s[p0].value, d, coll),
                    pending: None,
                    after_not_null: false,
                };
                lemma_modifiers_keep(s, p3, st);
            }
        }
    }
}

// ---------------------------------------------------------------------------
// Triggers
// ---------------------------------------------------------------------------

/// The trigger clause gives type 3 exactly for `INSTEAD OF` and type 2 for
/// `AFTER`/`FOR`, and is read only when at least one event follows.
pub proof fn law_instead_of_is_type_three(s: Seq<TokenView>, p: int)
    ensures
        trigger_clause(s, p) matches Some((ty, i, u, d)) ==> (ty == 3 <==> word_at(s, p, "INSTEAD"@))
            && (ty == 2 || ty == 3) && (i || u || d),
{
}

// ---------------------------------------------------------------------------
// Extended properties
// ---------------------------------------------------------------------------

/// Whether a `@param` word with the given (upper-cased) name occurs in `s` from `p` on.
pub open spec fn names_param(s: Seq<TokenView>, p: int, name: Seq<char>) -> bool {
    exists|i: int|
        p <= i < s.len() && kind_at(s, i, TokenKind::Word) && starts_with_char(s[i].value, '@')
            && #[trigger] unicode_upper(s[i].value.drop_first()) == name
}

proof fn lemma_scan_keeps_level0(s: Seq<TokenView>, p: int, st: ExtendedPropertyView)
    requires
        !names_param(s, if p < 0 { 0 } else { p }, "LEVEL0NAME"@),
    ensures
        param_scan(s, p, st).level0name == st.level0name,
    decreases s.len() - p,
{
    if p >= 0 {
        let q = skip_ws(s, p);
        lemma_skip_ws(s, p);
        if !(q >= s.len() || kind_at(s, q, TokenKind::SemiColon)) {
            let (st2, q2) = param_step(s, q, st);
            if kind_at(s, q, TokenKind::Word) && starts_with_char(s[q].value, '@') {
                let name = unicode_upper(s[q].value.drop_first());
                assert(name != "LEVEL0NAME"@);
            }
            if !(q2 <= p || q2 > s.len()) {
                lemma_scan_keeps_level0(s, q2, st2);
            }
        }
    }
}

/// An extended property always has a name; its level-0 name stays `dbo`
/// where no `@level0name` parameter is passed; and a `@value = NULL` pair
/// records an empty value.
pub proof fn law_extended_property_defaults(s: Seq<TokenView>, q: int, st: ExtendedPropertyView)
    ensures
        extended_property(s) matches Some(r) ==> r.property_name.len() > 0,
        extended_property(s) matches Some(r) ==> (!names_param(s, 0, "LEVEL0NAME"@) ==> r.level0name
            == "dbo"@),
        ({
            let a = skip_ws(s, q + 1);
            kind_at(s, q, TokenKind::Word) && starts_with_char(s[q].value, '@') && unicode_upper(
                s[q].value.drop_first(),
            ) == "VALUE"@ && kind_at(s, a, TokenKind::Eq) && kw_at(s, skip_ws(s, skip_ws(s, a + 1)), "NULL"@)
        }) ==> param_step(s, q, st).0.property_value.len() == 0,
{
    reveal_strlit("NAME");
    reveal_strlit("VALUE");
    let a = skip_ws(s, q + 1);
    if kind_at(s, q, TokenKind::Word) && starts_with_char(s[q].value, '@') && unicode_upper(
        s[q].value.drop_first(),
    ) == "VALUE"@ && kind_at(s, a, TokenKind::Eq) && kw_at(s, skip_ws(s, skip_ws(s, a + 1)), "NULL"@) {
        lemma_skip_ws(s, q + 1);
        let (v, e) = param_value(s, skip_ws(s, a + 1));
        assert(v is None);
        assert("VALUE"@.len() != "NAME"@.len());
    }
    let p2 = crate::extended_property_parser::procedure_position(s);
    if word_at(s, p2, "sp_addextendedproperty"@) && !names_param(s, 0, "LEVEL0NAME"@) {
        let p = skip_ws(s, p2 + 1);
        lemma_skip_ws(s, p2 + 1);
        crate::cursor::lemma_skip_ws(s, 0);
        assert(p >= 0);
        assert(!names_param(s, p, "LEVEL0NAME"@));
        lemma_scan_keeps_level0(s, p, crate::extended_property_parser::initial_property());
    }
}

// ---------------------------------------------------------------------------
// Sequences
// ---------------------------------------------------------------------------

/// Whether the word `w` (any case) occurs in `s` from `p` on.
pub open spec fn has_word_from(s: Seq<TokenView>, p: int, w: Seq<char>) -> bool {
    exists|i: int| p <= i < s.len() && #[trigger] word_at(s, i, w)
}

proof fn lemma_alter_options(s: Seq<TokenView>, p: int, r: SequenceView)
    requires
        0 <= p,
    ensures
        sequence_options(s, p, r, true).data_type == r.data_type,
        sequence_options(s, p, r, true).start_value == r.start_value || has_word_from(s, p, "RESTART"@),
    decreases s.len() - p,
{
    if p < s.len() {
        let q = skip_ws(s, p);
        lemma_skip_ws(s, p);
        if q < s.len() {
            if word_at(s, q, "RESTART"@) {
                let (v, q2) = with_value(s, q, "WITH"@);
                lemma_skip_ws(s, q + 1);
                lemma_skip_ws(s, skip_ws(s, q + 1) + 1);
                lemma_signed_integer_pos(s, skip_ws(s, skip_ws(s, q + 1) + 1));
                let r2 = if v is Some {
                    SequenceView { start_value: v, ..r }
                } else {
                    r
                };
                lemma_alter_options(s, q2, r2);
                assert(word_at(s, q, "RESTART"@));
            } else if word_at(s, q, "INCREMENT"@) {
                let (v, q2) = with_value(s, q, "BY"@);
                lemma_skip_ws(s, q + 1);
                lemma_skip_ws(s, skip_ws(s, q + 1) + 1);
                lemma_signed_integer_pos(s, skip_ws(s, skip_ws(s, q + 1) + 1));
                let r2 = if v is Some {
                    SequenceView { increment_value: v, ..r }
                } else {
                    r
                };
                lemma_alter_options(s, q2, r2);
            } else if kw_at(s, q, "NO"@) {
                let q1 = skip_ws(s, q + 1);
                lemma_skip_ws(s, q + 1);
                if word_at(s, q1, "MINVALUE"@) {
                    lemma_alter_options(s, q1 + 1, SequenceView { has_no_min_value: true, min_value: None, ..r });
                } else if word_at(s, q1, "MAXVALUE"@) {
                    lemma_alter_options(s, q1 + 1, SequenceView { has_no_max_value: true, max_value: None, ..r });
                } else if kw_at(s, q1, "CYCLE"@) {
                    lemma_alter_options(s, q1 + 1, SequenceView { is_cycling: false, ..r });
                } else if word_at(s, q1, "CACHE"@) {
                    lemma_alter_options(s, q1 + 1, SequenceView { cache_size: Some(0), ..r });
                } else {
                    lemma_alter_options(s, q1, r);
                }
            } else if word_at(s, q, "MINVALUE"@) || word_at(s, q, "MAXVALUE"@) || word_at(s, q, "CACHE"@) {
                let (v, q2) = signed_integer(s, skip_ws(s, q + 1));
                lemma_skip_ws(s, q + 1);
                lemma_signed_integer_pos(s, skip_ws(s, q + 1));
                let r2 = if v is None {
                    r
                } else if word_at(s, q, "MINVALUE"@) {
                    SequenceView { min_value: v, ..r }
                } else if word_at(s, q, "MAXVALUE"@) {
                    SequenceView { max_value: v, ..r }
                } else {
                    SequenceView { cache_size: v, ..r }
                };
                lemma_alter_options(s, q2, r2);
            } else if kw_at(s, q, "CYCLE"@) {
                lemma_alter_options(s, q + 1, SequenceView { is_cycling: true, ..r });
            } else {
                lemma_alter_options(s, q + 1, r);
            }
        }
    }
}

/// `ALTER SEQUENCE` never sets a data type, and sets a start value only
/// through `RESTART`: without that word the start value stays unset.
pub proof fn law_alter_sequence_options(s: Seq<TokenView>)
    ensures
        alter_sequence(s) matches Some(v) ==> v.data_type is None,
        alter_sequence(s) matches Some(v) ==> (v.start_value is Some ==> has_word_from(s, 0, "RESTART"@)),
{
    let p0 = skip_ws(s, 0);
    lemma_skip_ws(s, 0);
    if kw_at(s, p0, "ALTER"@) {
        let p1 = skip_ws(s, p0 + 1);
        lemma_skip_ws(s, p0 + 1);
        if kw_at(s, p1, "SEQUENCE"@) {
            let (n, p3) = crate::cursor::schema_qualified_name(s, skip_ws(s, p1 + 1));
            lemma_skip_ws(s, p1 + 1);
            if let Some((sc, nm)) = n {
                let q0 = skip_ws(s, p1 + 1);
                let (first, a1) = crate::cursor::ident(s, q0);
                lemma_skip_ws(s, a1);
                let a2 = skip_ws(s, a1);
                if kind_at(s, a2, TokenKind::Period) {
                    lemma_skip_ws(s, a2 + 1);
                }
                assert(p3 >= 0);
                lemma_skip_ws(s, p3);
                let r = crate::sequence_parser::sequence_named(sc, nm);
                lemma_alter_options(s, skip_ws(s, p3), r);
                if has_word_from(s, skip_ws(s, p3), "RESTART"@) {
                    let i = choose|i: int| skip_ws(s, p3) <= i < s.len() && #[trigger] word_at(s, i, "RESTART"@);
                    assert(word_at(s, i, "RESTART"@));
                }
            }
        }
    }
}

// ---------------------------------------------------------------------------
// Permissions
// ---------------------------------------------------------------------------

proof fn lemma_verbs_exclusive(sql: Seq<char>)
    ensures
        starts_with_ci(sql, "GRANT "@) ==> !starts_with_ci(sql, "DENY "@) && !starts_with_ci(sql, "REVOKE "@),
        starts_with_ci(sql, "DENY "@) ==> !starts_with_ci(sql, "REVOKE "@),
{
    reveal_strlit("GRANT ");
    reveal_strlit("DENY ");
    reveal_strlit("REVOKE ");
    assert(lower_char('G') != lower_char('D') && lower_char('G') != lower_char('R') && lower_char('D') != lower_char('R'));
    if starts_with_ci(sql, "GRANT "@) {
        let a = sql.subrange(0, 6);
        assert(lower_char(a[0]) == lower_char("GRANT "@[0]));
    }
    if starts_with_ci(sql, "DENY "@) {
        let a = sql.subrange(0, 5);
        assert(lower_char(a[0]) == lower_char("DENY "@[0]));
    }
    if starts_with_ci(sql, "REVOKE "@) {
        let a = sql.subrange(0, 7);
        assert(lower_char(a[0]) == lower_char("REVOKE "@[0]));
    }
}

/// A permission statement carries the action of its leading `GRANT`, `DENY`
/// or `REVOKE` token; where it does not parse, the skipped statement is named
/// by the verb that the text starts with.
pub proof fn law_permission_action_follows_verb(sql: Seq<char>, s: Seq<TokenView>)
    requires
        is_permission_text(sql),
    ensures
        security_dispatch(sql, s) matches Some(FallbackView::Permission { action, .. }) ==> {
            let p0 = skip_ws(s, 0);
            ||| kw_at(s, p0, "GRANT"@) && action == "Grant"@
            ||| word_at(s, p0, "DENY"@) && action == "Deny"@
            ||| word_at(s, p0, "REVOKE"@) && action == "Revoke"@
        },
        security_dispatch(sql, s) matches Some(FallbackView::SkippedSecurityStatement { statement_type }) ==> {
            &&& starts_with_ci(sql, "GRANT "@) ==> statement_type == "GRANT"@
            &&& starts_with_ci(sql, "DENY "@) ==> statement_type == "DENY"@
            &&& starts_with_ci(sql, "REVOKE "@) ==> statement_type == "REVOKE"@
        },
{
    lemma_verbs_exclusive(sql);
}

/// Whether a reading of a `GRANT`, `DENY` or `REVOKE` text answers by the
/// verb the text starts with: a permission with that action, or a skipped
/// statement of that kind.
pub open spec fn answered_by_verb(sql: Seq<char>, r: Option<FallbackView>) -> bool {
    match r {
        Some(FallbackView::Permission { action, .. }) => {
            &&& starts_with_ci(sql, "GRANT "@) ==> action == "Grant"@
            &&& starts_with_ci(sql, "DENY "@) ==> action == "Deny"@
            &&& starts_with_ci(sql, "REVOKE "@) ==> action == "Revoke"@
        },
        Some(FallbackView::SkippedSecurityStatement { statement_type }) => {
            &&& starts_with_ci(sql, "GRANT "@) ==> statement_type == "GRANT"@
            &&& starts_with_ci(sql, "DENY "@) ==> statement_type == "DENY"@
            &&& starts_with_ci(sql, "REVOKE "@) ==> statement_type == "REVOKE"@
        },
        _ => false,
    }
}

proof fn lemma_verb_is_leading_word(sql: Seq<char>, verb: Seq<char>)
    requires
        starts_with_ci(sql, verb + seq![' ']),
        verb.len() >= 1,
        forall|i: int| 0 <= i < verb.len() ==> 'A' <= #[trigger] verb[i] && verb[i] <= 'Z',
    ensures
        is_leading_word(sql, verb.len() as int),
        crate::text::eq_ci(sql.subrange(0, verb.len() as int), verb),
{
    let k = verb.len() as int;
    let v = verb + seq![' '];
    let a = sql.subrange(0, k + 1);
    assert(lower_char(a[k]) == lower_char(v[k]));
    assert(v[k] == ' ');
    assert(sql[k] == a[k]);
    assert forall|i: int| 0 <= i < k implies ('a' <= #[trigger] sql[i] && sql[i] <= 'z') || ('A'
        <= sql[i] && sql[i] <= 'Z') by {
        assert(lower_char(a[i]) == lower_char(v[i]));
        assert(v[i] == verb[i]);
        assert(sql[i] == a[i]);
    }
    let b = sql.subrange(0, k);
    assert forall|i: int| 0 <= i < k implies lower_char(#[trigger] b[i]) == lower_char(verb[i]) by {
        assert(lower_char(a[i]) == lower_char(v[i]));
        assert(b[i] == a[i]);
        assert(v[i] == verb[i]);
    }
}

/// A text that starts with `GRANT `, `DENY ` or `REVOKE ` is always answered,
/// by the verb it starts with, when its tokens are the tokenizer's: they are
/// empty (the text does not tokenize) or start with the text's first word.
pub proof fn law_permission_answered_by_text_verb(sql: Seq<char>, s: Seq<TokenView>)
    requires
        is_permission_text(sql),
        forall|k: int| #[trigger] is_leading_word(sql, k) ==> s.len() == 0 || s[0] == plain_word(sql.subrange(0, k)),
    ensures
        answered_by_verb(sql, security_dispatch(sql, s)),
{
    reveal_strlit("GRANT ");
    reveal_strlit("DENY ");
    reveal_strlit("REVOKE ");
    reveal_strlit("GRANT");
    reveal_strlit("DENY");
    reveal_strlit("REVOKE");
    lemma_verbs_exclusive(sql);
    lemma_skip_ws(s, 0);
    let verb: Seq<char> = if starts_with_ci(sql, "GRANT "@) {
        "GRANT"@
    } else if starts_with_ci(sql, "DENY "@) {
        "DENY"@
    } else {
        "REVOKE"@
    };
    assert(verb + seq![' '] =~= (if starts_with_ci(sql, "GRANT "@) {
        "GRANT "@
    } else if starts_with_ci(sql, "DENY "@) {
        "DENY "@
    } else {
        "REVOKE "@
    }));
    lemma_verb_is_leading_word(sql, verb);
    let k = verb.len() as int;
    if s.len() > 0 {
        assert(s[0] == plain_word(sql.subrange(0, k)));
        assert(skip_ws(s, 0) == 0);
    }
}

} // verus!
