//! `[EXEC[UTE]] [sys.]sp_addextendedproperty @name = N'..', @value = N'..',
//! @level0type = .., @level0name = .., @level1type = .., ...`.

use vstd::prelude::*;
use crate::text::{chars_of, starts_with_c, starts_with_char, string_from_range, to_uppercase,
    unicode_upper, text_eq, str_to_string, eq_ci, eq_ignore_ascii_case};
use crate::lexer::{SqlToken, TokenKind, TokenView, views, lex_sql, tokenize};
use crate::cursor::{
    skip_ws, kw_at, word_at, kind_at, skip_whitespace, check_keyword, check_word_ci, check_kind,
    opt_str,
};

verus! {

/// A parsed `sp_addextendedproperty` call.
#[derive(Debug, Clone, Default)]
pub struct TokenParsedExtendedProperty {
    /// Property name (`MS_Description`).
    pub property_name: String,
    /// Property value; empty for `NULL`.
    pub property_value: String,
    /// Level 0 name, the schema (`dbo` when not given).
    pub level0name: String,
    /// Level 1 type (`TABLE`, `VIEW`).
    pub level1type: Option<String>,
    /// Level 1 name.
    pub level1name: Option<String>,
    /// Level 2 type (`COLUMN`, `INDEX`).
    pub level2type: Option<String>,
    /// Level 2 name.
    pub level2name: Option<String>,
}

pub struct ExtendedPropertyView {
    pub property_name: Seq<char>,
    pub property_value: Seq<char>,
    pub level0name: Seq<char>,
    pub level1type: Option<Seq<char>>,
    pub level1name: Option<Seq<char>>,
    pub level2type: Option<Seq<char>>,
    pub level2name: Option<Seq<char>>,
}

impl View for TokenParsedExtendedProperty {
    type V = ExtendedPropertyView;

    open spec fn view(&self) -> ExtendedPropertyView {
        ExtendedPropertyView {
            property_name: self.property_name@,
            property_value: self.property_value@,
            level0name: self.level0name@,
            level1type: opt_str(self.level1type),
            level1name: opt_str(self.level1name),
            level2type: opt_str(self.level2type),
            level2name: opt_str(self.level2name),
        }
    }
}

pub open spec fn opt_extended_property(r: Option<TokenParsedExtendedProperty>) -> Option<
    ExtendedPropertyView,
> {
    match r {
        Some(x) => Some(x@),
        None => None,
    }
}

// ---------------------------------------------------------------------------
// Specification
// ---------------------------------------------------------------------------

/// A parameter value: a string literal's content, a word, or `None` for `NULL`
/// or anything else; and the position after it.
pub open spec fn param_value(s: Seq<TokenView>, p: int) -> (Option<Seq<char>>, int) {
    let b = skip_ws(s, p);
    if b >= s.len() || b < 0 {
        (None, b)
    } else if kw_at(s, b, "NULL"@) {
        (None, b + 1)
    } else if s[b].kind == TokenKind::SingleQuotedString || s[b].kind
        == TokenKind::NationalStringLiteral {
        (Some(s[b].value), b + 1)
    } else if s[b].kind == TokenKind::Word {
        if eq_ci(s[b].value, "NULL"@) {
            (None, b + 1)
        } else {
            (Some(s[b].value), b + 1)
        }
    } else {
        (None, b)
    }
}

/// Records the value of the parameter named `name` (upper-cased, without `@`).
pub open spec fn assign_param(
    st: ExtendedPropertyView,
    name: Seq<char>,
    value: Option<Seq<char>>,
) -> ExtendedPropertyView {
    let v = match value {
        Some(x) => x,
        None => Seq::empty(),
    };
    if name == "NAME"@ {
        ExtendedPropertyView { property_name: v, ..st }
    } else if name == "VALUE"@ {
        ExtendedPropertyView { property_value: v, ..st }
    } else if name == "LEVEL0NAME"@ {
        if value is Some {
            ExtendedPropertyView { level0name: v, ..st }
        } else {
            st
        }
    } else if name == "LEVEL1TYPE"@ {
        ExtendedPropertyView { level1type: value, ..st }
    } else if name == "LEVEL1NAME"@ {
        ExtendedPropertyView { level1name: value, ..st }
    } else if name == "LEVEL2TYPE"@ {
        ExtendedPropertyView { level2type: value, ..st }
    } else if name == "LEVEL2NAME"@ {
        ExtendedPropertyView { level2name: value, ..st }
    } else {
        st
    }
}

/// One step of the parameter scan at `q` (not whitespace, not `;`): a
/// `@param = value` pair recorded, or one token read over.
pub open spec fn param_step(s: Seq<TokenView>, q: int, st: ExtendedPropertyView) -> (
    ExtendedPropertyView,
    int,
) {
    if kind_at(s, q, TokenKind::Word) && starts_with_char(s[q].value, '@') {
        let name = unicode_upper(s[q].value.drop_first());
        let a = skip_ws(s, q + 1);
        if !kind_at(s, a, TokenKind::Eq) {
            (st, a)
        } else {
            let (v, e) = param_value(s, skip_ws(s, a + 1));
            (assign_param(st, name, v), e)
        }
    } else {
        (st, q + 1)
    }
}

/// The parameters from `p` up to `;` or the end. Every step moves forward; the
/// bound on the step's result only makes the recursion evidently finite.
pub open spec fn param_scan(s: Seq<TokenView>, p: int, st: ExtendedPropertyView) -> ExtendedPropertyView
    decreases s.len() - p,
{
    if p < 0 {
        st
    } else {
        let q = skip_ws(s, p);
        if q >= s.len() || kind_at(s, q, TokenKind::SemiColon) {
            st
        } else {
            let (st2, q2) = param_step(s, q, st);
            if q2 <= p || q2 > s.len() {
                st
            } else {
                param_scan(s, q2, st2)
            }
        }
    }
}

/// Position of `sp_addextendedproperty`, after an optional `EXEC`/`EXECUTE` and
/// an optional `sys.`/`dbo.` prefix.
pub open spec fn procedure_position(s: Seq<TokenView>) -> int {
    let p0 = skip_ws(s, 0);
    let p1 = if kw_at(s, p0, "EXEC"@) || kw_at(s, p0, "EXECUTE"@) {
        skip_ws(s, p0 + 1)
    } else {
        p0
    };
    if word_at(s, p1, "sys"@) || word_at(s, p1, "dbo"@) {
        let a = skip_ws(s, p1 + 1);
        if kind_at(s, a, TokenKind::Period) {
            skip_ws(s, a + 1)
        } else {
            a
        }
    } else {
        p1
    }
}

/// The properties before any parameter is read.
pub open spec fn initial_property() -> ExtendedPropertyView {
    ExtendedPropertyView {
        property_name: Seq::empty(),
        property_value: Seq::empty(),
        level0name: "dbo"@,
        level1type: None,
        level1name: None,
        level2type: None,
        level2name: None,
    }
}

/// An `sp_addextendedproperty` call with a non-empty `@name`.
pub open spec fn extended_property(s: Seq<TokenView>) -> Option<ExtendedPropertyView> {
    let p2 = procedure_position(s);
    if !word_at(s, p2, "sp_addextendedproperty"@) {
        None
    } else {
        let r = param_scan(s, skip_ws(s, p2 + 1), initial_property());
        if r.property_name.len() == 0 {
            None
        } else {
            Some(r)
        }
    }
}

// ---------------------------------------------------------------------------
// Executable parser
// ---------------------------------------------------------------------------

fn param_value_exec(toks: &Vec<SqlToken>, p: usize) -> (r: (Option<String>, usize))
    requires
        p <= toks.len(),
    ensures
        (opt_str(r.0), r.1 as int) == param_value(views(toks@), p as int),
        p <= r.1 <= toks.len(),
{
    let b = skip_whitespace(toks, p);
    if b >= toks.len() {
        return (None, b);
    }
    if check_keyword(toks, b, "NULL") {
        return (None, b + 1);
    }
    assert(views(toks@)[b as int] == toks@[b as int]@);
    let t = &toks[b];
    if matches!(t.kind, TokenKind::SingleQuotedString) || matches!(
        t.kind,
        TokenKind::NationalStringLiteral
    ) {
        (Some(t.value.clone()), b + 1)
    } else if matches!(t.kind, TokenKind::Word) {
        if eq_ignore_ascii_case(t.value.as_str(), "NULL") {
            (None, b + 1)
        } else {
            (Some(t.value.clone()), b + 1)
        }
    } else {
        (None, b)
    }
}

fn assign_param_exec(st: &mut TokenParsedExtendedProperty, name: &String, value: Option<String>)
    ensures
        final(st)@ == assign_param(old(st)@, name@, opt_str(value)),
{
    let n = name.as_str();
    if text_eq(n, "NAME") {
        st.property_name = match value {
            Some(x) => x,
            None => String::new(),
        };
    } else if text_eq(n, "VALUE") {
        st.property_value = match value {
            Some(x) => x,
            None => String::new(),
        };
    } else if text_eq(n, "LEVEL0NAME") {
        match value {
            Some(x) => {
                st.level0name = x;
            },
            None => {},
        }
    } else if text_eq(n, "LEVEL1TYPE") {
        st.level1type = value;
    } else if text_eq(n, "LEVEL1NAME") {
        st.level1name = value;
    } else if text_eq(n, "LEVEL2TYPE") {
        st.level2type = value;
    } else if text_eq(n, "LEVEL2NAME") {
        st.level2name = value;
    }
}

fn param_step_exec(toks: &Vec<SqlToken>, q: usize, st: &mut TokenParsedExtendedProperty) -> (r: usize)
    requires
        q < toks.len(),
    ensures
        (final(st)@, r as int) == param_step(views(toks@), q as int, old(st)@),
        q < r <= toks.len(),
{
    assert(views(toks@)[q as int] == toks@[q as int]@);
    if matches!(toks[q].kind, TokenKind::Word) {
        let v = chars_of(toks[q].value.as_str());
        if starts_with_c(&v, '@') {
            let bare = string_from_range(&v, 1, v.len());
            assert(bare@ =~= toks@[q as int].value@.drop_first());
            let name = to_uppercase(bare.as_str());
            let a = skip_whitespace(toks, q + 1);
            if !check_kind(toks, a, TokenKind::Eq) {
                return a;
            }
            let (value, e) = param_value_exec(toks, skip_whitespace(toks, a + 1));
            assign_param_exec(st, &name, value);
            return e;
        }
    }
    q + 1
}

fn procedure_position_exec(toks: &Vec<SqlToken>) -> (r: usize)
    ensures
        r == procedure_position(views(toks@)),
        r <= toks.len(),
{
    let p0 = skip_whitespace(toks, 0);
    let p1 = if check_keyword(toks, p0, "EXEC") || check_keyword(toks, p0, "EXECUTE") {
        skip_whitespace(toks, p0 + 1)
    } else {
        p0
    };
    if check_word_ci(toks, p1, "sys") || check_word_ci(toks, p1, "dbo") {
        let a = skip_whitespace(toks, p1 + 1);
        if check_kind(toks, a, TokenKind::Period) {
            skip_whitespace(toks, a + 1)
        } else {
            a
        }
    } else {
        p1
    }
}

/// An `sp_addextendedproperty` call, over tokens.
pub fn parse_extended_property(toks: &Vec<SqlToken>) -> (r: Option<TokenParsedExtendedProperty>)
    ensures
        opt_extended_property(r) == extended_property(views(toks@)),
{
    let ghost s = views(toks@);
    let p2 = procedure_position_exec(toks);
    if !check_word_ci(toks, p2, "sp_addextendedproperty") {
        return None;
    }
    let start = skip_whitespace(toks, p2 + 1);
    let mut st = TokenParsedExtendedProperty {
        property_name: String::new(),
        property_value: String::new(),
        level0name: str_to_string("dbo"),
        level1type: None,
        level1name: None,
        level2type: None,
        level2name: None,
    };
    assert(st@ == initial_property());
    let mut pos: usize = start;
    let mut done = false;
    while !done
        invariant
            s == views(toks@),
            pos <= toks.len(),
            done ==> param_scan(s, start as int, initial_property()) == st@,
            !done ==> param_scan(s, start as int, initial_property()) == param_scan(s, pos as int, st@),
        decreases toks.len() - pos + (if done {
            0int
        } else {
            1int
        }),
    {
        let q = skip_whitespace(toks, pos);
        if q >= toks.len() || check_kind(toks, q, TokenKind::SemiColon) {
            done = true;
        } else {
            pos = param_step_exec(toks, q, &mut st);
        }
    }
    if st.property_name.unicode_len() == 0 {
        None
    } else {
        Some(st)
    }
}

/// Parses an `sp_addextendedproperty` call.
pub fn parse_extended_property_tokens(sql: &str) -> (r: Option<TokenParsedExtendedProperty>)
    ensures
        match lex_sql(sql@) {
            Some(s) => opt_extended_property(r) == extended_property(s),
            None => r is None,
        },
{
    match tokenize(sql) {
        Some(toks) => parse_extended_property(&toks),
        None => None,
    }
}

} // verus!
