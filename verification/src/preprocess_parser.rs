//! Rewrites T-SQL before it goes to a generic SQL parser: `BINARY(MAX)` and
//! `VARBINARY(MAX)` get a numeric size, `CONSTRAINT n DEFAULT (e) FOR c` table
//! clauses are taken out and returned, and commas right before `)` are dropped.
//! String literals are single tokens and are never rewritten.

use vstd::prelude::*;
use crate::text::{push_char, append_string, chars_of, str_to_string, to_uppercase, unicode_upper, eq_ci, lower_char, to_lower_char};
use crate::lexer::{SqlToken, TokenKind, TokenView, views, lex_sql, tokenize};
use crate::cursor::{skip_ws, kw_at, word_at, kind_at, skip_whitespace, check_keyword, check_word_ci, check_kind, token_sql, push_token_sql};

verus! {

/// The size that stands for `MAX` in a rewritten `BINARY(MAX)`.
pub const BINARY_MAX_SENTINEL: u64 = 2147483647;

/// A default constraint taken out of a table definition.
#[derive(Debug, Clone)]
pub struct ExtractedDefaultConstraint {
    /// Constraint name (`DF_Products_IsActive`).
    pub name: String,
    /// Column the default applies to.
    pub column: String,
    /// Default expression with its parentheses (`(1)`, `(GETDATE())`).
    pub expression: String,
}

/// The rewritten text and the defaults taken out of it.
#[derive(Debug, Clone)]
pub struct TokenPreprocessResult {
    pub sql: String,
    pub extracted_defaults: Vec<ExtractedDefaultConstraint>,
}

pub struct DefaultView {
    pub name: Seq<char>,
    pub column: Seq<char>,
    pub expression: Seq<char>,
}

impl View for ExtractedDefaultConstraint {
    type V = DefaultView;

    open spec fn view(&self) -> DefaultView {
        DefaultView { name: self.name@, column: self.column@, expression: self.expression@ }
    }
}

pub open spec fn defaults_view(v: Seq<ExtractedDefaultConstraint>) -> Seq<DefaultView> {
    v.map_values(|d: ExtractedDefaultConstraint| d@)
}

// ---------------------------------------------------------------------------
// Specification: the text test
// ---------------------------------------------------------------------------

/// `pat` occurs at `i` in `s`, ignoring ASCII case.
pub open spec fn occurs_ci_at(s: Seq<char>, pat: Seq<char>, i: int) -> bool {
    0 <= i && i + pat.len() <= s.len() && eq_ci(s.subrange(i, i + pat.len()), pat)
}

/// `pat` occurs somewhere in `s`, ignoring ASCII case.
pub open spec fn contains_ci(s: Seq<char>, pat: Seq<char>) -> bool {
    exists|i: int| occurs_ci_at(s, pat, i)
}

pub open spec fn is_blank_char(c: char) -> bool {
    c == ' ' || c == '\t' || c == '\r' || c == '\n'
}

/// A `,` at `i` followed by blanks and then `)`.
pub open spec fn comma_before_paren_at(s: Seq<char>, i: int) -> bool {
    0 <= i < s.len() && s[i] == ',' && exists|j: int|
        i < j < s.len() && s[j] == ')' && forall|k: int| i < k < j ==> is_blank_char(#[trigger] s[k])
}

/// Whether the text can need a rewrite: it mentions `BINARY` or `DEFAULT`, or
/// has a `,` followed by blanks and `)`.
pub open spec fn needs_rewrite(s: Seq<char>) -> bool {
    contains_ci(s, "BINARY"@) || contains_ci(s, "DEFAULT"@) || exists|i: int|
        comma_before_paren_at(s, i)
}

// ---------------------------------------------------------------------------
// Specification: the token rewrite
// ---------------------------------------------------------------------------

/// The text of the whitespace tokens from `p` on, and the position after them.
pub open spec fn ws_text(s: Seq<TokenView>, p: int, acc: Seq<char>) -> (Seq<char>, int)
    decreases s.len() - p,
{
    if 0 <= p < s.len() && s[p].kind == TokenKind::Whitespace {
        ws_text(s, p + 1, acc + s[p].text)
    } else {
        (acc, p)
    }
}

/// `BINARY (MAX)` or `VARBINARY (MAX)` at `p`: the replacement text and the
/// position after the `)`.
pub open spec fn binary_max(s: Seq<TokenView>, p: int) -> Option<(Seq<char>, int)> {
    if !(word_at(s, p, "BINARY"@) || word_at(s, p, "VARBINARY"@)) {
        None
    } else {
        let ty = unicode_upper(s[p].value);
        let (w, q) = ws_text(s, p + 1, Seq::empty());
        let r = skip_ws(s, q + 1);
        let t = skip_ws(s, r + 1);
        if kind_at(s, q, TokenKind::LParen) && kw_at(s, r, "MAX"@) && kind_at(s, t, TokenKind::RParen) {
            Some((ty + w + "(2147483647)"@, t + 1))
        } else {
            None
        }
    }
}

/// The SQL text of the tokens from `p` up to the `)` closing `depth`
/// parentheses, the position after, and the depth left open at the end.
pub open spec fn paren_sql(s: Seq<TokenView>, p: int, depth: nat, acc: Seq<char>) -> (Seq<char>, int, nat)
    decreases s.len() - p,
{
    if p < 0 || p >= s.len() || depth == 0 {
        (acc, p, depth)
    } else {
        let t = s[p];
        let d2: nat = if t.kind == TokenKind::LParen {
            depth + 1
        } else if t.kind == TokenKind::RParen {
            (depth - 1) as nat
        } else {
            depth
        };
        paren_sql(s, p + 1, d2, if d2 > 0 {
            acc + token_sql(t)
        } else {
            acc
        })
    }
}

/// `[,] CONSTRAINT name DEFAULT (expr) FOR column` at `p`. When the clause is
/// not there the scan goes on from `p`, except where it stopped on a missing
/// name (it goes on from there) or on unclosed parentheses (from the end).
pub open spec fn default_for(s: Seq<TokenView>, p: int) -> (Option<DefaultView>, int) {
    let a = if kind_at(s, p, TokenKind::Comma) {
        skip_ws(s, p + 1)
    } else {
        p
    };
    if !kw_at(s, a, "CONSTRAINT"@) {
        (None, p)
    } else {
        let b = skip_ws(s, a + 1);
        if !kind_at(s, b, TokenKind::Word) {
            (None, b)
        } else if s[b].value.len() == 0 {
            (None, p)
        } else {
            let c = skip_ws(s, b + 1);
            let d = skip_ws(s, c + 1);
            if !kw_at(s, c, "DEFAULT"@) || !kind_at(s, d, TokenKind::LParen) {
                (None, p)
            } else {
                let (expr, e, open) = paren_sql(s, d + 1, 1, Seq::empty());
                if open != 0 {
                    (None, e)
                } else {
                    let f = skip_ws(s, e);
                    let g = skip_ws(s, f + 1);
                    if !kw_at(s, f, "FOR"@) {
                        (None, p)
                    } else if !kind_at(s, g, TokenKind::Word) {
                        (None, g)
                    } else if s[g].value.len() == 0 {
                        (None, p)
                    } else {
                        (
                            Some(
                                DefaultView {
                                    name: s[b].value,
                                    column: s[g].value,
                                    expression: seq!['('] + expr + seq![')'],
                                },
                            ),
                            g + 1,
                        )
                    }
                }
            }
        }
    }
}

/// A `,` at `p` with only whitespace before the next `)`.
pub open spec fn trailing_comma(s: Seq<TokenView>, p: int) -> bool {
    kind_at(s, p, TokenKind::Comma) && kind_at(s, skip_ws(s, p + 1), TokenKind::RParen)
}

/// One step of the rewrite at `p`: the text written, the default taken out,
/// and the next position.
pub open spec fn rewrite_step(s: Seq<TokenView>, p: int) -> (Seq<char>, Option<DefaultView>, int) {
    match binary_max(s, p) {
        Some((rep, q)) => (rep, None, q),
        None => {
            let (d, q) = default_for(s, p);
            match d {
                Some(x) => (Seq::empty(), Some(x), q),
                None => if q < 0 || q >= s.len() {
                    (Seq::empty(), None, q)
                } else if trailing_comma(s, q) {
                    (Seq::empty(), None, q + 1)
                } else {
                    (token_sql(s[q]), None, q + 1)
                },
            }
        },
    }
}

/// The rewrite from `p` on. Every step moves forward; the bound on the step's
/// result only makes the recursion evidently finite.
pub open spec fn rewrite(s: Seq<TokenView>, p: int, out: Seq<char>, defs: Seq<DefaultView>) -> (
    Seq<char>,
    Seq<DefaultView>,
)
    decreases s.len() - p,
{
    if p < 0 || p >= s.len() {
        (out, defs)
    } else {
        let (piece, d, q) = rewrite_step(s, p);
        if q <= p || q > s.len() {
            (out, defs)
        } else {
            rewrite(s, q, out + piece, match d {
                Some(x) => defs.push(x),
                None => defs,
            })
        }
    }
}

/// The rewritten text and the defaults taken out of `sql`.
pub open spec fn preprocessed(sql: Seq<char>) -> (Seq<char>, Seq<DefaultView>) {
    if !needs_rewrite(sql) {
        (sql, Seq::empty())
    } else {
        match lex_sql(sql) {
            None => (sql, Seq::empty()),
            Some(s) => rewrite(s, 0, Seq::empty(), Seq::empty()),
        }
    }
}

// ---------------------------------------------------------------------------
// Executable text test
// ---------------------------------------------------------------------------

fn occurs_ci_at_exec(v: &Vec<char>, pat: &Vec<char>, i: usize) -> (r: bool)
    ensures
        r == occurs_ci_at(v@, pat@, i as int),
{
    if i > v.len() || pat.len() > v.len() - i {
        return false;
    }
    let mut k: usize = 0;
    while k < pat.len()
        invariant
            i + pat.len() <= v.len(),
            0 <= k <= pat.len(),
            forall|j: int| 0 <= j < k ==> lower_char(#[trigger] v@[i + j]) == lower_char(pat@[j]),
        decreases pat.len() - k,
    {
        if to_lower_char(v[i + k]) != to_lower_char(pat[k]) {
            proof {
                assert(v@.subrange(i as int, i + pat.len())[k as int] == v@[i + k]);
            }
            return false;
        }
        k = k + 1;
    }
    proof {
        let sub = v@.subrange(i as int, i + pat.len());
        assert forall|j: int| 0 <= j < pat.len() implies lower_char(#[trigger] sub[j]) == lower_char(
            pat@[j],
        ) by {
            assert(sub[j] == v@[i + j]);
        }
    }
    true
}

fn contains_ci_exec(v: &Vec<char>, pat: &str) -> (r: bool)
    ensures
        r == contains_ci(v@, pat@),
{
    let p = chars_of(pat);
    let mut i: usize = 0;
    while i < v.len()
        invariant
            p@ == pat@,
            0 <= i <= v.len(),
            forall|j: int| 0 <= j < i ==> !occurs_ci_at(v@, pat@, j),
        decreases v.len() - i,
    {
        if occurs_ci_at_exec(v, &p, i) {
            return true;
        }
        i = i + 1;
    }
    if occurs_ci_at_exec(v, &p, v.len()) {
        return true;
    }
    assert forall|j: int| !occurs_ci_at(v@, pat@, j) by {
        if 0 <= j <= v.len() {
        }
    }
    false
}

fn comma_before_paren_exec(v: &Vec<char>, i: usize) -> (r: bool)
    requires
        i < v.len(),
    ensures
        r == comma_before_paren_at(v@, i as int),
{
    if v[i] != ',' {
        return false;
    }
    let mut j: usize = i + 1;
    while j < v.len() && (v[j] == ' ' || v[j] == '\t' || v[j] == '\r' || v[j] == '\n')
        invariant
            i < j <= v.len(),
            forall|k: int| i < k < j ==> is_blank_char(#[trigger] v@[k]),
        decreases v.len() - j,
    {
        j = j + 1;
    }
    if j < v.len() && v[j] == ')' {
        true
    } else {
        proof {
            assert forall|j2: int|
                !(i < j2 < v@.len() && v@[j2] == ')' && forall|k: int|
                    i < k < j2 ==> is_blank_char(#[trigger] v@[k])) by {
                if i < j2 < v@.len() && v@[j2] == ')' && (forall|k: int|
                    i < k < j2 ==> is_blank_char(#[trigger] v@[k])) {
                    if j2 < j {
                        assert(is_blank_char(v@[j2]));
                    } else if j2 > j {
                        assert(is_blank_char(v@[j as int]));
                    }
                }
            }
        }
        false
    }
}

/// Whether the text can need a rewrite: it mentions `BINARY` or `DEFAULT`
/// (ignoring case), or has a `,` followed by blanks and `)`.
pub fn needs_preprocessing(sql: &str) -> (r: bool)
    ensures
        r == needs_rewrite(sql@),
{
    let v = chars_of(sql);
    if contains_ci_exec(&v, "BINARY") || contains_ci_exec(&v, "DEFAULT") {
        return true;
    }
    let mut i: usize = 0;
    while i < v.len()
        invariant
            v@ == sql@,
            0 <= i <= v.len(),
            forall|j: int| 0 <= j < i ==> !comma_before_paren_at(v@, j),
        decreases v.len() - i,
    {
        if comma_before_paren_exec(&v, i) {
            return true;
        }
        i = i + 1;
    }
    assert forall|j: int| !comma_before_paren_at(v@, j) by {
        if 0 <= j < i {
        }
    }
    false
}

// ---------------------------------------------------------------------------
// Executable rewrite
// ---------------------------------------------------------------------------

fn ws_text_exec(toks: &Vec<SqlToken>, p: usize) -> (r: (String, usize))
    requires
        p <= toks.len(),
    ensures
        (r.0@, r.1 as int) == ws_text(views(toks@), p as int, Seq::empty()),
        p <= r.1 <= toks.len(),
{
    let ghost s = views(toks@);
    let mut out = String::new();
    let mut i: usize = p;
    while i < toks.len() && matches!(toks[i].kind, TokenKind::Whitespace)
        invariant
            s == views(toks@),
            p <= i <= toks.len(),
            ws_text(s, p as int, Seq::empty()) == ws_text(s, i as int, out@),
        decreases toks.len() - i,
    {
        assert(s[i as int] == toks@[i as int]@);
        append_string(&mut out, &toks[i].text);
        i = i + 1;
    }
    if i < toks.len() {
        assert(s[i as int] == toks@[i as int]@);
    }
    (out, i)
}

fn binary_max_exec(toks: &Vec<SqlToken>, p: usize) -> (r: Option<(String, usize)>)
    requires
        p < toks.len(),
    ensures
        match binary_max(views(toks@), p as int) {
            Some((rep, q)) => r matches Some((x, e)) && x@ == rep && e == q && p < e <= toks.len(),
            None => r is None,
        },
{
    if !(check_word_ci(toks, p, "BINARY") || check_word_ci(toks, p, "VARBINARY")) {
        return None;
    }
    assert(views(toks@)[p as int] == toks@[p as int]@);
    let ty = to_uppercase(toks[p].value.as_str());
    let (w, q) = ws_text_exec(toks, p + 1);
    if !check_kind(toks, q, TokenKind::LParen) {
        return None;
    }
    let rr = skip_whitespace(toks, q + 1);
    if !check_keyword(toks, rr, "MAX") {
        return None;
    }
    let t = skip_whitespace(toks, rr + 1);
    if !check_kind(toks, t, TokenKind::RParen) {
        return None;
    }
    let mut out = ty;
    append_string(&mut out, &w);
    out.append("(2147483647)");
    Some((out, t + 1))
}

fn paren_sql_exec(toks: &Vec<SqlToken>, p: usize) -> (r: (String, usize, u128))
    requires
        p <= toks.len(),
    ensures
        (r.0@, r.1 as int, r.2 as nat) == paren_sql(views(toks@), p as int, 1, Seq::empty()),
        p <= r.1 <= toks.len(),
{
    let ghost s = views(toks@);
    let mut pos: usize = p;
    let mut depth: u128 = 1;
    let mut out = String::new();
    while pos < toks.len() && depth > 0
        invariant
            s == views(toks@),
            p <= pos <= toks.len(),
            depth <= pos - p + 1,
            paren_sql(s, p as int, 1, Seq::empty()) == paren_sql(s, pos as int, depth as nat, out@),
        decreases toks.len() - pos,
    {
        assert(s[pos as int] == toks@[pos as int]@);
        let t = &toks[pos];
        if matches!(t.kind, TokenKind::LParen) {
            depth = depth + 1;
        } else if matches!(t.kind, TokenKind::RParen) {
            depth = depth - 1;
        }
        if depth > 0 {
            push_token_sql(&mut out, t);
        }
        pos = pos + 1;
    }
    (out, pos, depth)
}

fn default_for_exec(toks: &Vec<SqlToken>, p: usize) -> (r: (Option<ExtractedDefaultConstraint>, usize))
    requires
        p < toks.len(),
    ensures
        (match r.0 {
            Some(d) => Some(d@),
            None => None,
        }, r.1 as int) == default_for(views(toks@), p as int),
        p <= r.1 <= toks.len(),
        r.0 is Some ==> p < r.1,
{
    let ghost s = views(toks@);
    let a = if check_kind(toks, p, TokenKind::Comma) {
        skip_whitespace(toks, p + 1)
    } else {
        p
    };
    if !check_keyword(toks, a, "CONSTRAINT") {
        return (None, p);
    }
    let b = skip_whitespace(toks, a + 1);
    if !check_kind(toks, b, TokenKind::Word) {
        return (None, b);
    }
    assert(s[b as int] == toks@[b as int]@);
    if toks[b].value.unicode_len() == 0 {
        return (None, p);
    }
    let c = skip_whitespace(toks, b + 1);
    if !check_keyword(toks, c, "DEFAULT") {
        return (None, p);
    }
    let d = skip_whitespace(toks, c + 1);
    if !check_kind(toks, d, TokenKind::LParen) {
        return (None, p);
    }
    let (expr, e, open) = paren_sql_exec(toks, d + 1);
    if open != 0 {
        return (None, e);
    }
    let f = skip_whitespace(toks, e);
    if !check_keyword(toks, f, "FOR") {
        return (None, p);
    }
    let g = skip_whitespace(toks, f + 1);
    if !check_kind(toks, g, TokenKind::Word) {
        return (None, g);
    }
    assert(s[g as int] == toks@[g as int]@);
    if toks[g].value.unicode_len() == 0 {
        return (None, p);
    }
    let mut expression = String::new();
    push_char(&mut expression, '(');
    append_string(&mut expression, &expr);
    push_char(&mut expression, ')');
    assert(expression@ =~= seq!['('] + expr@ + seq![')']);
    (
        Some(
            ExtractedDefaultConstraint {
                name: toks[b].value.clone(),
                column: toks[g].value.clone(),
                expression,
            },
        ),
        g + 1,
    )
}

fn trailing_comma_exec(toks: &Vec<SqlToken>, p: usize) -> (r: bool)
    requires
        p < toks.len(),
    ensures
        r == trailing_comma(views(toks@), p as int),
{
    check_kind(toks, p, TokenKind::Comma) && check_kind(
        toks,
        skip_whitespace(toks, p + 1),
        TokenKind::RParen,
    )
}

fn rewrite_step_exec(toks: &Vec<SqlToken>, p: usize, out: &mut String, defs: &mut Vec<ExtractedDefaultConstraint>) -> (r: usize)
    requires
        p < toks.len(),
    ensures
        ({
            let (piece, d, q) = rewrite_step(views(toks@), p as int);
            &&& final(out)@ == old(out)@ + piece
            &&& defaults_view(final(defs)@) == match d {
                Some(x) => defaults_view(old(defs)@).push(x),
                None => defaults_view(old(defs)@),
            }
            &&& r == q
        }),
        p < r <= toks.len(),
{
    let ghost s = views(toks@);
    let ghost out0 = out@;
    let ghost defs0 = defaults_view(defs@);
    match binary_max_exec(toks, p) {
        Some((rep, q)) => {
            append_string(out, &rep);
            return q;
        },
        None => {},
    }
    let (d, q) = default_for_exec(toks, p);
    match d {
        Some(x) => {
            defs.push(x);
            assert(defaults_view(defs@) =~= defs0.push(x@));
            assert(out@ =~= out0 + Seq::<char>::empty());
            q
        },
        None => {
            if q >= toks.len() {
                assert(out@ =~= out0 + Seq::<char>::empty());
                q
            } else if trailing_comma_exec(toks, q) {
                assert(out@ =~= out0 + Seq::<char>::empty());
                q + 1
            } else {
                assert(s[q as int] == toks@[q as int]@);
                push_token_sql(out, &toks[q]);
                q + 1
            }
        },
    }
}

/// The rewrite of a token sequence.
pub fn preprocess_tokens(toks: &Vec<SqlToken>) -> (r: TokenPreprocessResult)
    ensures
        (r.sql@, defaults_view(r.extracted_defaults@)) == rewrite(
            views(toks@),
            0,
            Seq::empty(),
            Seq::empty(),
        ),
{
    let ghost s = views(toks@);
    let mut out = String::new();
    let mut defs: Vec<ExtractedDefaultConstraint> = Vec::new();
    let mut pos: usize = 0;
    assert(defaults_view(defs@) =~= Seq::<DefaultView>::empty());
    while pos < toks.len()
        invariant
            s == views(toks@),
            pos <= toks.len(),
            rewrite(s, 0, Seq::empty(), Seq::empty()) == rewrite(
                s,
                pos as int,
                out@,
                defaults_view(defs@),
            ),
        decreases toks.len() - pos,
    {
        pos = rewrite_step_exec(toks, pos, &mut out, &mut defs);
    }
    TokenPreprocessResult { sql: out, extracted_defaults: defs }
}

/// Rewrites T-SQL for a generic parser; the text is returned unchanged when it
/// needs no rewrite or does not tokenize.
pub fn preprocess_tsql_tokens(sql: &str) -> (r: TokenPreprocessResult)
    ensures
        (r.sql@, defaults_view(r.extracted_defaults@)) == preprocessed(sql@),
{
    let unchanged = TokenPreprocessResult { sql: str_to_string(sql), extracted_defaults: Vec::new() };
    assert(defaults_view(unchanged.extracted_defaults@) =~= Seq::<DefaultView>::empty());
    if !needs_preprocessing(sql) {
        return unchanged;
    }
    match tokenize(sql) {
        Some(toks) => preprocess_tokens(&toks),
        None => unchanged,
    }
}

} // verus!
