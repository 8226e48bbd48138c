//! `CREATE [OR ALTER] PROCEDURE` / `ALTER PROCEDURE` headers and parameters.
//!
//! ```sql
//! CREATE PROCEDURE [schema].[name] @param1 TYPE, @param2 TYPE OUTPUT AS ...
//! CREATE PROC [schema].[name] @items [dbo].[TableType] READONLY AS ...
//! ```

use vstd::prelude::*;
use crate::text::{trim, to_uppercase, unicode_upper, starts_with_char, ends_with_char, chars_of, CharSet, trim_set, string_from_chars, push_char, append_string, string_from_range, starts_with_c, ends_with_c};
use crate::lexer::{SqlToken, TokenKind, TokenView, views, lex_sql, tokenize};
use crate::cursor::{skip_ws, kw_at, word_at, kind_at, schema_qualified_name, lemma_skip_ws, token_string, skip_whitespace, check_keyword, check_word_ci, check_kind, parse_schema_qualified_name, advance, adv, pair_view, push_token_string};
use crate::identifier_utils::bracketed;

verus! {

/// A procedure parameter.
#[derive(Debug, Clone)]
pub struct TokenParsedProcedureParameter {
    /// Name without the `@`.
    pub name: String,
    /// Data type, e.g. `INT`, `DECIMAL(18,2)`, `[dbo].[TableType]`.
    pub data_type: String,
    pub is_output: bool,
    pub is_readonly: bool,
    pub default_value: Option<String>,
}

/// A procedure header.
#[derive(Debug, Clone)]
pub struct TokenParsedProcedure {
    /// Schema (defaults to `dbo`).
    pub schema: String,
    pub name: String,
    pub parameters: Vec<TokenParsedProcedureParameter>,
}

pub struct ParameterView {
    pub name: Seq<char>,
    pub data_type: Seq<char>,
    pub is_output: bool,
    pub is_readonly: bool,
    pub default_value: Option<Seq<char>>,
}

pub struct ProcedureView {
    pub schema: Seq<char>,
    pub name: Seq<char>,
    pub parameters: Seq<ParameterView>,
}

impl View for TokenParsedProcedureParameter {
    type V = ParameterView;

    open spec fn view(&self) -> ParameterView {
        ParameterView {
            name: self.name@,
            data_type: self.data_type@,
            is_output: self.is_output,
            is_readonly: self.is_readonly,
            default_value: match self.default_value {
                Some(d) => Some(d@),
                None => None,
            },
        }
    }
}

pub open spec fn param_views(v: Seq<TokenParsedProcedureParameter>) -> Seq<ParameterView> {
    v.map_values(|p: TokenParsedProcedureParameter| p@)
}

impl View for TokenParsedProcedure {
    type V = ProcedureView;

    open spec fn view(&self) -> ProcedureView {
        ProcedureView {
            schema: self.schema@,
            name: self.name@,
            parameters: param_views(self.parameters@),
        }
    }
}

pub open spec fn opt_procedure_view(r: Option<TokenParsedProcedure>) -> Option<ProcedureView> {
    match r {
        Some(x) => Some(x@),
        None => None,
    }
}

// ---------------------------------------------------------------------------
// Specification
// ---------------------------------------------------------------------------

/// `CREATE [OR ALTER] PROCEDURE|PROC` (or `ALTER PROCEDURE|PROC`): the position after it.
pub open spec fn procedure_head(s: Seq<TokenView>, is_alter: bool) -> Option<int> {
    let p0 = skip_ws(s, 0);
    if !is_alter {
        if !kw_at(s, p0, "CREATE"@) {
            None
        } else {
            let p1 = skip_ws(s, p0 + 1);
            let p2 = if kw_at(s, p1, "OR"@) {
                let q = skip_ws(s, p1 + 1);
                if kw_at(s, q, "ALTER"@) {
                    Some(skip_ws(s, q + 1))
                } else {
                    None
                }
            } else {
                Some(p1)
            };
            match p2 {
                None => None,
                Some(p2) => if kw_at(s, p2, "PROCEDURE"@) || word_at(s, p2, "PROC"@) {
                    Some(skip_ws(s, p2 + 1))
                } else {
                    None
                },
            }
        }
    } else {
        if !kw_at(s, p0, "ALTER"@) {
            None
        } else {
            let p1 = skip_ws(s, p0 + 1);
            if kw_at(s, p1, "PROCEDURE"@) || word_at(s, p1, "PROC"@) {
                Some(skip_ws(s, p1 + 1))
            } else {
                None
            }
        }
    }
}

/// `(schema, name)` of a procedure header.
pub open spec fn procedure_name(s: Seq<TokenView>, is_alter: bool) -> Option<(Seq<char>, Seq<char>)> {
    match procedure_head(s, is_alter) {
        None => None,
        Some(p) => schema_qualified_name(s, p).0,
    }
}

/// A word that can start a type name (not `AS`, `BEGIN`, `WITH`, `FOR`,
/// `READONLY`, `OUTPUT`, `OUT`).
pub open spec fn type_word(s: Seq<TokenView>, p: int) -> (Option<Seq<char>>, int) {
    if kind_at(s, p, TokenKind::Word) && !(kw_at(s, p, "AS"@) || kw_at(s, p, "BEGIN"@) || kw_at(
        s,
        p,
        "WITH"@,
    ) || kw_at(s, p, "FOR"@) || word_at(s, p, "READONLY"@) || word_at(s, p, "OUTPUT"@)
        || word_at(s, p, "OUT"@)) {
        (Some(s[p].value), p + 1)
    } else {
        (None, p)
    }
}

/// The identifier, bracketed unless it already is.
pub open spec fn keep_bracketed(x: Seq<char>) -> Seq<char> {
    if starts_with_char(x, '[') && ends_with_char(x, ']') {
        x
    } else {
        bracketed(x)
    }
}

/// The tokens of a type's parenthesized arguments, without whitespace, up to
/// the matching `)`.
pub open spec fn type_args(s: Seq<TokenView>, p: int, depth: nat, acc: Seq<char>) -> (Seq<char>, int)
    decreases s.len() - p,
{
    if p < 0 || p >= s.len() || depth == 0 {
        (acc, p)
    } else {
        let t = s[p];
        if t.kind == TokenKind::LParen {
            type_args(s, p + 1, depth + 1, acc.push('('))
        } else if t.kind == TokenKind::RParen {
            type_args(s, p + 1, (depth - 1) as nat, if depth > 1 {
                acc.push(')')
            } else {
                acc
            })
        } else if t.kind == TokenKind::Whitespace {
            type_args(s, p + 1, depth, acc)
        } else {
            type_args(s, p + 1, depth, acc + token_string(t))
        }
    }
}

/// A parameter's data type.
pub open spec fn param_data_type(s: Seq<TokenView>, p: int) -> (Option<Seq<char>>, int) {
    let (first, p1) = type_word(s, p);
    match first {
        None => (None, p1),
        Some(a) => {
            let p2 = skip_ws(s, p1);
            let (base, p3) = if kind_at(s, p2, TokenKind::Period) {
                let (second, q2) = type_word(s, skip_ws(s, p2 + 1));
                match second {
                    Some(b) => (keep_bracketed(a) + seq!['.'] + keep_bracketed(b), q2),
                    None => (a, q2),
                }
            } else {
                (unicode_upper(a), p2)
            };
            let p4 = skip_ws(s, p3);
            if kind_at(s, p4, TokenKind::LParen) {
                let (args, p5) = type_args(s, p4 + 1, 1, base.push('('));
                (Some(args.push(')')), p5)
            } else {
                (Some(base), p4)
            }
        },
    }
}

/// A word that ends a default value at the top level.
pub open spec fn ends_default(s: Seq<TokenView>, p: int) -> bool {
    kw_at(s, p, "AS"@) || word_at(s, p, "OUTPUT"@) || word_at(s, p, "OUT"@) || word_at(
        s,
        p,
        "READONLY"@,
    )
}

/// A default value: the tokens up to a top-level `,`, `)` or modifier word,
/// whitespace runs collapsed to one space.
pub open spec fn default_value_raw(s: Seq<TokenView>, p: int, depth: nat, acc: Seq<char>) -> (Seq<char>, int)
    decreases s.len() - p,
{
    if p < 0 || p >= s.len() {
        (acc, p)
    } else {
        let t = s[p];
        if t.kind == TokenKind::LParen {
            default_value_raw(s, p + 1, depth + 1, acc.push('('))
        } else if t.kind == TokenKind::RParen {
            if depth == 0 {
                (acc, p)
            } else {
                default_value_raw(s, p + 1, (depth - 1) as nat, acc.push(')'))
            }
        } else if t.kind == TokenKind::Comma && depth == 0 {
            (acc, p)
        } else if t.kind == TokenKind::Word && depth == 0 && ends_default(s, p) {
            (acc, p)
        } else if t.kind == TokenKind::Whitespace {
            default_value_raw(s, p + 1, depth, if acc.len() > 0 && acc.last() != ' ' {
                acc.push(' ')
            } else {
                acc
            })
        } else {
            default_value_raw(s, p + 1, depth, acc + token_string(t))
        }
    }
}

pub open spec fn default_value(s: Seq<TokenView>, p: int) -> (Seq<char>, int) {
    let (v, q) = default_value_raw(s, p, 0, Seq::empty());
    (trim(v), q)
}

/// Modifiers after a parameter's type: `= default`, `READONLY`, `OUTPUT`/`OUT`.
pub open spec fn param_modifiers(
    s: Seq<TokenView>,
    p: int,
    dv: Option<Seq<char>>,
    ro: bool,
    out: bool,
) -> (Option<Seq<char>>, bool, bool, int)
    decreases s.len() - p,
{
    if p < 0 || p >= s.len() {
        (dv, ro, out, p)
    } else if kind_at(s, p, TokenKind::Eq) {
        let (v, q) = default_value(s, skip_ws(s, p + 1));
        proof {
            lemma_skip_ws(s, p + 1);
            lemma_default_value_pos(s, skip_ws(s, p + 1), 0, Seq::empty());
            lemma_skip_ws(s, q);
        }
        param_modifiers(s, skip_ws(s, q), Some(v), ro, out)
    } else if word_at(s, p, "READONLY"@) {
        proof {
            lemma_skip_ws(s, p + 1);
        }
        param_modifiers(s, skip_ws(s, p + 1), dv, true, out)
    } else if word_at(s, p, "OUTPUT"@) || word_at(s, p, "OUT"@) {
        proof {
            lemma_skip_ws(s, p + 1);
        }
        param_modifiers(s, skip_ws(s, p + 1), dv, ro, true)
    } else {
        (dv, ro, out, p)
    }
}

/// `@name`: the name without `@`.
pub open spec fn param_name(s: Seq<TokenView>, p: int) -> (Option<Seq<char>>, int) {
    if kind_at(s, p, TokenKind::Word) && starts_with_char(s[p].value, '@') {
        (Some(s[p].value.drop_first()), p + 1)
    } else {
        (None, p)
    }
}

/// One parameter: `@name TYPE [= default] [READONLY] [OUTPUT|OUT]`.
pub open spec fn single_param(s: Seq<TokenView>, p: int) -> (Option<ParameterView>, int) {
    let (name, p1) = param_name(s, p);
    match name {
        None => (None, p1),
        Some(n) => {
            let (dt, p3) = param_data_type(s, skip_ws(s, p1));
            match dt {
                None => (None, p3),
                Some(d) => {
                    let (dv, ro, out, p5) = param_modifiers(s, skip_ws(s, p3), None, false, false);
                    (
                        Some(
                            ParameterView {
                                name: n,
                                data_type: d,
                                is_output: out,
                                is_readonly: ro,
                                default_value: dv,
                            },
                        ),
                        p5,
                    )
                },
            }
        },
    }
}

/// The parameter list from `p` on, until `AS`, the end, or the closing `)`.
pub open spec fn param_list(s: Seq<TokenView>, p: int, parens: bool, acc: Seq<ParameterView>) -> Seq<ParameterView>
    decreases s.len() - p,
{
    if p < 0 || p >= s.len() || kw_at(s, p, "AS"@) {
        acc
    } else if parens && kind_at(s, p, TokenKind::RParen) {
        acc
    } else {
        let (param, p2) = single_param(s, p);
        proof {
            lemma_single_param_pos(s, p);
        }
        let next = match param {
            Some(x) => Some((acc.push(x), p2)),
            None => if kind_at(s, p2, TokenKind::Comma) {
                Some((acc, skip_ws(s, p2 + 1)))
            } else if kw_at(s, p2, "AS"@) {
                None
            } else {
                Some((acc, adv(s, p2)))
            },
        };
        match next {
            None => acc,
            Some((acc2, p3)) => {
                let p4 = skip_ws(s, p3);
                let p5 = if kind_at(s, p4, TokenKind::Comma) {
                    skip_ws(s, p4 + 1)
                } else {
                    p4
                };
                proof {
                    lemma_skip_ws(s, p2 + 1);
                    lemma_skip_ws(s, p3);
                    lemma_skip_ws(s, p4 + 1);
                }
                param_list(s, p5, parens, acc2)
            },
        }
    }
}

/// The parameters after a procedure name, with or without parentheses.
pub open spec fn parameters(s: Seq<TokenView>, p: int) -> Seq<ParameterView> {
    let p0 = skip_ws(s, p);
    if kind_at(s, p0, TokenKind::LParen) {
        param_list(s, skip_ws(s, p0 + 1), true, Seq::empty())
    } else {
        param_list(s, p0, false, Seq::empty())
    }
}

/// A procedure header with its parameters.
pub open spec fn procedure_full(s: Seq<TokenView>, is_alter: bool) -> Option<ProcedureView> {
    match procedure_head(s, is_alter) {
        None => None,
        Some(p) => {
            let (n, p1) = schema_qualified_name(s, p);
            match n {
                None => None,
                Some((sc, nm)) => Some(
                    ProcedureView { schema: sc, name: nm, parameters: parameters(s, skip_ws(s, p1)) },
                ),
            }
        },
    }
}

/// Parameters of a `CREATE` header, else of an `ALTER` header, else none.
pub open spec fn procedure_parameters(s: Seq<TokenView>) -> Seq<ParameterView> {
    match procedure_full(s, false) {
        Some(x) => x.parameters,
        None => match procedure_full(s, true) {
            Some(y) => y.parameters,
            None => Seq::empty(),
        },
    }
}

// ---------------------------------------------------------------------------
// Lemmas: every step moves forward
// ---------------------------------------------------------------------------

pub proof fn lemma_type_args_pos(s: Seq<TokenView>, p: int, depth: nat, acc: Seq<char>)
    requires
        0 <= p,
    ensures
        p <= type_args(s, p, depth, acc).1,
        p <= s.len() ==> type_args(s, p, depth, acc).1 <= s.len(),
    decreases s.len() - p,
{
    if p < s.len() && depth > 0 {
        let t = s[p];
        if t.kind == TokenKind::LParen {
            lemma_type_args_pos(s, p + 1, depth + 1, acc.push('('));
        } else if t.kind == TokenKind::RParen {
            lemma_type_args_pos(s, p + 1, (depth - 1) as nat, if depth > 1 {
                acc.push(')')
            } else {
                acc
            });
        } else if t.kind == TokenKind::Whitespace {
            lemma_type_args_pos(s, p + 1, depth, acc);
        } else {
            lemma_type_args_pos(s, p + 1, depth, acc + token_string(t));
        }
    }
}

pub proof fn lemma_default_value_pos(s: Seq<TokenView>, p: int, depth: nat, acc: Seq<char>)
    requires
        0 <= p,
    ensures
        p <= default_value_raw(s, p, depth, acc).1,
        p <= s.len() ==> default_value_raw(s, p, depth, acc).1 <= s.len(),
    decreases s.len() - p,
{
    if p < s.len() {
        let t = s[p];
        if t.kind == TokenKind::LParen {
            lemma_default_value_pos(s, p + 1, depth + 1, acc.push('('));
        } else if t.kind == TokenKind::RParen {
            if depth > 0 {
                lemma_default_value_pos(s, p + 1, (depth - 1) as nat, acc.push(')'));
            }
        } else if t.kind == TokenKind::Comma && depth == 0 {
        } else if t.kind == TokenKind::Word && depth == 0 && ends_default(s, p) {
        } else if t.kind == TokenKind::Whitespace {
            lemma_default_value_pos(s, p + 1, depth, if acc.len() > 0 && acc.last() != ' ' {
                acc.push(' ')
            } else {
                acc
            });
        } else {
            lemma_default_value_pos(s, p + 1, depth, acc + token_string(t));
        }
    }
}

pub proof fn lemma_param_modifiers_pos(
    s: Seq<TokenView>,
    p: int,
    dv: Option<Seq<char>>,
    ro: bool,
    out: bool,
)
    requires
        0 <= p,
    ensures
        p <= param_modifiers(s, p, dv, ro, out).3,
        p <= s.len() ==> param_modifiers(s, p, dv, ro, out).3 <= s.len(),
    decreases s.len() - p,
{
    if p < s.len() {
        if kind_at(s, p, TokenKind::Eq) {
            lemma_skip_ws(s, p + 1);
            lemma_default_value_pos(s, skip_ws(s, p + 1), 0, Seq::empty());
            let q = default_value(s, skip_ws(s, p + 1)).1;
            lemma_skip_ws(s, q);
            lemma_param_modifiers_pos(s, skip_ws(s, q), Some(default_value(s, skip_ws(s, p + 1)).0), ro, out);
        } else if word_at(s, p, "READONLY"@) {
            lemma_skip_ws(s, p + 1);
            lemma_param_modifiers_pos(s, skip_ws(s, p + 1), dv, true, out);
        } else if word_at(s, p, "OUTPUT"@) || word_at(s, p, "OUT"@) {
            lemma_skip_ws(s, p + 1);
            lemma_param_modifiers_pos(s, skip_ws(s, p + 1), dv, ro, true);
        }
    }
}

pub proof fn lemma_param_data_type_pos(s: Seq<TokenView>, p: int)
    requires
        0 <= p,
    ensures
        p <= param_data_type(s, p).1,
        p <= s.len() ==> param_data_type(s, p).1 <= s.len(),
{
    let (first, p1) = type_word(s, p);
    if first is Some {
        lemma_skip_ws(s, p1);
        let p2 = skip_ws(s, p1);
        lemma_skip_ws(s, p2 + 1);
        let p3 = if kind_at(s, p2, TokenKind::Period) {
            type_word(s, skip_ws(s, p2 + 1)).1
        } else {
            p2
        };
        lemma_skip_ws(s, p3);
        let p4 = skip_ws(s, p3);
        if kind_at(s, p4, TokenKind::LParen) {
            let base = if kind_at(s, p2, TokenKind::Period) {
                match type_word(s, skip_ws(s, p2 + 1)).0 {
                    Some(b) => keep_bracketed(first.unwrap()) + seq!['.'] + keep_bracketed(b),
                    None => first.unwrap(),
                }
            } else {
                unicode_upper(first.unwrap())
            };
            lemma_type_args_pos(s, p4 + 1, 1, base.push('('));
        }
    }
}

pub proof fn lemma_single_param_pos(s: Seq<TokenView>, p: int)
    requires
        0 <= p,
    ensures
        p <= single_param(s, p).1,
        p <= s.len() ==> single_param(s, p).1 <= s.len(),
        single_param(s, p).0 is Some ==> p < single_param(s, p).1,
{
    let (name, p1) = param_name(s, p);
    if name is Some {
        lemma_skip_ws(s, p1);
        lemma_param_data_type_pos(s, skip_ws(s, p1));
        let p3 = param_data_type(s, skip_ws(s, p1)).1;
        lemma_skip_ws(s, p3);
        lemma_param_modifiers_pos(s, skip_ws(s, p3), None, false, false);
    }
}

// ---------------------------------------------------------------------------
// Executable parser
// ---------------------------------------------------------------------------

fn head(toks: &Vec<SqlToken>, is_alter: bool) -> (r: Option<usize>)
    ensures
        match r {
            Some(p) => procedure_head(views(toks@), is_alter) == Some(p as int) && p <= toks.len(),
            None => procedure_head(views(toks@), is_alter) is None,
        },
{
    let p0 = skip_whitespace(toks, 0);
    if !is_alter {
        if !check_keyword(toks, p0, "CREATE") {
            return None;
        }
        let p1 = skip_whitespace(toks, p0 + 1);
        let mut p2 = p1;
        if check_keyword(toks, p1, "OR") {
            let q = skip_whitespace(toks, p1 + 1);
            if !check_keyword(toks, q, "ALTER") {
                return None;
            }
            p2 = skip_whitespace(toks, q + 1);
        }
        if !check_keyword(toks, p2, "PROCEDURE") && !check_word_ci(toks, p2, "PROC") {
            return None;
        }
        Some(skip_whitespace(toks, p2 + 1))
    } else {
        if !check_keyword(toks, p0, "ALTER") {
            return None;
        }
        let p1 = skip_whitespace(toks, p0 + 1);
        if !check_keyword(toks, p1, "PROCEDURE") && !check_word_ci(toks, p1, "PROC") {
            return None;
        }
        Some(skip_whitespace(toks, p1 + 1))
    }
}

fn type_word_exec(toks: &Vec<SqlToken>, p: usize) -> (r: (Option<String>, usize))
    requires
        p <= toks.len(),
    ensures
        (crate::cursor::opt_str(r.0), r.1 as int) == type_word(views(toks@), p as int),
        p <= r.1 <= toks.len(),
{
    if check_kind(toks, p, TokenKind::Word) && !(check_keyword(toks, p, "AS") || check_keyword(
        toks,
        p,
        "BEGIN",
    ) || check_keyword(toks, p, "WITH") || check_keyword(toks, p, "FOR") || check_word_ci(
        toks,
        p,
        "READONLY",
    ) || check_word_ci(toks, p, "OUTPUT") || check_word_ci(toks, p, "OUT")) {
        assert(views(toks@)[p as int] == toks@[p as int]@);
        (Some(toks[p].value.clone()), p + 1)
    } else {
        (None, p)
    }
}

fn keep_bracketed_exec(x: &String) -> (r: String)
    ensures
        r@ == keep_bracketed(x@),
{
    let v = chars_of(x.as_str());
    if starts_with_c(&v, '[') && ends_with_c(&v, ']') {
        x.clone()
    } else {
        let mut out = String::new();
        push_char(&mut out, '[');
        append_string(&mut out, x);
        push_char(&mut out, ']');
        assert(out@ =~= bracketed(x@));
        out
    }
}

pub(crate) fn type_args_exec(toks: &Vec<SqlToken>, p: usize, acc: String) -> (r: (String, usize))
    requires
        p <= toks.len(),
    ensures
        (r.0@, r.1 as int) == type_args(views(toks@), p as int, 1, acc@),
        p <= r.1 <= toks.len(),
{
    let ghost s = views(toks@);
    let mut pos: usize = p;
    let mut depth: u128 = 1;
    let mut out = acc;
    while pos < toks.len() && depth > 0
        invariant
            s == views(toks@),
            p <= pos <= toks.len(),
            depth <= pos - p + 1,
            type_args(s, p as int, 1, acc@) == type_args(s, pos as int, depth as nat, out@),
        decreases toks.len() - pos,
    {
        assert(s[pos as int] == toks@[pos as int]@);
        let t = &toks[pos];
        if matches!(t.kind, TokenKind::LParen) {
            depth = depth + 1;
            push_char(&mut out, '(');
        } else if matches!(t.kind, TokenKind::RParen) {
            depth = depth - 1;
            if depth > 0 {
                push_char(&mut out, ')');
            }
        } else if matches!(t.kind, TokenKind::Whitespace) {
        } else {
            push_token_string(&mut out, t);
        }
        pos = pos + 1;
    }
    (out, pos)
}

fn param_data_type_exec(toks: &Vec<SqlToken>, p: usize) -> (r: (Option<String>, usize))
    requires
        p <= toks.len(),
    ensures
        (crate::cursor::opt_str(r.0), r.1 as int) == param_data_type(views(toks@), p as int),
        p <= r.1 <= toks.len(),
{
    let (first, p1) = type_word_exec(toks, p);
    match first {
        None => (None, p1),
        Some(a) => {
            let p2 = skip_whitespace(toks, p1);
            let mut base: String;
            let p3: usize;
            if check_kind(toks, p2, TokenKind::Period) {
                let q = skip_whitespace(toks, p2 + 1);
                let (second, q2) = type_word_exec(toks, q);
                match second {
                    Some(b) => {
                        let mut x = keep_bracketed_exec(&a);
                        push_char(&mut x, '.');
                        let y = keep_bracketed_exec(&b);
                        append_string(&mut x, &y);
                        assert(x@ =~= keep_bracketed(a@) + seq!['.'] + keep_bracketed(b@));
                        base = x;
                    },
                    None => {
                        base = a;
                    },
                }
                p3 = q2;
            } else {
                base = to_uppercase(a.as_str());
                p3 = p2;
            }
            let p4 = skip_whitespace(toks, p3);
            if check_kind(toks, p4, TokenKind::LParen) {
                push_char(&mut base, '(');
                let (mut args, p5) = type_args_exec(toks, p4 + 1, base);
                push_char(&mut args, ')');
                (Some(args), p5)
            } else {
                (Some(base), p4)
            }
        },
    }
}

fn ends_default_exec(toks: &Vec<SqlToken>, p: usize) -> (r: bool)
    ensures
        r == ends_default(views(toks@), p as int),
{
    check_keyword(toks, p, "AS") || check_word_ci(toks, p, "OUTPUT") || check_word_ci(toks, p, "OUT")
        || check_word_ci(toks, p, "READONLY")
}

fn default_value_exec(toks: &Vec<SqlToken>, p: usize) -> (r: (String, usize))
    requires
        p <= toks.len(),
    ensures
        (r.0@, r.1 as int) == default_value(views(toks@), p as int),
        p <= r.1 <= toks.len(),
{
    let ghost s = views(toks@);
    let mut pos: usize = p;
    let mut depth: usize = 0;
    let mut out = String::new();
    let mut done = false;
    while !done && pos < toks.len()
        invariant
            s == views(toks@),
            p <= pos <= toks.len(),
            depth <= pos - p,
            done ==> default_value_raw(s, p as int, 0, Seq::empty()) == (out@, pos as int),
            !done ==> default_value_raw(s, p as int, 0, Seq::empty()) == default_value_raw(
                s,
                pos as int,
                depth as nat,
                out@,
            ),
        decreases toks.len() - pos + (if done { 0int } else { 1int }),
    {
        assert(s[pos as int] == toks@[pos as int]@);
        let t = &toks[pos];
        if matches!(t.kind, TokenKind::LParen) {
            depth = depth + 1;
            push_char(&mut out, '(');
            pos = pos + 1;
        } else if matches!(t.kind, TokenKind::RParen) {
            if depth == 0 {
                done = true;
            } else {
                depth = depth - 1;
                push_char(&mut out, ')');
                pos = pos + 1;
            }
        } else if matches!(t.kind, TokenKind::Comma) && depth == 0 {
            done = true;
        } else if matches!(t.kind, TokenKind::Word) && depth == 0 && ends_default_exec(toks, pos) {
            done = true;
        } else if matches!(t.kind, TokenKind::Whitespace) {
            let v = chars_of(out.as_str());
            if v.len() > 0 && v[v.len() - 1] != ' ' {
                push_char(&mut out, ' ');
            }
            pos = pos + 1;
        } else {
            push_token_string(&mut out, t);
            pos = pos + 1;
        }
    }
    let v = chars_of(out.as_str());
    let tv = trim_set(&v, CharSet::Whitespace);
    (string_from_chars(&tv), pos)
}

fn param_modifiers_exec(toks: &Vec<SqlToken>, p: usize) -> (r: (Option<String>, bool, bool, usize))
    requires
        p <= toks.len(),
    ensures
        (crate::cursor::opt_str(r.0), r.1, r.2, r.3 as int) == param_modifiers(views(toks@), p as int, None, false, false),
        p <= r.3 <= toks.len(),
{
    let ghost s = views(toks@);
    let mut pos: usize = p;
    let mut dv: Option<String> = None;
    let mut ro = false;
    let mut out = false;
    let mut done = false;
    while !done && pos < toks.len()
        invariant
            s == views(toks@),
            p <= pos <= toks.len(),
            done ==> param_modifiers(s, p as int, None, false, false) == (crate::cursor::opt_str(dv), ro, out, pos as int),
            !done ==> param_modifiers(s, p as int, None, false, false) == param_modifiers(
                s,
                pos as int,
                crate::cursor::opt_str(dv),
                ro,
                out,
            ),
        decreases toks.len() - pos + (if done { 0int } else { 1int }),
    {
        if check_kind(toks, pos, TokenKind::Eq) {
            let q = skip_whitespace(toks, pos + 1);
            let (v, q2) = default_value_exec(toks, q);
            dv = Some(v);
            pos = skip_whitespace(toks, q2);
        } else if check_word_ci(toks, pos, "READONLY") {
            ro = true;
            pos = skip_whitespace(toks, pos + 1);
        } else if check_word_ci(toks, pos, "OUTPUT") || check_word_ci(toks, pos, "OUT") {
            out = true;
            pos = skip_whitespace(toks, pos + 1);
        } else {
            done = true;
        }
    }
    (dv, ro, out, pos)
}

fn param_name_exec(toks: &Vec<SqlToken>, p: usize) -> (r: (Option<String>, usize))
    requires
        p <= toks.len(),
    ensures
        (crate::cursor::opt_str(r.0), r.1 as int) == param_name(views(toks@), p as int),
        p <= r.1 <= toks.len(),
{
    if check_kind(toks, p, TokenKind::Word) {
        assert(views(toks@)[p as int] == toks@[p as int]@);
        let v = chars_of(toks[p].value.as_str());
        if starts_with_c(&v, '@') {
            let n = string_from_range(&v, 1, v.len());
            assert(v@.subrange(1, v@.len() as int) =~= v@.drop_first());
            return (Some(n), p + 1);
        }
    }
    (None, p)
}

pub open spec fn opt_param_view(x: Option<TokenParsedProcedureParameter>) -> Option<ParameterView> {
    match x {
        Some(a) => Some(a@),
        None => None,
    }
}

fn single_param_exec(toks: &Vec<SqlToken>, p: usize) -> (r: (Option<TokenParsedProcedureParameter>, usize))
    requires
        p <= toks.len(),
    ensures
        (opt_param_view(r.0), r.1 as int) == single_param(views(toks@), p as int),
        p <= r.1 <= toks.len(),
{
    let (name, p1) = param_name_exec(toks, p);
    match name {
        None => (None, p1),
        Some(n) => {
            let p2 = skip_whitespace(toks, p1);
            let (dt, p3) = param_data_type_exec(toks, p2);
            match dt {
                None => (None, p3),
                Some(d) => {
                    let p4 = skip_whitespace(toks, p3);
                    let (dv, ro, out, p5) = param_modifiers_exec(toks, p4);
                    (
                        Some(
                            TokenParsedProcedureParameter {
                                name: n,
                                data_type: d,
                                is_output: out,
                                is_readonly: ro,
                                default_value: dv,
                            },
                        ),
                        p5,
                    )
                },
            }
        },
    }
}

fn parameters_exec(toks: &Vec<SqlToken>, p: usize) -> (r: Vec<TokenParsedProcedureParameter>)
    requires
        p <= toks.len(),
    ensures
        param_views(r@) == parameters(views(toks@), p as int),
{
    let ghost s = views(toks@);
    let p0 = skip_whitespace(toks, p);
    let parens = check_kind(toks, p0, TokenKind::LParen);
    let start = if parens {
        skip_whitespace(toks, p0 + 1)
    } else {
        p0
    };
    let mut pos: usize = start;
    let mut params: Vec<TokenParsedProcedureParameter> = Vec::new();
    let mut done = false;
    proof {
        assert(param_views(params@) =~= Seq::<ParameterView>::empty());
    }
    while !done
        invariant
            s == views(toks@),
            pos <= toks.len(),
            done ==> param_list(s, start as int, parens, Seq::empty()) == param_views(params@),
            !done ==> param_list(s, start as int, parens, Seq::empty()) == param_list(
                s,
                pos as int,
                parens,
                param_views(params@),
            ),
        decreases toks.len() - pos + (if done { 0int } else { 1int }),
    {
        if pos >= toks.len() || check_keyword(toks, pos, "AS") {
            done = true;
        } else if parens && check_kind(toks, pos, TokenKind::RParen) {
            done = true;
        } else {
            let (param, p2) = single_param_exec(toks, pos);
            proof {
                lemma_single_param_pos(s, pos as int);
            }
            let mut p3: usize = p2;
            let mut stop = false;
            match param {
                Some(x) => {
                    let ghost before = param_views(params@);
                    params.push(x);
                    assert(param_views(params@) =~= before.push(x@));
                },
                None => {
                    if check_kind(toks, p2, TokenKind::Comma) {
                        p3 = skip_whitespace(toks, p2 + 1);
                    } else if check_keyword(toks, p2, "AS") {
                        stop = true;
                    } else {
                        p3 = advance(toks, p2);
                    }
                },
            }
            if stop {
                done = true;
            } else {
                let p4 = skip_whitespace(toks, p3);
                pos = if check_kind(toks, p4, TokenKind::Comma) {
                    skip_whitespace(toks, p4 + 1)
                } else {
                    p4
                };
            }
        }
    }
    params
}

fn procedure_full_exec(toks: &Vec<SqlToken>, is_alter: bool) -> (r: Option<TokenParsedProcedure>)
    ensures
        opt_procedure_view(r) == procedure_full(views(toks@), is_alter),
{
    match head(toks, is_alter) {
        None => None,
        Some(p) => {
            let (n, p1) = parse_schema_qualified_name(toks, p);
            match n {
                None => None,
                Some((schema, name)) => {
                    let p2 = skip_whitespace(toks, p1);
                    let parameters = parameters_exec(toks, p2);
                    Some(TokenParsedProcedure { schema, name, parameters })
                },
            }
        },
    }
}

fn procedure_name_exec(toks: &Vec<SqlToken>, is_alter: bool) -> (r: Option<(String, String)>)
    ensures
        pair_view(r) == procedure_name(views(toks@), is_alter),
{
    match head(toks, is_alter) {
        None => None,
        Some(p) => parse_schema_qualified_name(toks, p).0,
    }
}

/// `(schema, name)` of a `CREATE PROCEDURE` header, over tokens.
pub fn parse_create_procedure_tokens_with_tokens(toks: &Vec<SqlToken>) -> (r: Option<(String, String)>)
    ensures
        pair_view(r) == procedure_name(views(toks@), false),
{
    procedure_name_exec(toks, false)
}

/// `(schema, name)` of an `ALTER PROCEDURE` header, over tokens.
pub fn parse_alter_procedure_tokens_with_tokens(toks: &Vec<SqlToken>) -> (r: Option<(String, String)>)
    ensures
        pair_view(r) == procedure_name(views(toks@), true),
{
    procedure_name_exec(toks, true)
}

/// `(schema, name)` of a `CREATE [OR ALTER] PROCEDURE` text.
pub fn parse_create_procedure_tokens(sql: &str) -> (r: Option<(String, String)>)
    ensures
        match lex_sql(sql@) {
            Some(s) => pair_view(r) == procedure_name(s, false),
            None => r is None,
        },
{
    match tokenize(sql) {
        Some(toks) => procedure_name_exec(&toks, false),
        None => None,
    }
}

/// `(schema, name)` of an `ALTER PROCEDURE` text.
pub fn parse_alter_procedure_tokens(sql: &str) -> (r: Option<(String, String)>)
    ensures
        match lex_sql(sql@) {
            Some(s) => pair_view(r) == procedure_name(s, true),
            None => r is None,
        },
{
    match tokenize(sql) {
        Some(toks) => procedure_name_exec(&toks, true),
        None => None,
    }
}

/// A `CREATE [OR ALTER] PROCEDURE` header with parameters, over tokens.
pub fn parse_create_procedure_full_tokens(toks: &Vec<SqlToken>) -> (r: Option<TokenParsedProcedure>)
    ensures
        opt_procedure_view(r) == procedure_full(views(toks@), false),
{
    procedure_full_exec(toks, false)
}

/// A `CREATE [OR ALTER] PROCEDURE` text with parameters.
pub fn parse_create_procedure_full(sql: &str) -> (r: Option<TokenParsedProcedure>)
    ensures
        match lex_sql(sql@) {
            Some(s) => opt_procedure_view(r) == procedure_full(s, false),
            None => r is None,
        },
{
    match tokenize(sql) {
        Some(toks) => procedure_full_exec(&toks, false),
        None => None,
    }
}

/// An `ALTER PROCEDURE` text with parameters.
pub fn parse_alter_procedure_full(sql: &str) -> (r: Option<TokenParsedProcedure>)
    ensures
        match lex_sql(sql@) {
            Some(s) => opt_procedure_view(r) == procedure_full(s, true),
            None => r is None,
        },
{
    match tokenize(sql) {
        Some(toks) => procedure_full_exec(&toks, true),
        None => None,
    }
}

/// Parameters of a `CREATE` procedure text, else of an `ALTER` one, else none.
pub fn extract_procedure_parameters_tokens(sql: &str) -> (r: Vec<TokenParsedProcedureParameter>)
    ensures
        match lex_sql(sql@) {
            Some(s) => param_views(r@) == procedure_parameters(s),
            None => r@.len() == 0,
        },
{
    match tokenize(sql) {
        Some(toks) => {
            match procedure_full_exec(&toks, false) {
                Some(x) => x.parameters,
                None => match procedure_full_exec(&toks, true) {
                    Some(y) => y.parameters,
                    None => Vec::new(),
                },
            }
        },
        None => Vec::new(),
    }
}

} // verus!
