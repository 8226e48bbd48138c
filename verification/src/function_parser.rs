//! Function headers: `CREATE [OR ALTER] FUNCTION` and `ALTER FUNCTION`, with
//! parameters, return type and function kind (scalar, inline table-valued,
//! multi-statement table-valued).

use vstd::prelude::*;
use crate::text::{
    push_char, append_string, chars_of, starts_with_char, starts_with_c, trim, trim_set,
    string_from_chars, CharSet, str_to_string, to_uppercase, unicode_upper, contains, find_str,
};
use crate::lexer::{SqlToken, TokenKind, TokenView, views, lex_sql, tokenize};
use crate::cursor::{
    skip_ws, kw_at, word_at, kind_at, ident, schema_qualified_name, lemma_skip_ws, skip_whitespace,
    check_keyword, check_word_ci, check_kind, parse_identifier, parse_schema_qualified_name,
    pair_view, opt_str,
};

verus! {

/// A function header.
#[derive(Debug, Clone, Default)]
pub struct TokenParsedFunction {
    /// Schema (`dbo` when not given).
    pub schema: String,
    /// Function name.
    pub name: String,
    /// Parameters in order.
    pub parameters: Vec<TokenParsedParameter>,
    /// Return type (`INT`, `DECIMAL(18,2)`, `TABLE`).
    pub return_type: Option<String>,
    /// Kind of function.
    pub function_type: TokenParsedFunctionType,
}

/// A function parameter.
#[derive(Debug, Clone)]
pub struct TokenParsedParameter {
    /// Name with its `@`.
    pub name: String,
    /// Data type (`INT`, `DECIMAL(18,2)`).
    pub data_type: String,
    /// Default value, when given.
    pub default_value: Option<String>,
}

/// Kind of function.
#[derive(Debug, Clone, Copy, PartialEq, Eq, Structural, Default)]
pub enum TokenParsedFunctionType {
    #[default]
    Scalar,
    TableValued,
    InlineTableValued,
}

pub struct FunctionParameterView {
    pub name: Seq<char>,
    pub data_type: Seq<char>,
    pub default_value: Option<Seq<char>>,
}

pub struct FunctionView {
    pub schema: Seq<char>,
    pub name: Seq<char>,
    pub parameters: Seq<FunctionParameterView>,
    pub return_type: Option<Seq<char>>,
    pub function_type: TokenParsedFunctionType,
}

impl View for TokenParsedParameter {
    type V = FunctionParameterView;

    open spec fn view(&self) -> FunctionParameterView {
        FunctionParameterView {
            name: self.name@,
            data_type: self.data_type@,
            default_value: opt_str(self.default_value),
        }
    }
}

pub open spec fn function_param_views(v: Seq<TokenParsedParameter>) -> Seq<FunctionParameterView> {
    v.map_values(|p: TokenParsedParameter| p@)
}

impl View for TokenParsedFunction {
    type V = FunctionView;

    open spec fn view(&self) -> FunctionView {
        FunctionView {
            schema: self.schema@,
            name: self.name@,
            parameters: function_param_views(self.parameters@),
            return_type: opt_str(self.return_type),
            function_type: self.function_type,
        }
    }
}

pub open spec fn opt_function(r: Option<TokenParsedFunction>) -> Option<FunctionView> {
    match r {
        Some(x) => Some(x@),
        None => None,
    }
}

pub open spec fn opt_function_name(r: Option<FunctionView>) -> Option<(Seq<char>, Seq<char>)> {
    match r {
        Some(f) => Some((f.schema, f.name)),
        None => None,
    }
}

// ---------------------------------------------------------------------------
// Specification
// ---------------------------------------------------------------------------

/// Text of a token inside a type or a default value: a word's value, the text of
/// a number, a string literal or one of `, . ( ) = - + * /`; nothing for others.
pub open spec fn fn_token_text(t: TokenView) -> Seq<char> {
    if t.kind == TokenKind::Word {
        t.value
    } else if t.kind == TokenKind::Number || t.kind == TokenKind::SingleQuotedString || t.kind
        == TokenKind::NationalStringLiteral || t.kind == TokenKind::Comma || t.kind
        == TokenKind::Period || t.kind == TokenKind::LParen || t.kind == TokenKind::RParen
        || t.kind == TokenKind::Eq || t.kind == TokenKind::Minus || t.kind == TokenKind::Plus
        || t.kind == TokenKind::Mul || t.kind == TokenKind::Div {
        t.text
    } else {
        Seq::empty()
    }
}

/// The arguments of a type up to the matching `)`, whitespace dropped.
pub open spec fn fn_type_args(s: Seq<TokenView>, p: int, depth: nat, acc: Seq<char>) -> (
    Seq<char>,
    int,
)
    decreases s.len() - p,
{
    if p < 0 || p >= s.len() || depth == 0 {
        (acc, p)
    } else {
        let t = s[p];
        if t.kind == TokenKind::LParen {
            fn_type_args(s, p + 1, depth + 1, acc.push('('))
        } else if t.kind == TokenKind::RParen {
            fn_type_args(s, p + 1, (depth - 1) as nat, if depth > 1 {
                acc.push(')')
            } else {
                acc
            })
        } else if t.kind == TokenKind::Whitespace {
            fn_type_args(s, p + 1, depth, acc)
        } else {
            fn_type_args(s, p + 1, depth, acc + fn_token_text(t))
        }
    }
}

/// A data type: a word upper-cased, with its arguments if any.
pub open spec fn fn_data_type(s: Seq<TokenView>, p: int) -> (Option<Seq<char>>, int) {
    let (name, p1) = ident(s, p);
    match name {
        None => (None, p1),
        Some(a) => {
            let base = unicode_upper(a);
            let q = skip_ws(s, p1);
            if kind_at(s, q, TokenKind::LParen) {
                let (args, e) = fn_type_args(s, q + 1, 1, base.push('('));
                (Some(args.push(')')), e)
            } else {
                (Some(base), q)
            }
        },
    }
}

/// A default value: the tokens up to a top-level `,` or `)`, whitespace dropped.
pub open spec fn fn_default_raw(s: Seq<TokenView>, p: int, depth: nat, acc: Seq<char>) -> (
    Seq<char>,
    int,
)
    decreases s.len() - p,
{
    if p < 0 || p >= s.len() {
        (acc, p)
    } else {
        let t = s[p];
        if t.kind == TokenKind::LParen {
            fn_default_raw(s, p + 1, depth + 1, acc.push('('))
        } else if t.kind == TokenKind::RParen {
            if depth == 0 {
                (acc, p)
            } else {
                fn_default_raw(s, p + 1, (depth - 1) as nat, acc.push(')'))
            }
        } else if t.kind == TokenKind::Comma && depth == 0 {
            (acc, p)
        } else if t.kind == TokenKind::Whitespace {
            fn_default_raw(s, p + 1, depth, acc)
        } else {
            fn_default_raw(s, p + 1, depth, acc + fn_token_text(t))
        }
    }
}

/// One parameter: `@name TYPE [= default]`.
pub open spec fn fn_param(s: Seq<TokenView>, p: int) -> (Option<FunctionParameterView>, int) {
    if !(kind_at(s, p, TokenKind::Word) && starts_with_char(s[p].value, '@')) {
        (None, p)
    } else {
        let name = s[p].value;
        let (dt, q2) = fn_data_type(s, skip_ws(s, p + 1));
        match dt {
            None => (None, q2),
            Some(d) => {
                let q3 = skip_ws(s, q2);
                if kind_at(s, q3, TokenKind::Eq) {
                    let (v, q5) = fn_default_raw(s, skip_ws(s, q3 + 1), 0, Seq::empty());
                    (
                        Some(
                            FunctionParameterView {
                                name,
                                data_type: d,
                                default_value: Some(trim(v)),
                            },
                        ),
                        q5,
                    )
                } else {
                    (Some(FunctionParameterView { name, data_type: d, default_value: None }), q3)
                }
            },
        }
    }
}

/// Position of the next top-level `,` or `)`, or the end.
pub open spec fn skip_to_delim(s: Seq<TokenView>, p: int, depth: nat) -> int
    decreases s.len() - p,
{
    if p < 0 || p >= s.len() {
        p
    } else if s[p].kind == TokenKind::LParen {
        skip_to_delim(s, p + 1, depth + 1)
    } else if s[p].kind == TokenKind::RParen && depth > 0 {
        skip_to_delim(s, p + 1, (depth - 1) as nat)
    } else if s[p].kind == TokenKind::RParen || (s[p].kind == TokenKind::Comma && depth == 0) {
        p
    } else {
        skip_to_delim(s, p + 1, depth)
    }
}

/// Position of the next token of kind `k`, or the end.
pub open spec fn skip_to_kind(s: Seq<TokenView>, p: int, k: TokenKind) -> int
    decreases s.len() - p,
{
    if p < 0 || p >= s.len() || s[p].kind == k {
        p
    } else {
        skip_to_kind(s, p + 1, k)
    }
}

/// The parameters from `p` (inside the parentheses) to the closing `)`, and the
/// position after it.
pub open spec fn fn_param_list(s: Seq<TokenView>, p: int, acc: Seq<FunctionParameterView>) -> (
    Seq<FunctionParameterView>,
    int,
)
    decreases s.len() - p,
{
    if p < 0 || p > s.len() {
        (acc, p)
    } else {
        let (param, p2) = fn_param(s, p);
        proof {
            lemma_fn_param_pos(s, p);
            lemma_skip_to_delim_pos(s, p2, 0);
        }
        let (acc2, p3) = match param {
            Some(x) => (acc.push(x), p2),
            None => (acc, skip_to_delim(s, p2, 0)),
        };
        let p4 = skip_ws(s, p3);
        proof {
            lemma_skip_ws(s, p3);
            lemma_skip_ws(s, p4 + 1);
        }
        if kind_at(s, p4, TokenKind::Comma) {
            fn_param_list(s, skip_ws(s, p4 + 1), acc2)
        } else if kind_at(s, p4, TokenKind::RParen) {
            (acc2, p4 + 1)
        } else {
            let r = skip_to_kind(s, p4, TokenKind::RParen);
            (acc2, if kind_at(s, r, TokenKind::RParen) {
                r + 1
            } else {
                r
            })
        }
    }
}

/// The parenthesized parameters at `p`, if any, and the position after them.
pub open spec fn fn_params(s: Seq<TokenView>, p: int) -> (Seq<FunctionParameterView>, int) {
    if !kind_at(s, p, TokenKind::LParen) {
        (Seq::empty(), p)
    } else {
        let q = skip_ws(s, p + 1);
        if kind_at(s, q, TokenKind::RParen) {
            (Seq::empty(), q + 1)
        } else {
            fn_param_list(s, q, Seq::empty())
        }
    }
}

/// Position of the next word equal to `w` (ignoring ASCII case), or the end.
pub open spec fn find_word(s: Seq<TokenView>, p: int, w: Seq<char>) -> int
    decreases s.len() - p,
{
    if p < 0 || p >= s.len() {
        s.len() as int
    } else if word_at(s, p, w) {
        p
    } else {
        find_word(s, p + 1, w)
    }
}

/// The `RETURNS` clause searched from `p`: the return type and the kind.
pub open spec fn returns_clause(s: Seq<TokenView>, p: int) -> (
    Option<Seq<char>>,
    TokenParsedFunctionType,
) {
    let k = find_word(s, p, "RETURNS"@);
    if k >= s.len() {
        (None, TokenParsedFunctionType::Scalar)
    } else {
        let q = skip_ws(s, k + 1);
        if q >= s.len() {
            (None, TokenParsedFunctionType::Scalar)
        } else if kw_at(s, q, "TABLE"@) {
            (Some("TABLE"@), TokenParsedFunctionType::InlineTableValued)
        } else if kind_at(s, q, TokenKind::Word) && starts_with_char(s[q].value, '@') {
            (Some("TABLE"@), TokenParsedFunctionType::TableValued)
        } else {
            (fn_data_type(s, q).0, TokenParsedFunctionType::Scalar)
        }
    }
}

/// Position after `CREATE [OR ALTER] FUNCTION` (`is_alter` false) or
/// `ALTER FUNCTION` (`is_alter` true).
pub open spec fn function_head(s: Seq<TokenView>, is_alter: bool) -> Option<int> {
    let p0 = skip_ws(s, 0);
    let p1 = skip_ws(s, p0 + 1);
    let p2: Option<int> = if is_alter {
        if kw_at(s, p0, "ALTER"@) {
            Some(p1)
        } else {
            None
        }
    } else if !kw_at(s, p0, "CREATE"@) {
        None
    } else if kw_at(s, p1, "OR"@) {
        let q = skip_ws(s, p1 + 1);
        if kw_at(s, q, "ALTER"@) {
            Some(skip_ws(s, q + 1))
        } else {
            None
        }
    } else {
        Some(p1)
    };
    match p2 {
        None => None,
        Some(p2) => if kw_at(s, p2, "FUNCTION"@) {
            Some(skip_ws(s, p2 + 1))
        } else {
            None
        },
    }
}

/// A function header with parameters, return type and kind.
pub open spec fn function_full(s: Seq<TokenView>, is_alter: bool) -> Option<FunctionView> {
    match function_head(s, is_alter) {
        None => None,
        Some(p) => {
            let (n, p1) = schema_qualified_name(s, p);
            match n {
                None => None,
                Some((schema, name)) => {
                    let (params, p3) = fn_params(s, skip_ws(s, p1));
                    let (rt, ft) = returns_clause(s, skip_ws(s, p3));
                    Some(
                        FunctionView {
                            schema,
                            name,
                            parameters: params,
                            return_type: rt,
                            function_type: ft,
                        },
                    )
                },
            }
        },
    }
}

/// The kind read from the upper-cased text when no header parses.
pub open spec fn fallback_function_type(upper: Seq<char>) -> TokenParsedFunctionType {
    if contains(upper, "RETURNS TABLE"@) {
        TokenParsedFunctionType::InlineTableValued
    } else if contains(upper, "RETURNS @"@) {
        TokenParsedFunctionType::TableValued
    } else {
        TokenParsedFunctionType::Scalar
    }
}

/// The kind of a `CREATE` header, else of an `ALTER` header, else from the text.
pub open spec fn detected_function_type(sql: Seq<char>) -> TokenParsedFunctionType {
    let from_tokens = match lex_sql(sql) {
        Some(s) => match function_full(s, false) {
            Some(f) => Some(f.function_type),
            None => match function_full(s, true) {
                Some(f) => Some(f.function_type),
                None => None,
            },
        },
        None => None,
    };
    match from_tokens {
        Some(t) => t,
        None => fallback_function_type(unicode_upper(sql)),
    }
}

// ---------------------------------------------------------------------------
// Lemmas: the steps move forward and stay in bounds
// ---------------------------------------------------------------------------

pub proof fn lemma_fn_type_args_pos(s: Seq<TokenView>, p: int, depth: nat, acc: Seq<char>)
    requires
        0 <= p,
    ensures
        p <= fn_type_args(s, p, depth, acc).1,
        p <= s.len() ==> fn_type_args(s, p, depth, acc).1 <= s.len(),
    decreases s.len() - p,
{
    if p < s.len() && depth > 0 {
        let t = s[p];
        if t.kind == TokenKind::LParen {
            lemma_fn_type_args_pos(s, p + 1, depth + 1, acc.push('('));
        } else if t.kind == TokenKind::RParen {
            lemma_fn_type_args_pos(s, p + 1, (depth - 1) as nat, if depth > 1 {
                acc.push(')')
            } else {
                acc
            });
        } else if t.kind == TokenKind::Whitespace {
            lemma_fn_type_args_pos(s, p + 1, depth, acc);
        } else {
            lemma_fn_type_args_pos(s, p + 1, depth, acc + fn_token_text(t));
        }
    }
}

pub proof fn lemma_fn_default_pos(s: Seq<TokenView>, p: int, depth: nat, acc: Seq<char>)
    requires
        0 <= p,
    ensures
        p <= fn_default_raw(s, p, depth, acc).1,
        p <= s.len() ==> fn_default_raw(s, p, depth, acc).1 <= s.len(),
    decreases s.len() - p,
{
    if p < s.len() {
        let t = s[p];
        if t.kind == TokenKind::LParen {
            lemma_fn_default_pos(s, p + 1, depth + 1, acc.push('('));
        } else if t.kind == TokenKind::RParen {
            if depth > 0 {
                lemma_fn_default_pos(s, p + 1, (depth - 1) as nat, acc.push(')'));
            }
        } else if t.kind == TokenKind::Comma && depth == 0 {
        } else if t.kind == TokenKind::Whitespace {
            lemma_fn_default_pos(s, p + 1, depth, acc);
        } else {
            lemma_fn_default_pos(s, p + 1, depth, acc + fn_token_text(t));
        }
    }
}

pub proof fn lemma_fn_data_type_pos(s: Seq<TokenView>, p: int)
    requires
        0 <= p,
    ensures
        p <= fn_data_type(s, p).1,
        p <= s.len() ==> fn_data_type(s, p).1 <= s.len(),
{
    let (name, p1) = ident(s, p);
    if name is Some {
        lemma_skip_ws(s, p1);
        let q = skip_ws(s, p1);
        if kind_at(s, q, TokenKind::LParen) {
            lemma_fn_type_args_pos(s, q + 1, 1, unicode_upper(name.unwrap()).push('('));
        }
    }
}

pub proof fn lemma_fn_param_pos(s: Seq<TokenView>, p: int)
    requires
        0 <= p,
    ensures
        p <= fn_param(s, p).1,
        p <= s.len() ==> fn_param(s, p).1 <= s.len(),
{
    if kind_at(s, p, TokenKind::Word) && starts_with_char(s[p].value, '@') {
        lemma_skip_ws(s, p + 1);
        lemma_fn_data_type_pos(s, skip_ws(s, p + 1));
        let q2 = fn_data_type(s, skip_ws(s, p + 1)).1;
        lemma_skip_ws(s, q2);
        let q3 = skip_ws(s, q2);
        lemma_skip_ws(s, q3 + 1);
        lemma_fn_default_pos(s, skip_ws(s, q3 + 1), 0, Seq::empty());
    }
}

pub proof fn lemma_skip_to_delim_pos(s: Seq<TokenView>, p: int, depth: nat)
    requires
        0 <= p,
    ensures
        p <= skip_to_delim(s, p, depth),
        p <= s.len() ==> skip_to_delim(s, p, depth) <= s.len(),
    decreases s.len() - p,
{
    if p < s.len() {
        if s[p].kind == TokenKind::LParen {
            lemma_skip_to_delim_pos(s, p + 1, depth + 1);
        } else if s[p].kind == TokenKind::RParen && depth > 0 {
            lemma_skip_to_delim_pos(s, p + 1, (depth - 1) as nat);
        } else if s[p].kind == TokenKind::RParen || (s[p].kind == TokenKind::Comma && depth == 0) {
        } else {
            lemma_skip_to_delim_pos(s, p + 1, depth);
        }
    }
}

// ---------------------------------------------------------------------------
// Executable steps
// ---------------------------------------------------------------------------

fn push_fn_token_text(out: &mut String, t: &SqlToken)
    ensures
        final(out)@ == old(out)@ + fn_token_text(t@),
{
    match t.kind {
        TokenKind::Word => append_string(out, &t.value),
        TokenKind::Number | TokenKind::SingleQuotedString | TokenKind::NationalStringLiteral
        | TokenKind::Comma | TokenKind::Period | TokenKind::LParen | TokenKind::RParen
        | TokenKind::Eq | TokenKind::Minus | TokenKind::Plus | TokenKind::Mul | TokenKind::Div => {
            append_string(out, &t.text)
        },
        _ => {
            assert(old(out)@ + fn_token_text(t@) =~= old(out)@);
        },
    }
}

fn fn_type_args_exec(toks: &Vec<SqlToken>, p: usize, acc: String) -> (r: (String, usize))
    requires
        p <= toks.len(),
    ensures
        (r.0@, r.1 as int) == fn_type_args(views(toks@), p as int, 1, acc@),
        p <= r.1 <= toks.len(),
{
    let ghost s = views(toks@);
    let mut pos: usize = p;
    let mut depth: u128 = 1;
    let mut out = acc;
    while pos < toks.len() && depth > 0
        invariant
            s == views(toks@),
            p <= pos <= toks.len(),
            depth <= pos - p + 1,
            fn_type_args(s, p as int, 1, acc@) == fn_type_args(s, pos as int, depth as nat, out@),
        decreases toks.len() - pos,
    {
        assert(s[pos as int] == toks@[pos as int]@);
        let t = &toks[pos];
        if matches!(t.kind, TokenKind::LParen) {
            depth = depth + 1;
            push_char(&mut out, '(');
        } else if matches!(t.kind, TokenKind::RParen) {
            depth = depth - 1;
            if depth > 0 {
                push_char(&mut out, ')');
            }
        } else if matches!(t.kind, TokenKind::Whitespace) {
        } else {
            push_fn_token_text(&mut out, t);
        }
        pos = pos + 1;
    }
    (out, pos)
}

fn fn_data_type_exec(toks: &Vec<SqlToken>, p: usize) -> (r: (Option<String>, usize))
    requires
        p <= toks.len(),
    ensures
        (opt_str(r.0), r.1 as int) == fn_data_type(views(toks@), p as int),
        p <= r.1 <= toks.len(),
{
    let (name, p1) = parse_identifier(toks, p);
    match name {
        None => (None, p1),
        Some(a) => {
            let mut base = to_uppercase(a.as_str());
            let q = skip_whitespace(toks, p1);
            if check_kind(toks, q, TokenKind::LParen) {
                push_char(&mut base, '(');
                let (mut args, e) = fn_type_args_exec(toks, q + 1, base);
                push_char(&mut args, ')');
                (Some(args), e)
            } else {
                (Some(base), q)
            }
        },
    }
}

fn fn_default_exec(toks: &Vec<SqlToken>, p: usize) -> (r: (String, usize))
    requires
        p <= toks.len(),
    ensures
        (r.0@, r.1 as int) == (trim(fn_default_raw(views(toks@), p as int, 0, Seq::empty()).0),
        fn_default_raw(views(toks@), p as int, 0, Seq::empty()).1),
        p <= r.1 <= toks.len(),
{
    let ghost s = views(toks@);
    let mut pos: usize = p;
    let mut depth: usize = 0;
    let mut out = String::new();
    let mut done = false;
    while !done && pos < toks.len()
        invariant
            s == views(toks@),
            p <= pos <= toks.len(),
            depth <= pos - p,
            done ==> fn_default_raw(s, p as int, 0, Seq::empty()) == (out@, pos as int),
            !done ==> fn_default_raw(s, p as int, 0, Seq::empty()) == fn_default_raw(
                s,
                pos as int,
                depth as nat,
                out@,
            ),
        decreases toks.len() - pos + (if done {
            0int
        } else {
            1int
        }),
    {
        assert(s[pos as int] == toks@[pos as int]@);
        let t = &toks[pos];
        if matches!(t.kind, TokenKind::LParen) {
            depth = depth + 1;
            push_char(&mut out, '(');
            pos = pos + 1;
        } else if matches!(t.kind, TokenKind::RParen) {
            if depth == 0 {
                done = true;
            } else {
                depth = depth - 1;
                push_char(&mut out, ')');
                pos = pos + 1;
            }
        } else if matches!(t.kind, TokenKind::Comma) && depth == 0 {
            done = true;
        } else if matches!(t.kind, TokenKind::Whitespace) {
            pos = pos + 1;
        } else {
            push_fn_token_text(&mut out, t);
            pos = pos + 1;
        }
    }
    let v = chars_of(out.as_str());
    let tv = trim_set(&v, CharSet::Whitespace);
    (string_from_chars(&tv), pos)
}

pub open spec fn opt_param(x: Option<TokenParsedParameter>) -> Option<FunctionParameterView> {
    match x {
        Some(a) => Some(a@),
        None => None,
    }
}

fn fn_param_exec(toks: &Vec<SqlToken>, p: usize) -> (r: (Option<TokenParsedParameter>, usize))
    requires
        p <= toks.len(),
    ensures
        (opt_param(r.0), r.1 as int) == fn_param(views(toks@), p as int),
        p <= r.1 <= toks.len(),
{
    if !check_kind(toks, p, TokenKind::Word) {
        return (None, p);
    }
    assert(views(toks@)[p as int] == toks@[p as int]@);
    let v = chars_of(toks[p].value.as_str());
    if !starts_with_c(&v, '@') {
        return (None, p);
    }
    let name = toks[p].value.clone();
    let q1 = skip_whitespace(toks, p + 1);
    let (dt, q2) = fn_data_type_exec(toks, q1);
    match dt {
        None => (None, q2),
        Some(d) => {
            let q3 = skip_whitespace(toks, q2);
            if check_kind(toks, q3, TokenKind::Eq) {
                let q4 = skip_whitespace(toks, q3 + 1);
                let (dv, q5) = fn_default_exec(toks, q4);
                (Some(TokenParsedParameter { name, data_type: d, default_value: Some(dv) }), q5)
            } else {
                (Some(TokenParsedParameter { name, data_type: d, default_value: None }), q3)
            }
        },
    }
}

fn skip_to_delim_exec(toks: &Vec<SqlToken>, p: usize) -> (r: usize)
    requires
        p <= toks.len(),
    ensures
        r == skip_to_delim(views(toks@), p as int, 0),
        p <= r <= toks.len(),
{
    let ghost s = views(toks@);
    let mut pos: usize = p;
    let mut depth: usize = 0;
    let mut done = false;
    while !done && pos < toks.len()
        invariant
            s == views(toks@),
            p <= pos <= toks.len(),
            depth <= pos - p,
            done ==> skip_to_delim(s, p as int, 0) == pos,
            !done ==> skip_to_delim(s, p as int, 0) == skip_to_delim(s, pos as int, depth as nat),
        decreases toks.len() - pos + (if done {
            0int
        } else {
            1int
        }),
    {
        assert(s[pos as int] == toks@[pos as int]@);
        let k = toks[pos].kind;
        if matches!(k, TokenKind::LParen) {
            depth = depth + 1;
            pos = pos + 1;
        } else if matches!(k, TokenKind::RParen) && depth > 0 {
            depth = depth - 1;
            pos = pos + 1;
        } else if matches!(k, TokenKind::RParen) || (matches!(k, TokenKind::Comma) && depth == 0) {
            done = true;
        } else {
            pos = pos + 1;
        }
    }
    pos
}

fn skip_to_kind_exec(toks: &Vec<SqlToken>, p: usize, k: TokenKind) -> (r: usize)
    requires
        p <= toks.len(),
    ensures
        r == skip_to_kind(views(toks@), p as int, k),
        p <= r <= toks.len(),
{
    let mut pos: usize = p;
    while pos < toks.len() && !check_kind(toks, pos, k)
        invariant
            p <= pos <= toks.len(),
            skip_to_kind(views(toks@), p as int, k) == skip_to_kind(views(toks@), pos as int, k),
        decreases toks.len() - pos,
    {
        pos = pos + 1;
    }
    pos
}

fn fn_params_exec(toks: &Vec<SqlToken>, p: usize) -> (r: (Vec<TokenParsedParameter>, usize))
    requires
        p <= toks.len(),
    ensures
        (function_param_views(r.0@), r.1 as int) == fn_params(views(toks@), p as int),
        r.1 <= toks.len(),
{
    let ghost s = views(toks@);
    let mut params: Vec<TokenParsedParameter> = Vec::new();
    proof {
        assert(function_param_views(params@) =~= Seq::<FunctionParameterView>::empty());
    }
    if !check_kind(toks, p, TokenKind::LParen) {
        return (params, p);
    }
    let q = skip_whitespace(toks, p + 1);
    if check_kind(toks, q, TokenKind::RParen) {
        return (params, q + 1);
    }
    let mut pos: usize = q;
    let mut end: usize = q;
    let mut done = false;
    while !done
        invariant
            s == views(toks@),
            pos <= toks.len(),
            end <= toks.len(),
            done ==> fn_param_list(s, q as int, Seq::empty()) == (
                function_param_views(params@),
                end as int,
            ),
            !done ==> fn_param_list(s, q as int, Seq::empty()) == fn_param_list(
                s,
                pos as int,
                function_param_views(params@),
            ),
        decreases toks.len() - pos + (if done {
            0int
        } else {
            1int
        }),
    {
        let (param, p2) = fn_param_exec(toks, pos);
        proof {
            lemma_fn_param_pos(s, pos as int);
        }
        let p3 = match param {
            Some(x) => {
                let ghost before = function_param_views(params@);
                params.push(x);
                assert(function_param_views(params@) =~= before.push(x@));
                p2
            },
            None => skip_to_delim_exec(toks, p2),
        };
        let p4 = skip_whitespace(toks, p3);
        if check_kind(toks, p4, TokenKind::Comma) {
            pos = skip_whitespace(toks, p4 + 1);
        } else if check_kind(toks, p4, TokenKind::RParen) {
            end = p4 + 1;
            done = true;
        } else {
            let rp = skip_to_kind_exec(toks, p4, TokenKind::RParen);
            end = if check_kind(toks, rp, TokenKind::RParen) {
                rp + 1
            } else {
                rp
            };
            done = true;
        }
    }
    (params, end)
}

fn find_word_exec(toks: &Vec<SqlToken>, p: usize, w: &str) -> (r: usize)
    requires
        p <= toks.len(),
    ensures
        r == find_word(views(toks@), p as int, w@),
        r <= toks.len(),
{
    let mut pos: usize = p;
    while pos < toks.len() && !check_word_ci(toks, pos, w)
        invariant
            p <= pos <= toks.len(),
            find_word(views(toks@), p as int, w@) == find_word(views(toks@), pos as int, w@),
        decreases toks.len() - pos,
    {
        pos = pos + 1;
    }
    pos
}

fn returns_clause_exec(toks: &Vec<SqlToken>, p: usize) -> (r: (
    Option<String>,
    TokenParsedFunctionType,
))
    requires
        p <= toks.len(),
    ensures
        (opt_str(r.0), r.1) == returns_clause(views(toks@), p as int),
{
    let k = find_word_exec(toks, p, "RETURNS");
    if k >= toks.len() {
        return (None, TokenParsedFunctionType::Scalar);
    }
    let q = skip_whitespace(toks, k + 1);
    if q >= toks.len() {
        return (None, TokenParsedFunctionType::Scalar);
    }
    if check_keyword(toks, q, "TABLE") {
        return (Some(str_to_string("TABLE")), TokenParsedFunctionType::InlineTableValued);
    }
    if check_kind(toks, q, TokenKind::Word) {
        assert(views(toks@)[q as int] == toks@[q as int]@);
        let v = chars_of(toks[q].value.as_str());
        if starts_with_c(&v, '@') {
            return (Some(str_to_string("TABLE")), TokenParsedFunctionType::TableValued);
        }
    }
    (fn_data_type_exec(toks, q).0, TokenParsedFunctionType::Scalar)
}

fn function_head_exec(toks: &Vec<SqlToken>, is_alter: bool) -> (r: Option<usize>)
    ensures
        match function_head(views(toks@), is_alter) {
            Some(p) => r == Some(p as usize) && 0 <= p <= toks.len(),
            None => r is None,
        },
{
    let p0 = skip_whitespace(toks, 0);
    let p2: usize;
    if is_alter {
        if !check_keyword(toks, p0, "ALTER") {
            return None;
        }
        p2 = skip_whitespace(toks, p0 + 1);
    } else {
        if !check_keyword(toks, p0, "CREATE") {
            return None;
        }
        let p1 = skip_whitespace(toks, p0 + 1);
        if check_keyword(toks, p1, "OR") {
            let q = skip_whitespace(toks, p1 + 1);
            if !check_keyword(toks, q, "ALTER") {
                return None;
            }
            p2 = skip_whitespace(toks, q + 1);
        } else {
            p2 = p1;
        }
    }
    if !check_keyword(toks, p2, "FUNCTION") {
        return None;
    }
    Some(skip_whitespace(toks, p2 + 1))
}

/// A function header over tokens: `CREATE [OR ALTER] FUNCTION` when `is_alter`
/// is false, `ALTER FUNCTION` when it is true.
pub fn parse_function(toks: &Vec<SqlToken>, is_alter: bool) -> (r: Option<TokenParsedFunction>)
    ensures
        opt_function(r) == function_full(views(toks@), is_alter),
{
    let p = match function_head_exec(toks, is_alter) {
        Some(p) => p,
        None => return None,
    };
    let (n, p1) = parse_schema_qualified_name(toks, p);
    let (schema, name) = match n {
        Some(x) => x,
        None => return None,
    };
    let (parameters, p3) = fn_params_exec(toks, skip_whitespace(toks, p1));
    let (return_type, function_type) = returns_clause_exec(toks, skip_whitespace(toks, p3));
    Some(TokenParsedFunction { schema, name, parameters, return_type, function_type })
}

fn name_of(f: Option<TokenParsedFunction>) -> (r: Option<(String, String)>)
    ensures
        pair_view(r) == opt_function_name(opt_function(f)),
{
    match f {
        Some(x) => Some((x.schema, x.name)),
        None => None,
    }
}

/// Parses a `CREATE [OR ALTER] FUNCTION` header: `(schema, name)`.
pub fn parse_create_function_tokens(sql: &str) -> (r: Option<(String, String)>)
    ensures
        match lex_sql(sql@) {
            Some(s) => pair_view(r) == opt_function_name(function_full(s, false)),
            None => r is None,
        },
{
    match tokenize(sql) {
        Some(toks) => name_of(parse_function(&toks, false)),
        None => None,
    }
}

/// Parses an `ALTER FUNCTION` header: `(schema, name)`.
pub fn parse_alter_function_tokens(sql: &str) -> (r: Option<(String, String)>)
    ensures
        match lex_sql(sql@) {
            Some(s) => pair_view(r) == opt_function_name(function_full(s, true)),
            None => r is None,
        },
{
    match tokenize(sql) {
        Some(toks) => name_of(parse_function(&toks, true)),
        None => None,
    }
}

/// Parses a `CREATE [OR ALTER] FUNCTION` with parameters and return type.
pub fn parse_create_function_full(sql: &str) -> (r: Option<TokenParsedFunction>)
    ensures
        match lex_sql(sql@) {
            Some(s) => opt_function(r) == function_full(s, false),
            None => r is None,
        },
{
    match tokenize(sql) {
        Some(toks) => parse_function(&toks, false),
        None => None,
    }
}

/// Parses an `ALTER FUNCTION` with parameters and return type.
pub fn parse_alter_function_full(sql: &str) -> (r: Option<TokenParsedFunction>)
    ensures
        match lex_sql(sql@) {
            Some(s) => opt_function(r) == function_full(s, true),
            None => r is None,
        },
{
    match tokenize(sql) {
        Some(toks) => parse_function(&toks, true),
        None => None,
    }
}

/// The kind of function from already-parsed headers, else from the upper-cased
/// text (`RETURNS TABLE`, `RETURNS @`).
pub fn function_type_of(
    create: Option<TokenParsedFunction>,
    alter: Option<TokenParsedFunction>,
    upper: &str,
) -> (r: TokenParsedFunctionType)
    ensures
        r == (match create {
            Some(f) => f.function_type,
            None => match alter {
                Some(f) => f.function_type,
                None => fallback_function_type(upper@),
            },
        }),
{
    match create {
        Some(f) => f.function_type,
        None => match alter {
            Some(f) => f.function_type,
            None => {
                let v = chars_of(upper);
                if find_str(&v, "RETURNS TABLE").is_some() {
                    TokenParsedFunctionType::InlineTableValued
                } else if find_str(&v, "RETURNS @").is_some() {
                    TokenParsedFunctionType::TableValued
                } else {
                    TokenParsedFunctionType::Scalar
                }
            },
        },
    }
}

/// Detects the kind of function of a definition.
pub fn detect_function_type_tokens(sql: &str) -> (r: TokenParsedFunctionType)
    ensures
        r == detected_function_type(sql@),
{
    let create = parse_create_function_full(sql);
    let alter = if create.is_some() {
        None
    } else {
        parse_alter_function_full(sql)
    };
    let upper = if create.is_some() || alter.is_some() {
        String::new()
    } else {
        to_uppercase(sql)
    };
    function_type_of(create, alter, upper.as_str())
}

} // verus!
