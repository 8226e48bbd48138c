//! SQL Server identifier handling: brackets, quotes and schema qualification.

use vstd::prelude::*;
use crate::text::{
    trim, trim_by, ident_quote_pred, open_bracket_pred, close_bracket_pred, trim_start_by,
    trim_end_by, contains, before_first, after_first, starts_with_char, ends_with_char, CharSet,
    chars_of, trim_set, trim_start_set, trim_end_set, split_once_str, find_str, starts_with_c,
    ends_with_c, push_chars, push_char, string_from_chars, str_to_string, append_string,
};
use crate::lexer::{SqlToken, TokenKind, TokenView};
use crate::cursor::{token_string, token_sql, push_token_string, push_token_sql};

verus! {

// ---------------------------------------------------------------------------
// Specification
// ---------------------------------------------------------------------------

/// `[`, `]` and `"` removed from both ends of the trimmed identifier.
pub open spec fn normalized_identifier(s: Seq<char>) -> Seq<char> {
    trim_by(trim(s), ident_quote_pred())
}

pub open spec fn bracketed(s: Seq<char>) -> Seq<char> {
    seq!['['] + s + seq![']']
}

/// A trimmed text that starts with `[` and ends with `]`.
pub open spec fn is_bracketed_text(t: Seq<char>) -> bool {
    starts_with_char(t, '[') && ends_with_char(t, ']')
}

pub open spec fn ensured_bracketed(s: Seq<char>) -> Seq<char> {
    let t = trim(s);
    if is_bracketed_text(t) {
        t
    } else {
        bracketed(normalized_identifier(t))
    }
}

/// `[schema].[name]`.
pub open spec fn two_part(schema: Seq<char>, name: Seq<char>) -> Seq<char> {
    bracketed(schema) + seq!['.'] + bracketed(name)
}

pub open spec fn normalized_object_name(name: Seq<char>, default_schema: Seq<char>) -> Seq<char> {
    let t = trim(name);
    if starts_with_char(t, '[') && contains(t, "].["@) {
        two_part(
            trim_start_by(before_first(t, "].["@), open_bracket_pred()),
            trim_end_by(after_first(t, "].["@), close_bracket_pred()),
        )
    } else if contains(t, "."@) {
        two_part(
            normalized_identifier(before_first(t, "."@)),
            normalized_identifier(after_first(t, "."@)),
        )
    } else {
        two_part(default_schema, normalized_identifier(t))
    }
}

pub open spec fn qualified_name_text(name: Seq<char>) -> bool {
    let t = trim(name);
    contains(t, "].["@) || (!starts_with_char(t, '[') && contains(t, "."@)) || (starts_with_char(
        t,
        '[',
    ) && contains(t, "]."@))
}

pub open spec fn split_qualified(name: Seq<char>, default_schema: Seq<char>) -> (Seq<char>, Seq<char>) {
    let t = trim(name);
    if contains(t, "].["@) {
        (
            trim_start_by(before_first(t, "].["@), open_bracket_pred()),
            trim_end_by(after_first(t, "].["@), close_bracket_pred()),
        )
    } else if starts_with_char(t, '[') && contains(t, "]."@) {
        (
            trim_start_by(before_first(t, "]."@), open_bracket_pred()),
            normalized_identifier(after_first(t, "]."@)),
        )
    } else if contains(t, ".["@) {
        (normalized_identifier(before_first(t, ".["@)), normalized_identifier(after_first(t, ".["@)))
    } else if contains(t, "."@) && !starts_with_char(t, '[') && !contains(t, "["@) {
        (before_first(t, "."@), after_first(t, "."@))
    } else {
        (default_schema, normalized_identifier(t))
    }
}

// ---------------------------------------------------------------------------
// Executable functions
// ---------------------------------------------------------------------------

fn normalize_chars(v: &Vec<char>) -> (r: Vec<char>)
    ensures
        r@ == normalized_identifier(v@),
{
    let t = trim_set(v, CharSet::Whitespace);
    trim_set(&t, CharSet::IdentQuote)
}

/// Strips surrounding whitespace, then every leading and trailing `[`, `]` and `"`.
pub fn normalize_identifier(ident: &str) -> (r: String)
    ensures
        r@ == normalized_identifier(ident@),
{
    let v = chars_of(ident);
    string_from_chars(&normalize_chars(&v))
}

fn push_bracketed(out: &mut String, v: &Vec<char>)
    ensures
        final(out)@ == old(out)@ + bracketed(v@),
{
    let ghost start = out@;
    push_char(out, '[');
    push_chars(out, v);
    push_char(out, ']');
    assert(out@ =~= start + bracketed(v@));
}

/// The trimmed identifier if it is already bracketed, otherwise its normalized
/// form in brackets.
pub fn ensure_bracketed(ident: &str) -> (r: String)
    ensures
        r@ == ensured_bracketed(ident@),
{
    let v = chars_of(ident);
    let t = trim_set(&v, CharSet::Whitespace);
    if starts_with_c(&t, '[') && ends_with_c(&t, ']') {
        string_from_chars(&t)
    } else {
        let n = normalize_chars(&t);
        let mut out = String::new();
        push_bracketed(&mut out, &n);
        assert(out@ =~= bracketed(n@));
        out
    }
}

fn two_part_string(schema: &Vec<char>, name: &Vec<char>) -> (r: String)
    ensures
        r@ == two_part(schema@, name@),
{
    let mut out = String::new();
    push_bracketed(&mut out, schema);
    push_char(&mut out, '.');
    push_bracketed(&mut out, name);
    assert(out@ =~= two_part(schema@, name@));
    out
}

/// `[schema].[name]` for a possibly qualified, possibly bracketed object name;
/// an unqualified name gets `default_schema`.
pub fn normalize_object_name(name: &str, default_schema: &str) -> (r: String)
    ensures
        r@ == normalized_object_name(name@, default_schema@),
{
    let v = chars_of(name);
    let t = trim_set(&v, CharSet::Whitespace);
    if starts_with_c(&t, '[') {
        if let Some((a, b)) = split_once_str(&t, "].[") {
            let schema = trim_start_set(&a, CharSet::OpenBracket);
            let nm = trim_end_set(&b, CharSet::CloseBracket);
            return two_part_string(&schema, &nm);
        }
    }
    if let Some((a, b)) = split_once_str(&t, ".") {
        return two_part_string(&normalize_chars(&a), &normalize_chars(&b));
    }
    let d = chars_of(default_schema);
    two_part_string(&d, &normalize_chars(&t))
}

/// Whether the trimmed text starts with `[` and ends with `]`.
pub fn is_bracketed(ident: &str) -> (r: bool)
    ensures
        r == is_bracketed_text(trim(ident@)),
{
    let v = chars_of(ident);
    let t = trim_set(&v, CharSet::Whitespace);
    starts_with_c(&t, '[') && ends_with_c(&t, ']')
}

/// Whether the trimmed text starts and ends with `"`.
pub fn is_double_quoted(ident: &str) -> (r: bool)
    ensures
        r == (starts_with_char(trim(ident@), '"') && ends_with_char(trim(ident@), '"')),
{
    let v = chars_of(ident);
    let t = trim_set(&v, CharSet::Whitespace);
    starts_with_c(&t, '"') && ends_with_c(&t, '"')
}

/// Whether the name looks schema-qualified (`[s].[n]`, `s.n` or `[s].n`).
pub fn is_qualified_name(name: &str) -> (r: bool)
    ensures
        r == qualified_name_text(name@),
{
    let v = chars_of(name);
    let t = trim_set(&v, CharSet::Whitespace);
    if find_str(&t, "].[").is_some() {
        return true;
    }
    if !starts_with_c(&t, '[') && find_str(&t, ".").is_some() {
        return true;
    }
    if starts_with_c(&t, '[') && find_str(&t, "].").is_some() {
        return true;
    }
    false
}

/// Splits a qualified name into `(schema, name)`; an unqualified name gets
/// `default_schema`.
pub fn split_qualified_name(name: &str, default_schema: &str) -> (r: (String, String))
    ensures
        (r.0@, r.1@) == split_qualified(name@, default_schema@),
{
    let v = chars_of(name);
    let t = trim_set(&v, CharSet::Whitespace);
    if let Some((a, b)) = split_once_str(&t, "].[") {
        let schema = trim_start_set(&a, CharSet::OpenBracket);
        let nm = trim_end_set(&b, CharSet::CloseBracket);
        return (string_from_chars(&schema), string_from_chars(&nm));
    }
    if starts_with_c(&t, '[') {
        if let Some((a, b)) = split_once_str(&t, "].") {
            let schema = trim_start_set(&a, CharSet::OpenBracket);
            return (string_from_chars(&schema), string_from_chars(&normalize_chars(&b)));
        }
    }
    if let Some((a, b)) = split_once_str(&t, ".[") {
        return (string_from_chars(&normalize_chars(&a)), string_from_chars(&normalize_chars(&b)));
    }
    if !starts_with_c(&t, '[') && find_str(&t, "[").is_none() {
        if let Some((a, b)) = split_once_str(&t, ".") {
            return (string_from_chars(&a), string_from_chars(&b));
        }
    }
    (str_to_string(default_schema), string_from_chars(&normalize_chars(&t)))
}

// ---------------------------------------------------------------------------
// Printing tokens
// ---------------------------------------------------------------------------

/// A word with its quotes: `[value]`, `"value"`, or the bare value.
pub open spec fn word_text(t: TokenView) -> Seq<char> {
    if t.quote == Some('[') {
        seq!['['] + t.value + seq![']']
    } else if t.quote == Some('"') {
        seq!['"'] + t.value + seq!['"']
    } else {
        t.value
    }
}

/// A word, bracketed when it was quoted in any way.
pub open spec fn word_text_bracketed(t: TokenView) -> Seq<char> {
    if t.quote is Some {
        seq!['['] + t.value + seq![']']
    } else {
        t.value
    }
}

/// A word with the quotes it was written with.
pub fn format_word(word: &SqlToken) -> (r: String)
    ensures
        r@ == word_text(word@),
{
    let mut out = String::new();
    match word.quote {
        Some(q) => {
            if q == '[' {
                push_char(&mut out, '[');
                append_string(&mut out, &word.value);
                push_char(&mut out, ']');
            } else if q == '"' {
                push_char(&mut out, '"');
                append_string(&mut out, &word.value);
                push_char(&mut out, '"');
            } else {
                append_string(&mut out, &word.value);
            }
        },
        None => {
            append_string(&mut out, &word.value);
        },
    }
    out
}

/// A word, bracketed when quoted (`"x"` becomes `[x]`).
pub fn format_word_bracketed(word: &SqlToken) -> (r: String)
    ensures
        r@ == word_text_bracketed(word@),
{
    let mut out = String::new();
    if word.quote.is_some() {
        push_char(&mut out, '[');
        append_string(&mut out, &word.value);
        push_char(&mut out, ']');
    } else {
        append_string(&mut out, &word.value);
    }
    out
}

/// A token as the parsers print it (see `token_string`).
pub fn format_token(token: &SqlToken) -> (r: String)
    ensures
        r@ == token_string(token@),
{
    let mut out = String::new();
    push_token_string(&mut out, token);
    out
}

/// A token as SQL text: string literals with `'` doubled (see `token_sql`).
pub fn format_token_sql(token: &SqlToken) -> (r: String)
    ensures
        r@ == token_sql(token@),
{
    let mut out = String::new();
    push_token_sql(&mut out, token);
    out
}

/// A token as SQL text, a quoted word bracketed.
pub fn format_token_sql_bracketed(token: &SqlToken) -> (r: String)
    ensures
        r@ == if token@.kind == TokenKind::Word {
            word_text_bracketed(token@)
        } else {
            token_sql(token@)
        },
{
    if matches!(token.kind, TokenKind::Word) {
        format_word_bracketed(token)
    } else {
        format_token_sql(token)
    }
}

} // verus!
