//! Tokens of T-SQL text.
//!
//! The `sqlparser` tokenizer (MS SQL dialect) splits the text. A word comes
//! over with its value and quote style; any other token by the text that
//! `sqlparser` prints for it, from which this module reads its kind and value.

use vstd::prelude::*;
use crate::text::{chars_of, is_ascii_digit, string_from_range};

verus! {

/// Kind of a token.
#[derive(Clone, Copy, PartialEq, Eq, Debug, Structural)]
pub enum TokenKind {
    Word,
    Number,
    SingleQuotedString,
    NationalStringLiteral,
    HexStringLiteral,
    Whitespace,
    LParen,
    RParen,
    Comma,
    Period,
    SemiColon,
    Colon,
    DoubleColon,
    Plus,
    Minus,
    Mul,
    Div,
    Mod,
    Eq,
    Neq,
    Lt,
    Gt,
    LtEq,
    GtEq,
    AtSign,
    Sharp,
    Ampersand,
    Pipe,
    Caret,
    Tilde,
    ExclamationMark,
    LBracket,
    RBracket,
    LBrace,
    RBrace,
    Other,
}

/// One token.
///
/// `text` is the token as printed, `value` its content (the identifier of a
/// word, the digits of a number, the characters between the quotes of a string
/// literal, otherwise the text), `quote` the opening quote of a quoted word.
#[derive(Clone, Debug)]
pub struct SqlToken {
    pub kind: TokenKind,
    pub text: String,
    pub value: String,
    pub quote: Option<char>,
}

/// Mathematical model of a token.
pub struct TokenView {
    pub kind: TokenKind,
    pub text: Seq<char>,
    pub value: Seq<char>,
    pub quote: Option<char>,
}

impl View for SqlToken {
    type V = TokenView;

    open spec fn view(&self) -> TokenView {
        TokenView { kind: self.kind, text: self.text@, value: self.value@, quote: self.quote }
    }
}

/// The models of a token vector.
pub open spec fn views(v: Seq<SqlToken>) -> Seq<TokenView> {
    v.map_values(|t: SqlToken| t@)
}

// ---------------------------------------------------------------------------
// Reading a token from its text
// ---------------------------------------------------------------------------

/// Kind of a fixed punctuation text, if it is one.
pub open spec fn punct_kind(t: Seq<char>) -> Option<TokenKind> {
    if t.len() == 1 {
        let c = t[0];
        if c == '(' {
            Some(TokenKind::LParen)
        } else if c == ')' {
            Some(TokenKind::RParen)
        } else if c == ',' {
            Some(TokenKind::Comma)
        } else if c == '.' {
            Some(TokenKind::Period)
        } else if c == ';' {
            Some(TokenKind::SemiColon)
        } else if c == ':' {
            Some(TokenKind::Colon)
        } else if c == '+' {
            Some(TokenKind::Plus)
        } else if c == '-' {
            Some(TokenKind::Minus)
        } else if c == '*' {
            Some(TokenKind::Mul)
        } else if c == '/' {
            Some(TokenKind::Div)
        } else if c == '%' {
            Some(TokenKind::Mod)
        } else if c == '=' {
            Some(TokenKind::Eq)
        } else if c == '<' {
            Some(TokenKind::Lt)
        } else if c == '>' {
            Some(TokenKind::Gt)
        } else if c == '@' {
            Some(TokenKind::AtSign)
        } else if c == '#' {
            Some(TokenKind::Sharp)
        } else if c == '&' {
            Some(TokenKind::Ampersand)
        } else if c == '|' {
            Some(TokenKind::Pipe)
        } else if c == '^' {
            Some(TokenKind::Caret)
        } else if c == '~' {
            Some(TokenKind::Tilde)
        } else if c == '!' {
            Some(TokenKind::ExclamationMark)
        } else if c == '[' {
            Some(TokenKind::LBracket)
        } else if c == ']' {
            Some(TokenKind::RBracket)
        } else if c == '{' {
            Some(TokenKind::LBrace)
        } else if c == '}' {
            Some(TokenKind::RBrace)
        } else {
            None
        }
    } else if t.len() == 2 {
        let (a, b) = (t[0], t[1]);
        if a == ':' && b == ':' {
            Some(TokenKind::DoubleColon)
        } else if a == '<' && b == '>' {
            Some(TokenKind::Neq)
        } else if a == '<' && b == '=' {
            Some(TokenKind::LtEq)
        } else if a == '>' && b == '=' {
            Some(TokenKind::GtEq)
        } else {
            None
        }
    } else {
        None
    }
}

/// Whether a text is whitespace or a comment.
pub open spec fn is_ws_text(t: Seq<char>) -> bool {
    t.len() > 0 && (t[0] == ' ' || t[0] == '\t' || t[0] == '\n' || t[0] == '\r' || (t.len() >= 2
        && ((t[0] == '-' && t[1] == '-') || (t[0] == '/' && t[1] == '*'))))
}

/// The token that a printed text of any token but a word stands for.
pub open spec fn classify(t: Seq<char>) -> TokenView {
    if t.len() == 0 {
        TokenView { kind: TokenKind::Other, text: t, value: t, quote: None }
    } else if is_ws_text(t) {
        TokenView { kind: TokenKind::Whitespace, text: t, value: t, quote: None }
    } else if is_ascii_digit(t[0]) || (t[0] == '.' && t.len() >= 2) {
        TokenView { kind: TokenKind::Number, text: t, value: t, quote: None }
    } else if t[0] == '\'' && t.len() >= 2 {
        TokenView {
            kind: TokenKind::SingleQuotedString,
            text: t,
            value: t.subrange(1, t.len() - 1),
            quote: None,
        }
    } else if t[0] == 'N' && t.len() >= 3 && t[1] == '\'' {
        TokenView {
            kind: TokenKind::NationalStringLiteral,
            text: t,
            value: t.subrange(2, t.len() - 1),
            quote: None,
        }
    } else if t[0] == 'X' && t.len() >= 3 && t[1] == '\'' {
        TokenView {
            kind: TokenKind::HexStringLiteral,
            text: t,
            value: t.subrange(2, t.len() - 1),
            quote: None,
        }
    } else if punct_kind(t) is Some {
        TokenView { kind: punct_kind(t).unwrap(), text: t, value: t, quote: None }
    } else {
        TokenView { kind: TokenKind::Other, text: t, value: t, quote: None }
    }
}

/// A token as the tokenizer hands it over: its printed text and, for a word,
/// the word's value and quote style.
pub open spec fn read_token(text: Seq<char>, word: Option<(Seq<char>, Option<char>)>) -> TokenView {
    match word {
        Some((value, quote)) => TokenView { kind: TokenKind::Word, text, value, quote },
        None => classify(text),
    }
}

/// The tokens that the tokenizer's output stands for.
pub open spec fn lex(raw: Seq<(Seq<char>, Option<(Seq<char>, Option<char>)>)>) -> Seq<TokenView> {
    raw.map_values(|r: (Seq<char>, Option<(Seq<char>, Option<char>)>)| read_token(r.0, r.1))
}

fn punct_kind_exec(v: &Vec<char>) -> (r: Option<TokenKind>)
    ensures
        r == punct_kind(v@),
{
    if v.len() == 1 {
        let c = v[0];
        if c == '(' {
            Some(TokenKind::LParen)
        } else if c == ')' {
            Some(TokenKind::RParen)
        } else if c == ',' {
            Some(TokenKind::Comma)
        } else if c == '.' {
            Some(TokenKind::Period)
        } else if c == ';' {
            Some(TokenKind::SemiColon)
        } else if c == ':' {
            Some(TokenKind::Colon)
        } else if c == '+' {
            Some(TokenKind::Plus)
        } else if c == '-' {
            Some(TokenKind::Minus)
        } else if c == '*' {
            Some(TokenKind::Mul)
        } else if c == '/' {
            Some(TokenKind::Div)
        } else if c == '%' {
            Some(TokenKind::Mod)
        } else if c == '=' {
            Some(TokenKind::Eq)
        } else if c == '<' {
            Some(TokenKind::Lt)
        } else if c == '>' {
            Some(TokenKind::Gt)
        } else if c == '@' {
            Some(TokenKind::AtSign)
        } else if c == '#' {
            Some(TokenKind::Sharp)
        } else if c == '&' {
            Some(TokenKind::Ampersand)
        } else if c == '|' {
            Some(TokenKind::Pipe)
        } else if c == '^' {
            Some(TokenKind::Caret)
        } else if c == '~' {
            Some(TokenKind::Tilde)
        } else if c == '!' {
            Some(TokenKind::ExclamationMark)
        } else if c == '[' {
            Some(TokenKind::LBracket)
        } else if c == ']' {
            Some(TokenKind::RBracket)
        } else if c == '{' {
            Some(TokenKind::LBrace)
        } else if c == '}' {
            Some(TokenKind::RBrace)
        } else {
            None
        }
    } else if v.len() == 2 {
        let a = v[0];
        let b = v[1];
        if a == ':' && b == ':' {
            Some(TokenKind::DoubleColon)
        } else if a == '<' && b == '>' {
            Some(TokenKind::Neq)
        } else if a == '<' && b == '=' {
            Some(TokenKind::LtEq)
        } else if a == '>' && b == '=' {
            Some(TokenKind::GtEq)
        } else {
            None
        }
    } else {
        None
    }
}

impl SqlToken {
    /// The token that a printed text of any token but a word stands for.
    pub fn from_text(text: String) -> (r: SqlToken)
        ensures
            r@ == classify(text@),
    {
        let v = chars_of(text.as_str());
        let n = v.len();
        if n == 0 {
            let value = text.clone();
            return SqlToken { kind: TokenKind::Other, text, value, quote: None };
        }
        let c0 = v[0];
        let is_ws_t = c0 == ' ' || c0 == '\t' || c0 == '\n' || c0 == '\r' || (n >= 2 && ((c0
            == '-' && v[1] == '-') || (c0 == '/' && v[1] == '*')));
        if is_ws_t {
            let value = text.clone();
            return SqlToken { kind: TokenKind::Whitespace, text, value, quote: None };
        }
        if ('0' <= c0 && c0 <= '9') || (c0 == '.' && n >= 2) {
            let value = text.clone();
            return SqlToken { kind: TokenKind::Number, text, value, quote: None };
        }
        if c0 == '\'' && n >= 2 {
            let value = string_from_range(&v, 1, n - 1);
            return SqlToken { kind: TokenKind::SingleQuotedString, text, value, quote: None };
        }
        if c0 == 'N' && n >= 3 && v[1] == '\'' {
            let value = string_from_range(&v, 2, n - 1);
            return SqlToken { kind: TokenKind::NationalStringLiteral, text, value, quote: None };
        }
        if c0 == 'X' && n >= 3 && v[1] == '\'' {
            let value = string_from_range(&v, 2, n - 1);
            return SqlToken { kind: TokenKind::HexStringLiteral, text, value, quote: None };
        }
        let value = text.clone();
        match punct_kind_exec(&v) {
            Some(k) => SqlToken { kind: k, text, value, quote: None },
            None => SqlToken { kind: TokenKind::Other, text, value, quote: None },
        }
    }

    /// A word: its printed text, its value and its quote style.
    pub fn word(text: String, value: String, quote: Option<char>) -> (r: SqlToken)
        ensures
            r@ == read_token(text@, Some((value@, quote))),
    {
        SqlToken { kind: TokenKind::Word, text, value, quote }
    }

    /// A token as the tokenizer hands it over.
    pub fn from_raw(raw: (String, Option<(String, Option<char>)>)) -> (r: SqlToken)
        ensures
            r@ == read_token(raw.0@, raw.1.deep_view()),
    {
        let (text, word) = raw;
        match word {
            Some((value, quote)) => SqlToken::word(text, value, quote),
            None => SqlToken::from_text(text),
        }
    }
}

/// Reads every token of the tokenizer's output.
pub fn lex_raw(raw: &Vec<(String, Option<(String, Option<char>)>)>) -> (r: Vec<SqlToken>)
    ensures
        views(r@) == lex(raw.deep_view()),
{
    let mut out: Vec<SqlToken> = Vec::new();
    let mut i: usize = 0;
    while i < raw.len()
        invariant
            0 <= i <= raw.len(),
            out@.len() == i,
            forall|k: int|
                0 <= k < i ==> (#[trigger] out@[k])@ == read_token(
                    raw@[k].0@,
                    raw@[k].1.deep_view(),
                ),
        decreases raw.len() - i,
    {
        let text = raw[i].0.clone();
        let word = match &raw[i].1 {
            Some((v, q)) => Some((v.clone(), *q)),
            None => None,
        };
        out.push(SqlToken::from_raw((text, word)));
        i = i + 1;
    }
    assert(views(out@) =~= lex(raw.deep_view()));
    out
}

// ---------------------------------------------------------------------------
// The tokenizer
// ---------------------------------------------------------------------------

/// What the `sqlparser` tokenizer (MS SQL dialect) gives for a text: for each
/// token its printed text and, for a word, the word's value and quote style;
/// `None` where it reports an error.
pub uninterp spec fn sql_raw_tokens(sql: Seq<char>) -> Option<Seq<(Seq<char>, Option<(Seq<char>, Option<char>)>)>>;

/// A text that starts with `k` ASCII letters followed by a space.
pub open spec fn is_leading_word(sql: Seq<char>, k: int) -> bool {
    &&& 1 <= k < sql.len()
    &&& sql[k] == ' '
    &&& forall|i: int|
        0 <= i < k ==> ('a' <= #[trigger] sql[i] && sql[i] <= 'z') || ('A' <= sql[i] && sql[i] <= 'Z')
}

/// `sqlparser::tokenizer::Tokenizer::tokenize_with_location` with `MsSqlDialect`.
/// Each token is taken by its `Display` text; a `Token::Word` also by its
/// `value` and `quote_style`. The contract names the result, and states one
/// fact of the source (`next_token`: an ASCII letter starts an identifier, read
/// by `tokenize_word` up to the first character that is no identifier part):
/// a text that starts with ASCII letters and a space starts with the unquoted
/// word made of those letters. Which other tokens the tokenizer yields, and
/// when it fails, is left to `sqlparser`.
#[verifier::external_body]
fn tokenize_raw(sql: &str) -> (r: Option<Vec<(String, Option<(String, Option<char>)>)>>)
    ensures
        r is Some <==> sql_raw_tokens(sql@) is Some,
        r matches Some(v) ==> v.deep_view() == sql_raw_tokens(sql@).unwrap(),
        r matches Some(v) ==> forall|k: int|
            #[trigger] is_leading_word(sql@, k) ==> v@.len() > 0 && v.deep_view()[0] == (
                sql@.subrange(0, k),
                Some((sql@.subrange(0, k), None::<char>)),
            ),
{
    let dialect = sqlparser::dialect::MsSqlDialect {};
    let tokens = sqlparser::tokenizer::Tokenizer::new(&dialect, sql).tokenize_with_location().ok()?;
    Some(tokens.iter().map(|t| match &t.token {
        sqlparser::tokenizer::Token::Word(w) => (t.token.to_string(), Some((w.value.clone(), w.quote_style))),
        other => (other.to_string(), None),
    }).collect())
}

/// The tokens of a text, as the library reads them.
pub open spec fn lex_sql(sql: Seq<char>) -> Option<Seq<TokenView>> {
    match sql_raw_tokens(sql) {
        Some(t) => Some(lex(t)),
        None => None,
    }
}

/// An unquoted word whose text and value are `w`.
pub open spec fn plain_word(w: Seq<char>) -> TokenView {
    TokenView { kind: TokenKind::Word, text: w, value: w, quote: None }
}

/// Splits a text into tokens; `None` where the tokenizer reports an error. A
/// text that starts with ASCII letters and a space starts with their word.
pub fn tokenize(sql: &str) -> (r: Option<Vec<SqlToken>>)
    ensures
        r is Some <==> lex_sql(sql@) is Some,
        r matches Some(v) ==> views(v@) == lex_sql(sql@).unwrap(),
        r matches Some(v) ==> forall|k: int|
            #[trigger] is_leading_word(sql@, k) ==> v@.len() > 0 && v@[0]@ == plain_word(
                sql@.subrange(0, k),
            ),
{
    match tokenize_raw(sql) {
        Some(raw) => {
            let v = lex_raw(&raw);
            proof {
                assert forall|k: int| #[trigger] is_leading_word(sql@, k) implies v@.len() > 0
                    && v@[0]@ == plain_word(sql@.subrange(0, k)) by {
                    let rd = raw.deep_view();
                    let w = sql@.subrange(0, k);
                    assert(rd.len() == raw@.len());
                    assert(rd[0] == (w, Some((w, None::<char>))));
                    assert(lex(rd)[0] == read_token(rd[0].0, rd[0].1));
                    assert(read_token(w, Some((w, None::<char>))) == plain_word(w));
                    assert(views(v@).len() == v@.len());
                    assert(views(v@)[0] == v@[0]@);
                }
            }
            Some(v)
        },
        None => None,
    }
}

} // verus!
