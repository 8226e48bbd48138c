//! A token stream with a position: the navigation and checks that every
//! statement parser is built from, as methods. Its model is the token models
//! and the position; each method is stated over the steps of `cursor`.

use vstd::prelude::*;
use crate::text::{to_uppercase, unicode_upper};
use crate::lexer::{SqlToken, TokenKind, TokenView, views, lex_sql, tokenize};
use crate::cursor::{skip_ws, kind_at, kw_at, word_at, ident, schema_qualified_name, signed_integer, positive_integer, token_string, tokens_string, opt_str, pair_view, skip_whitespace, advance, check_kind, check_keyword, check_word_ci, parse_identifier, parse_schema_qualified_name, parse_signed_integer, parse_positive_integer, push_token_string, tokens_to_string};
use crate::column_parser::skip_paren;

verus! {

/// Tokens and a position in them.
pub struct TokenParser {
    tokens: Vec<SqlToken>,
    pos: usize,
}

impl View for TokenParser {
    type V = (Seq<TokenView>, nat);

    closed spec fn view(&self) -> (Seq<TokenView>, nat) {
        (views(self.tokens@), self.pos as nat)
    }
}

// ---------------------------------------------------------------------------
// Specification of the multi-token steps
// ---------------------------------------------------------------------------

/// First position at or after `p` holding a token of kind `k`, or the end.
pub open spec fn skip_to_kind(s: Seq<TokenView>, p: int, k: TokenKind) -> int
    decreases s.len() - p,
{
    if p < 0 || p >= s.len() || s[p].kind == k {
        p
    } else {
        skip_to_kind(s, p + 1, k)
    }
}

/// Index of the first of `targets` that is the kind of the token at `p`.
pub open spec fn first_target(s: Seq<TokenView>, p: int, targets: Seq<TokenKind>, i: int) -> Option<int>
    decreases targets.len() - i,
{
    if i < 0 || i >= targets.len() {
        None
    } else if kind_at(s, p, targets[i]) {
        Some(i)
    } else {
        first_target(s, p, targets, i + 1)
    }
}

/// From `p`, the first position where one of `targets` is found and which one,
/// or the end and none.
pub open spec fn skip_to_any(s: Seq<TokenView>, p: int, targets: Seq<TokenKind>) -> (Option<int>, int)
    decreases s.len() - p,
{
    if p < 0 || p >= s.len() {
        (None, p)
    } else {
        match first_target(s, p, targets, 0) {
            Some(i) => (Some(i), p),
            None => skip_to_any(s, p + 1, targets),
        }
    }
}

/// The `)` that closes the group open at depth `depth` when `p` is reached.
pub open spec fn close_index(s: Seq<TokenView>, p: int, depth: nat) -> Option<int>
    decreases s.len() - p,
{
    if p < 0 || p >= s.len() {
        None
    } else if s[p].kind == TokenKind::LParen {
        close_index(s, p + 1, depth + 1)
    } else if s[p].kind == TokenKind::RParen {
        if depth <= 1 {
            Some(p)
        } else {
            close_index(s, p + 1, (depth - 1) as nat)
        }
    } else {
        close_index(s, p + 1, depth)
    }
}

impl TokenParser {
    /// Tokenizes a text (MS SQL dialect), positioned at the start; `None` when
    /// the tokenizer fails.
    pub fn new(sql: &str) -> (r: Option<Self>)
        ensures
            match lex_sql(sql@) {
                Some(s) => r matches Some(x) && x@ == (s, 0nat),
                None => r is None,
            },
    {
        match tokenize(sql) {
            Some(tokens) => Some(TokenParser { tokens, pos: 0 }),
            None => None,
        }
    }

    /// A parser over tokens made before, positioned at the start.
    pub fn from_tokens(tokens: Vec<SqlToken>) -> (r: Self)
        ensures
            r@ == (views(tokens@), 0nat),
    {
        TokenParser { tokens, pos: 0 }
    }

    /// Whether the position is at or past the last token.
    pub fn is_at_end(&self) -> (r: bool)
        ensures
            r == (self@.1 >= self@.0.len()),
    {
        self.pos >= self.tokens.len()
    }

    /// The position.
    pub fn pos(&self) -> (r: usize)
        ensures
            r == self@.1,
    {
        self.pos
    }

    /// Moves to `pos`.
    pub fn set_pos(&mut self, pos: usize)
        ensures
            final(self)@ == (old(self)@.0, pos as nat),
    {
        self.pos = pos;
    }

    /// The tokens.
    pub fn tokens(&self) -> (r: &[SqlToken])
        ensures
            views(r@) == self@.0,
    {
        self.tokens.as_slice()
    }

    /// The token at the position, if any.
    pub fn current_token(&self) -> (r: Option<&SqlToken>)
        ensures
            match r {
                Some(t) => self@.1 < self@.0.len() && t@ == self@.0[self@.1 as int],
                None => self@.1 >= self@.0.len(),
            },
    {
        if self.pos < self.tokens.len() {
            assert(views(self.tokens@)[self.pos as int] == self.tokens@[self.pos as int]@);
            Some(&self.tokens[self.pos])
        } else {
            None
        }
    }

    /// The token `offset` places after the position, if any.
    pub fn peek(&self, offset: usize) -> (r: Option<&SqlToken>)
        requires
            self@.1 + offset <= usize::MAX,
        ensures
            match r {
                Some(t) => self@.1 + offset < self@.0.len() && t@ == self@.0[self@.1 + offset],
                None => self@.1 + offset >= self@.0.len(),
            },
    {
        let q = self.pos + offset;
        if q < self.tokens.len() {
            assert(views(self.tokens@)[q as int] == self.tokens@[q as int]@);
            Some(&self.tokens[q])
        } else {
            None
        }
    }

    /// Moves one token on, unless at the end.
    pub fn advance(&mut self)
        ensures
            final(self)@ == (old(self)@.0, if old(self)@.1 < old(self)@.0.len() {
                (old(self)@.1 + 1) as nat
            } else {
                old(self)@.1
            }),
    {
        if self.pos < self.tokens.len() {
            self.pos = self.pos + 1;
        }
    }

    /// Moves `count` tokens on, stopping at the end.
    pub fn advance_by(&mut self, count: usize)
        requires
            old(self)@.1 + count <= usize::MAX,
        ensures
            final(self)@ == (old(self)@.0, if old(self)@.1 + count < old(self)@.0.len() {
                (old(self)@.1 + count) as nat
            } else {
                old(self)@.0.len()
            }),
    {
        let q = self.pos + count;
        self.pos = if q < self.tokens.len() {
            q
        } else {
            self.tokens.len()
        };
    }

    /// Moves past whitespace and comments.
    pub fn skip_whitespace(&mut self)
        ensures
            final(self)@ == (old(self)@.0, skip_ws(old(self)@.0, old(self)@.1 as int) as nat),
    {
        if self.pos <= self.tokens.len() {
            self.pos = skip_whitespace(&self.tokens, self.pos);
        }
    }

    /// The token at the position is the keyword `keyword`.
    pub fn check_keyword(&self, keyword: &str) -> (r: bool)
        ensures
            r == kw_at(self@.0, self@.1 as int, keyword@),
    {
        check_keyword(&self.tokens, self.pos, keyword)
    }

    /// The token at the position is a word equal to `word`, ignoring ASCII case.
    pub fn check_word_ci(&self, word: &str) -> (r: bool)
        ensures
            r == word_at(self@.0, self@.1 as int, word@),
    {
        check_word_ci(&self.tokens, self.pos, word)
    }

    /// The token at the position is of kind `kind`.
    pub fn check_token(&self, kind: TokenKind) -> (r: bool)
        ensures
            r == kind_at(self@.0, self@.1 as int, kind),
    {
        check_kind(&self.tokens, self.pos, kind)
    }

    /// Moves past the keyword `keyword` if it is at the position (`Some`), else
    /// stays (`None`).
    pub fn expect_keyword(&mut self, keyword: &str) -> (r: Option<()>)
        ensures
            r is Some == kw_at(old(self)@.0, old(self)@.1 as int, keyword@),
            final(self)@ == (old(self)@.0, if r is Some {
                (old(self)@.1 + 1) as nat
            } else {
                old(self)@.1
            }),
    {
        if self.check_keyword(keyword) {
            assert(views(self.tokens@).len() == self.tokens@.len());
            assert(self.pos < self.tokens.len());
            self.pos = self.pos + 1;
            Some(())
        } else {
            None
        }
    }

    /// Moves past the word `word` (ASCII case ignored) if it is at the position.
    pub fn expect_word_ci(&mut self, word: &str) -> (r: Option<()>)
        ensures
            r is Some == word_at(old(self)@.0, old(self)@.1 as int, word@),
            final(self)@ == (old(self)@.0, if r is Some {
                (old(self)@.1 + 1) as nat
            } else {
                old(self)@.1
            }),
    {
        if self.check_word_ci(word) {
            assert(views(self.tokens@).len() == self.tokens@.len());
            assert(self.pos < self.tokens.len());
            self.pos = self.pos + 1;
            Some(())
        } else {
            None
        }
    }

    /// Moves past a token of kind `kind` if one is at the position.
    pub fn expect_token(&mut self, kind: TokenKind) -> (r: Option<()>)
        ensures
            r is Some == kind_at(old(self)@.0, old(self)@.1 as int, kind),
            final(self)@ == (old(self)@.0, if r is Some {
                (old(self)@.1 + 1) as nat
            } else {
                old(self)@.1
            }),
    {
        if self.check_token(kind) {
            assert(views(self.tokens@).len() == self.tokens@.len());
            assert(self.pos < self.tokens.len());
            self.pos = self.pos + 1;
            Some(())
        } else {
            None
        }
    }

    /// An identifier (bracketed, quoted or plain) at the position, without its
    /// quotes; moves past it.
    pub fn parse_identifier(&mut self) -> (r: Option<String>)
        ensures
            (opt_str(r), final(self)@.1 as int) == ident(old(self)@.0, old(self)@.1 as int),
            final(self)@.0 == old(self)@.0,
    {
        if self.pos > self.tokens.len() {
            return None;
        }
        let (n, q) = parse_identifier(&self.tokens, self.pos);
        self.pos = q;
        n
    }

    /// `[schema].[name]`, `schema.name`, `[name]` or `name`; the schema is `dbo`
    /// when not given.
    pub fn parse_schema_qualified_name(&mut self) -> (r: Option<(String, String)>)
        ensures
            (pair_view(r), final(self)@.1 as int) == schema_qualified_name(
                old(self)@.0,
                old(self)@.1 as int,
            ),
            final(self)@.0 == old(self)@.0,
    {
        if self.pos > self.tokens.len() {
            return None;
        }
        let (n, q) = parse_schema_qualified_name(&self.tokens, self.pos);
        self.pos = q;
        n
    }

    /// A word at the position, upper-cased; moves past it.
    pub fn parse_data_type_simple(&mut self) -> (r: Option<String>)
        ensures
            final(self)@.0 == old(self)@.0,
            if kind_at(old(self)@.0, old(self)@.1 as int, TokenKind::Word) {
                r matches Some(t) && t@ == unicode_upper(old(self)@.0[old(self)@.1 as int].value)
                    && final(self)@.1 == old(self)@.1 + 1
            } else {
                r is None && final(self)@.1 == old(self)@.1
            },
    {
        if self.pos < self.tokens.len() && matches!(self.tokens[self.pos].kind, TokenKind::Word) {
            assert(views(self.tokens@)[self.pos as int] == self.tokens@[self.pos as int]@);
            let t = to_uppercase(self.tokens[self.pos].value.as_str());
            self.pos = self.pos + 1;
            Some(t)
        } else {
            proof {
                if self.pos < self.tokens.len() {
                    assert(views(self.tokens@)[self.pos as int] == self.tokens@[self.pos as int]@);
                }
            }
            None
        }
    }

    /// An optional `-` and a number at the position; moves past what it reads.
    pub fn parse_signed_integer(&mut self) -> (r: Option<i64>)
        ensures
            (r, final(self)@.1 as int) == signed_integer(old(self)@.0, old(self)@.1 as int),
            final(self)@.0 == old(self)@.0,
    {
        if self.pos >= self.tokens.len() {
            return None;
        }
        let (v, q) = parse_signed_integer(&self.tokens, self.pos);
        self.pos = q;
        v
    }

    /// A number at the position that reads as `u64`; moves past it.
    pub fn parse_positive_integer(&mut self) -> (r: Option<u64>)
        ensures
            (r, final(self)@.1 as int) == positive_integer(old(self)@.0, old(self)@.1 as int),
            final(self)@.0 == old(self)@.0,
    {
        if self.pos > self.tokens.len() {
            return None;
        }
        let (v, q) = parse_positive_integer(&self.tokens, self.pos);
        self.pos = q;
        v
    }

    /// The text of one token, as the parsers print it.
    pub fn token_to_string(token: &SqlToken) -> (r: String)
        ensures
            r@ == token_string(token@),
    {
        let mut out = String::new();
        push_token_string(&mut out, token);
        out
    }

    /// The texts of the tokens in `[start_pos, end_pos)`, concatenated.
    pub fn tokens_to_string(&self, start_pos: usize, end_pos: usize) -> (r: String)
        requires
            start_pos <= end_pos <= self@.0.len(),
        ensures
            r@ == tokens_string(self@.0, start_pos as int, end_pos as int),
    {
        tokens_to_string(&self.tokens, start_pos, end_pos)
    }

    /// Moves to the next token of kind `kind` (not past it), or to the end.
    pub fn skip_to_token(&mut self, kind: TokenKind)
        ensures
            final(self)@ == (old(self)@.0, skip_to_kind(old(self)@.0, old(self)@.1 as int, kind) as nat),
    {
        let ghost s = views(self.tokens@);
        let ghost p0 = self.pos as int;
        while self.pos < self.tokens.len() && !check_kind(&self.tokens, self.pos, kind)
            invariant
                s == views(self.tokens@),
                self.tokens@ == old(self).tokens@,
                p0 <= self.pos,
                skip_to_kind(s, p0, kind) == skip_to_kind(s, self.pos as int, kind),
            decreases self.tokens.len() - self.pos,
        {
            self.pos = self.pos + 1;
        }
        proof {
            if self.pos < self.tokens.len() {
                assert(s[self.pos as int].kind == kind);
            }
        }
    }

    /// Moves to the next token whose kind is one of `targets` and gives which
    /// (its index), or moves to the end and gives `None`.
    pub fn skip_to_any_token(&mut self, targets: &[TokenKind]) -> (r: Option<usize>)
        ensures
            (match r {
                Some(i) => Some(i as int),
                None => None,
            }, final(self)@.1 as int) == skip_to_any(old(self)@.0, old(self)@.1 as int, targets@),
            final(self)@.0 == old(self)@.0,
    {
        let ghost s = views(self.tokens@);
        let ghost p0 = self.pos as int;
        while self.pos < self.tokens.len()
            invariant
                s == views(self.tokens@),
                self.tokens@ == old(self).tokens@,
                p0 == old(self).pos,
                p0 <= self.pos,
                skip_to_any(s, p0, targets@) == skip_to_any(s, self.pos as int, targets@),
            decreases self.tokens.len() - self.pos,
        {
            let mut i: usize = 0;
            while i < targets.len()
                invariant
                    s == views(self.tokens@),
                    self.tokens@ == old(self).tokens@,
                    p0 == old(self).pos,
                    skip_to_any(s, p0, targets@) == skip_to_any(s, self.pos as int, targets@),
                    0 <= i <= targets.len(),
                    self.pos < self.tokens.len(),
                    first_target(s, self.pos as int, targets@, 0) == first_target(
                        s,
                        self.pos as int,
                        targets@,
                        i as int,
                    ),
                decreases targets.len() - i,
            {
                if check_kind(&self.tokens, self.pos, targets[i]) {
                    return Some(i);
                }
                i = i + 1;
            }
            self.pos = self.pos + 1;
        }
        None
    }

    /// From a `(`, moves past the `)` that closes it (or to the end); elsewhere
    /// stays.
    pub fn skip_parenthesized(&mut self)
        ensures
            final(self)@ == (old(self)@.0, if kind_at(old(self)@.0, old(self)@.1 as int, TokenKind::LParen) {
                skip_paren(old(self)@.0, old(self)@.1 as int, 0) as nat
            } else {
                old(self)@.1
            }),
    {
        if !self.check_token(TokenKind::LParen) {
            return;
        }
        let ghost s = views(self.tokens@);
        let ghost p0 = self.pos as int;
        let mut depth: usize = 0;
        while self.pos < self.tokens.len()
            invariant
                s == views(self.tokens@),
                self.tokens@ == old(self).tokens@,
                p0 == old(self).pos,
                kind_at(s, p0, TokenKind::LParen),
                p0 <= self.pos <= self.tokens.len(),
                depth <= self.pos - p0,
                skip_paren(s, p0, 0) == skip_paren(s, self.pos as int, depth as nat),
            decreases self.tokens.len() - self.pos,
        {
            assert(s[self.pos as int] == self.tokens@[self.pos as int]@);
            if matches!(self.tokens[self.pos].kind, TokenKind::LParen) {
                depth = depth + 1;
            } else if matches!(self.tokens[self.pos].kind, TokenKind::RParen) {
                if depth <= 1 {
                    self.pos = self.pos + 1;
                    return;
                }
                depth = depth - 1;
            }
            self.pos = self.pos + 1;
        }
    }

    /// From a `(`, the text of the tokens up to and with the `)` that closes it,
    /// moving past it; `None` (staying) when not at a `(`, and `None` (at the
    /// end) when it is not closed.
    pub fn consume_parenthesized(&mut self) -> (r: Option<String>)
        ensures
            final(self)@.0 == old(self)@.0,
            !kind_at(old(self)@.0, old(self)@.1 as int, TokenKind::LParen) ==> r is None
                && final(self)@.1 == old(self)@.1,
            kind_at(old(self)@.0, old(self)@.1 as int, TokenKind::LParen) ==> match close_index(
                old(self)@.0,
                old(self)@.1 as int,
                0,
            ) {
                Some(q) => r matches Some(t) && t@ == tokens_string(
                    old(self)@.0,
                    old(self)@.1 as int,
                    q + 1,
                ) && final(self)@.1 == q + 1,
                None => r is None && final(self)@.1 == old(self)@.0.len(),
            },
    {
        if !self.check_token(TokenKind::LParen) {
            return None;
        }
        let ghost s = views(self.tokens@);
        let start = self.pos;
        let mut depth: usize = 0;
        while self.pos < self.tokens.len()
            invariant
                s == views(self.tokens@),
                self.tokens@ == old(self).tokens@,
                start == old(self).pos,
                kind_at(s, start as int, TokenKind::LParen),
                start <= self.pos <= self.tokens.len(),
                depth <= self.pos - start,
                close_index(s, start as int, 0) == close_index(s, self.pos as int, depth as nat),
            decreases self.tokens.len() - self.pos,
        {
            assert(s[self.pos as int] == self.tokens@[self.pos as int]@);
            if matches!(self.tokens[self.pos].kind, TokenKind::LParen) {
                depth = depth + 1;
            } else if matches!(self.tokens[self.pos].kind, TokenKind::RParen) {
                if depth <= 1 {
                    let end = self.pos + 1;
                    self.pos = end;
                    return Some(tokens_to_string(&self.tokens, start, end));
                }
                depth = depth - 1;
            }
            self.pos = self.pos + 1;
        }
        None
    }
}

} // verus!
