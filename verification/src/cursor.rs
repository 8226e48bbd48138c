//! Navigation over a token sequence: the common steps of every statement parser.
//!
//! A parser state is a position in the token sequence. Each step is a spec
//! function of the token models and the position, and an executable function
//! proved equal to it.

use vstd::prelude::*;
use crate::text::{eq_ci, eq_ignore_ascii_case, str_to_string, chars_of, push_char, append_string, is_ascii_digit};
use crate::lexer::{SqlToken, TokenKind, TokenView, views};

verus! {

// ---------------------------------------------------------------------------
// Specification
// ---------------------------------------------------------------------------

/// First position at or after `p` that is not a whitespace or comment token.
pub open spec fn skip_ws(s: Seq<TokenView>, p: int) -> int
    decreases s.len() - p,
{
    if 0 <= p < s.len() && s[p].kind == TokenKind::Whitespace {
        skip_ws(s, p + 1)
    } else {
        p
    }
}

/// One step forward, stopping at the end.
pub open spec fn adv(s: Seq<TokenView>, p: int) -> int {
    if p < s.len() {
        p + 1
    } else {
        p
    }
}

/// The token at `p` has kind `k`.
pub open spec fn kind_at(s: Seq<TokenView>, p: int, k: TokenKind) -> bool {
    0 <= p < s.len() && s[p].kind == k
}

/// An unquoted word equal, ignoring ASCII case, to the keyword `kw`.
pub open spec fn is_kw(t: TokenView, kw: Seq<char>) -> bool {
    t.kind == TokenKind::Word && t.quote is None && eq_ci(t.value, kw)
}

/// The token at `p` is the keyword `kw`.
pub open spec fn kw_at(s: Seq<TokenView>, p: int, kw: Seq<char>) -> bool {
    0 <= p < s.len() && is_kw(s[p], kw)
}

/// A word (quoted or not) whose value equals `w` ignoring ASCII case.
pub open spec fn is_word_ci(t: TokenView, w: Seq<char>) -> bool {
    t.kind == TokenKind::Word && eq_ci(t.value, w)
}

/// The token at `p` is a word equal to `w` ignoring ASCII case.
pub open spec fn word_at(s: Seq<TokenView>, p: int, w: Seq<char>) -> bool {
    0 <= p < s.len() && is_word_ci(s[p], w)
}

/// An identifier: the value of the word at `p`, consumed.
pub open spec fn ident(s: Seq<TokenView>, p: int) -> (Option<Seq<char>>, int) {
    if kind_at(s, p, TokenKind::Word) {
        (Some(s[p].value), p + 1)
    } else {
        (None, p)
    }
}

/// `[schema].[name]`, `schema.name`, `[name]` or `name`; the schema defaults to `dbo`.
pub open spec fn schema_qualified_name(s: Seq<TokenView>, p: int) -> (
    Option<(Seq<char>, Seq<char>)>,
    int,
) {
    let (first, p1) = ident(s, p);
    match first {
        None => (None, p1),
        Some(a) => {
            let p2 = skip_ws(s, p1);
            if kind_at(s, p2, TokenKind::Period) {
                let p3 = skip_ws(s, p2 + 1);
                let (second, p4) = ident(s, p3);
                match second {
                    None => (None, p4),
                    Some(b) => (Some((a, b)), p4),
                }
            } else {
                (Some(("dbo"@, a)), p2)
            }
        },
    }
}

/// Value of a sequence of decimal digits.
pub open spec fn digits_value(d: Seq<char>) -> nat
    decreases d.len(),
{
    if d.len() == 0 {
        0
    } else {
        digits_value(d.drop_last()) * 10 + ((d.last() as u32) - ('0' as u32)) as nat
    }
}

pub open spec fn all_digits(d: Seq<char>) -> bool {
    forall|i: int| 0 <= i < d.len() ==> is_ascii_digit(#[trigger] d[i])
}

/// Sign and digits of an integer text: an optional leading `+` or `-`.
pub open spec fn sign_split(t: Seq<char>) -> (bool, Seq<char>) {
    if t.len() > 0 && t[0] == '-' {
        (true, t.drop_first())
    } else if t.len() > 0 && t[0] == '+' {
        (false, t.drop_first())
    } else {
        (false, t)
    }
}

/// `str::parse::<i64>`: an optional sign, then one or more ASCII digits, in range.
pub open spec fn parse_i64(t: Seq<char>) -> Option<i64> {
    let (neg, d) = sign_split(t);
    if d.len() > 0 && all_digits(d) {
        let v = digits_value(d) as int;
        if neg && v <= 0x8000_0000_0000_0000 {
            Some((-v) as i64)
        } else if !neg && v <= 0x7fff_ffff_ffff_ffff {
            Some(v as i64)
        } else {
            None
        }
    } else {
        None
    }
}

/// `str::parse::<u64>`: an optional `+`, then one or more ASCII digits, in range.
pub open spec fn parse_u64(t: Seq<char>) -> Option<u64> {
    let d = if t.len() > 0 && t[0] == '+' {
        t.drop_first()
    } else {
        t
    };
    if d.len() > 0 && all_digits(d) && digits_value(d) <= 0xffff_ffff_ffff_ffff {
        Some(digits_value(d) as u64)
    } else {
        None
    }
}

/// A signed integer: an optional `-`, then a number token.
pub open spec fn signed_integer(s: Seq<TokenView>, p: int) -> (Option<i64>, int) {
    if p >= s.len() {
        (None, p)
    } else {
        let neg = kind_at(s, p, TokenKind::Minus);
        let p1 = if neg {
            skip_ws(s, p + 1)
        } else {
            p
        };
        if kind_at(s, p1, TokenKind::Number) && parse_i64(s[p1].value) is Some {
            let v = parse_i64(s[p1].value).unwrap();
            (Some(if neg {
                (-v) as i64
            } else {
                v
            }), p1 + 1)
        } else {
            (None, p1)
        }
    }
}

/// A positive integer: a number token that parses as `u64`.
pub open spec fn positive_integer(s: Seq<TokenView>, p: int) -> (Option<u64>, int) {
    if kind_at(s, p, TokenKind::Number) && parse_u64(s[p].value) is Some {
        (Some(parse_u64(s[p].value).unwrap()), p + 1)
    } else {
        (None, p)
    }
}

/// Text of a string literal content with each `'` doubled.
pub open spec fn escape_quotes(v: Seq<char>) -> Seq<char>
    decreases v.len(),
{
    if v.len() == 0 {
        Seq::empty()
    } else if v.last() == '\'' {
        escape_quotes(v.drop_last()) + seq!['\'', '\'']
    } else {
        escape_quotes(v.drop_last()).push(v.last())
    }
}

/// Name of a token kind as `Debug` prints it.
pub open spec fn kind_name(k: TokenKind) -> Seq<char> {
    match k {
        TokenKind::DoubleColon => "DoubleColon"@,
        TokenKind::AtSign => "AtSign"@,
        TokenKind::Sharp => "Sharp"@,
        TokenKind::Ampersand => "Ampersand"@,
        TokenKind::Pipe => "Pipe"@,
        TokenKind::Caret => "Caret"@,
        TokenKind::Tilde => "Tilde"@,
        TokenKind::ExclamationMark => "ExclamationMark"@,
        TokenKind::LBracket => "LBracket"@,
        TokenKind::RBracket => "RBracket"@,
        TokenKind::LBrace => "LBrace"@,
        TokenKind::RBrace => "RBrace"@,
        _ => Seq::empty(),
    }
}

/// Whether `format_token` prints a kind by its `Debug` name.
pub open spec fn printed_by_name(k: TokenKind) -> bool {
    k == TokenKind::DoubleColon || k == TokenKind::AtSign || k == TokenKind::Sharp || k
        == TokenKind::Ampersand || k == TokenKind::Pipe || k == TokenKind::Caret || k
        == TokenKind::Tilde || k == TokenKind::ExclamationMark || k == TokenKind::LBracket || k
        == TokenKind::RBracket || k == TokenKind::LBrace || k == TokenKind::RBrace
}

/// Text of a token for reconstructing a definition: words keep their quotes,
/// literals are printed as written, a few operators by their `Debug` name, and a
/// hexadecimal literal as `HexStringLiteral("..")`.
pub open spec fn token_string(t: TokenView) -> Seq<char> {
    if printed_by_name(t.kind) {
        kind_name(t.kind)
    } else if t.kind == TokenKind::HexStringLiteral {
        "HexStringLiteral(\""@ + t.value + "\")"@
    } else {
        t.text
    }
}

/// SQL text of a token: string literals with `'` doubled, hexadecimal literals
/// as `0x..`, everything else as printed.
pub open spec fn token_sql(t: TokenView) -> Seq<char> {
    if t.kind == TokenKind::SingleQuotedString {
        seq!['\''] + escape_quotes(t.value) + seq!['\'']
    } else if t.kind == TokenKind::NationalStringLiteral {
        seq!['N', '\''] + escape_quotes(t.value) + seq!['\'']
    } else if t.kind == TokenKind::HexStringLiteral {
        seq!['0', 'x'] + t.value
    } else {
        t.text
    }
}

/// Concatenated `token_string` of the tokens in `[a, b)`.
pub open spec fn tokens_string(s: Seq<TokenView>, a: int, b: int) -> Seq<char>
    decreases b - a,
{
    if a >= b {
        Seq::empty()
    } else {
        tokens_string(s, a, b - 1) + token_string(s[b - 1])
    }
}

// ---------------------------------------------------------------------------
// Lemmas
// ---------------------------------------------------------------------------

pub proof fn lemma_skip_ws(s: Seq<TokenView>, p: int)
    requires
        0 <= p,
    ensures
        p <= skip_ws(s, p),
        p <= s.len() ==> skip_ws(s, p) <= s.len(),
        p > s.len() ==> skip_ws(s, p) == p,
        skip_ws(s, p) < s.len() ==> s[skip_ws(s, p)].kind != TokenKind::Whitespace,
        forall|k: int| p <= k < skip_ws(s, p) ==> (#[trigger] s[k]).kind == TokenKind::Whitespace,
    decreases s.len() - p,
{
    if p < s.len() && s[p].kind == TokenKind::Whitespace {
        lemma_skip_ws(s, p + 1);
    }
}

/// A signed integer never moves backwards.
pub proof fn lemma_signed_integer_pos(s: Seq<TokenView>, p: int)
    requires
        0 <= p,
    ensures
        p <= signed_integer(s, p).1,
        p <= s.len() ==> signed_integer(s, p).1 <= s.len(),
{
    lemma_skip_ws(s, p + 1);
}

pub proof fn lemma_skip_ws_idem(s: Seq<TokenView>, p: int)
    requires
        0 <= p <= s.len(),
    ensures
        skip_ws(s, skip_ws(s, p)) == skip_ws(s, p),
    decreases s.len() - p,
{
    if p < s.len() && s[p].kind == TokenKind::Whitespace {
        lemma_skip_ws_idem(s, p + 1);
    }
}

pub proof fn lemma_digits_value_mono(d: Seq<char>, k: int)
    requires
        0 <= k <= d.len(),
    ensures
        digits_value(d.subrange(0, k)) <= digits_value(d),
    decreases d.len() - k,
{
    if k < d.len() {
        lemma_digits_value_mono(d, k + 1);
        let t = d.subrange(0, k + 1);
        assert(t.drop_last() =~= d.subrange(0, k));
    } else {
        assert(d.subrange(0, k) =~= d);
    }
}

// ---------------------------------------------------------------------------
// Executable steps
// ---------------------------------------------------------------------------

/// Skips whitespace and comments.
pub fn skip_whitespace(toks: &Vec<SqlToken>, p: usize) -> (r: usize)
    requires
        p <= toks.len(),
    ensures
        r == skip_ws(views(toks@), p as int),
        p <= r <= toks.len(),
{
    let ghost s = views(toks@);
    let mut i: usize = p;
    while i < toks.len() && matches!(toks[i].kind, TokenKind::Whitespace)
        invariant
            p <= i <= toks.len(),
            s == views(toks@),
            skip_ws(s, p as int) == skip_ws(s, i as int),
        decreases toks.len() - i,
    {
        assert(s[i as int] == toks@[i as int]@);
        i = i + 1;
    }
    if i < toks.len() {
        assert(s[i as int] == toks@[i as int]@);
    }
    i
}

/// One step forward, stopping at the end.
pub fn advance(toks: &Vec<SqlToken>, p: usize) -> (r: usize)
    requires
        p <= toks.len(),
    ensures
        r == adv(views(toks@), p as int),
        r <= toks.len(),
{
    if p < toks.len() {
        p + 1
    } else {
        p
    }
}

/// Whether the token at `p` has kind `k`.
pub fn check_kind(toks: &Vec<SqlToken>, p: usize, k: TokenKind) -> (r: bool)
    ensures
        r == kind_at(views(toks@), p as int, k),
{
    if p < toks.len() {
        assert(views(toks@)[p as int] == toks@[p as int]@);
        toks[p].kind == k
    } else {
        false
    }
}

/// Whether the token at `p` is the keyword `kw`.
pub fn check_keyword(toks: &Vec<SqlToken>, p: usize, kw: &str) -> (r: bool)
    ensures
        r == kw_at(views(toks@), p as int, kw@),
{
    if p < toks.len() {
        assert(views(toks@)[p as int] == toks@[p as int]@);
        let t = &toks[p];
        matches!(t.kind, TokenKind::Word) && t.quote.is_none() && eq_ignore_ascii_case(
            t.value.as_str(),
            kw,
        )
    } else {
        false
    }
}

/// Whether the token at `p` is a word equal to `w` ignoring ASCII case.
pub fn check_word_ci(toks: &Vec<SqlToken>, p: usize, w: &str) -> (r: bool)
    ensures
        r == word_at(views(toks@), p as int, w@),
{
    if p < toks.len() {
        assert(views(toks@)[p as int] == toks@[p as int]@);
        let t = &toks[p];
        matches!(t.kind, TokenKind::Word) && eq_ignore_ascii_case(t.value.as_str(), w)
    } else {
        false
    }
}

/// An identifier at `p`.
pub fn parse_identifier(toks: &Vec<SqlToken>, p: usize) -> (r: (Option<String>, usize))
    requires
        p <= toks.len(),
    ensures
        (opt_str(r.0), r.1 as int) == ident(views(toks@), p as int),
        r.1 <= toks.len(),
{
    if p < toks.len() && matches!(toks[p].kind, TokenKind::Word) {
        assert(views(toks@)[p as int] == toks@[p as int]@);
        (Some(toks[p].value.clone()), p + 1)
    } else {
        if p < toks.len() {
            assert(views(toks@)[p as int] == toks@[p as int]@);
        }
        (None, p)
    }
}

/// Model of an optional string.
pub open spec fn opt_str(x: Option<String>) -> Option<Seq<char>> {
    match x {
        Some(a) => Some(a@),
        None => None,
    }
}

/// Model of an optional pair of strings.
pub open spec fn pair_view(x: Option<(String, String)>) -> Option<(Seq<char>, Seq<char>)> {
    match x {
        Some((a, b)) => Some((a@, b@)),
        None => None,
    }
}

/// A schema-qualified name at `p`; the schema defaults to `dbo`.
pub fn parse_schema_qualified_name(toks: &Vec<SqlToken>, p: usize) -> (r: (
    Option<(String, String)>,
    usize,
))
    requires
        p <= toks.len(),
    ensures
        (pair_view(r.0), r.1 as int) == schema_qualified_name(views(toks@), p as int),
        r.1 <= toks.len(),
{
    let (first, p1) = parse_identifier(toks, p);
    match first {
        None => (None, p1),
        Some(a) => {
            let p2 = skip_whitespace(toks, p1);
            if check_kind(toks, p2, TokenKind::Period) {
                let p3 = skip_whitespace(toks, p2 + 1);
                let (second, p4) = parse_identifier(toks, p3);
                match second {
                    None => (None, p4),
                    Some(b) => (Some((a, b)), p4),
                }
            } else {
                (Some((str_to_string("dbo"), a)), p2)
            }
        },
    }
}

/// Value of a nonempty digit sequence, if it is at most `limit`.
fn digits_to_u64(d: &Vec<char>, from: usize, limit: u64) -> (r: Option<u64>)
    requires
        from <= d.len(),
        limit >= 9,
        all_digits(d@.subrange(from as int, d.len() as int)),
    ensures
        r matches Some(v) ==> v == digits_value(d@.subrange(from as int, d.len() as int)) && v <= limit,
        r is None ==> digits_value(d@.subrange(from as int, d.len() as int)) > limit,
{
    let ghost full = d@.subrange(from as int, d.len() as int);
    let mut acc: u64 = 0;
    let mut i: usize = from;
    assert(full.subrange(0, 0) =~= Seq::<char>::empty());
    while i < d.len()
        invariant
            from <= i <= d.len(),
            full == d@.subrange(from as int, d.len() as int),
            all_digits(full),
            acc as nat == digits_value(full.subrange(0, i - from)),
            acc <= limit,
            limit >= 9,
        decreases d.len() - i,
    {
        let ghost pre = full.subrange(0, i - from);
        let ghost nxt = full.subrange(0, i + 1 - from);
        assert(nxt.drop_last() =~= pre);
        assert(nxt.last() == d@[i as int]);
        assert(is_ascii_digit(full[i - from]));
        assert(full[i - from] == d@[i as int]);
        let dig: u64 = ((d[i] as u32) - ('0' as u32)) as u64;
        assert(dig <= 9);
        assert(digits_value(nxt) == digits_value(pre) * 10 + dig);
        if acc > (limit - dig) / 10 {
            proof {
                assert(acc * 10 + dig > limit) by (nonlinear_arith)
                    requires
                        acc > (limit - dig) / 10,
                        dig <= 9,
                ;
                lemma_digits_value_mono(full, i + 1 - from);
            }
            return None;
        }
        proof {
            assert(acc * 10 + dig <= limit) by (nonlinear_arith)
                requires
                    acc <= (limit - dig) / 10,
                    dig <= limit,
            ;
        }
        acc = acc * 10 + dig;
        i = i + 1;
    }
    assert(full.subrange(0, d.len() - from) =~= full);
    Some(acc)
}

/// `str::parse::<i64>` on a string.
pub fn parse_i64_exec(t: &String) -> (r: Option<i64>)
    ensures
        r == parse_i64(t@),
{
    let v = chars_of(t.as_str());
    let mut from: usize = 0;
    let mut neg = false;
    if v.len() > 0 && v[0] == '-' {
        from = 1;
        neg = true;
    } else if v.len() > 0 && v[0] == '+' {
        from = 1;
    }
    let ghost d = v@.subrange(from as int, v.len() as int);
    proof {
        if from == 1 {
            assert(d =~= t@.drop_first());
        } else {
            assert(d =~= t@);
        }
        assert(sign_split(t@).1 == d);
        assert(sign_split(t@).0 == neg);
    }
    if from >= v.len() {
        return None;
    }
    let mut i: usize = from;
    while i < v.len()
        invariant
            from <= i <= v.len(),
            d == v@.subrange(from as int, v.len() as int),
            sign_split(t@).1 == d,
            forall|k: int| 0 <= k < i - from ==> is_ascii_digit(#[trigger] d[k]),
        decreases v.len() - i,
    {
        if !('0' <= v[i] && v[i] <= '9') {
            assert(!is_ascii_digit(d[i - from]));
            assert(!all_digits(d));
            return None;
        }
        i = i + 1;
    }
    assert(all_digits(d));
    if neg {
        match digits_to_u64(&v, from, 0x8000_0000_0000_0000u64) {
            Some(m) => {
                if m == 0x8000_0000_0000_0000u64 {
                    Some(i64::MIN)
                } else {
                    Some(-(m as i64))
                }
            },
            None => None,
        }
    } else {
        match digits_to_u64(&v, from, 0x7fff_ffff_ffff_ffffu64) {
            Some(m) => Some(m as i64),
            None => None,
        }
    }
}

/// `str::parse::<u64>` on a string.
pub fn parse_u64_exec(t: &String) -> (r: Option<u64>)
    ensures
        r == parse_u64(t@),
{
    let v = chars_of(t.as_str());
    let mut from: usize = 0;
    if v.len() > 0 && v[0] == '+' {
        from = 1;
    }
    let ghost d = v@.subrange(from as int, v.len() as int);
    proof {
        if from == 1 {
            assert(d =~= t@.drop_first());
        } else {
            assert(d =~= t@);
        }
    }
    if from >= v.len() {
        return None;
    }
    let mut i: usize = from;
    while i < v.len()
        invariant
            from <= i <= v.len(),
            d == v@.subrange(from as int, v.len() as int),
            d == (if t@.len() > 0 && t@[0] == '+' { t@.drop_first() } else { t@ }),
            forall|k: int| 0 <= k < i - from ==> is_ascii_digit(#[trigger] d[k]),
        decreases v.len() - i,
    {
        if !('0' <= v[i] && v[i] <= '9') {
            assert(!is_ascii_digit(d[i - from]));
            assert(!all_digits(d));
            return None;
        }
        i = i + 1;
    }
    assert(all_digits(d));
    digits_to_u64(&v, from, 0xffff_ffff_ffff_ffffu64)
}

/// A signed integer at `p`.
pub fn parse_signed_integer(toks: &Vec<SqlToken>, p: usize) -> (r: (Option<i64>, usize))
    requires
        p <= toks.len(),
    ensures
        (r.0, r.1 as int) == signed_integer(views(toks@), p as int),
        p <= r.1 <= toks.len(),
{
    if p >= toks.len() {
        return (None, p);
    }
    let neg = check_kind(toks, p, TokenKind::Minus);
    let p1 = if neg {
        skip_whitespace(toks, p + 1)
    } else {
        p
    };
    if check_kind(toks, p1, TokenKind::Number) {
        assert(views(toks@)[p1 as int] == toks@[p1 as int]@);
        match parse_i64_exec(&toks[p1].value) {
            Some(v) => {
                let out = if neg {
                    if v == i64::MIN {
                        i64::MIN
                    } else {
                        -v
                    }
                } else {
                    v
                };
                proof {
                    if neg && v == i64::MIN {
                        assert(((-v) as i64) == i64::MIN) by (bit_vector)
                            requires
                                v == i64::MIN,
                        ;
                    }
                }
                (Some(out), p1 + 1)
            },
            None => (None, p1),
        }
    } else {
        (None, p1)
    }
}

/// A positive integer at `p`.
pub fn parse_positive_integer(toks: &Vec<SqlToken>, p: usize) -> (r: (Option<u64>, usize))
    requires
        p <= toks.len(),
    ensures
        (r.0, r.1 as int) == positive_integer(views(toks@), p as int),
        r.1 <= toks.len(),
{
    if check_kind(toks, p, TokenKind::Number) {
        assert(views(toks@)[p as int] == toks@[p as int]@);
        match parse_u64_exec(&toks[p].value) {
            Some(v) => (Some(v), p + 1),
            None => (None, p),
        }
    } else {
        (None, p)
    }
}

/// Appends the characters of `v` with each `'` doubled.
pub fn push_escaped(out: &mut String, v: &String)
    ensures
        final(out)@ == old(out)@ + escape_quotes(v@),
{
    let c = chars_of(v.as_str());
    let mut i: usize = 0;
    let ghost start = out@;
    assert(c@.subrange(0, 0) =~= Seq::<char>::empty());
    while i < c.len()
        invariant
            c@ == v@,
            0 <= i <= c.len(),
            out@ == start + escape_quotes(c@.subrange(0, i as int)),
        decreases c.len() - i,
    {
        let ghost pre = c@.subrange(0, i as int);
        let ghost nxt = c@.subrange(0, i + 1);
        assert(nxt.drop_last() =~= pre);
        if c[i] == '\'' {
            push_char(out, '\'');
            push_char(out, '\'');
            assert(out@ =~= start + escape_quotes(nxt));
        } else {
            push_char(out, c[i]);
            assert(out@ =~= start + escape_quotes(nxt));
        }
        i = i + 1;
    }
    assert(c@.subrange(0, c@.len() as int) =~= c@);
}

/// Appends `token_string` of a token.
pub fn push_token_string(out: &mut String, t: &SqlToken)
    ensures
        final(out)@ == old(out)@ + token_string(t@),
{
    let name: &str = match t.kind {
        TokenKind::DoubleColon => "DoubleColon",
        TokenKind::AtSign => "AtSign",
        TokenKind::Sharp => "Sharp",
        TokenKind::Ampersand => "Ampersand",
        TokenKind::Pipe => "Pipe",
        TokenKind::Caret => "Caret",
        TokenKind::Tilde => "Tilde",
        TokenKind::ExclamationMark => "ExclamationMark",
        TokenKind::LBracket => "LBracket",
        TokenKind::RBracket => "RBracket",
        TokenKind::LBrace => "LBrace",
        TokenKind::RBrace => "RBrace",
        _ => "",
    };
    let by_name = match t.kind {
        TokenKind::DoubleColon | TokenKind::AtSign | TokenKind::Sharp | TokenKind::Ampersand
        | TokenKind::Pipe | TokenKind::Caret | TokenKind::Tilde | TokenKind::ExclamationMark
        | TokenKind::LBracket | TokenKind::RBracket | TokenKind::LBrace | TokenKind::RBrace => true,
        _ => false,
    };
    if by_name {
        out.append(name);
    } else if matches!(t.kind, TokenKind::HexStringLiteral) {
        out.append("HexStringLiteral(\"");
        append_string(out, &t.value);
        out.append("\")");
    } else {
        append_string(out, &t.text);
    }
}

/// Appends `token_sql` of a token.
pub fn push_token_sql(out: &mut String, t: &SqlToken)
    ensures
        final(out)@ == old(out)@ + token_sql(t@),
{
    let ghost start = out@;
    if matches!(t.kind, TokenKind::SingleQuotedString) {
        push_char(out, '\'');
        push_escaped(out, &t.value);
        push_char(out, '\'');
        assert(out@ =~= start + token_sql(t@));
    } else if matches!(t.kind, TokenKind::NationalStringLiteral) {
        push_char(out, 'N');
        push_char(out, '\'');
        push_escaped(out, &t.value);
        push_char(out, '\'');
        assert(out@ =~= start + token_sql(t@));
    } else if matches!(t.kind, TokenKind::HexStringLiteral) {
        push_char(out, '0');
        push_char(out, 'x');
        append_string(out, &t.value);
        assert(out@ =~= start + token_sql(t@));
    } else {
        append_string(out, &t.text);
    }
}

/// Concatenated `token_string` of the tokens in `[a, b)`.
pub fn tokens_to_string(toks: &Vec<SqlToken>, a: usize, b: usize) -> (r: String)
    requires
        a <= b <= toks.len(),
    ensures
        r@ == tokens_string(views(toks@), a as int, b as int),
{
    let mut out = String::new();
    let mut i: usize = a;
    while i < b
        invariant
            a <= i <= b <= toks.len(),
            out@ == tokens_string(views(toks@), a as int, i as int),
        decreases b - i,
    {
        assert(views(toks@)[i as int] == toks@[i as int]@);
        push_token_string(&mut out, &toks[i]);
        i = i + 1;
    }
    out
}

} // verus!
