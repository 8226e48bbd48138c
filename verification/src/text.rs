//! Character and string helpers with specifications.
//!
//! Strings are reasoned about as `Seq<char>` (the view of `String`/`&str`).

use vstd::prelude::*;

verus! {

// ---------------------------------------------------------------------------
// Character classes
// ---------------------------------------------------------------------------

/// `char::is_whitespace`: the Unicode `White_Space` property.
pub open spec fn is_ws_char(c: char) -> bool {
    let u = c as u32;
    (9 <= u && u <= 13) || u == 32 || u == 0x85 || u == 0xA0 || u == 0x1680 || (0x2000 <= u
        && u <= 0x200A) || u == 0x2028 || u == 0x2029 || u == 0x202F || u == 0x205F || u
        == 0x3000
}

/// Executable `is_ws_char`.
pub fn is_ws(c: char) -> (r: bool)
    ensures
        r == is_ws_char(c),
{
    let u = c as u32;
    (9 <= u && u <= 13) || u == 32 || u == 0x85 || u == 0xA0 || u == 0x1680 || (0x2000 <= u
        && u <= 0x200A) || u == 0x2028 || u == 0x2029 || u == 0x202F || u == 0x205F || u
        == 0x3000
}

pub open spec fn is_ascii_digit(c: char) -> bool {
    '0' <= c && c <= '9'
}

/// ASCII lower-casing of one character (other characters are unchanged).
pub open spec fn lower_char(c: char) -> char {
    if 'A' <= c && c <= 'Z' {
        ((c as u32) + 32) as char
    } else {
        c
    }
}

/// ASCII upper-casing of one character (other characters are unchanged).
pub open spec fn upper_char(c: char) -> char {
    if 'a' <= c && c <= 'z' {
        ((c as u32) - 32) as char
    } else {
        c
    }
}

pub fn to_lower_char(c: char) -> (r: char)
    ensures
        r == lower_char(c),
{
    if 'A' <= c && c <= 'Z' {
        ((c as u32) + 32) as u8 as char
    } else {
        c
    }
}

pub fn to_upper_char(c: char) -> (r: char)
    ensures
        r == upper_char(c),
{
    if 'a' <= c && c <= 'z' {
        ((c as u32) - 32) as u8 as char
    } else {
        c
    }
}

pub open spec fn is_ascii_char(c: char) -> bool {
    (c as u32) < 128
}

pub open spec fn all_ascii(s: Seq<char>) -> bool {
    forall|i: int| 0 <= i < s.len() ==> is_ascii_char(#[trigger] s[i])
}

/// Equality of two strings.
pub fn text_eq(a: &str, b: &str) -> (r: bool)
    ensures
        r == (a@ == b@),
{
    let av = chars_of(a);
    let bv = chars_of(b);
    if av.len() != bv.len() {
        return false;
    }
    let mut i: usize = 0;
    while i < av.len()
        invariant
            av@ == a@,
            bv@ == b@,
            av.len() == bv.len(),
            0 <= i <= av.len(),
            forall|k: int| 0 <= k < i ==> av@[k] == bv@[k],
        decreases av.len() - i,
    {
        if av[i] != bv[i] {
            return false;
        }
        i = i + 1;
    }
    assert(av@ =~= bv@);
    true
}

/// ASCII upper-casing of a string.
pub open spec fn ascii_upper(s: Seq<char>) -> Seq<char> {
    s.map_values(|c: char| upper_char(c))
}

/// `eq_ignore_ascii_case`.
pub open spec fn eq_ci(a: Seq<char>, b: Seq<char>) -> bool {
    a.len() == b.len() && forall|i: int| 0 <= i < a.len() ==> lower_char(#[trigger] a[i]) == lower_char(b[i])
}

// ---------------------------------------------------------------------------
// Trimming
// ---------------------------------------------------------------------------

/// First index at or after `i` whose character does not satisfy `p`.
pub open spec fn skip_fwd(s: Seq<char>, i: int, p: spec_fn(char) -> bool) -> int
    decreases s.len() - i,
{
    if 0 <= i < s.len() && p(s[i]) {
        skip_fwd(s, i + 1, p)
    } else {
        i
    }
}

/// Largest index at or before `j` such that `s[j - 1]` does not satisfy `p` (or 0).
pub open spec fn skip_back(s: Seq<char>, j: int, p: spec_fn(char) -> bool) -> int
    decreases j,
{
    if 0 < j <= s.len() && p(s[j - 1]) {
        skip_back(s, j - 1, p)
    } else {
        j
    }
}

/// Removes every leading and trailing character satisfying `p` (`str::trim_matches`).
pub open spec fn trim_by(s: Seq<char>, p: spec_fn(char) -> bool) -> Seq<char> {
    let a = skip_fwd(s, 0, p);
    let b = skip_back(s, s.len() as int, p);
    if a < b {
        s.subrange(a, b)
    } else {
        Seq::empty()
    }
}

pub open spec fn ws_pred() -> spec_fn(char) -> bool {
    |c: char| is_ws_char(c)
}

pub open spec fn ident_quote_pred() -> spec_fn(char) -> bool {
    |c: char| c == '[' || c == ']' || c == '"'
}

pub open spec fn open_bracket_pred() -> spec_fn(char) -> bool {
    |c: char| c == '['
}

pub open spec fn close_bracket_pred() -> spec_fn(char) -> bool {
    |c: char| c == ']'
}

pub open spec fn dquote_pred() -> spec_fn(char) -> bool {
    |c: char| c == '"'
}

/// `str::trim`.
pub open spec fn trim(s: Seq<char>) -> Seq<char> {
    trim_by(s, ws_pred())
}

/// `str::trim_start_matches(c)` for a single character predicate.
pub open spec fn trim_start_by(s: Seq<char>, p: spec_fn(char) -> bool) -> Seq<char> {
    s.subrange(skip_fwd(s, 0, p), s.len() as int)
}

/// `str::trim_end_matches(c)` for a single character predicate.
pub open spec fn trim_end_by(s: Seq<char>, p: spec_fn(char) -> bool) -> Seq<char> {
    s.subrange(0, skip_back(s, s.len() as int, p))
}

pub proof fn lemma_skip_fwd_bounds(s: Seq<char>, i: int, p: spec_fn(char) -> bool)
    requires
        0 <= i <= s.len(),
    ensures
        i <= skip_fwd(s, i, p) <= s.len(),
        forall|k: int| i <= k < skip_fwd(s, i, p) ==> p(#[trigger] s[k]),
        skip_fwd(s, i, p) < s.len() ==> !p(s[skip_fwd(s, i, p)]),
    decreases s.len() - i,
{
    if i < s.len() && p(s[i]) {
        lemma_skip_fwd_bounds(s, i + 1, p);
    }
}

pub proof fn lemma_skip_back_bounds(s: Seq<char>, j: int, p: spec_fn(char) -> bool)
    requires
        0 <= j <= s.len(),
    ensures
        0 <= skip_back(s, j, p) <= j,
        forall|k: int| skip_back(s, j, p) <= k < j ==> p(#[trigger] s[k]),
        skip_back(s, j, p) > 0 ==> !p(s[skip_back(s, j, p) - 1]),
    decreases j,
{
    if j > 0 && p(s[j - 1]) {
        lemma_skip_back_bounds(s, j - 1, p);
    }
}

/// If some character at or after `i` and before `j` fails `p`, the forward skip stops before `j`.
pub proof fn lemma_skip_fwd_stops(s: Seq<char>, i: int, k: int, p: spec_fn(char) -> bool)
    requires
        0 <= i <= k < s.len(),
        !p(s[k]),
    ensures
        skip_fwd(s, i, p) <= k,
    decreases k - i,
{
    if p(s[i]) {
        lemma_skip_fwd_stops(s, i + 1, k, p);
    }
}

// ---------------------------------------------------------------------------
// Searching
// ---------------------------------------------------------------------------

/// Whether `pat` occurs in `s` at position `i`.
pub open spec fn occurs_at(s: Seq<char>, pat: Seq<char>, i: int) -> bool {
    0 <= i && i + pat.len() <= s.len() && s.subrange(i, i + pat.len()) == pat
}

/// First position at or after `i` where `pat` occurs.
pub open spec fn find_from(s: Seq<char>, pat: Seq<char>, i: int) -> Option<int>
    decreases s.len() + 1 - i,
{
    if i < 0 || i + pat.len() > s.len() {
        None
    } else if occurs_at(s, pat, i) {
        Some(i)
    } else {
        find_from(s, pat, i + 1)
    }
}

/// `str::find` (as a character index).
pub open spec fn find(s: Seq<char>, pat: Seq<char>) -> Option<int> {
    find_from(s, pat, 0)
}

/// `str::contains`.
pub open spec fn contains(s: Seq<char>, pat: Seq<char>) -> bool {
    find(s, pat) is Some
}

pub proof fn lemma_find_from_props(s: Seq<char>, pat: Seq<char>, i: int)
    requires
        0 <= i,
    ensures
        find_from(s, pat, i) matches Some(k) ==> i <= k && occurs_at(s, pat, k) && forall|m: int|
            i <= m < k ==> !occurs_at(s, pat, m),
        find_from(s, pat, i) is None ==> forall|m: int| i <= m ==> !occurs_at(s, pat, m),
    decreases s.len() + 1 - i,
{
    if i + pat.len() > s.len() {
    } else if occurs_at(s, pat, i) {
    } else {
        lemma_find_from_props(s, pat, i + 1);
    }
}

/// Executable `occurs_at` on a character vector.
pub fn occurs_at_exec(s: &Vec<char>, pat: &Vec<char>, i: usize) -> (r: bool)
    ensures
        r == occurs_at(s@, pat@, i as int),
{
    if i > s.len() || pat.len() > s.len() - i {
        return false;
    }
    let mut k: usize = 0;
    while k < pat.len()
        invariant
            i + pat.len() <= s.len(),
            0 <= k <= pat.len(),
            forall|m: int| 0 <= m < k ==> s@[i + m] == pat@[m],
        decreases pat.len() - k,
    {
        if s[i + k] != pat[k] {
            assert(s@.subrange(i as int, i + pat@.len())[k as int] != pat@[k as int]);
            return false;
        }
        k = k + 1;
    }
    assert(s@.subrange(i as int, i + pat@.len()) =~= pat@);
    true
}

/// Executable `find_from`.
pub fn find_from_exec(s: &Vec<char>, pat: &Vec<char>, i: usize) -> (r: Option<usize>)
    ensures
        r matches Some(k) ==> find_from(s@, pat@, i as int) == Some(k as int),
        r is None ==> find_from(s@, pat@, i as int) is None,
{
    if pat.len() == 0 {
        if i <= s.len() {
            assert(s@.subrange(i as int, i as int) =~= pat@);
            return Some(i);
        }
        return None;
    }
    let mut j: usize = i;
    while j <= s.len() && pat.len() <= s.len() - j
        invariant
            i <= j,
            pat.len() > 0,
            find_from(s@, pat@, i as int) == find_from(s@, pat@, j as int),
        decreases s.len() + 1 - j,
    {
        if occurs_at_exec(s, pat, j) {
            return Some(j);
        }
        j = j + 1;
    }
    None
}

// ---------------------------------------------------------------------------
// Conversions with std
// ---------------------------------------------------------------------------

/// The characters of a string slice.
pub fn chars_of(s: &str) -> (r: Vec<char>)
    ensures
        r@ == s@,
{
    let mut out: Vec<char> = Vec::new();
    for c in it: s.chars()
        invariant
            out@ == it.seq().take(it.index() as int),
    {
        out.push(c);
    }
    out
}

/// `String::push` (std).
#[verifier::external_body]
pub fn push_char(s: &mut String, c: char)
    ensures
        final(s)@ == old(s)@.push(c),
{
    s.push(c);
}

/// `str::to_string` (std).
pub fn str_to_string(s: &str) -> (r: String)
    ensures
        r@ == s@,
{
    let mut r = String::new();
    r.append(s);
    r
}

/// A string holding the characters `v[from..to]`.
pub fn string_from_range(v: &Vec<char>, from: usize, to: usize) -> (r: String)
    requires
        from <= to <= v.len(),
    ensures
        r@ == v@.subrange(from as int, to as int),
{
    let mut r = String::new();
    let mut i: usize = from;
    while i < to
        invariant
            from <= i <= to <= v.len(),
            r@ == v@.subrange(from as int, i as int),
        decreases to - i,
    {
        push_char(&mut r, v[i]);
        assert(v@.subrange(from as int, i + 1) =~= v@.subrange(from as int, i as int).push(v@[i as int]));
        i = i + 1;
    }
    r
}

/// A string holding all characters of `v`.
pub fn string_from_chars(v: &Vec<char>) -> (r: String)
    ensures
        r@ == v@,
{
    let r = string_from_range(v, 0, v.len());
    assert(v@.subrange(0, v@.len() as int) =~= v@);
    r
}

/// Appends the characters of `t` to `s`.
pub fn append_string(s: &mut String, t: &String)
    ensures
        final(s)@ == old(s)@ + t@,
{
    s.append(t.as_str());
}

/// `eq_ignore_ascii_case` on strings.
pub fn eq_ignore_ascii_case(a: &str, b: &str) -> (r: bool)
    ensures
        r == eq_ci(a@, b@),
{
    let av = chars_of(a);
    let bv = chars_of(b);
    if av.len() != bv.len() {
        return false;
    }
    let mut i: usize = 0;
    while i < av.len()
        invariant
            av@ == a@,
            bv@ == b@,
            av.len() == bv.len(),
            0 <= i <= av.len(),
            forall|k: int| 0 <= k < i ==> lower_char(#[trigger] av@[k]) == lower_char(bv@[k]),
        decreases av.len() - i,
    {
        if to_lower_char(av[i]) != to_lower_char(bv[i]) {
            return false;
        }
        i = i + 1;
    }
    true
}

/// ASCII upper-casing of a string.
pub fn to_ascii_upper(s: &str) -> (r: String)
    ensures
        r@ == ascii_upper(s@),
{
    let v = chars_of(s);
    let mut r = String::new();
    let mut i: usize = 0;
    while i < v.len()
        invariant
            v@ == s@,
            0 <= i <= v.len(),
            r@ == ascii_upper(s@).subrange(0, i as int),
        decreases v.len() - i,
    {
        push_char(&mut r, to_upper_char(v[i]));
        assert(ascii_upper(s@).subrange(0, i + 1) =~= ascii_upper(s@).subrange(0, i as int).push(
            upper_char(v@[i as int]),
        ));
        i = i + 1;
    }
    assert(ascii_upper(s@).subrange(0, v@.len() as int) =~= ascii_upper(s@));
    r
}

/// Case-insensitive (ASCII) substring test.
pub open spec fn contains_ci(s: Seq<char>, pat: Seq<char>) -> bool {
    contains(ascii_upper(s), ascii_upper(pat))
}

/// Case-insensitive (ASCII) prefix test.
pub open spec fn starts_with_ci(s: Seq<char>, pat: Seq<char>) -> bool {
    pat.len() <= s.len() && eq_ci(s.subrange(0, pat.len() as int), pat)
}

/// Whether `pat` occurs in `s`, ignoring ASCII case.
pub fn contains_ci_exec(s: &str, pat: &str) -> (r: bool)
    ensures
        r == contains_ci(s@, pat@),
{
    let a = chars_of(to_ascii_upper(s).as_str());
    let b = chars_of(to_ascii_upper(pat).as_str());
    find_from_exec(&a, &b, 0).is_some()
}

/// Whether `s` starts with `pat`, ignoring ASCII case.
pub fn starts_with_ci_exec(s: &str, pat: &str) -> (r: bool)
    ensures
        r == starts_with_ci(s@, pat@),
{
    let a = chars_of(s);
    let b = chars_of(pat);
    if b.len() > a.len() {
        return false;
    }
    let mut i: usize = 0;
    while i < b.len()
        invariant
            a@ == s@,
            b@ == pat@,
            b.len() <= a.len(),
            0 <= i <= b.len(),
            forall|k: int| 0 <= k < i ==> lower_char(#[trigger] a@[k]) == lower_char(b@[k]),
        decreases b.len() - i,
    {
        if to_lower_char(a[i]) != to_lower_char(b[i]) {
            assert(lower_char(s@.subrange(0, pat@.len() as int)[i as int]) != lower_char(pat@[i as int]));
            return false;
        }
        i = i + 1;
    }
    true
}

/// What `str::to_uppercase` returns: Unicode upper-casing, a function of the string alone.
pub uninterp spec fn unicode_upper(s: Seq<char>) -> Seq<char>;

/// `str::to_uppercase` (std). Its documentation defines the result by the Unicode
/// `Uppercase` mapping; the contract names that result and states the ASCII case,
/// where every character maps by `upper_char`. The mapping of other characters is
/// left unsaid.
#[verifier::external_body]
pub fn to_uppercase(s: &str) -> (r: String)
    ensures
        r@ == unicode_upper(s@),
        all_ascii(s@) ==> r@ == ascii_upper(s@),
{
    s.to_uppercase()
}

/// What `str::to_lowercase` returns: Unicode lower-casing, a function of the string alone.
pub uninterp spec fn unicode_lower(s: Seq<char>) -> Seq<char>;

/// The ASCII lower-casing of a string.
pub open spec fn ascii_lower(s: Seq<char>) -> Seq<char> {
    s.map_values(|c: char| lower_char(c))
}

/// `str::to_lowercase` (std). Its documentation defines the result by the Unicode
/// `Lowercase` mapping; the contract names that result and states the ASCII case,
/// where every character maps by `lower_char`. The mapping of other characters is
/// left unsaid.
#[verifier::external_body]
pub fn to_lowercase(s: &str) -> (r: String)
    ensures
        r@ == unicode_lower(s@),
        all_ascii(s@) ==> r@ == ascii_lower(s@),
{
    s.to_lowercase()
}

} // verus!

verus! {

// ---------------------------------------------------------------------------
// Executable trimming and slicing on character vectors
// ---------------------------------------------------------------------------

/// The character classes that the trimming helpers use.
#[derive(Clone, Copy, PartialEq, Eq, Debug, Structural)]
pub enum CharSet {
    Whitespace,
    IdentQuote,
    OpenBracket,
    CloseBracket,
    DoubleQuote,
}

pub open spec fn charset_pred(cs: CharSet) -> spec_fn(char) -> bool {
    match cs {
        CharSet::Whitespace => ws_pred(),
        CharSet::IdentQuote => ident_quote_pred(),
        CharSet::OpenBracket => open_bracket_pred(),
        CharSet::CloseBracket => close_bracket_pred(),
        CharSet::DoubleQuote => dquote_pred(),
    }
}

pub fn in_set(cs: CharSet, c: char) -> (r: bool)
    ensures
        r == charset_pred(cs)(c),
{
    match cs {
        CharSet::Whitespace => is_ws(c),
        CharSet::IdentQuote => c == '[' || c == ']' || c == '"',
        CharSet::OpenBracket => c == '[',
        CharSet::CloseBracket => c == ']',
        CharSet::DoubleQuote => c == '"',
    }
}

pub fn skip_fwd_exec(v: &Vec<char>, i: usize, cs: CharSet) -> (r: usize)
    requires
        i <= v.len(),
    ensures
        r == skip_fwd(v@, i as int, charset_pred(cs)),
        i <= r <= v.len(),
{
    let mut k: usize = i;
    while k < v.len() && in_set(cs, v[k])
        invariant
            i <= k <= v.len(),
            skip_fwd(v@, i as int, charset_pred(cs)) == skip_fwd(v@, k as int, charset_pred(cs)),
        decreases v.len() - k,
    {
        k = k + 1;
    }
    k
}

pub fn skip_back_exec(v: &Vec<char>, j: usize, cs: CharSet) -> (r: usize)
    requires
        j <= v.len(),
    ensures
        r == skip_back(v@, j as int, charset_pred(cs)),
        r <= j,
{
    let mut k: usize = j;
    while k > 0 && in_set(cs, v[k - 1])
        invariant
            k <= j <= v.len(),
            skip_back(v@, j as int, charset_pred(cs)) == skip_back(v@, k as int, charset_pred(cs)),
        decreases k,
    {
        k = k - 1;
    }
    k
}

/// The characters `v[a..b]`.
pub fn sub_vec(v: &Vec<char>, a: usize, b: usize) -> (r: Vec<char>)
    requires
        a <= b <= v.len(),
    ensures
        r@ == v@.subrange(a as int, b as int),
{
    let mut out: Vec<char> = Vec::new();
    let mut i: usize = a;
    while i < b
        invariant
            a <= i <= b <= v.len(),
            out@ == v@.subrange(a as int, i as int),
        decreases b - i,
    {
        out.push(v[i]);
        assert(v@.subrange(a as int, i + 1) =~= v@.subrange(a as int, i as int).push(v@[i as int]));
        i = i + 1;
    }
    out
}

/// `trim_by` with a character class.
pub fn trim_set(v: &Vec<char>, cs: CharSet) -> (r: Vec<char>)
    ensures
        r@ == trim_by(v@, charset_pred(cs)),
{
    let a = skip_fwd_exec(v, 0, cs);
    let b = skip_back_exec(v, v.len(), cs);
    if a < b {
        sub_vec(v, a, b)
    } else {
        Vec::new()
    }
}

/// `trim_start_by` with a character class.
pub fn trim_start_set(v: &Vec<char>, cs: CharSet) -> (r: Vec<char>)
    ensures
        r@ == trim_start_by(v@, charset_pred(cs)),
{
    let a = skip_fwd_exec(v, 0, cs);
    sub_vec(v, a, v.len())
}

/// `trim_end_by` with a character class.
pub fn trim_end_set(v: &Vec<char>, cs: CharSet) -> (r: Vec<char>)
    ensures
        r@ == trim_end_by(v@, charset_pred(cs)),
{
    let b = skip_back_exec(v, v.len(), cs);
    sub_vec(v, 0, b)
}

/// Part of `s` before the first occurrence of `pat` (`split_once(..).0`).
pub open spec fn before_first(s: Seq<char>, pat: Seq<char>) -> Seq<char> {
    s.subrange(0, find(s, pat).unwrap())
}

/// Part of `s` after the first occurrence of `pat` (`split_once(..).1`).
pub open spec fn after_first(s: Seq<char>, pat: Seq<char>) -> Seq<char> {
    s.subrange(find(s, pat).unwrap() + pat.len(), s.len() as int)
}

pub open spec fn starts_with_char(s: Seq<char>, c: char) -> bool {
    s.len() > 0 && s[0] == c
}

pub open spec fn ends_with_char(s: Seq<char>, c: char) -> bool {
    s.len() > 0 && s.last() == c
}

/// Finds `pat` (given as text) in `v`.
pub fn find_str(v: &Vec<char>, pat: &str) -> (r: Option<usize>)
    ensures
        r matches Some(k) ==> find(v@, pat@) == Some(k as int) && k + pat@.len() <= v.len(),
        r is None ==> find(v@, pat@) is None,
{
    let p = chars_of(pat);
    let r = find_from_exec(v, &p, 0);
    proof {
        lemma_find_from_props(v@, pat@, 0);
    }
    r
}

/// `split_once(pat)`, when `pat` occurs.
pub fn split_once_str(v: &Vec<char>, pat: &str) -> (r: Option<(Vec<char>, Vec<char>)>)
    ensures
        r is Some <==> contains(v@, pat@),
        r matches Some((a, b)) ==> a@ == before_first(v@, pat@) && b@ == after_first(v@, pat@),
{
    match find_str(v, pat) {
        Some(k) => {
            let n = pat.unicode_len();
            Some((sub_vec(v, 0, k), sub_vec(v, k + n, v.len())))
        },
        None => None,
    }
}

pub fn starts_with_c(v: &Vec<char>, c: char) -> (r: bool)
    ensures
        r == starts_with_char(v@, c),
{
    v.len() > 0 && v[0] == c
}

pub fn ends_with_c(v: &Vec<char>, c: char) -> (r: bool)
    ensures
        r == ends_with_char(v@, c),
{
    v.len() > 0 && v[v.len() - 1] == c
}

/// Appends characters to a string.
pub fn push_chars(s: &mut String, v: &Vec<char>)
    ensures
        final(s)@ == old(s)@ + v@,
{
    let ghost start = s@;
    let mut i: usize = 0;
    while i < v.len()
        invariant
            0 <= i <= v.len(),
            s@ == start + v@.subrange(0, i as int),
        decreases v.len() - i,
    {
        push_char(s, v[i]);
        assert(v@.subrange(0, i + 1) =~= v@.subrange(0, i as int).push(v@[i as int]));
        assert(s@ =~= start + v@.subrange(0, i + 1));
        i = i + 1;
    }
    assert(v@.subrange(0, v@.len() as int) =~= v@);
}

} // verus!
