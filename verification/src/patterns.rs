//! Regular-expression captures, through the `regex` crate.

use vstd::prelude::*;
use crate::cursor::opt_str;

verus! {

/// What `regex::Regex::captures` gives for the leftmost match of `pattern` in
/// `text`: the text of each group in order (group 0 is the whole match), `None`
/// for a group that took no part in the match; `None` overall when the pattern
/// does not compile or does not match.
pub uninterp spec fn regex_capture_groups(pattern: Seq<char>, text: Seq<char>) -> Option<
    Seq<Option<Seq<char>>>,
>;

pub open spec fn groups_view(v: Seq<Option<String>>) -> Seq<Option<Seq<char>>> {
    v.map_values(|g: Option<String>| opt_str(g))
}

pub open spec fn opt_groups_view(x: Option<Vec<Option<String>>>) -> Option<Seq<Option<Seq<char>>>> {
    match x {
        Some(v) => Some(groups_view(v@)),
        None => None,
    }
}

/// Group `k` of a capture result, as `regex::Captures::get` gives it.
pub open spec fn group_of(g: Option<Seq<Option<Seq<char>>>>, k: int) -> Option<Seq<char>> {
    match g {
        Some(v) => if 0 <= k < v.len() {
            v[k]
        } else {
            None
        },
        None => None,
    }
}

/// `regex::Regex::new(pattern)` and `Regex::captures(text)` (regex crate), each
/// group taken as a `String`. The contract names the result by
/// `regex_capture_groups`; nothing of the regex engine is stated.
#[verifier::external_body]
pub(crate) fn regex_captures(pattern: &str, text: &str) -> (r: Option<Vec<Option<String>>>)
    ensures
        opt_groups_view(r) == regex_capture_groups(pattern@, text@),
{
    let re = regex::Regex::new(pattern).ok()?;
    let caps = re.captures(text)?;
    Some(caps.iter().map(|m| m.map(|m| m.as_str().to_string())).collect())
}

/// Group `k` of a capture result (`None` past the last group).
pub fn capture_group(caps: &Option<Vec<Option<String>>>, k: usize) -> (r: Option<String>)
    ensures
        opt_str(r) == group_of(opt_groups_view(*caps), k as int),
{
    match caps {
        Some(v) => {
            if k < v.len() {
                match &v[k] {
                    Some(s) => Some(s.clone()),
                    None => None,
                }
            } else {
                None
            }
        },
        None => None,
    }
}

/// The characters with a meaning in a regular expression
/// (`regex_syntax::is_meta_character`).
pub open spec fn is_regex_meta(c: char) -> bool {
    c == '\\' || c == '.' || c == '+' || c == '*' || c == '?' || c == '(' || c == ')' || c == '|'
        || c == '[' || c == ']' || c == '{' || c == '}' || c == '^' || c == '$' || c == '#' || c
        == '&' || c == '-' || c == '~'
}

/// A text with a `\` put before each of its regex meta characters.
pub open spec fn regex_escaped(s: Seq<char>) -> Seq<char>
    decreases s.len(),
{
    if s.len() == 0 {
        Seq::empty()
    } else {
        regex_escaped(s.drop_last()) + if is_regex_meta(s.last()) {
            seq!['\\', s.last()]
        } else {
            seq![s.last()]
        }
    }
}

/// `regex::escape` (regex crate, through `regex_syntax::escape_into`), which
/// puts a `\` before each meta character of a text so that, in a pattern, it
/// matches itself. The contract states exactly that.
#[verifier::external_body]
pub(crate) fn escape_pattern(s: &str) -> (r: String)
    ensures
        r@ == regex_escaped(s@),
{
    regex::escape(s)
}

/// What `regex::Regex::find` gives for the leftmost match of `pattern` in
/// `text`, as the text before the match, the match, and the text after it;
/// `None` when the pattern does not compile or does not match.
pub uninterp spec fn regex_find_split(pattern: Seq<char>, text: Seq<char>) -> Option<
    (Seq<char>, Seq<char>, Seq<char>),
>;

/// `regex::Regex::new(pattern)` and `Regex::find(text)` (regex crate), the text
/// cut at the match's offsets. The contract names the result and states that
/// the three pieces make up the text, as the match's offsets into the text
/// give them.
#[verifier::external_body]
pub(crate) fn regex_find(pattern: &str, text: &str) -> (r: Option<(String, String, String)>)
    ensures
        match r {
            Some((a, m, b)) => regex_find_split(pattern@, text@) == Some((a@, m@, b@)) && a@ + m@
                + b@ == text@,
            None => regex_find_split(pattern@, text@) is None,
        },
{
    let re = regex::Regex::new(pattern).ok()?;
    let m = re.find(text)?;
    Some((text[..m.start()].to_string(), m.as_str().to_string(), text[m.end()..].to_string()))
}

} // verus!
