//! `CREATE TYPE`: telling an alias type (`CREATE TYPE t FROM basetype`) from a
//! table type (`CREATE TYPE t AS TABLE (...)`), reading an alias type's base
//! type, size and nullability, and reading the type's name.

use vstd::prelude::*;
use crate::text::{to_lowercase, unicode_lower, text_eq, str_to_string};
use crate::lexer::{SqlToken, TokenKind, TokenView, views, lex_sql, tokenize};
use crate::cursor::{is_kw, kw_at, skip_ws, parse_i64, parse_i64_exec, skip_whitespace, check_keyword, pair_view};
use crate::patterns::{regex_capture_groups, group_of, regex_captures, capture_group, opt_groups_view};

verus! {

/// The pattern that reads the name of a `CREATE TYPE`: schema (bracketed or
/// plain word) and name.
pub const TYPE_NAME_PATTERN: &'static str = "(?i)CREATE\\s+TYPE\\s+(?:(?:\\[([^\\]]+)\\]|(\\w+))\\.)?(?:\\[([^\\]]+)\\]|(\\w+))";

/// Base type, nullability and size of an alias type.
#[derive(Debug, Clone)]
pub struct ScalarTypeInfo {
    /// Base type, lower-cased (`varchar`).
    pub base_type: String,
    /// False when `NOT NULL` is given.
    pub is_nullable: bool,
    /// Length of a string type; -1 for `MAX`.
    pub length: Option<i32>,
    /// Precision of a decimal type.
    pub precision: Option<u8>,
    /// Scale of a decimal type.
    pub scale: Option<u8>,
}

pub struct ScalarTypeInfoView {
    pub base_type: Seq<char>,
    pub is_nullable: bool,
    pub length: Option<i32>,
    pub precision: Option<u8>,
    pub scale: Option<u8>,
}

impl View for ScalarTypeInfo {
    type V = ScalarTypeInfoView;

    open spec fn view(&self) -> ScalarTypeInfoView {
        ScalarTypeInfoView {
            base_type: self.base_type@,
            is_nullable: self.is_nullable,
            length: self.length,
            precision: self.precision,
            scale: self.scale,
        }
    }
}

pub open spec fn opt_scalar_info(r: Option<ScalarTypeInfo>) -> Option<ScalarTypeInfoView> {
    match r {
        Some(x) => Some(x@),
        None => None,
    }
}

// ---------------------------------------------------------------------------
// Specification
// ---------------------------------------------------------------------------

/// Parenthesis depth after a token: `(` opens, `)` closes (saturating at the
/// bottom of `i32`).
pub open spec fn depth_after(t: TokenView, d: int) -> int {
    if t.kind == TokenKind::LParen {
        d + 1
    } else if t.kind == TokenKind::RParen {
        if d > i32::MIN {
            d - 1
        } else {
            d
        }
    } else {
        d
    }
}

/// Scan of a `CREATE TYPE`: whether `TYPE`, then `FROM`, then `AS TABLE` were
/// seen at depth 0, from token `i` at depth `d`.
pub open spec fn type_scan(s: Seq<TokenView>, i: int, d: int, st: (bool, bool, bool)) -> (
    bool,
    bool,
    bool,
)
    decreases s.len() - i,
{
    if i < 0 || i >= s.len() {
        st
    } else {
        let t = s[i];
        let (found_type, has_from, has_as_table) = st;
        let next = if t.kind == TokenKind::LParen || t.kind == TokenKind::RParen {
            st
        } else if is_kw(t, "TYPE"@) && d == 0 {
            (true, has_from, has_as_table)
        } else if is_kw(t, "FROM"@) && d == 0 && found_type {
            (found_type, true, has_as_table)
        } else if is_kw(t, "AS"@) && d == 0 && found_type {
            (found_type, has_from, has_as_table || kw_at(s, skip_ws(s, i + 1), "TABLE"@))
        } else {
            st
        };
        type_scan(s, i + 1, depth_after(t, d), next)
    }
}

/// `Some(true)` for an alias type (`FROM` without `AS TABLE`), `Some(false)`
/// for a table type (`AS TABLE`), `None` otherwise or without `TYPE`.
pub open spec fn scalar_type_kind(s: Seq<TokenView>) -> Option<bool> {
    let (found_type, has_from, has_as_table) = type_scan(s, 0, 0, (false, false, false));
    if !found_type {
        None
    } else if has_from && !has_as_table {
        Some(true)
    } else if has_as_table {
        Some(false)
    } else {
        None
    }
}

pub open spec fn scalar_type_definition(sql: Seq<char>) -> Option<bool> {
    match lex_sql(sql) {
        Some(s) => scalar_type_kind(s),
        None => None,
    }
}

/// The first `FROM` keyword at depth 0, from token `i` at depth `d`.
pub open spec fn top_level_from(s: Seq<TokenView>, i: int, d: int) -> Option<int>
    decreases s.len() - i,
{
    if i < 0 || i >= s.len() {
        None
    } else if s[i].kind != TokenKind::LParen && s[i].kind != TokenKind::RParen && is_kw(
        s[i],
        "FROM"@,
    ) && d == 0 {
        Some(i)
    } else {
        top_level_from(s, i + 1, depth_after(s[i], d))
    }
}

/// The tokens that are not whitespace, in order.
pub open spec fn drop_ws(s: Seq<TokenView>) -> Seq<TokenView>
    decreases s.len(),
{
    if s.len() == 0 {
        s
    } else if s.last().kind == TokenKind::Whitespace {
        drop_ws(s.drop_last())
    } else {
        drop_ws(s.drop_last()).push(s.last())
    }
}

/// Whether `NOT NULL` occurs at depth 0 in `a` from `i` (`found` so far).
pub open spec fn not_null_scan(a: Seq<TokenView>, i: int, d: int, found: bool) -> bool
    decreases a.len() - i,
{
    if i < 0 || i >= a.len() {
        found
    } else {
        let t = a[i];
        let f = if t.kind != TokenKind::LParen && t.kind != TokenKind::RParen && is_kw(t, "NOT"@)
            && d == 0 && i + 1 < a.len() && is_kw(a[i + 1], "NULL"@) {
            true
        } else {
            found
        };
        not_null_scan(a, i + 1, depth_after(t, d), f)
    }
}

/// `str::parse::<i32>`.
pub open spec fn parse_i32(t: Seq<char>) -> Option<i32> {
    match parse_i64(t) {
        Some(v) => if i32::MIN <= v <= i32::MAX {
            Some(v as i32)
        } else {
            None
        },
        None => None,
    }
}

/// The numbers (those that fit in `i32`) and whether `MAX` occurs, from `i` up
/// to the first `)`.
pub open spec fn size_scan(a: Seq<TokenView>, i: int, nums: Seq<i32>, is_max: bool) -> (
    Seq<i32>,
    bool,
)
    decreases a.len() - i,
{
    if i < 0 || i >= a.len() {
        (nums, is_max)
    } else {
        let t = a[i];
        if t.kind == TokenKind::Number {
            size_scan(
                a,
                i + 1,
                match parse_i32(t.value) {
                    Some(n) => nums.push(n),
                    None => nums,
                },
                is_max,
            )
        } else if is_kw(t, "MAX"@) {
            size_scan(a, i + 1, nums, true)
        } else if t.kind == TokenKind::RParen {
            (nums, is_max)
        } else {
            size_scan(a, i + 1, nums, is_max)
        }
    }
}

/// Length, precision and scale from the size after the base type: `(MAX)` is
/// length -1, two numbers are precision and scale, one number is the length,
/// or the precision (scale 0) of `decimal` and `numeric`.
pub open spec fn type_size(a: Seq<TokenView>, base: Seq<char>) -> (Option<i32>, Option<u8>, Option<u8>) {
    if a.len() > 1 && a[1].kind == TokenKind::LParen {
        let (nums, is_max) = size_scan(a, 2, Seq::empty(), false);
        if is_max {
            (Some(-1i32), None, None)
        } else if nums.len() == 2 {
            (None, Some(nums[0] as u8), Some(nums[1] as u8))
        } else if nums.len() == 1 {
            if base == "decimal"@ || base == "numeric"@ {
                (None, Some(nums[0] as u8), Some(0u8))
            } else {
                (Some(nums[0]), None, None)
            }
        } else {
            (None, None, None)
        }
    } else {
        (None, None, None)
    }
}

/// The alias type read from the tokens after the first top-level `FROM`.
pub open spec fn scalar_info(s: Seq<TokenView>) -> Option<ScalarTypeInfoView> {
    match top_level_from(s, 0, 0) {
        None => None,
        Some(f) => {
            let a = drop_ws(s.subrange(f + 1, s.len() as int));
            if a.len() == 0 || a[0].kind != TokenKind::Word {
                None
            } else {
                let base = unicode_lower(a[0].value);
                let (length, precision, scale) = type_size(a, base);
                Some(
                    ScalarTypeInfoView {
                        base_type: base,
                        is_nullable: !not_null_scan(a, 0, 0, false),
                        length,
                        precision,
                        scale,
                    },
                )
            }
        },
    }
}

pub open spec fn scalar_type_info(sql: Seq<char>) -> Option<ScalarTypeInfoView> {
    match lex_sql(sql) {
        Some(s) => scalar_info(s),
        None => None,
    }
}

/// The first group that took part in the match.
pub open spec fn first_group(a: Option<Seq<char>>, b: Option<Seq<char>>) -> Option<Seq<char>> {
    match a {
        Some(x) => Some(x),
        None => b,
    }
}

/// Schema and name from the groups of a name pattern: the schema is group 1
/// (bracketed) or 2 (plain), `dbo` when neither took part; the name is group 3
/// or 4, and without it there is no name.
pub open spec fn schema_and_name(g: Option<Seq<Option<Seq<char>>>>) -> Option<(Seq<char>, Seq<char>)> {
    match g {
        None => None,
        Some(_) => match first_group(group_of(g, 3), group_of(g, 4)) {
            None => None,
            Some(name) => Some(
                (
                    match first_group(group_of(g, 1), group_of(g, 2)) {
                        Some(schema) => schema,
                        None => "dbo"@,
                    },
                    name,
                ),
            ),
        },
    }
}

/// Schema (`dbo` when not given) and name of a `CREATE TYPE`, as the name
/// pattern captures them.
pub open spec fn alias_type_name(sql: Seq<char>) -> Option<(Seq<char>, Seq<char>)> {
    schema_and_name(regex_capture_groups(TYPE_NAME_PATTERN@, sql))
}

// ---------------------------------------------------------------------------
// Executable
// ---------------------------------------------------------------------------

fn depth_after_exec(t: &SqlToken, d: i128) -> (r: i128)
    requires
        -(usize::MAX as int) - 1 <= d <= usize::MAX,
    ensures
        r == depth_after(t@, d as int),
{
    if matches!(t.kind, TokenKind::LParen) {
        d + 1
    } else if matches!(t.kind, TokenKind::RParen) {
        if d > i32::MIN as i128 {
            d - 1
        } else {
            d
        }
    } else {
        d
    }
}

/// Alias type (`Some(true)`), table type (`Some(false)`), or neither, over tokens.
pub fn scalar_type_kind_exec(toks: &Vec<SqlToken>) -> (r: Option<bool>)
    ensures
        r == scalar_type_kind(views(toks@)),
{
    let ghost s = views(toks@);
    let mut i: usize = 0;
    let mut d: i128 = 0;
    let mut found_type = false;
    let mut has_from = false;
    let mut has_as_table = false;
    while i < toks.len()
        invariant
            s == views(toks@),
            0 <= i <= toks.len(),
            -(i as int) <= d <= i as int,
            type_scan(s, 0, 0, (false, false, false)) == type_scan(
                s,
                i as int,
                d as int,
                (found_type, has_from, has_as_table),
            ),
        decreases toks.len() - i,
    {
        assert(s[i as int] == toks@[i as int]@);
        let t = &toks[i];
        if matches!(t.kind, TokenKind::LParen) || matches!(t.kind, TokenKind::RParen) {
        } else if check_keyword(toks, i, "TYPE") && d == 0 {
            found_type = true;
        } else if check_keyword(toks, i, "FROM") && d == 0 && found_type {
            has_from = true;
        } else if check_keyword(toks, i, "AS") && d == 0 && found_type {
            if check_keyword(toks, skip_whitespace(toks, i + 1), "TABLE") {
                has_as_table = true;
            }
        }
        d = depth_after_exec(t, d);
        i = i + 1;
    }
    if !found_type {
        None
    } else if has_from && !has_as_table {
        Some(true)
    } else if has_as_table {
        Some(false)
    } else {
        None
    }
}

/// Whether a `CREATE TYPE` defines an alias type (`Some(true)`: `FROM` without
/// `AS TABLE`) or a table type (`Some(false)`: `AS TABLE`); `None` when neither
/// form is found, there is no `TYPE`, or the text does not tokenize.
pub fn is_scalar_type_definition(sql: &str) -> (r: Option<bool>)
    ensures
        r == scalar_type_definition(sql@),
{
    match tokenize(sql) {
        Some(toks) => scalar_type_kind_exec(&toks),
        None => None,
    }
}

fn top_level_from_exec(toks: &Vec<SqlToken>) -> (r: Option<usize>)
    ensures
        match top_level_from(views(toks@), 0, 0) {
            Some(f) => r == Some(f as usize) && 0 <= f < toks.len(),
            None => r is None,
        },
{
    let ghost s = views(toks@);
    let mut i: usize = 0;
    let mut d: i128 = 0;
    while i < toks.len()
        invariant
            s == views(toks@),
            0 <= i <= toks.len(),
            -(i as int) <= d <= i as int,
            top_level_from(s, 0, 0) == top_level_from(s, i as int, d as int),
        decreases toks.len() - i,
    {
        assert(s[i as int] == toks@[i as int]@);
        let t = &toks[i];
        if !matches!(t.kind, TokenKind::LParen) && !matches!(t.kind, TokenKind::RParen)
            && check_keyword(toks, i, "FROM") && d == 0 {
            return Some(i);
        }
        d = depth_after_exec(t, d);
        i = i + 1;
    }
    None
}

fn copy_token(t: &SqlToken) -> (r: SqlToken)
    ensures
        r@ == t@,
{
    SqlToken { kind: t.kind, text: t.text.clone(), value: t.value.clone(), quote: t.quote }
}

/// The tokens after position `f` that are not whitespace.
fn tokens_after(toks: &Vec<SqlToken>, f: usize) -> (r: Vec<SqlToken>)
    requires
        f < toks.len(),
    ensures
        views(r@) == drop_ws(views(toks@).subrange(f + 1, toks.len() as int)),
{
    let ghost s = views(toks@);
    let mut out: Vec<SqlToken> = Vec::new();
    let mut j: usize = f + 1;
    assert(views(out@) =~= drop_ws(s.subrange(f + 1, j as int)));
    while j < toks.len()
        invariant
            s == views(toks@),
            f + 1 <= j <= toks.len(),
            views(out@) == drop_ws(s.subrange(f + 1, j as int)),
        decreases toks.len() - j,
    {
        assert(s[j as int] == toks@[j as int]@);
        assert(s.subrange(f + 1, j + 1).drop_last() =~= s.subrange(f + 1, j as int));
        assert(s.subrange(f + 1, j + 1).last() == s[j as int]);
        if !matches!(toks[j].kind, TokenKind::Whitespace) {
            let ghost before = views(out@);
            out.push(copy_token(&toks[j]));
            assert(views(out@) =~= before.push(s[j as int]));
        }
        j = j + 1;
    }
    out
}

fn not_null_exec(a: &Vec<SqlToken>) -> (r: bool)
    ensures
        r == not_null_scan(views(a@), 0, 0, false),
{
    let ghost s = views(a@);
    let mut i: usize = 0;
    let mut d: i128 = 0;
    let mut found = false;
    while i < a.len()
        invariant
            s == views(a@),
            0 <= i <= a.len(),
            -(i as int) <= d <= i as int,
            not_null_scan(s, 0, 0, false) == not_null_scan(s, i as int, d as int, found),
        decreases a.len() - i,
    {
        assert(s[i as int] == a@[i as int]@);
        let t = &a[i];
        if !matches!(t.kind, TokenKind::LParen) && !matches!(t.kind, TokenKind::RParen)
            && check_keyword(a, i, "NOT") && d == 0 && i + 1 < a.len() && check_keyword(
            a,
            i + 1,
            "NULL",
        ) {
            found = true;
        }
        d = depth_after_exec(t, d);
        i = i + 1;
    }
    found
}

fn parse_i32_exec(t: &String) -> (r: Option<i32>)
    ensures
        r == parse_i32(t@),
{
    match parse_i64_exec(t) {
        Some(v) => {
            if i32::MIN as i64 <= v && v <= i32::MAX as i64 {
                Some(v as i32)
            } else {
                None
            }
        },
        None => None,
    }
}

fn size_scan_exec(a: &Vec<SqlToken>) -> (r: (Vec<i32>, bool))
    ensures
        (r.0@, r.1) == size_scan(views(a@), 2, Seq::empty(), false),
{
    let ghost s = views(a@);
    let mut nums: Vec<i32> = Vec::new();
    let mut is_max = false;
    let mut i: usize = 2;
    let mut done = false;
    while !done && i < a.len()
        invariant
            s == views(a@),
            2 <= i,
            done ==> size_scan(s, 2, Seq::empty(), false) == (nums@, is_max),
            !done ==> size_scan(s, 2, Seq::empty(), false) == size_scan(s, i as int, nums@, is_max),
        decreases a.len() - i + (if done {
            0int
        } else {
            1int
        }),
    {
        assert(s[i as int] == a@[i as int]@);
        let t = &a[i];
        if matches!(t.kind, TokenKind::Number) {
            match parse_i32_exec(&t.value) {
                Some(n) => nums.push(n),
                None => {},
            }
            i = i + 1;
        } else if check_keyword(a, i, "MAX") {
            is_max = true;
            i = i + 1;
        } else if matches!(t.kind, TokenKind::RParen) {
            done = true;
        } else {
            i = i + 1;
        }
    }
    (nums, is_max)
}

fn type_size_exec(a: &Vec<SqlToken>, base: &String) -> (r: (Option<i32>, Option<u8>, Option<u8>))
    ensures
        r == type_size(views(a@), base@),
{
    if a.len() > 1 && matches!(a[1].kind, TokenKind::LParen) {
        assert(views(a@)[1] == a@[1]@);
        let (nums, is_max) = size_scan_exec(a);
        if is_max {
            (Some(-1i32), None, None)
        } else if nums.len() == 2 {
            (None, Some(nums[0] as u8), Some(nums[1] as u8))
        } else if nums.len() == 1 {
            if text_eq(base.as_str(), "decimal") || text_eq(base.as_str(), "numeric") {
                (None, Some(nums[0] as u8), Some(0u8))
            } else {
                (Some(nums[0]), None, None)
            }
        } else {
            (None, None, None)
        }
    } else {
        proof {
            if a.len() > 1 {
                assert(views(a@)[1] == a@[1]@);
            }
        }
        (None, None, None)
    }
}

/// The alias type read from tokens.
pub fn scalar_info_exec(toks: &Vec<SqlToken>) -> (r: Option<ScalarTypeInfo>)
    ensures
        opt_scalar_info(r) == scalar_info(views(toks@)),
{
    let f = match top_level_from_exec(toks) {
        Some(f) => f,
        None => return None,
    };
    let a = tokens_after(toks, f);
    if a.len() == 0 {
        return None;
    }
    assert(views(a@)[0] == a@[0]@);
    if !matches!(a[0].kind, TokenKind::Word) {
        return None;
    }
    let base_type = to_lowercase(a[0].value.as_str());
    let is_nullable = !not_null_exec(&a);
    let (length, precision, scale) = type_size_exec(&a, &base_type);
    Some(ScalarTypeInfo { base_type, is_nullable, length, precision, scale })
}

/// Reads an alias type `CREATE TYPE t FROM basetype[(size)] [NOT NULL]`: the
/// base type lower-cased, `is_nullable` false when `NOT NULL` occurs at the
/// top level, and the size; `None` without a top-level `FROM` followed by a
/// word, or when the text does not tokenize.
pub fn extract_scalar_type_info(sql: &str) -> (r: Option<ScalarTypeInfo>)
    ensures
        opt_scalar_info(r) == scalar_type_info(sql@),
{
    match tokenize(sql) {
        Some(toks) => scalar_info_exec(&toks),
        None => None,
    }
}

/// Schema and name of a type from the name pattern's capture groups (schema
/// `dbo` when not captured); `None` without a captured name.
pub fn type_name_of(caps: &Option<Vec<Option<String>>>) -> (r: Option<(String, String)>)
    ensures
        pair_view(r) == schema_and_name(opt_groups_view(*caps)),
{
    if caps.is_none() {
        return None;
    }
    let name = match capture_group(caps, 3) {
        Some(n) => n,
        None => match capture_group(caps, 4) {
            Some(n) => n,
            None => return None,
        },
    };
    let schema = match capture_group(caps, 1) {
        Some(sc) => sc,
        None => match capture_group(caps, 2) {
            Some(sc) => sc,
            None => str_to_string("dbo"),
        },
    };
    Some((schema, name))
}

/// Schema (`dbo` when not given) and name of a `CREATE TYPE`, read with the
/// type-name pattern.
pub fn extract_type_name(sql: &str) -> (r: Option<(String, String)>)
    ensures
        pair_view(r) == alias_type_name(sql@),
{
    let caps = regex_captures(TYPE_NAME_PATTERN, sql);
    type_name_of(&caps)
}

} // verus!
