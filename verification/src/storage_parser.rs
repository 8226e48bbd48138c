//! Database-level storage statements: `ALTER DATABASE ... ADD FILEGROUP`,
//! `CREATE PARTITION FUNCTION` and `CREATE PARTITION SCHEME`. None of them is
//! schema-qualified.

use vstd::prelude::*;
use crate::text::push_char;
use crate::lexer::{SqlToken, TokenKind, TokenView, views, lex_sql, tokenize};
use crate::cursor::{
    skip_ws, kw_at, kind_at, lemma_skip_ws, skip_whitespace, check_keyword, check_kind,
};
use crate::procedure_parser::{type_args, type_args_exec};

verus! {

/// `ALTER DATABASE ... ADD FILEGROUP`.
#[derive(Debug, Clone)]
pub struct ParsedFilegroup {
    pub name: String,
    /// Whether this filegroup contains memory-optimized data.
    pub contains_memory_optimized_data: bool,
}

/// `CREATE PARTITION FUNCTION`.
#[derive(Debug, Clone)]
pub struct ParsedPartitionFunction {
    pub name: String,
    /// Data type of the partition column.
    pub data_type: String,
    /// Boundary values that define the partitions.
    pub boundary_values: Vec<String>,
    /// `RANGE RIGHT` (true) or `RANGE LEFT` (false).
    pub is_range_right: bool,
}

/// `CREATE PARTITION SCHEME`.
#[derive(Debug, Clone)]
pub struct ParsedPartitionScheme {
    pub name: String,
    /// The partition function the scheme uses.
    pub partition_function: String,
    /// The filegroups the partitions map to.
    pub filegroups: Vec<String>,
}

pub struct FilegroupView {
    pub name: Seq<char>,
    pub contains_memory_optimized_data: bool,
}

pub struct PartitionFunctionView {
    pub name: Seq<char>,
    pub data_type: Seq<char>,
    pub boundary_values: Seq<Seq<char>>,
    pub is_range_right: bool,
}

pub struct PartitionSchemeView {
    pub name: Seq<char>,
    pub partition_function: Seq<char>,
    pub filegroups: Seq<Seq<char>>,
}

/// The models of a list of strings.
pub open spec fn strings_view(v: Seq<String>) -> Seq<Seq<char>> {
    v.map_values(|x: String| x@)
}

impl View for ParsedFilegroup {
    type V = FilegroupView;

    open spec fn view(&self) -> FilegroupView {
        FilegroupView {
            name: self.name@,
            contains_memory_optimized_data: self.contains_memory_optimized_data,
        }
    }
}

impl View for ParsedPartitionFunction {
    type V = PartitionFunctionView;

    open spec fn view(&self) -> PartitionFunctionView {
        PartitionFunctionView {
            name: self.name@,
            data_type: self.data_type@,
            boundary_values: strings_view(self.boundary_values@),
            is_range_right: self.is_range_right,
        }
    }
}

impl View for ParsedPartitionScheme {
    type V = PartitionSchemeView;

    open spec fn view(&self) -> PartitionSchemeView {
        PartitionSchemeView {
            name: self.name@,
            partition_function: self.partition_function@,
            filegroups: strings_view(self.filegroups@),
        }
    }
}

pub open spec fn opt_filegroup(r: Option<ParsedFilegroup>) -> Option<FilegroupView> {
    match r {
        Some(x) => Some(x@),
        None => None,
    }
}

pub open spec fn opt_partition_function(r: Option<ParsedPartitionFunction>) -> Option<
    PartitionFunctionView,
> {
    match r {
        Some(x) => Some(x@),
        None => None,
    }
}

pub open spec fn opt_partition_scheme(r: Option<ParsedPartitionScheme>) -> Option<
    PartitionSchemeView,
> {
    match r {
        Some(x) => Some(x@),
        None => None,
    }
}

// ---------------------------------------------------------------------------
// Specification
// ---------------------------------------------------------------------------

/// The keyword `kw` after optional whitespace, consumed.
pub open spec fn kw_step(s: Seq<TokenView>, p: int, kw: Seq<char>) -> Option<int> {
    let q = skip_ws(s, p);
    if kw_at(s, q, kw) {
        Some(q + 1)
    } else {
        None
    }
}

/// Two keywords in a row.
pub open spec fn kw2(s: Seq<TokenView>, p: int, a: Seq<char>, b: Seq<char>) -> Option<int> {
    match kw_step(s, p, a) {
        Some(q) => kw_step(s, q, b),
        None => None,
    }
}

/// An identifier after optional whitespace, consumed.
pub open spec fn ident_step(s: Seq<TokenView>, p: int) -> Option<(Seq<char>, int)> {
    let q = skip_ws(s, p);
    if kind_at(s, q, TokenKind::Word) {
        Some((s[q].value, q + 1))
    } else {
        None
    }
}

/// A token of kind `k` after optional whitespace, consumed.
pub open spec fn sym_step(s: Seq<TokenView>, p: int, k: TokenKind) -> Option<int> {
    let q = skip_ws(s, p);
    if kind_at(s, q, k) {
        Some(q + 1)
    } else {
        None
    }
}

/// An optional keyword: whether it is there, and the position after it.
pub open spec fn try_kw(s: Seq<TokenView>, p: int, kw: Seq<char>) -> (bool, int) {
    let q = skip_ws(s, p);
    if kw_at(s, q, kw) {
        (true, q + 1)
    } else {
        (false, q)
    }
}

/// A data type: a word, with its parenthesized arguments if any (`DATETIME2(7)`).
pub open spec fn data_type_step(s: Seq<TokenView>, p: int) -> Option<(Seq<char>, int)> {
    let q = skip_ws(s, p);
    if kind_at(s, q, TokenKind::Word) {
        let base = s[q].value;
        let r = skip_ws(s, q + 1);
        if kind_at(s, r, TokenKind::LParen) {
            let (args, e) = type_args(s, r + 1, 1, base.push('('));
            Some((args.push(')'), e))
        } else {
            Some((base, q + 1))
        }
    } else {
        None
    }
}

/// An item of a value list: a string literal or a number (`words` false), or an
/// identifier (`words` true).
pub open spec fn list_item(t: TokenView, words: bool) -> bool {
    if words {
        t.kind == TokenKind::Word
    } else {
        t.kind == TokenKind::SingleQuotedString || t.kind == TokenKind::NationalStringLiteral
            || t.kind == TokenKind::Number
    }
}

/// The rest of a parenthesized, comma-separated list, after its `(`, up to and
/// including the closing `)`. `None` when an item is of the wrong kind or the
/// list is not closed.
pub open spec fn value_list(s: Seq<TokenView>, p: int, words: bool, acc: Seq<Seq<char>>) -> Option<
    Seq<Seq<char>>,
>
    decreases s.len() - p,
{
    if p < 0 {
        None
    } else {
        let q = skip_ws(s, p);
        proof {
            lemma_skip_ws(s, p);
        }
        if q >= s.len() {
            None
        } else if s[q].kind == TokenKind::RParen {
            Some(acc)
        } else if list_item(s[q], words) {
            let r = skip_ws(s, q + 1);
            proof {
                lemma_skip_ws(s, q + 1);
            }
            if kind_at(s, r, TokenKind::Comma) {
                value_list(s, r + 1, words, acc.push(s[q].value))
            } else if kind_at(s, r, TokenKind::RParen) {
                Some(acc.push(s[q].value))
            } else {
                None
            }
        } else {
            None
        }
    }
}

/// `ALTER DATABASE db ADD FILEGROUP name [CONTAINS MEMORY_OPTIMIZED_DATA]`.
pub open spec fn filegroup(s: Seq<TokenView>) -> Option<FilegroupView> {
    match kw2(s, 0, "ALTER"@, "DATABASE"@) {
        None => None,
        Some(p1) => match ident_step(s, p1) {
            None => None,
            Some((_db, p2)) => match kw2(s, p2, "ADD"@, "FILEGROUP"@) {
                None => None,
                Some(p3) => match ident_step(s, p3) {
                    None => None,
                    Some((name, p4)) => {
                        let (c, p5) = try_kw(s, p4, "CONTAINS"@);
                        Some(
                            FilegroupView {
                                name,
                                contains_memory_optimized_data: c && try_kw(
                                    s,
                                    p5,
                                    "MEMORY_OPTIMIZED_DATA"@,
                                ).0,
                            },
                        )
                    },
                },
            },
        },
    }
}

/// `RIGHT` (the default) or `LEFT`, and the position after it.
pub open spec fn range_side(s: Seq<TokenView>, p: int) -> (bool, int) {
    let (r, p1) = try_kw(s, p, "RIGHT"@);
    if r {
        (true, p1)
    } else {
        let (l, p2) = try_kw(s, p1, "LEFT"@);
        if l {
            (false, p2)
        } else {
            (true, p2)
        }
    }
}

/// `CREATE PARTITION FUNCTION name (type) AS RANGE [RIGHT|LEFT] FOR VALUES (v, ...)`.
pub open spec fn partition_function(s: Seq<TokenView>) -> Option<PartitionFunctionView> {
    match kw2(s, 0, "CREATE"@, "PARTITION"@) {
        None => None,
        Some(p0) => match kw_step(s, p0, "FUNCTION"@) {
            None => None,
            Some(p1) => match ident_step(s, p1) {
                None => None,
                Some((name, p2)) => match sym_step(s, p2, TokenKind::LParen) {
                    None => None,
                    Some(p3) => match data_type_step(s, p3) {
                        None => None,
                        Some((data_type, p4)) => match sym_step(s, p4, TokenKind::RParen) {
                            None => None,
                            Some(p5) => match kw2(s, p5, "AS"@, "RANGE"@) {
                                None => None,
                                Some(p6) => {
                                    let (right, p7) = range_side(s, p6);
                                    match kw2(s, p7, "FOR"@, "VALUES"@) {
                                        None => None,
                                        Some(p8) => match sym_step(s, p8, TokenKind::LParen) {
                                            None => None,
                                            Some(p9) => match value_list(s, p9, false, seq![]) {
                                                None => None,
                                                Some(values) => Some(
                                                    PartitionFunctionView {
                                                        name,
                                                        data_type,
                                                        boundary_values: values,
                                                        is_range_right: right,
                                                    },
                                                ),
                                            },
                                        },
                                    }
                                },
                            },
                        },
                    },
                },
            },
        },
    }
}

/// `CREATE PARTITION SCHEME name AS PARTITION function [ALL] TO (fg, ...)`.
pub open spec fn partition_scheme(s: Seq<TokenView>) -> Option<PartitionSchemeView> {
    match kw2(s, 0, "CREATE"@, "PARTITION"@) {
        None => None,
        Some(p0) => match kw_step(s, p0, "SCHEME"@) {
            None => None,
            Some(p1) => match ident_step(s, p1) {
                None => None,
                Some((name, p2)) => match kw2(s, p2, "AS"@, "PARTITION"@) {
                    None => None,
                    Some(p3) => match ident_step(s, p3) {
                        None => None,
                        Some((function, p4)) => match kw_step(s, try_kw(s, p4, "ALL"@).1, "TO"@) {
                            None => None,
                            Some(p5) => match sym_step(s, p5, TokenKind::LParen) {
                                None => None,
                                Some(p6) => match value_list(s, p6, true, seq![]) {
                                    None => None,
                                    Some(fgs) => Some(
                                        PartitionSchemeView {
                                            name,
                                            partition_function: function,
                                            filegroups: fgs,
                                        },
                                    ),
                                },
                            },
                        },
                    },
                },
            },
        },
    }
}

// ---------------------------------------------------------------------------
// Executable steps
// ---------------------------------------------------------------------------

fn kw_step_exec(toks: &Vec<SqlToken>, p: usize, kw: &str) -> (r: Option<usize>)
    requires
        p <= toks.len(),
    ensures
        r == (match kw_step(views(toks@), p as int, kw@) {
            Some(q) => Some(q as usize),
            None => None::<usize>,
        }),
        kw_step(views(toks@), p as int, kw@) matches Some(q) ==> p < q <= toks.len(),
{
    let q = skip_whitespace(toks, p);
    if check_keyword(toks, q, kw) {
        Some(q + 1)
    } else {
        None
    }
}

fn kw2_exec(toks: &Vec<SqlToken>, p: usize, a: &str, b: &str) -> (r: Option<usize>)
    requires
        p <= toks.len(),
    ensures
        r == (match kw2(views(toks@), p as int, a@, b@) {
            Some(q) => Some(q as usize),
            None => None::<usize>,
        }),
        kw2(views(toks@), p as int, a@, b@) matches Some(q) ==> p < q <= toks.len(),
{
    match kw_step_exec(toks, p, a) {
        Some(q) => kw_step_exec(toks, q, b),
        None => None,
    }
}

fn ident_step_exec(toks: &Vec<SqlToken>, p: usize) -> (r: Option<(String, usize)>)
    requires
        p <= toks.len(),
    ensures
        match ident_step(views(toks@), p as int) {
            Some((v, q)) => r matches Some((x, e)) && x@ == v && e == q && e <= toks.len(),
            None => r is None,
        },
{
    let q = skip_whitespace(toks, p);
    if check_kind(toks, q, TokenKind::Word) {
        assert(views(toks@)[q as int] == toks@[q as int]@);
        Some((toks[q].value.clone(), q + 1))
    } else {
        None
    }
}

fn sym_step_exec(toks: &Vec<SqlToken>, p: usize, k: TokenKind) -> (r: Option<usize>)
    requires
        p <= toks.len(),
    ensures
        r == (match sym_step(views(toks@), p as int, k) {
            Some(q) => Some(q as usize),
            None => None::<usize>,
        }),
        sym_step(views(toks@), p as int, k) matches Some(q) ==> p < q <= toks.len(),
{
    let q = skip_whitespace(toks, p);
    if check_kind(toks, q, k) {
        Some(q + 1)
    } else {
        None
    }
}

fn try_kw_exec(toks: &Vec<SqlToken>, p: usize, kw: &str) -> (r: (bool, usize))
    requires
        p <= toks.len(),
    ensures
        (r.0, r.1 as int) == try_kw(views(toks@), p as int, kw@),
        r.1 <= toks.len(),
{
    let q = skip_whitespace(toks, p);
    if check_keyword(toks, q, kw) {
        (true, q + 1)
    } else {
        (false, q)
    }
}

fn data_type_step_exec(toks: &Vec<SqlToken>, p: usize) -> (r: Option<(String, usize)>)
    requires
        p <= toks.len(),
    ensures
        match data_type_step(views(toks@), p as int) {
            Some((v, q)) => r matches Some((x, e)) && x@ == v && e == q && e <= toks.len(),
            None => r is None,
        },
{
    let q = skip_whitespace(toks, p);
    if check_kind(toks, q, TokenKind::Word) {
        assert(views(toks@)[q as int] == toks@[q as int]@);
        let mut base = toks[q].value.clone();
        let rp = skip_whitespace(toks, q + 1);
        if check_kind(toks, rp, TokenKind::LParen) {
            push_char(&mut base, '(');
            let (mut args, e) = type_args_exec(toks, rp + 1, base);
            push_char(&mut args, ')');
            Some((args, e))
        } else {
            Some((base, q + 1))
        }
    } else {
        None
    }
}

fn list_item_exec(t: &SqlToken, words: bool) -> (r: bool)
    ensures
        r == list_item(t@, words),
{
    if words {
        matches!(t.kind, TokenKind::Word)
    } else {
        matches!(t.kind, TokenKind::SingleQuotedString) || matches!(
            t.kind,
            TokenKind::NationalStringLiteral
        ) || matches!(t.kind, TokenKind::Number)
    }
}

fn value_list_exec(toks: &Vec<SqlToken>, p: usize, words: bool, acc: Vec<String>) -> (r: Option<
    Vec<String>,
>)
    requires
        p <= toks.len(),
    ensures
        match value_list(views(toks@), p as int, words, strings_view(acc@)) {
            Some(v) => r matches Some(x) && strings_view(x@) == v,
            None => r is None,
        },
    decreases toks.len() - p,
{
    let ghost s = views(toks@);
    let q = skip_whitespace(toks, p);
    if q >= toks.len() {
        return None;
    }
    assert(s[q as int] == toks@[q as int]@);
    if matches!(toks[q].kind, TokenKind::RParen) {
        return Some(acc);
    }
    if !list_item_exec(&toks[q], words) {
        return None;
    }
    let mut acc = acc;
    let ghost old_acc = acc@;
    acc.push(toks[q].value.clone());
    assert(strings_view(acc@) =~= strings_view(old_acc).push(s[q as int].value));
    let rp = skip_whitespace(toks, q + 1);
    if check_kind(toks, rp, TokenKind::Comma) {
        value_list_exec(toks, rp + 1, words, acc)
    } else if check_kind(toks, rp, TokenKind::RParen) {
        Some(acc)
    } else {
        None
    }
}

fn range_side_exec(toks: &Vec<SqlToken>, p: usize) -> (r: (bool, usize))
    requires
        p <= toks.len(),
    ensures
        (r.0, r.1 as int) == range_side(views(toks@), p as int),
        r.1 <= toks.len(),
{
    let (right, p1) = try_kw_exec(toks, p, "RIGHT");
    if right {
        (true, p1)
    } else {
        let (left, p2) = try_kw_exec(toks, p1, "LEFT");
        if left {
            (false, p2)
        } else {
            (true, p2)
        }
    }
}

// ---------------------------------------------------------------------------
// Parsers
// ---------------------------------------------------------------------------

/// `ALTER DATABASE ... ADD FILEGROUP`, over tokens.
pub fn parse_filegroup(toks: &Vec<SqlToken>) -> (r: Option<ParsedFilegroup>)
    ensures
        opt_filegroup(r) == filegroup(views(toks@)),
{
    let p1 = match kw2_exec(toks, 0, "ALTER", "DATABASE") {
        Some(p) => p,
        None => return None,
    };
    let p2 = match ident_step_exec(toks, p1) {
        Some((_db, p)) => p,
        None => return None,
    };
    let p3 = match kw2_exec(toks, p2, "ADD", "FILEGROUP") {
        Some(p) => p,
        None => return None,
    };
    let (name, p4) = match ident_step_exec(toks, p3) {
        Some(x) => x,
        None => return None,
    };
    let (c, p5) = try_kw_exec(toks, p4, "CONTAINS");
    let contains_memory_optimized_data = c && try_kw_exec(toks, p5, "MEMORY_OPTIMIZED_DATA").0;
    Some(ParsedFilegroup { name, contains_memory_optimized_data })
}

/// `CREATE PARTITION FUNCTION`, over tokens.
pub fn parse_partition_function(toks: &Vec<SqlToken>) -> (r: Option<ParsedPartitionFunction>)
    ensures
        opt_partition_function(r) == partition_function(views(toks@)),
{
    let p0 = match kw2_exec(toks, 0, "CREATE", "PARTITION") {
        Some(p) => p,
        None => return None,
    };
    let p1 = match kw_step_exec(toks, p0, "FUNCTION") {
        Some(p) => p,
        None => return None,
    };
    let (name, p2) = match ident_step_exec(toks, p1) {
        Some(x) => x,
        None => return None,
    };
    let p3 = match sym_step_exec(toks, p2, TokenKind::LParen) {
        Some(p) => p,
        None => return None,
    };
    let (data_type, p4) = match data_type_step_exec(toks, p3) {
        Some(x) => x,
        None => return None,
    };
    let p5 = match sym_step_exec(toks, p4, TokenKind::RParen) {
        Some(p) => p,
        None => return None,
    };
    let p6 = match kw2_exec(toks, p5, "AS", "RANGE") {
        Some(p) => p,
        None => return None,
    };
    let (is_range_right, p7) = range_side_exec(toks, p6);
    let p8 = match kw2_exec(toks, p7, "FOR", "VALUES") {
        Some(p) => p,
        None => return None,
    };
    let p9 = match sym_step_exec(toks, p8, TokenKind::LParen) {
        Some(p) => p,
        None => return None,
    };
    let empty: Vec<String> = Vec::new();
    assert(strings_view(empty@) =~= Seq::<Seq<char>>::empty());
    match value_list_exec(toks, p9, false, empty) {
        None => None,
        Some(boundary_values) => Some(
            ParsedPartitionFunction { name, data_type, boundary_values, is_range_right },
        ),
    }
}

/// `CREATE PARTITION SCHEME`, over tokens.
pub fn parse_partition_scheme(toks: &Vec<SqlToken>) -> (r: Option<ParsedPartitionScheme>)
    ensures
        opt_partition_scheme(r) == partition_scheme(views(toks@)),
{
    let p0 = match kw2_exec(toks, 0, "CREATE", "PARTITION") {
        Some(p) => p,
        None => return None,
    };
    let p1 = match kw_step_exec(toks, p0, "SCHEME") {
        Some(p) => p,
        None => return None,
    };
    let (name, p2) = match ident_step_exec(toks, p1) {
        Some(x) => x,
        None => return None,
    };
    let p3 = match kw2_exec(toks, p2, "AS", "PARTITION") {
        Some(p) => p,
        None => return None,
    };
    let (partition_function, p4) = match ident_step_exec(toks, p3) {
        Some(x) => x,
        None => return None,
    };
    let (_all, p4a) = try_kw_exec(toks, p4, "ALL");
    let p5 = match kw_step_exec(toks, p4a, "TO") {
        Some(p) => p,
        None => return None,
    };
    let p6 = match sym_step_exec(toks, p5, TokenKind::LParen) {
        Some(p) => p,
        None => return None,
    };
    let empty: Vec<String> = Vec::new();
    assert(strings_view(empty@) =~= Seq::<Seq<char>>::empty());
    match value_list_exec(toks, p6, true, empty) {
        None => None,
        Some(filegroups) => Some(ParsedPartitionScheme { name, partition_function, filegroups }),
    }
}

/// Parses `ALTER DATABASE ... ADD FILEGROUP name [CONTAINS MEMORY_OPTIMIZED_DATA]`.
pub fn parse_filegroup_tokens(sql: &str) -> (r: Option<ParsedFilegroup>)
    ensures
        match lex_sql(sql@) {
            Some(s) => opt_filegroup(r) == filegroup(s),
            None => r is None,
        },
{
    match tokenize(sql) {
        Some(toks) => parse_filegroup(&toks),
        None => None,
    }
}

/// Parses `CREATE PARTITION FUNCTION name(type) AS RANGE [RIGHT|LEFT] FOR VALUES (...)`.
pub fn parse_partition_function_tokens(sql: &str) -> (r: Option<ParsedPartitionFunction>)
    ensures
        match lex_sql(sql@) {
            Some(s) => opt_partition_function(r) == partition_function(s),
            None => r is None,
        },
{
    match tokenize(sql) {
        Some(toks) => parse_partition_function(&toks),
        None => None,
    }
}

/// Parses `CREATE PARTITION SCHEME name AS PARTITION function [ALL] TO (...)`.
pub fn parse_partition_scheme_tokens(sql: &str) -> (r: Option<ParsedPartitionScheme>)
    ensures
        match lex_sql(sql@) {
            Some(s) => opt_partition_scheme(r) == partition_scheme(s),
            None => r is None,
        },
{
    match tokenize(sql) {
        Some(toks) => parse_partition_scheme(&toks),
        None => None,
    }
}

} // verus!
