//! `CREATE [UNIQUE] CLUSTERED|NONCLUSTERED INDEX` as a statement: read by the
//! index token parser, and where that fails, by patterns on the text.

use vstd::prelude::*;
use crate::text::{
    trim, eq_ci, contains_ci, ascii_upper, find, chars_of, to_ascii_upper, find_from_exec,
    contains_ci_exec, eq_ignore_ascii_case, str_to_string, push_char, to_uppercase, unicode_upper,
    string_from_range,
};
use crate::lexer::{SqlToken, TokenView, views};
use crate::security_dispatch::{shared_tokens, tokenize_or_empty};
use crate::cursor::{opt_str, parse_u64, parse_u64_exec};
use crate::column_parser::trimmed;
use crate::storage_parser::strings_view;
use crate::index_parser::{IndexView, create_index, parse_create_index, where_predicate, index_filter_predicate};
use crate::patterns::{regex_capture_groups, group_of, regex_captures, capture_group, opt_groups_view};
use crate::fallback::{FallbackStatementType, FallbackView, ParsedIndexColumn, index_columns_view, opt_fallback};

verus! {

/// `CREATE [UNIQUE] CLUSTERED|NONCLUSTERED INDEX name ON [schema.]table (columns)`.
pub const INDEX_FALLBACK_PATTERN: &'static str = "(?i)CREATE\\s+(UNIQUE\\s+)?(CLUSTERED|NONCLUSTERED)\\s+INDEX\\s+\\[?(\\w+)\\]?\\s*ON\\s*(?:\\[?(\\w+)\\]?\\.)?\\[?(\\w+)\\]?\\s*\\(([^)]+)\\)";

/// `PAD_INDEX = ON`.
pub const PAD_INDEX_PATTERN: &'static str = "(?i)PAD_INDEX\\s*=\\s*ON\\b";

/// A key column and its optional direction.
pub const COLUMN_WITH_DIR_PATTERN: &'static str = "(?i)\\[?(\\w+)\\]?(?:\\s+(ASC|DESC))?";

/// `INCLUDE (columns)`.
pub const INCLUDE_COLUMNS_PATTERN: &'static str = "(?i)INCLUDE\\s*\\(([^)]+)\\)";

/// A column name, bracketed or not.
pub const SIMPLE_COLUMN_PATTERN: &'static str = "(?i)\\[?(\\w+)\\]?";

/// `FILLFACTOR = n`.
pub const FILL_FACTOR_PATTERN: &'static str = "(?i)FILLFACTOR\\s*=\\s*(\\d+)";

/// `DATA_COMPRESSION = kind`.
pub const DATA_COMPRESSION_PATTERN: &'static str = "(?i)DATA_COMPRESSION\\s*=\\s*(\\w+)";

// ---------------------------------------------------------------------------
// Specification
// ---------------------------------------------------------------------------

/// `str::split(c)`: the pieces between the separators, from `i` on.
pub open spec fn split_scan(s: Seq<char>, c: char, i: int, cur: Seq<char>, acc: Seq<Seq<char>>) -> Seq<Seq<char>>
    decreases s.len() - i,
{
    if i < 0 || i >= s.len() {
        acc.push(cur)
    } else if s[i] == c {
        split_scan(s, c, i + 1, Seq::empty(), acc.push(cur))
    } else {
        split_scan(s, c, i + 1, cur.push(s[i]), acc)
    }
}

pub open spec fn split_on(s: Seq<char>, c: char) -> Seq<Seq<char>> {
    split_scan(s, c, 0, Seq::empty(), Seq::empty())
}

/// Key columns from the pieces of a column list: each non-empty trimmed piece
/// read with the column pattern (name, and `DESC` for descending).
pub open spec fn key_column_scan(pieces: Seq<Seq<char>>, i: int, acc: Seq<(Seq<char>, bool)>) -> Seq<
    (Seq<char>, bool),
>
    decreases pieces.len() - i,
{
    if i < 0 || i >= pieces.len() {
        acc
    } else {
        let t = trim(pieces[i]);
        let g = regex_capture_groups(COLUMN_WITH_DIR_PATTERN@, t);
        let next = if t.len() == 0 {
            acc
        } else {
            match group_of(g, 1) {
                None => acc,
                Some(n) => acc.push(
                    (
                        n,
                        match group_of(g, 2) {
                            Some(d) => eq_ci(d, "DESC"@),
                            None => false,
                        },
                    ),
                ),
            }
        };
        key_column_scan(pieces, i + 1, next)
    }
}

/// Column names from the pieces of a list, each trimmed piece read with the
/// simple column pattern.
pub open spec fn name_scan(pieces: Seq<Seq<char>>, i: int, acc: Seq<Seq<char>>) -> Seq<Seq<char>>
    decreases pieces.len() - i,
{
    if i < 0 || i >= pieces.len() {
        acc
    } else {
        let g = regex_capture_groups(SIMPLE_COLUMN_PATTERN@, trim(pieces[i]));
        name_scan(
            pieces,
            i + 1,
            match group_of(g, 1) {
                Some(n) => acc.push(n),
                None => acc,
            },
        )
    }
}

/// The `INCLUDE` columns of an index text.
pub open spec fn include_columns(sql: Seq<char>) -> Seq<Seq<char>> {
    let g = regex_capture_groups(INCLUDE_COLUMNS_PATTERN@, sql);
    match group_of(g, 1) {
        Some(inner) => name_scan(split_on(inner, ','), 0, Seq::empty()),
        None => Seq::empty(),
    }
}

/// `str::parse::<u8>`.
pub open spec fn parse_u8(t: Seq<char>) -> Option<u8> {
    match parse_u64(t) {
        Some(v) => if v <= 255 {
            Some(v as u8)
        } else {
            None
        },
        None => None,
    }
}

/// `FILLFACTOR = n`, when `n` reads as a `u8`.
pub open spec fn fill_factor(sql: Seq<char>) -> Option<u8> {
    match group_of(regex_capture_groups(FILL_FACTOR_PATTERN@, sql), 1) {
        Some(d) => parse_u8(d),
        None => None,
    }
}

/// `DATA_COMPRESSION = kind`, upper-cased.
pub open spec fn data_compression(sql: Seq<char>) -> Option<Seq<char>> {
    match group_of(regex_capture_groups(DATA_COMPRESSION_PATTERN@, sql), 1) {
        Some(k) => Some(unicode_upper(k)),
        None => None,
    }
}

/// `PAD_INDEX = ON` in the text from the first `WITH` (ASCII case ignored).
pub open spec fn pad_index(sql: Seq<char>) -> bool {
    match find(ascii_upper(sql), "WITH"@) {
        Some(w) => {
            let after = sql.subrange(w, sql.len() as int);
            contains_ci(after, "PAD_INDEX"@) && regex_capture_groups(PAD_INDEX_PATTERN@, after) is Some
        },
        None => false,
    }
}

/// Key columns, each ascending.
pub open spec fn ascending_columns(v: Seq<Seq<char>>) -> Seq<(Seq<char>, bool)> {
    v.map_values(|c: Seq<char>| (c, false))
}

/// An index from the token parser: key columns ascending (the token parser
/// reads no direction), padding read from the text.
pub open spec fn index_from_tokens(sql: Seq<char>, ix: IndexView) -> FallbackView {
    FallbackView::Index {
        name: ix.name,
        table_schema: ix.table_schema,
        table_name: ix.table_name,
        columns: ascending_columns(ix.columns),
        include_columns: ix.include_columns,
        is_unique: ix.is_unique,
        is_clustered: ix.is_clustered,
        fill_factor: ix.fill_factor,
        filter_predicate: ix.filter_predicate,
        data_compression: ix.data_compression,
        is_padded: pad_index(sql),
    }
}

/// An index read with the patterns; the filter predicate from the tokens `s`.
pub open spec fn index_by_pattern(sql: Seq<char>, s: Seq<TokenView>) -> Option<FallbackView> {
    let g = regex_capture_groups(INDEX_FALLBACK_PATTERN@, sql);
    if g is None {
        None
    } else {
        match (group_of(g, 3), group_of(g, 5), group_of(g, 6)) {
            (Some(name), Some(table), Some(cols)) => Some(
                FallbackView::Index {
                    name,
                    table_schema: match group_of(g, 4) {
                        Some(sc) => sc,
                        None => "dbo"@,
                    },
                    table_name: table,
                    columns: key_column_scan(split_on(cols, ','), 0, Seq::empty()),
                    include_columns: include_columns(sql),
                    is_unique: group_of(g, 1) is Some,
                    is_clustered: match group_of(g, 2) {
                        Some(k) => eq_ci(k, "CLUSTERED"@),
                        None => false,
                    },
                    fill_factor: fill_factor(sql),
                    filter_predicate: where_predicate(s, 0),
                    data_compression: data_compression(sql),
                    is_padded: pad_index(sql),
                },
            ),
            _ => None,
        }
    }
}

/// A clustered or nonclustered index: by its tokens (`s`), else by patterns.
pub open spec fn index_info(sql: Seq<char>, s: Seq<TokenView>) -> Option<FallbackView> {
    match create_index(s) {
        Some(ix) => Some(index_from_tokens(sql, ix)),
        None => index_by_pattern(sql, s),
    }
}

// ---------------------------------------------------------------------------
// Executable
// ---------------------------------------------------------------------------

/// Splits a text at every `c` (`str::split`).
pub fn split_char(s: &str, c: char) -> (r: Vec<String>)
    ensures
        strings_view(r@) == split_on(s@, c),
{
    let v = chars_of(s);
    let mut out: Vec<String> = Vec::new();
    let mut cur = String::new();
    let mut i: usize = 0;
    assert(strings_view(out@) =~= Seq::<Seq<char>>::empty());
    while i < v.len()
        invariant
            v@ == s@,
            0 <= i <= v.len(),
            split_on(s@, c) == split_scan(s@, c, i as int, cur@, strings_view(out@)),
        decreases v.len() - i,
    {
        if v[i] == c {
            let ghost before = strings_view(out@);
            out.push(cur);
            assert(strings_view(out@) =~= before.push(out@[out@.len() - 1]@));
            cur = String::new();
        } else {
            push_char(&mut cur, v[i]);
        }
        i = i + 1;
    }
    let ghost before = strings_view(out@);
    out.push(cur);
    assert(strings_view(out@) =~= before.push(out@[out@.len() - 1]@));
    out
}

fn key_columns_exec(cols: &str) -> (r: Vec<ParsedIndexColumn>)
    ensures
        index_columns_view(r@) == key_column_scan(split_on(cols@, ','), 0, Seq::empty()),
{
    let pieces = split_char(cols, ',');
    let ghost ps = strings_view(pieces@);
    let mut out: Vec<ParsedIndexColumn> = Vec::new();
    let mut i: usize = 0;
    assert(index_columns_view(out@) =~= Seq::<(Seq<char>, bool)>::empty());
    while i < pieces.len()
        invariant
            ps == strings_view(pieces@),
            ps == split_on(cols@, ','),
            0 <= i <= pieces.len(),
            key_column_scan(ps, 0, Seq::empty()) == key_column_scan(
                ps,
                i as int,
                index_columns_view(out@),
            ),
        decreases pieces.len() - i,
    {
        assert(ps[i as int] == pieces@[i as int]@);
        let t = trimmed(&pieces[i]);
        if t.unicode_len() > 0 {
            let caps = regex_captures(COLUMN_WITH_DIR_PATTERN, t.as_str());
            match capture_group(&caps, 1) {
                Some(name) => {
                    let is_descending = match capture_group(&caps, 2) {
                        Some(d) => eq_ignore_ascii_case(d.as_str(), "DESC"),
                        None => false,
                    };
                    let ghost before = index_columns_view(out@);
                    out.push(ParsedIndexColumn { name, is_descending });
                    assert(index_columns_view(out@) =~= before.push(out@[out@.len() - 1]@));
                },
                None => {},
            }
        }
        i = i + 1;
    }
    out
}

fn name_list_exec(list: &str) -> (r: Vec<String>)
    ensures
        strings_view(r@) == name_scan(split_on(list@, ','), 0, Seq::empty()),
{
    let pieces = split_char(list, ',');
    let ghost ps = strings_view(pieces@);
    let mut out: Vec<String> = Vec::new();
    let mut i: usize = 0;
    assert(strings_view(out@) =~= Seq::<Seq<char>>::empty());
    while i < pieces.len()
        invariant
            ps == strings_view(pieces@),
            ps == split_on(list@, ','),
            0 <= i <= pieces.len(),
            name_scan(ps, 0, Seq::empty()) == name_scan(ps, i as int, strings_view(out@)),
        decreases pieces.len() - i,
    {
        assert(ps[i as int] == pieces@[i as int]@);
        let t = trimmed(&pieces[i]);
        let caps = regex_captures(SIMPLE_COLUMN_PATTERN, t.as_str());
        match capture_group(&caps, 1) {
            Some(n) => {
                let ghost before = strings_view(out@);
                out.push(n);
                assert(strings_view(out@) =~= before.push(out@[out@.len() - 1]@));
            },
            None => {},
        }
        i = i + 1;
    }
    out
}

/// The `INCLUDE` columns of an index text.
pub fn extract_include_columns(sql: &str) -> (r: Vec<String>)
    ensures
        strings_view(r@) == include_columns(sql@),
{
    let caps = regex_captures(INCLUDE_COLUMNS_PATTERN, sql);
    match capture_group(&caps, 1) {
        Some(inner) => name_list_exec(inner.as_str()),
        None => {
            let v: Vec<String> = Vec::new();
            assert(strings_view(v@) =~= Seq::<Seq<char>>::empty());
            v
        },
    }
}

/// `FILLFACTOR = n` of an index text.
pub fn extract_index_fill_factor(sql: &str) -> (r: Option<u8>)
    ensures
        r == fill_factor(sql@),
{
    let caps = regex_captures(FILL_FACTOR_PATTERN, sql);
    match capture_group(&caps, 1) {
        Some(d) => match parse_u64_exec(&d) {
            Some(v) => if v <= 255 {
                Some(v as u8)
            } else {
                None
            },
            None => None,
        },
        None => None,
    }
}

/// `DATA_COMPRESSION = kind` of an index text, upper-cased.
pub fn extract_index_data_compression(sql: &str) -> (r: Option<String>)
    ensures
        opt_str(r) == data_compression(sql@),
{
    let caps = regex_captures(DATA_COMPRESSION_PATTERN, sql);
    match capture_group(&caps, 1) {
        Some(k) => Some(to_uppercase(k.as_str())),
        None => None,
    }
}

/// Whether `PAD_INDEX = ON` follows the first `WITH` of an index text.
pub fn extract_index_pad_index(sql: &str) -> (r: bool)
    ensures
        r == pad_index(sql@),
{
    let v = chars_of(sql);
    let up = chars_of(to_ascii_upper(sql).as_str());
    let pat = chars_of("WITH");
    match find_from_exec(&up, &pat, 0) {
        Some(w) => {
            proof {
                crate::text::lemma_find_from_props(up@, pat@, 0);
            }
            assert(up@.len() == v@.len());
            let after = string_from_range(&v, w, v.len());
            contains_ci_exec(after.as_str(), "PAD_INDEX") && regex_captures(
                PAD_INDEX_PATTERN,
                after.as_str(),
            ).is_some()
        },
        None => false,
    }
}

fn index_from_tokens_exec(sql: &str, ix: crate::index_parser::TokenParsedIndex) -> (r: FallbackStatementType)
    ensures
        r@ == index_from_tokens(sql@, ix@),
{
    let mut columns: Vec<ParsedIndexColumn> = Vec::new();
    let ghost target = ascending_columns(ix@.columns);
    let mut i: usize = 0;
    while i < ix.columns.len()
        invariant
            0 <= i <= ix.columns.len(),
            target == ascending_columns(ix@.columns),
            ix@.columns == ix.columns.deep_view(),
            index_columns_view(columns@) == target.subrange(0, i as int),
        decreases ix.columns.len() - i,
    {
        let ghost before = index_columns_view(columns@);
        columns.push(ParsedIndexColumn { name: ix.columns[i].clone(), is_descending: false });
        assert(index_columns_view(columns@) =~= before.push(target[i as int]));
        assert(target.subrange(0, i + 1) =~= target.subrange(0, i as int).push(target[i as int]));
        i = i + 1;
    }
    assert(target.subrange(0, ix.columns.len() as int) =~= target);
    assert(strings_view(ix.include_columns@) =~= ix.include_columns.deep_view());
    let is_padded = extract_index_pad_index(sql);
    FallbackStatementType::Index {
        name: ix.name,
        table_schema: ix.table_schema,
        table_name: ix.table_name,
        columns,
        include_columns: ix.include_columns,
        is_unique: ix.is_unique,
        is_clustered: ix.is_clustered,
        fill_factor: ix.fill_factor,
        filter_predicate: ix.filter_predicate,
        data_compression: ix.data_compression,
        is_padded,
    }
}

/// An index read with the patterns, from their capture groups (`caps`, the
/// index pattern's groups on `sql`); the filter predicate from `toks`.
pub fn index_from_captures(sql: &str, caps: &Option<Vec<Option<String>>>, toks: &Vec<SqlToken>) -> (r: Option<FallbackStatementType>)
    requires
        opt_groups_view(*caps) == regex_capture_groups(INDEX_FALLBACK_PATTERN@, sql@),
    ensures
        opt_fallback(r) == index_by_pattern(sql@, views(toks@)),
{
    if caps.is_none() {
        return None;
    }
    let name = match capture_group(caps, 3) {
        Some(x) => x,
        None => return None,
    };
    let table_name = match capture_group(caps, 5) {
        Some(x) => x,
        None => return None,
    };
    let cols = match capture_group(caps, 6) {
        Some(x) => x,
        None => return None,
    };
    let table_schema = match capture_group(caps, 4) {
        Some(x) => x,
        None => str_to_string("dbo"),
    };
    let is_unique = capture_group(caps, 1).is_some();
    let is_clustered = match capture_group(caps, 2) {
        Some(k) => eq_ignore_ascii_case(k.as_str(), "CLUSTERED"),
        None => false,
    };
    let columns = key_columns_exec(cols.as_str());
    let include_columns = extract_include_columns(sql);
    let fill_factor = extract_index_fill_factor(sql);
    let data_compression = extract_index_data_compression(sql);
    let is_padded = extract_index_pad_index(sql);
    let filter_predicate = index_filter_predicate(toks);
    Some(
        FallbackStatementType::Index {
            name,
            table_schema,
            table_name,
            columns,
            include_columns,
            is_unique,
            is_clustered,
            fill_factor,
            filter_predicate,
            data_compression,
            is_padded,
        },
    )
}

/// A clustered or nonclustered index from already-made tokens (`toks`, the
/// tokens of `sql`): by the index token parser, else by patterns on the text.
pub fn extract_index_info_with_tokens(sql: &str, toks: &Vec<SqlToken>) -> (r: Option<FallbackStatementType>)
    ensures
        opt_fallback(r) == index_info(sql@, views(toks@)),
{
    match parse_create_index(toks) {
        Some(ix) => Some(index_from_tokens_exec(sql, ix)),
        None => {
            let caps = regex_captures(INDEX_FALLBACK_PATTERN, sql);
            index_from_captures(sql, &caps, toks)
        },
    }
}

/// A clustered or nonclustered index read from its text, which is tokenized
/// once for the token parser.
pub fn extract_index_info(sql: &str) -> (r: Option<FallbackStatementType>)
    ensures
        opt_fallback(r) == index_info(sql@, shared_tokens(sql@)),
{
    let toks = tokenize_or_empty(sql);
    extract_index_info_with_tokens(sql, &toks)
}

} // verus!
