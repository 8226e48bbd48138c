//! Splitting a script into batches at `GO` lines (outside block comments), with
//! the line each batch starts on, and reading the line number out of a parser
//! error message.

use vstd::prelude::*;
use crate::text::{chars_of, trim, trim_set, CharSet, eq_ci, eq_ignore_ascii_case, string_from_range, string_from_chars};
use crate::cursor::{parse_u64, parse_u64_exec, opt_str};
use crate::column_parser::{first_newline, lemma_first_newline};
use crate::patterns::{regex_capture_groups, group_of, regex_captures, capture_group};

verus! {

/// A batch of a script: its text and its first line (1-based).
#[derive(Debug, Clone)]
pub struct Batch {
    pub content: String,
    pub start_line: usize,
}

impl View for Batch {
    type V = (Seq<char>, nat);

    open spec fn view(&self) -> (Seq<char>, nat) {
        (self.content@, self.start_line as nat)
    }
}

pub open spec fn batches_view(v: Seq<Batch>) -> Seq<(Seq<char>, nat)> {
    v.map_values(|b: Batch| b@)
}

// ---------------------------------------------------------------------------
// Specification
// ---------------------------------------------------------------------------

/// Whether a block comment is open at the end of `line`, scanning from `i`
/// with `open` telling whether one is open there. A `--` outside a block
/// comment ends the scan.
pub open spec fn comment_open_after(line: Seq<char>, i: int, open: bool) -> bool
    decreases line.len() - i,
{
    if i < 0 || i >= line.len() {
        open
    } else if !open {
        if i + 1 < line.len() && line[i] == '/' && line[i + 1] == '*' {
            comment_open_after(line, i + 2, true)
        } else if i + 1 < line.len() && line[i] == '-' && line[i + 1] == '-' {
            false
        } else {
            comment_open_after(line, i + 1, false)
        }
    } else if i + 1 < line.len() && line[i] == '*' && line[i + 1] == '/' {
        comment_open_after(line, i + 2, false)
    } else {
        comment_open_after(line, i + 1, true)
    }
}

/// A `GO` or `GO;` line (whitespace around it allowed, any case).
pub open spec fn is_go_line(line: Seq<char>) -> bool {
    eq_ci(trim(line), "go"@) || eq_ci(trim(line), "go;"@)
}

/// The line starting at `pos` (up to the next `\n`, a `\r` before it dropped)
/// and the position of the next line.
pub open spec fn line_at(c: Seq<char>, pos: int) -> (Seq<char>, int) {
    let k = first_newline(c, pos);
    if k < c.len() {
        let line = if k > pos && c[k - 1] == '\r' {
            c.subrange(pos, k - 1)
        } else {
            c.subrange(pos, k)
        };
        (line, k + 1)
    } else {
        (c.subrange(pos, c.len() as int), c.len() as int)
    }
}

/// The batches of `c` from the line starting at `pos` (line number `line_no`);
/// the current batch started at `start` on line `start_line`.
pub open spec fn split_from(
    c: Seq<char>,
    pos: int,
    line_no: nat,
    start: int,
    start_line: nat,
    open: bool,
    acc: Seq<(Seq<char>, nat)>,
) -> Seq<(Seq<char>, nat)>
    decreases c.len() - pos,
{
    if pos < 0 || pos >= c.len() {
        if 0 <= start < c.len() {
            acc.push((c.subrange(start, c.len() as int), start_line))
        } else {
            acc
        }
    } else {
        let (line, next) = line_at(c, pos);
        proof {
            lemma_first_newline(c, pos);
        }
        let open2 = comment_open_after(line, 0, open);
        if !open2 && is_go_line(line) {
            let acc2 = if pos > start {
                acc.push((c.subrange(start, pos), start_line))
            } else {
                acc
            };
            split_from(c, next, line_no + 1, next, line_no + 1, open2, acc2)
        } else {
            split_from(c, next, line_no + 1, start, start_line, open2, acc)
        }
    }
}

/// The batches of a script and their first lines.
pub open spec fn script_batches(c: Seq<char>) -> Seq<(Seq<char>, nat)> {
    split_from(c, 0, 1, 0, 1, false, Seq::empty())
}

/// `str::parse::<usize>` on a 64-bit target.
pub open spec fn parse_usize(t: Seq<char>) -> Option<usize> {
    match parse_u64(t) {
        Some(v) => if v <= usize::MAX {
            Some(v as usize)
        } else {
            None
        },
        None => None,
    }
}

/// The line number in an error message: the digits after `Line:`.
pub open spec fn error_line(msg: Seq<char>) -> Option<usize> {
    match group_of(regex_capture_groups("Line:\\s*(\\d+)"@, msg), 1) {
        Some(d) => parse_usize(d),
        None => None,
    }
}

// ---------------------------------------------------------------------------
// Executable
// ---------------------------------------------------------------------------

fn comment_open_after_exec(line: &Vec<char>, open_at_start: bool) -> (r: bool)
    ensures
        r == comment_open_after(line@, 0, open_at_start),
{
    let mut i: usize = 0;
    let mut open = open_at_start;
    while i < line.len()
        invariant
            0 <= i <= line.len(),
            comment_open_after(line@, 0, open_at_start) == comment_open_after(line@, i as int, open),
        decreases line.len() - i,
    {
        if !open {
            if i + 1 < line.len() && line[i] == '/' && line[i + 1] == '*' {
                open = true;
                i = i + 2;
            } else if i + 1 < line.len() && line[i] == '-' && line[i + 1] == '-' {
                return false;
            } else {
                i = i + 1;
            }
        } else if i + 1 < line.len() && line[i] == '*' && line[i + 1] == '/' {
            open = false;
            i = i + 2;
        } else {
            i = i + 1;
        }
    }
    open
}

fn is_go_line_exec(line: &Vec<char>) -> (r: bool)
    ensures
        r == is_go_line(line@),
{
    let t = trim_set(line, CharSet::Whitespace);
    let s = string_from_chars(&t);
    eq_ignore_ascii_case(s.as_str(), "go") || eq_ignore_ascii_case(s.as_str(), "go;")
}

/// Splits a script into batches at `GO` / `GO;` lines that are not inside a
/// block comment; empty batches are left out.
pub fn split_batches(content: &str) -> (r: Vec<Batch>)
    requires
        content@.len() < usize::MAX,
    ensures
        batches_view(r@) == script_batches(content@),
{
    let c = chars_of(content);
    let mut out: Vec<Batch> = Vec::new();
    let mut pos: usize = 0;
    let mut line_no: usize = 1;
    let mut start: usize = 0;
    let mut start_line: usize = 1;
    let mut open = false;
    assert(batches_view(out@) =~= Seq::<(Seq<char>, nat)>::empty());
    while pos < c.len()
        invariant
            c@ == content@,
            c.len() < usize::MAX,
            pos <= c.len(),
            start <= c.len(),
            1 <= start_line <= line_no <= pos + 1,
            script_batches(content@) == split_from(
                c@,
                pos as int,
                line_no as nat,
                start as int,
                start_line as nat,
                open,
                batches_view(out@),
            ),
        decreases c.len() - pos,
    {
        let mut k: usize = pos;
        while k < c.len() && c[k] != '\n'
            invariant
                pos <= k <= c.len(),
                first_newline(c@, pos as int) == first_newline(c@, k as int),
            decreases c.len() - k,
        {
            k = k + 1;
        }
        let next: usize;
        let line: Vec<char>;
        if k < c.len() {
            let e = if k > pos && c[k - 1] == '\r' {
                k - 1
            } else {
                k
            };
            line = crate::text::sub_vec(&c, pos, e);
            next = k + 1;
        } else {
            line = crate::text::sub_vec(&c, pos, c.len());
            next = c.len();
        }
        assert(line_at(c@, pos as int) == (line@, next as int));
        let open2 = comment_open_after_exec(&line, open);
        if !open2 && is_go_line_exec(&line) {
            if pos > start {
                let ghost before = batches_view(out@);
                let text = string_from_range(&c, start, pos);
                out.push(Batch { content: text, start_line });
                assert(batches_view(out@) =~= before.push((c@.subrange(start as int, pos as int), start_line as nat)));
            }
            start = next;
            start_line = line_no + 1;
        }
        pos = next;
        line_no = line_no + 1;
        open = open2;
    }
    if start < c.len() {
        let ghost before = batches_view(out@);
        let text = string_from_range(&c, start, c.len());
        out.push(Batch { content: text, start_line });
        assert(batches_view(out@) =~= before.push((c@.subrange(start as int, c@.len() as int), start_line as nat)));
    }
    out
}

/// The line number read from a captured digit string.
pub fn line_number_of(capture: Option<String>) -> (r: Option<usize>)
    ensures
        r == match opt_str(capture) {
            Some(d) => parse_usize(d),
            None => None,
        },
{
    match capture {
        None => None,
        Some(d) => match parse_u64_exec(&d) {
            Some(v) => if v <= usize::MAX as u64 {
                Some(v as usize)
            } else {
                None
            },
            None => None,
        },
    }
}

/// The line number of a parser error message (`... at Line: 5, Column: 10`).
pub fn extract_line_from_error(error_msg: &str) -> (r: Option<usize>)
    ensures
        r == error_line(error_msg@),
{
    let caps = regex_captures("Line:\\s*(\\d+)", error_msg);
    line_number_of(capture_group(&caps, 1))
}

} // verus!
