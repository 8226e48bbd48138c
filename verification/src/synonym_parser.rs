//! `CREATE SYNONYM [schema].[name] FOR target`, where the target has one to
//! four parts: `name`, `schema.name`, `database.schema.name` or
//! `server.database.schema.name`.

use vstd::prelude::*;
use crate::text::str_to_string;
use crate::lexer::{SqlToken, TokenKind, TokenView, views, lex_sql, tokenize};
use crate::cursor::{
    skip_ws, kw_at, word_at, kind_at, ident, schema_qualified_name, lemma_skip_ws,
    skip_whitespace, check_keyword, check_word_ci, check_kind, parse_identifier,
    parse_schema_qualified_name,
};
use crate::storage_parser::strings_view;

verus! {

/// A parsed `CREATE SYNONYM`.
#[derive(Debug, Clone)]
pub struct TokenParsedSynonym {
    /// Schema of the synonym (`dbo` when not given).
    pub schema: String,
    /// Name of the synonym.
    pub name: String,
    /// Schema of the referenced object.
    pub target_schema: String,
    /// Name of the referenced object.
    pub target_name: String,
    /// Database of the referenced object, for a cross-database synonym.
    pub target_database: Option<String>,
    /// Server of the referenced object, for a cross-server synonym.
    pub target_server: Option<String>,
}

pub struct SynonymView {
    pub schema: Seq<char>,
    pub name: Seq<char>,
    pub target_schema: Seq<char>,
    pub target_name: Seq<char>,
    pub target_database: Option<Seq<char>>,
    pub target_server: Option<Seq<char>>,
}

pub open spec fn opt_view(x: Option<String>) -> Option<Seq<char>> {
    match x {
        Some(a) => Some(a@),
        None => None,
    }
}

impl View for TokenParsedSynonym {
    type V = SynonymView;

    open spec fn view(&self) -> SynonymView {
        SynonymView {
            schema: self.schema@,
            name: self.name@,
            target_schema: self.target_schema@,
            target_name: self.target_name@,
            target_database: opt_view(self.target_database),
            target_server: opt_view(self.target_server),
        }
    }
}

pub open spec fn opt_synonym(r: Option<TokenParsedSynonym>) -> Option<SynonymView> {
    match r {
        Some(x) => Some(x@),
        None => None,
    }
}

// ---------------------------------------------------------------------------
// Specification
// ---------------------------------------------------------------------------

/// Further `.identifier` parts after position `p`; a `.` not followed by an
/// identifier ends the name.
pub open spec fn more_parts(s: Seq<TokenView>, p: int, acc: Seq<Seq<char>>) -> Seq<Seq<char>>
    decreases s.len() - p,
{
    if p < 0 {
        acc
    } else {
        let q = skip_ws(s, p);
        proof {
            lemma_skip_ws(s, p);
        }
        if kind_at(s, q, TokenKind::Period) {
            let r = skip_ws(s, q + 1);
            proof {
                lemma_skip_ws(s, q + 1);
            }
            let (id, e) = ident(s, r);
            match id {
                Some(x) => more_parts(s, e, acc.push(x)),
                None => acc,
            }
        } else {
            acc
        }
    }
}

/// The target of a synonym from its parts.
pub open spec fn target_of(parts: Seq<Seq<char>>) -> Option<
    (Option<Seq<char>>, Option<Seq<char>>, Seq<char>, Seq<char>),
> {
    if parts.len() == 1 {
        Some((None, None, "dbo"@, parts[0]))
    } else if parts.len() == 2 {
        Some((None, None, parts[0], parts[1]))
    } else if parts.len() == 3 {
        Some((None, Some(parts[0]), parts[1], parts[2]))
    } else if parts.len() == 4 {
        Some((Some(parts[0]), Some(parts[1]), parts[2], parts[3]))
    } else {
        None
    }
}

/// `CREATE SYNONYM name FOR target`.
pub open spec fn synonym(s: Seq<TokenView>) -> Option<SynonymView> {
    let p0 = skip_ws(s, 0);
    let p1 = skip_ws(s, p0 + 1);
    let p2 = skip_ws(s, p1 + 1);
    if !kw_at(s, p0, "CREATE"@) || !word_at(s, p1, "SYNONYM"@) {
        None
    } else {
        let (n, p3) = schema_qualified_name(s, p2);
        let p4 = skip_ws(s, p3);
        match n {
            None => None,
            Some((schema, name)) => if !kw_at(s, p4, "FOR"@) {
                None
            } else {
                let (first, p5) = ident(s, skip_ws(s, p4 + 1));
                match first {
                    None => None,
                    Some(f) => match target_of(more_parts(s, p5, seq![f])) {
                        None => None,
                        Some((server, database, ts, tn)) => Some(
                            SynonymView {
                                schema,
                                name,
                                target_schema: ts,
                                target_name: tn,
                                target_database: database,
                                target_server: server,
                            },
                        ),
                    },
                }
            },
        }
    }
}

// ---------------------------------------------------------------------------
// Executable parser
// ---------------------------------------------------------------------------

fn more_parts_exec(toks: &Vec<SqlToken>, p: usize, acc: Vec<String>) -> (r: Vec<String>)
    requires
        p <= toks.len(),
    ensures
        strings_view(r@) == more_parts(views(toks@), p as int, strings_view(acc@)),
    decreases toks.len() - p,
{
    let q = skip_whitespace(toks, p);
    if check_kind(toks, q, TokenKind::Period) {
        let rp = skip_whitespace(toks, q + 1);
        let (id, e) = parse_identifier(toks, rp);
        match id {
            Some(x) => {
                let mut acc = acc;
                let ghost old_acc = acc@;
                acc.push(x);
                assert(strings_view(acc@) =~= strings_view(old_acc).push(x@));
                more_parts_exec(toks, e, acc)
            },
            None => acc,
        }
    } else {
        acc
    }
}

fn clone_at(v: &Vec<String>, i: usize) -> (r: String)
    requires
        i < v.len(),
    ensures
        r@ == v@[i as int]@,
{
    v[i].clone()
}

/// `CREATE SYNONYM`, over tokens.
pub fn parse_create_synonym(toks: &Vec<SqlToken>) -> (r: Option<TokenParsedSynonym>)
    ensures
        opt_synonym(r) == synonym(views(toks@)),
{
    let p0 = skip_whitespace(toks, 0);
    if !check_keyword(toks, p0, "CREATE") {
        return None;
    }
    let p1 = skip_whitespace(toks, p0 + 1);
    if !check_word_ci(toks, p1, "SYNONYM") {
        return None;
    }
    let p2 = skip_whitespace(toks, p1 + 1);
    let (n, p3) = parse_schema_qualified_name(toks, p2);
    let p4 = skip_whitespace(toks, p3);
    let (schema, name) = match n {
        Some(x) => x,
        None => return None,
    };
    if !check_keyword(toks, p4, "FOR") {
        return None;
    }
    let (first, p5) = parse_identifier(toks, skip_whitespace(toks, p4 + 1));
    let f = match first {
        Some(x) => x,
        None => return None,
    };
    let mut acc: Vec<String> = Vec::new();
    acc.push(f);
    assert(strings_view(acc@) =~= seq![f@]);
    let parts = more_parts_exec(toks, p5, acc);
    let ghost ps = strings_view(parts@);
    assert(forall|i: int| 0 <= i < parts@.len() ==> ps[i] == parts@[i]@);
    let n = parts.len();
    if n == 1 {
        Some(
            TokenParsedSynonym {
                schema,
                name,
                target_schema: str_to_string("dbo"),
                target_name: clone_at(&parts, 0),
                target_database: None,
                target_server: None,
            },
        )
    } else if n == 2 {
        Some(
            TokenParsedSynonym {
                schema,
                name,
                target_schema: clone_at(&parts, 0),
                target_name: clone_at(&parts, 1),
                target_database: None,
                target_server: None,
            },
        )
    } else if n == 3 {
        Some(
            TokenParsedSynonym {
                schema,
                name,
                target_schema: clone_at(&parts, 1),
                target_name: clone_at(&parts, 2),
                target_database: Some(clone_at(&parts, 0)),
                target_server: None,
            },
        )
    } else if n == 4 {
        Some(
            TokenParsedSynonym {
                schema,
                name,
                target_schema: clone_at(&parts, 2),
                target_name: clone_at(&parts, 3),
                target_database: Some(clone_at(&parts, 1)),
                target_server: Some(clone_at(&parts, 0)),
            },
        )
    } else {
        None
    }
}

/// Parses `CREATE SYNONYM [schema].[name] FOR target`.
pub fn parse_create_synonym_tokens(sql: &str) -> (r: Option<TokenParsedSynonym>)
    ensures
        match lex_sql(sql@) {
            Some(s) => opt_synonym(r) == synonym(s),
            None => r is None,
        },
{
    match tokenize(sql) {
        Some(toks) => parse_create_synonym(&toks),
        None => None,
    }
}

} // verus!
