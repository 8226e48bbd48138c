//! SQLCMD `:r` include directives and `:setvar` variables.
//!
//! The directives are found with regular expressions (the `regex` crate). The
//! library decides what every directive turns into: the include path after
//! `$(var)` substitution and separator normalization, and the text that
//! surrounds each included file. Reading the files, resolving and
//! canonicalizing paths is left to the caller, which hands the expanded text of
//! each include back to [`assemble_includes`].

use vstd::prelude::*;
use crate::text::{
    push_char, append_string, chars_of, trim_by, trim_set, CharSet, dquote_pred, str_to_string,
    string_from_chars, text_eq, ends_with_char, starts_with_char, string_from_range,
};
use crate::cursor::opt_str;
use crate::storage_parser::strings_view;

verus! {

/// `:setvar name value` at the start of a line.
pub const SETVAR_PATTERN: &'static str = "(?m)^\\s*:setvar\\s+(\\w+)\\s+\"?([^\"\\r\\n]+)\"?\\s*$";

/// `:r path` or `:r "path"` alone on a line.
pub const INCLUDE_PATTERN: &'static str = "(?m)^\\s*:r\\s+(?:\"([^\"]+)\"|(\\S+))\\s*$";

/// `$(name)`.
pub const VARIABLE_PATTERN: &'static str = "\\$\\((\\w+)\\)";

/// What the `regex` crate gives for `pattern` on `text`: the pieces of `text`
/// between the matches (`Regex::split`) and, for each match, its capture groups,
/// group 0 being the whole match (`Regex::captures_iter`); `None` when the
/// pattern does not compile.
pub uninterp spec fn regex_segments(pattern: Seq<char>, text: Seq<char>) -> Option<
    (Seq<Seq<char>>, Seq<Seq<Option<Seq<char>>>>),
>;

/// The model of one match's groups.
pub open spec fn group_view(g: Seq<Option<String>>) -> Seq<Option<Seq<char>>> {
    g.map_values(|x: Option<String>| opt_str(x))
}

pub open spec fn groups_view(m: Seq<Vec<Option<String>>>) -> Seq<Seq<Option<Seq<char>>>> {
    m.map_values(|g: Vec<Option<String>>| group_view(g@))
}

/// The model of a list of variable definitions.
pub open spec fn vars_view(v: Seq<(String, String)>) -> Seq<(Seq<char>, Seq<char>)> {
    v.map_values(|p: (String, String)| (p.0@, p.1@))
}

/// `Regex::new`, `Regex::split` and `Regex::captures_iter` (regex crate). The
/// contract names the pieces and the groups by `regex_segments`, and states
/// what the crate's source shows of `split`: one piece before each match and
/// one after the last, so that with no match the one piece is the whole text.
/// Nothing more of the matching is stated.
#[verifier::external_body]
fn regex_split_captures(pattern: &str, text: &str) -> (r: Option<(Vec<String>, Vec<Vec<Option<String>>>)>)
    ensures
        match r {
            Some((p, m)) => regex_segments(pattern@, text@) == Some(
                (strings_view(p@), groups_view(m@)),
            ) && p.len() == m.len() + 1 && (m.len() == 0 ==> p@[0]@ == text@),
            None => regex_segments(pattern@, text@) is None,
        },
{
    let re = regex::Regex::new(pattern).ok()?;
    let pieces: Vec<String> = re.split(text).map(|s| s.to_string()).collect();
    let groups: Vec<Vec<Option<String>>> = re.captures_iter(text).map(
        |c| c.iter().map(|m| m.map(|m| m.as_str().to_string())).collect(),
    ).collect();
    Some((pieces, groups))
}

// ---------------------------------------------------------------------------
// Specification
// ---------------------------------------------------------------------------

/// Capture group `i` of a match (0 the whole match), empty when it did not
/// take part.
pub open spec fn group_text(g: Seq<Option<Seq<char>>>, i: int) -> Seq<char> {
    if 0 <= i < g.len() {
        match g[i] {
            Some(t) => t,
            None => Seq::empty(),
        }
    } else {
        Seq::empty()
    }
}

/// The definitions that the `:setvar` matches give, in order: name and value
/// (surrounding `"` removed).
pub open spec fn setvars_from(m: Seq<Seq<Option<Seq<char>>>>) -> Seq<(Seq<char>, Seq<char>)> {
    m.map_values(
        |g: Seq<Option<Seq<char>>>| (group_text(g, 1), trim_by(group_text(g, 2), dquote_pred())),
    )
}

/// The `:setvar` definitions of a text, in order.
pub open spec fn setvars(content: Seq<char>) -> Option<Seq<(Seq<char>, Seq<char>)>> {
    match regex_segments(SETVAR_PATTERN@, content) {
        None => None,
        Some((_p, m)) => Some(setvars_from(m)),
    }
}

/// The value of a variable: its last definition.
pub open spec fn lookup(vars: Seq<(Seq<char>, Seq<char>)>, name: Seq<char>) -> Option<Seq<char>>
    decreases vars.len(),
{
    if vars.len() == 0 {
        None
    } else if vars.last().0 == name {
        Some(vars.last().1)
    } else {
        lookup(vars.drop_last(), name)
    }
}

/// What `$(name)` turns into: the variable's value, or `$(name)` itself when
/// it is not defined.
pub open spec fn variable_text(vars: Seq<(Seq<char>, Seq<char>)>, name: Seq<char>) -> Seq<char> {
    match lookup(vars, name) {
        Some(v) => v,
        None => "$("@ + name + ")"@,
    }
}

/// The pieces of a text interleaved with the replacements of its `$(name)`
/// references, from match `i` on.
pub open spec fn interleave_vars(
    pieces: Seq<Seq<char>>,
    m: Seq<Seq<Option<Seq<char>>>>,
    vars: Seq<(Seq<char>, Seq<char>)>,
    i: int,
) -> Seq<char>
    decreases m.len() - i,
{
    if i < 0 || i >= m.len() || i + 1 >= pieces.len() {
        Seq::empty()
    } else {
        variable_text(vars, group_text(m[i], 1)) + pieces[i + 1] + interleave_vars(pieces, m, vars, i + 1)
    }
}

/// A path rebuilt from the pieces around its `$(name)` matches, each
/// reference replaced.
pub open spec fn substitute_segments(
    p: Seq<Seq<char>>,
    m: Seq<Seq<Option<Seq<char>>>>,
    vars: Seq<(Seq<char>, Seq<char>)>,
) -> Option<Seq<char>> {
    if p.len() == 0 {
        None
    } else {
        Some(p[0] + interleave_vars(p, m, vars, 0))
    }
}

/// A path with its `$(name)` references replaced.
pub open spec fn substituted(path: Seq<char>, vars: Seq<(Seq<char>, Seq<char>)>) -> Option<Seq<char>> {
    match regex_segments(VARIABLE_PATTERN@, path) {
        None => None,
        Some((p, m)) => substitute_segments(p, m, vars),
    }
}

/// `\` replaced by `/`.
pub open spec fn forward_slashes(s: Seq<char>) -> Seq<char> {
    s.map_values(|c: char| if c == '\\' { '/' } else { c })
}

/// The include path of a `:r` match: the quoted path, else the bare one.
pub open spec fn raw_include_path(g: Seq<Option<Seq<char>>>) -> Seq<char> {
    if g.len() > 1 && g[1] is Some {
        g[1].unwrap()
    } else {
        group_text(g, 2)
    }
}

/// The include paths of the `:r` matches, variables substituted and `\`
/// replaced by `/`.
pub open spec fn include_paths(m: Seq<Seq<Option<Seq<char>>>>, vars: Seq<(Seq<char>, Seq<char>)>) -> Option<
    Seq<Seq<char>>,
>
    decreases m.len(),
{
    if m.len() == 0 {
        Some(Seq::empty())
    } else {
        match include_paths(m.drop_last(), vars) {
            None => None,
            Some(ps) => match substituted(raw_include_path(m.last()), vars) {
                None => None,
                Some(t) => Some(ps.push(forward_slashes(t))),
            },
        }
    }
}

/// The pieces of a text around its `:r` directives and the include paths.
pub open spec fn include_plan(content: Seq<char>) -> Option<(Seq<Seq<char>>, Seq<Seq<char>>)> {
    match setvars(content) {
        None => None,
        Some(vars) => match regex_segments(INCLUDE_PATTERN@, content) {
            None => None,
            Some((p, m)) => match include_paths(m, vars) {
                None => None,
                Some(paths) => Some((p, paths)),
            },
        },
    }
}

/// The text that stands for one included file.
pub open spec fn include_block(path: Seq<char>, expanded: Seq<char>) -> Seq<char> {
    "-- BEGIN :r "@ + path + "\n"@ + expanded + (if ends_with_char(expanded, '\n') {
        Seq::empty()
    } else {
        "\n"@
    }) + "-- END :r "@ + path + "\n"@
}

/// The pieces interleaved with the blocks of the included files, from include `i` on.
pub open spec fn assembled(
    pieces: Seq<Seq<char>>,
    paths: Seq<Seq<char>>,
    expanded: Seq<Seq<char>>,
    i: int,
) -> Seq<char>
    decreases paths.len() - i,
{
    if i < 0 || i >= paths.len() || i + 1 >= pieces.len() || i >= expanded.len() {
        Seq::empty()
    } else {
        include_block(paths[i], expanded[i]) + pieces[i + 1] + assembled(pieces, paths, expanded, i + 1)
    }
}

// ---------------------------------------------------------------------------
// Executable
// ---------------------------------------------------------------------------

/// The `:r` directives of a text: the pieces around them and their include paths.
#[derive(Debug, Clone)]
pub struct IncludePlan {
    /// The text before, between and after the directives (one more than `paths`).
    pub pieces: Vec<String>,
    /// The include path of each directive, variables substituted, `\` made `/`.
    pub paths: Vec<String>,
}

fn group_text_exec(g: &Vec<Option<String>>, i: usize) -> (r: String)
    ensures
        r@ == group_text(group_view(g@), i as int),
{
    if i < g.len() {
        match &g[i] {
            Some(t) => t.clone(),
            None => String::new(),
        }
    } else {
        String::new()
    }
}

/// The definitions that the `:setvar` matches `m` give.
pub fn setvars_from_matches(m: &Vec<Vec<Option<String>>>) -> (r: Vec<(String, String)>)
    ensures
        vars_view(r@) == setvars_from(groups_view(m@)),
{
    let ghost gv = groups_view(m@);
    let mut out: Vec<(String, String)> = Vec::new();
    let mut i: usize = 0;
    while i < m.len()
        invariant
            gv == groups_view(m@),
            0 <= i <= m.len(),
            out@.len() == i,
            forall|k: int|
                0 <= k < i ==> (#[trigger] out@[k]).0@ == group_text(gv[k], 1) && out@[k].1@
                    == trim_by(group_text(gv[k], 2), dquote_pred()),
        decreases m.len() - i,
    {
        let name = group_text_exec(&m[i], 1);
        let raw = group_text_exec(&m[i], 2);
        let rv = chars_of(raw.as_str());
        let value = string_from_chars(&trim_set(&rv, CharSet::DoubleQuote));
        out.push((name, value));
        i = i + 1;
    }
    assert(vars_view(out@) =~= setvars_from(gv));
    out
}

fn setvars_exec(content: &str) -> (r: Option<Vec<(String, String)>>)
    ensures
        match setvars(content@) {
            Some(v) => r matches Some(x) && vars_view(x@) == v,
            None => r is None,
        },
{
    match regex_split_captures(SETVAR_PATTERN, content) {
        Some((_p, m)) => Some(setvars_from_matches(&m)),
        None => None,
    }
}

fn lookup_exec(vars: &Vec<(String, String)>, name: &String) -> (r: Option<String>)
    ensures
        opt_str(r) == lookup(vars_view(vars@), name@),
{
    let ghost vs = vars_view(vars@);
    let mut i: usize = vars.len();
    assert(vs.subrange(0, vars.len() as int) =~= vs);
    while i > 0
        invariant
            vs == vars_view(vars@),
            i <= vars.len(),
            lookup(vs, name@) == lookup(vs.subrange(0, i as int), name@),
        decreases i,
    {
        let ghost sub = vs.subrange(0, i as int);
        assert(sub.drop_last() =~= vs.subrange(0, i - 1));
        assert(sub.last() == vs[i - 1]);
        if text_eq(vars[i - 1].0.as_str(), name.as_str()) {
            return Some(vars[i - 1].1.clone());
        }
        i = i - 1;
    }
    None
}

/// A path rebuilt from the pieces `p` around its `$(name)` matches `m`, each
/// reference replaced by its variable's value (left as it is when undefined).
pub fn substitute_segments_exec(
    p: &Vec<String>,
    m: &Vec<Vec<Option<String>>>,
    vars: &Vec<(String, String)>,
) -> (r: Option<String>)
    ensures
        opt_str(r) == substitute_segments(strings_view(p@), groups_view(m@), vars_view(vars@)),
{
    let ghost vs = vars_view(vars@);
    if p.len() == 0 {
        return None;
    }
    let ghost pv = strings_view(p@);
    let ghost mv = groups_view(m@);
    let mut out = p[0].clone();
    let mut i: usize = 0;
    assert(p@[0]@ == pv[0]);
    while i < m.len() && i + 1 < p.len()
        invariant
            pv == strings_view(p@),
            mv == groups_view(m@),
            vs == vars_view(vars@),
            pv.len() == p.len(),
            mv.len() == m.len(),
            0 <= i <= m.len(),
            pv[0] + interleave_vars(pv, mv, vs, 0) == out@ + interleave_vars(pv, mv, vs, i as int),
        decreases m.len() - i,
    {
        let name = group_text_exec(&m[i], 1);
        let ghost out_old = out@;
        let found = lookup_exec(vars, &name);
        let rep = match found {
            Some(v) => v,
            None => {
                let mut t = str_to_string("$(");
                append_string(&mut t, &name);
                t.append(")");
                assert(t@ =~= "$("@ + name@ + ")"@);
                t
            },
        };
        assert(name@ == group_text(mv[i as int], 1));
        assert(rep@ == variable_text(vs, name@));
        append_string(&mut out, &rep);
        append_string(&mut out, &p[i + 1]);
        proof {
            assert(p@[i + 1]@ == pv[i + 1]);
            assert(mv[i as int] == group_view(m@[i as int]@));
            let vt = variable_text(vs, group_text(mv[i as int], 1));
            let rest = interleave_vars(pv, mv, vs, i + 1);
            assert(interleave_vars(pv, mv, vs, i as int) == vt + pv[i + 1] + rest);
            assert(out@ =~= out_old + vt + pv[i + 1]);
            assert(out_old + (vt + pv[i + 1] + rest) =~= out@ + rest);
        }
        i = i + 1;
    }
    assert(interleave_vars(pv, mv, vs, i as int) == Seq::<char>::empty());
    assert(out@ + Seq::<char>::empty() =~= out@);
    Some(out)
}

fn substitute_exec(path: &String, vars: &Vec<(String, String)>) -> (r: Option<String>)
    ensures
        opt_str(r) == substituted(path@, vars_view(vars@)),
{
    match regex_split_captures(VARIABLE_PATTERN, path.as_str()) {
        Some((p, m)) => substitute_segments_exec(&p, &m, vars),
        None => None,
    }
}

fn forward_slashes_exec(s: &String) -> (r: String)
    ensures
        r@ == forward_slashes(s@),
{
    let v = chars_of(s.as_str());
    let mut out = String::new();
    let mut i: usize = 0;
    while i < v.len()
        invariant
            v@ == s@,
            0 <= i <= v.len(),
            out@ == forward_slashes(v@.subrange(0, i as int)),
        decreases v.len() - i,
    {
        let c = if v[i] == '\\' {
            '/'
        } else {
            v[i]
        };
        push_char(&mut out, c);
        assert(forward_slashes(v@.subrange(0, i + 1)) =~= forward_slashes(v@.subrange(0, i as int)).push(c));
        i = i + 1;
    }
    assert(v@.subrange(0, v@.len() as int) =~= v@);
    out
}

/// The include paths of the `:r` matches `m`: each path with the variables
/// `vars` substituted and `\` made `/`; `None` where a substitution fails.
pub fn include_paths_exec(m: &Vec<Vec<Option<String>>>, vars: &Vec<(String, String)>) -> (r: Option<Vec<String>>)
    ensures
        match include_paths(groups_view(m@), vars_view(vars@)) {
            Some(ps) => r matches Some(x) && strings_view(x@) == ps,
            None => r is None,
        },
{
    let ghost mv = groups_view(m@);
    let ghost vs = vars_view(vars@);
    let mut paths: Vec<String> = Vec::new();
    let mut i: usize = 0;
    assert(mv.subrange(0, 0) =~= Seq::<Seq<Option<Seq<char>>>>::empty());
    while i < m.len()
        invariant
            mv == groups_view(m@),
            vs == vars_view(vars@),
            0 <= i <= m.len(),
            paths.len() == i,
            include_paths(mv.subrange(0, i as int), vs) == Some(strings_view(paths@)),
        decreases m.len() - i,
    {
        let g = &m[i];
        let raw = if g.len() > 1 && g[1].is_some() {
            group_text_exec(g, 1)
        } else {
            group_text_exec(g, 2)
        };
        let ghost gi = mv[i as int];
        assert(raw@ == raw_include_path(gi));
        let t = match substitute_exec(&raw, vars) {
            Some(t) => t,
            None => {
                proof {
                    assert(mv.subrange(0, i + 1).drop_last() =~= mv.subrange(0, i as int));
                    assert(mv.subrange(0, i + 1).last() == gi);
                    assert(include_paths(mv.subrange(0, i + 1), vs) is None);
                    lemma_include_paths_none_extends(mv, vs, i as int + 1);
                }
                return None;
            },
        };
        let fs = forward_slashes_exec(&t);
        let ghost before = strings_view(paths@);
        paths.push(fs);
        assert(strings_view(paths@) =~= before.push(fs@));
        assert(mv.subrange(0, i + 1).drop_last() =~= mv.subrange(0, i as int));
        assert(mv.subrange(0, i + 1).last() == gi);
        i = i + 1;
    }
    assert(mv.subrange(0, m.len() as int) =~= mv);
    Some(paths)
}

/// Finds the `:r` directives of `content` and works out their include paths
/// (`:setvar` variables of the same text substituted, `\` made `/`). `None`
/// only when one of the fixed patterns fails to compile.
pub fn plan_includes(content: &str) -> (r: Option<IncludePlan>)
    ensures
        match include_plan(content@) {
            Some((p, paths)) => r matches Some(x) && strings_view(x.pieces@) == p && strings_view(
                x.paths@,
            ) == paths && x.pieces.len() == x.paths.len() + 1,
            None => r is None,
        },
        r matches Some(x) ==> (x.paths.len() == 0 ==> strings_view(x.pieces@) == seq![content@]),
{
    let vars = match setvars_exec(content) {
        Some(v) => v,
        None => return None,
    };
    let (pieces, m) = match regex_split_captures(INCLUDE_PATTERN, content) {
        Some(x) => x,
        None => return None,
    };
    match include_paths_exec(&m, &vars) {
        Some(paths) => {
            proof {
                lemma_include_paths_len(groups_view(m@), vars_view(vars@));
                if paths.len() == 0 {
                    assert(strings_view(pieces@) =~= seq![content@]);
                }
            }
            Some(IncludePlan { pieces, paths })
        },
        None => None,
    }
}

/// There are as many include paths as matches.
pub proof fn lemma_include_paths_len(m: Seq<Seq<Option<Seq<char>>>>, vars: Seq<(Seq<char>, Seq<char>)>)
    ensures
        include_paths(m, vars) matches Some(ps) ==> ps.len() == m.len(),
    decreases m.len(),
{
    if m.len() > 0 {
        lemma_include_paths_len(m.drop_last(), vars);
    }
}

/// Once the paths of a prefix of the matches fail, the paths of every longer
/// prefix fail too.
pub proof fn lemma_include_paths_none_extends(
    m: Seq<Seq<Option<Seq<char>>>>,
    vars: Seq<(Seq<char>, Seq<char>)>,
    k: int,
)
    requires
        1 <= k <= m.len(),
        include_paths(m.subrange(0, k), vars) is None,
    ensures
        include_paths(m, vars) is None,
    decreases m.len() - k,
{
    if k < m.len() {
        assert(m.subrange(0, k + 1).drop_last() =~= m.subrange(0, k));
        lemma_include_paths_none_extends(m, vars, k + 1);
    } else {
        assert(m.subrange(0, k) =~= m);
    }
}

fn push_include_block(out: &mut String, path: &String, expanded: &String)
    ensures
        final(out)@ == old(out)@ + include_block(path@, expanded@),
{
    let ghost start = out@;
    out.append("-- BEGIN :r ");
    append_string(out, path);
    out.append("\n");
    append_string(out, expanded);
    let ev = chars_of(expanded.as_str());
    let ends_nl = ev.len() > 0 && ev[ev.len() - 1] == '\n';
    if !ends_nl {
        out.append("\n");
    }
    out.append("-- END :r ");
    append_string(out, path);
    out.append("\n");
    proof {
        reveal_strlit("\n");
        assert(out@ =~= start + include_block(path@, expanded@));
    }
}

/// The text with every `:r` directive replaced by the expanded text of its file,
/// framed by `-- BEGIN :r path` and `-- END :r path` lines.
pub fn assemble_includes(plan: &IncludePlan, expanded: &Vec<String>) -> (r: String)
    requires
        expanded.len() == plan.paths.len(),
        plan.pieces.len() == plan.paths.len() + 1,
    ensures
        r@ == strings_view(plan.pieces@)[0] + assembled(
            strings_view(plan.pieces@),
            strings_view(plan.paths@),
            strings_view(expanded@),
            0,
        ),
        plan.paths.len() == 0 ==> r@ == plan.pieces@[0]@,
{
    let ghost pv = strings_view(plan.pieces@);
    let ghost av = strings_view(plan.paths@);
    let ghost ev = strings_view(expanded@);
    let mut out = plan.pieces[0].clone();
    let mut i: usize = 0;
    while i < plan.paths.len()
        invariant
            pv == strings_view(plan.pieces@),
            av == strings_view(plan.paths@),
            ev == strings_view(expanded@),
            expanded.len() == plan.paths.len(),
            plan.pieces.len() == plan.paths.len() + 1,
            0 <= i <= plan.paths.len(),
            pv[0] + assembled(pv, av, ev, 0) == out@ + assembled(pv, av, ev, i as int),
        decreases plan.paths.len() - i,
    {
        push_include_block(&mut out, &plan.paths[i], &expanded[i]);
        append_string(&mut out, &plan.pieces[i + 1]);
        proof {
            assert(plan.paths@[i as int]@ == av[i as int]);
            assert(expanded@[i as int]@ == ev[i as int]);
            assert(plan.pieces@[i + 1]@ == pv[i + 1]);
        }
        i = i + 1;
    }
    out
}

/// Whether `path` is among the files being expanded (a circular include).
pub fn is_circular_include(visited: &Vec<String>, path: &str) -> (r: bool)
    ensures
        r == exists|i: int| 0 <= i < visited.len() && (#[trigger] visited@[i])@ == path@,
{
    let mut i: usize = 0;
    while i < visited.len()
        invariant
            0 <= i <= visited.len(),
            forall|k: int| 0 <= k < i ==> (#[trigger] visited@[k])@ != path@,
        decreases visited.len() - i,
    {
        if text_eq(visited[i].as_str(), path) {
            return true;
        }
        i = i + 1;
    }
    false
}

/// The text without a leading byte-order mark.
pub fn strip_bom(s: &str) -> (r: String)
    ensures
        r@ == (if starts_with_char(s@, '\u{FEFF}') {
            s@.drop_first()
        } else {
            s@
        }),
{
    let v = chars_of(s);
    if v.len() > 0 && v[0] == '\u{FEFF}' {
        let rest = string_from_range(&v, 1, v.len());
        assert(v@.subrange(1, v@.len() as int) =~= v@.drop_first());
        rest
    } else {
        str_to_string(s)
    }
}

} // verus!
