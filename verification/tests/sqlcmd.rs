use sqlpackage_parser::sqlcmd::{
    assemble_includes, include_paths_exec, is_circular_include, plan_includes, setvars_from_matches,
    strip_bom, substitute_segments_exec, IncludePlan,
};

#[test]
fn plan_without_directives_keeps_text() {
    let plan = plan_includes("SELECT 1;").unwrap();
    assert_eq!(plan.pieces, vec!["SELECT 1;".to_string()]);
    assert!(plan.paths.is_empty());
}

#[test]
fn plan_simple_include() {
    let plan = plan_includes("SELECT 1;\n:r included.sql\nSELECT 3;").unwrap();
    assert_eq!(plan.paths, vec!["included.sql".to_string()]);
    assert_eq!(plan.pieces, vec!["SELECT 1;\n".to_string(), "\nSELECT 3;".to_string()]);
}

#[test]
fn plan_backslash_becomes_slash() {
    let plan = plan_includes(":r Scripts\\seed.sql").unwrap();
    assert_eq!(plan.paths, vec!["Scripts/seed.sql".to_string()]);
}

#[test]
fn plan_quoted_path_with_spaces() {
    let plan = plan_includes(":r \"My Scripts/data.sql\"").unwrap();
    assert_eq!(plan.paths, vec!["My Scripts/data.sql".to_string()]);
}

#[test]
fn plan_substitutes_setvar() {
    let plan = plan_includes(":setvar Dir sub\n:r $(Dir)\\a.sql").unwrap();
    assert_eq!(plan.paths, vec!["sub/a.sql".to_string()]);
}

#[test]
fn plan_keeps_undefined_variable() {
    let plan = plan_includes(":r $(Missing)/a.sql").unwrap();
    assert_eq!(plan.paths, vec!["$(Missing)/a.sql".to_string()]);
}

#[test]
fn plan_last_setvar_wins() {
    let plan = plan_includes(":setvar D one\n:setvar D two\n:r $(D).sql").unwrap();
    assert_eq!(plan.paths, vec!["two.sql".to_string()]);
}

#[test]
fn plan_two_includes() {
    let plan = plan_includes(":r a.sql\n:r b.sql").unwrap();
    assert_eq!(plan.paths, vec!["a.sql".to_string(), "b.sql".to_string()]);
    assert_eq!(plan.pieces.len(), 3);
}

#[test]
fn assemble_frames_included_text() {
    let plan = IncludePlan {
        pieces: vec!["A\n".to_string(), "\nB".to_string()],
        paths: vec!["x.sql".to_string()],
    };
    let out = assemble_includes(&plan, &vec!["BODY".to_string()]);
    assert_eq!(out, "A\n-- BEGIN :r x.sql\nBODY\n-- END :r x.sql\n\nB");
}

#[test]
fn assemble_keeps_final_newline_single() {
    let plan = IncludePlan {
        pieces: vec!["".to_string(), "".to_string()],
        paths: vec!["y.sql".to_string()],
    };
    let out = assemble_includes(&plan, &vec!["SELECT 2;\n".to_string()]);
    assert_eq!(out, "-- BEGIN :r y.sql\nSELECT 2;\n-- END :r y.sql\n");
}

#[test]
fn circular_include_detection() {
    let visited = vec!["/a/b.sql".to_string(), "/a/c.sql".to_string()];
    assert!(is_circular_include(&visited, "/a/c.sql"));
    assert!(!is_circular_include(&visited, "/a/d.sql"));
}

#[test]
fn bom_is_stripped() {
    assert_eq!(strip_bom("\u{FEFF}SELECT 1"), "SELECT 1");
    assert_eq!(strip_bom("SELECT 1"), "SELECT 1");
}

#[test]
fn setvars_from_matches_strips_quotes() {
    let m = vec![
        vec![Some(":setvar Dir \"C:\\x\"".to_string()), Some("Dir".to_string()), Some("\"C:\\x\"".to_string())],
        vec![Some(":setvar N".to_string()), Some("N".to_string()), None],
    ];
    let v = setvars_from_matches(&m);
    assert_eq!(v, vec![("Dir".to_string(), "C:\\x".to_string()), ("N".to_string(), String::new())]);
}

#[test]
fn substitute_segments_replaces_known_and_keeps_unknown() {
    let vars = vec![("A".to_string(), "one".to_string())];
    let p = vec!["x/".to_string(), "/".to_string(), "/y".to_string()];
    let m = vec![
        vec![Some("$(A)".to_string()), Some("A".to_string())],
        vec![Some("$(B)".to_string()), Some("B".to_string())],
    ];
    assert_eq!(substitute_segments_exec(&p, &m, &vars), Some("x/one/$(B)/y".to_string()));
    assert_eq!(substitute_segments_exec(&Vec::new(), &Vec::new(), &vars), None);
}

#[test]
fn include_paths_prefers_quoted_and_uses_slashes() {
    let vars = vec![("D".to_string(), "lib".to_string())];
    let m = vec![
        vec![Some(":r \"$(D)\\a b.sql\"".to_string()), Some("$(D)\\a b.sql".to_string()), None],
        vec![Some(":r c\\d.sql".to_string()), None, Some("c\\d.sql".to_string())],
    ];
    assert_eq!(
        include_paths_exec(&m, &vars),
        Some(vec!["lib/a b.sql".to_string(), "c/d.sql".to_string()])
    );
}

#[test]
fn assemble_without_directives_returns_content() {
    let content = ":setvar X 1\nSELECT 1;\n";
    let plan = plan_includes(content).unwrap();
    assert!(plan.paths.is_empty());
    assert_eq!(assemble_includes(&plan, &Vec::new()), content);
}
