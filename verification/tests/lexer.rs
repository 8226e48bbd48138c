use sqlpackage_parser::lexer::{tokenize, TokenKind};

fn kinds_and_values(sql: &str) -> Vec<(TokenKind, String)> {
    tokenize(sql)
        .unwrap()
        .into_iter()
        .filter(|t| t.kind != TokenKind::Whitespace)
        .map(|t| (t.kind, t.value))
        .collect()
}

#[test]
fn test_tokenize_words_carry_value_and_quote() {
    let toks = tokenize("[dbo].\"T\"").unwrap();
    assert_eq!(toks.len(), 3);
    assert_eq!(toks[0].kind, TokenKind::Word);
    assert_eq!(toks[0].value, "dbo");
    assert_eq!(toks[0].quote, Some('['));
    assert_eq!(toks[0].text, "[dbo]");
    assert_eq!(toks[1].kind, TokenKind::Period);
    assert_eq!(toks[2].value, "T");
    assert_eq!(toks[2].quote, Some('"'));
}

#[test]
fn test_tokenize_temp_table_and_variable_names_are_words() {
    let v = kinds_and_values("##temp #t @v @@ROWCOUNT");
    assert_eq!(
        v,
        vec![
            (TokenKind::Word, "##temp".to_string()),
            (TokenKind::Word, "#t".to_string()),
            (TokenKind::Word, "@v".to_string()),
            (TokenKind::Word, "@@ROWCOUNT".to_string()),
        ]
    );
}

#[test]
fn test_tokenize_lone_sigils_and_unknown_chars() {
    let v = kinds_and_values("@ # §");
    assert_eq!(
        v,
        vec![
            (TokenKind::AtSign, "@".to_string()),
            (TokenKind::Sharp, "#".to_string()),
            (TokenKind::Other, "§".to_string()),
        ]
    );
}

#[test]
fn test_tokenize_literals() {
    let v = kinds_and_values("42 'it''s' N'x' 0x1F");
    assert_eq!(v[0], (TokenKind::Number, "42".to_string()));
    assert_eq!(v[1].0, TokenKind::SingleQuotedString);
    assert_eq!(v[2], (TokenKind::NationalStringLiteral, "x".to_string()));
    assert_eq!(v[3], (TokenKind::HexStringLiteral, "1F".to_string()));
}

#[test]
fn test_tokenize_unclosed_quote_is_none() {
    assert!(tokenize("SELECT 'abc").is_none());
}
