use sqlpackage_parser::lexer::TokenKind;
use sqlpackage_parser::token_parser_base::TokenParser;
#[test]
fn test_new_creates_parser() {
    let parser = TokenParser::new("SELECT * FROM Users");
    assert!(parser.is_some());
}
#[test]
fn test_is_at_end() {
    let mut parser = TokenParser::new("A").unwrap();
    assert!(!parser.is_at_end());

    // Skip to end
    while !parser.is_at_end() {
        parser.advance();
    }
    assert!(parser.is_at_end());
}
#[test]
fn test_skip_whitespace() {
    let mut parser = TokenParser::new("   SELECT").unwrap();
    parser.skip_whitespace();
    assert!(parser.check_keyword("SELECT"));
}
#[test]
fn test_check_keyword() {
    let mut parser = TokenParser::new("CREATE TABLE").unwrap();
    parser.skip_whitespace();
    assert!(parser.check_keyword("CREATE"));
    assert!(!parser.check_keyword("SELECT"));
}
#[test]
fn test_check_word_ci() {
    let mut parser = TokenParser::new("MINVALUE 100").unwrap();
    parser.skip_whitespace();
    assert!(parser.check_word_ci("MINVALUE"));
    assert!(parser.check_word_ci("minvalue"));
    assert!(parser.check_word_ci("MinValue"));
    assert!(!parser.check_word_ci("MAXVALUE"));
}
#[test]
fn test_check_token() {
    let mut parser = TokenParser::new("(test)").unwrap();
    parser.skip_whitespace();
    assert!(parser.check_token(TokenKind::LParen));
    assert!(!parser.check_token(TokenKind::RParen));
}
#[test]
fn test_expect_keyword() {
    let mut parser = TokenParser::new("CREATE TABLE").unwrap();
    parser.skip_whitespace();

    assert!(parser.expect_keyword("CREATE").is_some());
    parser.skip_whitespace();
    assert!(parser.check_keyword("TABLE"));
}
#[test]
fn test_parse_identifier_simple() {
    let mut parser = TokenParser::new("MyTable").unwrap();
    parser.skip_whitespace();

    let ident = parser.parse_identifier();
    assert_eq!(ident, Some("MyTable".to_string()));
}
#[test]
fn test_parse_identifier_bracketed() {
    let mut parser = TokenParser::new("[MyTable]").unwrap();
    parser.skip_whitespace();

    let ident = parser.parse_identifier();
    assert_eq!(ident, Some("MyTable".to_string()));
}
#[test]
fn test_parse_schema_qualified_name() {
    let mut parser = TokenParser::new("[dbo].[Users]").unwrap();
    parser.skip_whitespace();

    let result = parser.parse_schema_qualified_name();
    assert_eq!(result, Some(("dbo".to_string(), "Users".to_string())));
}
#[test]
fn test_parse_schema_qualified_name_unqualified() {
    let mut parser = TokenParser::new("Users").unwrap();
    parser.skip_whitespace();

    let result = parser.parse_schema_qualified_name();
    assert_eq!(result, Some(("dbo".to_string(), "Users".to_string())));
}
#[test]
fn test_parse_signed_integer_positive() {
    let mut parser = TokenParser::new("42").unwrap();
    parser.skip_whitespace();

    assert_eq!(parser.parse_signed_integer(), Some(42));
}
#[test]
fn test_parse_signed_integer_negative() {
    let mut parser = TokenParser::new("-100").unwrap();
    parser.skip_whitespace();

    assert_eq!(parser.parse_signed_integer(), Some(-100));
}
#[test]
fn test_skip_parenthesized() {
    let mut parser = TokenParser::new("(a, (b, c), d) rest").unwrap();
    parser.skip_whitespace();

    parser.skip_parenthesized();
    parser.skip_whitespace();

    // Should be at "rest"
    assert!(parser.check_word_ci("rest"));
}
#[test]
fn test_consume_parenthesized() {
    let mut parser = TokenParser::new("(a, b) rest").unwrap();
    parser.skip_whitespace();

    let content = parser.consume_parenthesized();
    assert!(content.is_some());
    assert!(content.unwrap().starts_with("("));

    parser.skip_whitespace();
    assert!(parser.check_word_ci("rest"));
}
#[test]
fn test_skip_to_token() {
    let mut parser = TokenParser::new("a b c , d e").unwrap();
    parser.skip_whitespace();

    parser.skip_to_token(TokenKind::Comma);
    assert!(parser.check_token(TokenKind::Comma));
}
#[test]
fn test_tokens_to_string() {
    let parser = TokenParser::new("[dbo].[Users]").unwrap();
    let s = parser.tokens_to_string(0, parser.tokens().len());
    assert!(s.contains("dbo"));
    assert!(s.contains("Users"));
}


#[test]
fn token_parser_position_moves() {
    let mut parser = TokenParser::new("a b c").unwrap();
    assert_eq!(parser.tokens().len(), 5);
    assert_eq!(parser.pos(), 0);
    assert_eq!(parser.peek(2).unwrap().value, "b");
    assert!(parser.peek(5).is_none());
    parser.advance_by(3);
    assert_eq!(parser.pos(), 3);
    parser.advance_by(10);
    assert_eq!(parser.pos(), 5);
    assert!(parser.is_at_end());
    assert!(parser.current_token().is_none());
    parser.advance();
    assert_eq!(parser.pos(), 5);
    parser.set_pos(4);
    assert_eq!(parser.current_token().unwrap().value, "c");
    parser.set_pos(9);
    assert!(parser.is_at_end());
    assert!(parser.parse_identifier().is_none());
    assert_eq!(parser.pos(), 9);
}

#[test]
fn token_parser_expect_and_types() {
    let mut parser = TokenParser::new("nvarchar(50) , 7").unwrap();
    assert!(parser.expect_word_ci("NVARCHAR").is_some());
    assert_eq!(parser.pos(), 1);
    assert!(parser.expect_token(TokenKind::Comma).is_none());
    assert!(parser.expect_token(TokenKind::LParen).is_some());
    assert_eq!(parser.parse_positive_integer(), Some(50));
    parser.set_pos(0);
    assert_eq!(parser.parse_data_type_simple(), Some("NVARCHAR".to_string()));
    assert_eq!(parser.skip_to_any_token(&[TokenKind::Number, TokenKind::Comma]), Some(0));
    assert_eq!(parser.pos(), 2);
    parser.advance();
    assert_eq!(parser.skip_to_any_token(&[TokenKind::Comma, TokenKind::Number]), Some(0));
    assert_eq!(parser.pos(), 5);
    parser.advance();
    assert_eq!(parser.skip_to_any_token(&[TokenKind::LParen]), None);
    assert!(parser.is_at_end());
}

#[test]
fn token_parser_strings_and_unclosed_groups() {
    let parser = TokenParser::new("[dbo].[T] ( x").unwrap();
    assert_eq!(TokenParser::token_to_string(&parser.tokens()[0]), "[dbo]");
    assert_eq!(parser.tokens_to_string(0, 3), "[dbo].[T]");
    let mut p2 = TokenParser::from_tokens(parser.tokens().to_vec());
    p2.set_pos(4);
    assert!(p2.consume_parenthesized().is_none());
    assert!(p2.is_at_end());
    p2.set_pos(0);
    assert!(p2.consume_parenthesized().is_none());
    assert_eq!(p2.pos(), 0);
    p2.set_pos(4);
    p2.skip_parenthesized();
    assert!(p2.is_at_end());
}
