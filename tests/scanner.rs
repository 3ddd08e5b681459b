use rlox::{error, Scanner, Token, TokenType};

fn scan(src: &str) -> Vec<Token> {
    let mut scanner = Scanner::new(src);
    scanner.scan_tokens().expect("scan should succeed")
}

fn kinds(ts: &[Token]) -> Vec<TokenType> {
    ts.iter().map(|t| t.kind).collect()
}

fn lexemes(ts: &[Token]) -> Vec<String> {
    ts.iter().map(|t| t.lexeme.clone()).collect()
}

#[test]
fn scans_arithmetic() {
    let ts = scan("1 + 2 * 3");
    assert_eq!(
        kinds(&ts),
        vec![
            TokenType::NUMBER,
            TokenType::PLUS,
            TokenType::NUMBER,
            TokenType::STAR,
            TokenType::NUMBER,
            TokenType::EOF
        ]
    );
    assert_eq!(lexemes(&ts), vec!["1", "+", "2", "*", "3", ""]);
}

#[test]
fn line_comment_is_skipped_and_lines_counted() {
    let ts = scan("// comment\n42");
    assert_eq!(kinds(&ts), vec![TokenType::NUMBER, TokenType::EOF]);
    assert_eq!(ts[0].lexeme, "42");
    assert_eq!(ts[0].literal.as_deref(), Some("42"));
    assert_eq!(ts[0].line, 2);
}

#[test]
fn unterminated_string_fails_with_diagnostic() {
    let mut scanner = Scanner::new("\"abc");
    let err = scanner.scan_tokens().unwrap_err();
    assert_eq!(err.diagnostics.len(), 1);
    assert_eq!(err.diagnostics[0].line, 1);
    assert_eq!(err.diagnostics[0].message, "Unterminated string.");
    assert_eq!(kinds(&err.tokens), vec![TokenType::EOF]);
}

#[test]
fn empty_source_gives_only_eof() {
    let ts = scan("");
    assert_eq!(kinds(&ts), vec![TokenType::EOF]);
    assert_eq!(ts[0].lexeme, "");
    assert_eq!(ts[0].line, 1);
}

#[test]
fn one_and_two_character_operators() {
    let ts = scan("! != = == < <= > >= / ( ) { } , . - + ;");
    assert_eq!(
        kinds(&ts),
        vec![
            TokenType::BANG,
            TokenType::BANG_EQUAL,
            TokenType::EQUAL,
            TokenType::EQUAL_EQUAL,
            TokenType::LESS,
            TokenType::LESS_EQUAL,
            TokenType::GREATER,
            TokenType::GREATER_EQUAL,
            TokenType::SLASH,
            TokenType::LEFT_PAREN,
            TokenType::RIGHT_PAREN,
            TokenType::LEFT_BRACE,
            TokenType::RIGHT_BRACE,
            TokenType::COMMA,
            TokenType::DOT,
            TokenType::MINUS,
            TokenType::PLUS,
            TokenType::SEMICOLON,
            TokenType::EOF
        ]
    );
    assert_eq!(ts[1].lexeme, "!=");
    assert_eq!(ts[7].lexeme, ">=");
}

#[test]
fn operators_without_spaces() {
    let ts = scan("a>=b==!c");
    assert_eq!(
        kinds(&ts),
        vec![
            TokenType::IDENTIFIER,
            TokenType::GREATER_EQUAL,
            TokenType::IDENTIFIER,
            TokenType::EQUAL_EQUAL,
            TokenType::BANG,
            TokenType::IDENTIFIER,
            TokenType::EOF
        ]
    );
}

#[test]
fn nested_block_comment_is_skipped() {
    let ts = scan("/* outer /* inner */ still\n comment */ 7");
    assert_eq!(kinds(&ts), vec![TokenType::NUMBER, TokenType::EOF]);
    assert_eq!(ts[0].line, 2);
}

#[test]
fn unterminated_block_comment_reports_start_line() {
    let mut scanner = Scanner::new("1\n/* open\n/* deeper */\n");
    let err = scanner.scan_tokens().unwrap_err();
    assert_eq!(err.diagnostics.len(), 1);
    assert_eq!(err.diagnostics[0].line, 2);
    assert_eq!(err.diagnostics[0].message, "Unterminated block comment.");
    assert_eq!(kinds(&err.tokens), vec![TokenType::NUMBER, TokenType::EOF]);
    assert_eq!(err.tokens[1].line, 4);
}

#[test]
fn string_literal_value_and_start_line() {
    let ts = scan("\"a\nb\" x");
    assert_eq!(kinds(&ts), vec![TokenType::STRING, TokenType::IDENTIFIER, TokenType::EOF]);
    assert_eq!(ts[0].lexeme, "\"a\nb\"");
    assert_eq!(ts[0].literal.as_deref(), Some("a\nb"));
    assert_eq!(ts[0].line, 1);
    assert_eq!(ts[1].line, 2);
}

#[test]
fn number_with_fraction_and_trailing_dot() {
    let ts = scan("12.5 7. 3.x");
    assert_eq!(
        kinds(&ts),
        vec![
            TokenType::NUMBER,
            TokenType::NUMBER,
            TokenType::DOT,
            TokenType::NUMBER,
            TokenType::DOT,
            TokenType::IDENTIFIER,
            TokenType::EOF
        ]
    );
    assert_eq!(lexemes(&ts), vec!["12.5", "7", ".", "3", ".", "x", ""]);
    assert_eq!(ts[0].literal.as_deref(), Some("12.5"));
}

#[test]
fn keywords_and_identifiers() {
    let ts = scan("and class else false for fun if nil or print return super this true var while _x1 andy");
    assert_eq!(
        kinds(&ts),
        vec![
            TokenType::AND,
            TokenType::CLASS,
            TokenType::ELSE,
            TokenType::FALSE,
            TokenType::FOR,
            TokenType::FUN,
            TokenType::IF,
            TokenType::NIL,
            TokenType::OR,
            TokenType::PRINT,
            TokenType::RETURN,
            TokenType::SUPER,
            TokenType::THIS,
            TokenType::TRUE,
            TokenType::VAR,
            TokenType::WHILE,
            TokenType::IDENTIFIER,
            TokenType::IDENTIFIER,
            TokenType::EOF
        ]
    );
    assert!(ts.iter().all(|t| t.literal.is_none()));
}

#[test]
fn unexpected_characters_are_all_reported() {
    let mut scanner = Scanner::new("1 @ 2\n#");
    let err = scanner.scan_tokens().unwrap_err();
    assert_eq!(err.diagnostics.len(), 2);
    assert_eq!(err.diagnostics[0].line, 1);
    assert_eq!(err.diagnostics[1].line, 2);
    assert_eq!(err.diagnostics[0].message, "Unexpected character.");
    assert_eq!(err.diagnostics[0].location, "");
    assert_eq!(kinds(&err.tokens), vec![TokenType::NUMBER, TokenType::NUMBER, TokenType::EOF]);
}

#[test]
fn whitespace_does_not_change_line() {
    let ts = scan(" \t\r1\n\n2");
    assert_eq!(ts[0].line, 1);
    assert_eq!(ts[1].line, 3);
    assert_eq!(ts[2].line, 3);
}

#[test]
fn error_builds_diagnostic_without_location() {
    let d = error(5, String::from("oops"));
    assert_eq!(d.line, 5);
    assert_eq!(d.location, "");
    assert_eq!(d.message, "oops");
}

#[test]
fn unicode_letters_form_identifiers() {
    let ts = scan("h\u{e9}llo _ \u{65e5}\u{672c}2");
    assert_eq!(
        kinds(&ts),
        vec![TokenType::IDENTIFIER, TokenType::IDENTIFIER, TokenType::IDENTIFIER, TokenType::EOF]
    );
    assert_eq!(ts[0].lexeme, "h\u{e9}llo");
    assert_eq!(ts[2].lexeme, "\u{65e5}\u{672c}2");
}
