use rlox::{infix_render, Expr, ParseError, Parser, Scanner, Token, TokenType};

fn parse(src: &str) -> Result<Expr, ParseError> {
    let mut scanner = Scanner::new(src);
    let tokens = scanner.scan_tokens().expect("scan should succeed");
    let mut parser = Parser::new(&tokens);
    parser.parse()
}

fn lit(s: &str) -> Box<Expr> {
    Box::new(Expr::Literal(String::from(s)))
}

#[test]
fn product_binds_tighter_than_sum() {
    let e = parse("1 + 2 * 3").unwrap();
    let expected = Expr::Binary(
        lit("1"),
        Token::new(TokenType::PLUS, "+", None, 1),
        Box::new(Expr::Binary(lit("2"), Token::new(TokenType::STAR, "*", None, 1), lit("3"))),
    );
    assert_eq!(e, expected);
}

#[test]
fn subtraction_is_left_associative() {
    let e = parse("1 - 2 - 3").unwrap();
    let expected = Expr::Binary(
        Box::new(Expr::Binary(lit("1"), Token::new(TokenType::MINUS, "-", None, 1), lit("2"))),
        Token::new(TokenType::MINUS, "-", None, 1),
        lit("3"),
    );
    assert_eq!(e, expected);
}

#[test]
fn unary_is_right_recursive() {
    let e = parse("- - 4").unwrap();
    assert_eq!(infix_render(&e), "(- (- 4))");
}

#[test]
fn full_precedence_ladder() {
    let e = parse("!true == 1 < 2 + 3 / (4 - \"s\")").unwrap();
    assert_eq!(infix_render(&e), "(== (! true) (< 1 (+ 2 (/ 3 (group (- 4 s))))))");
}

#[test]
fn keyword_literals() {
    assert_eq!(infix_render(&parse("false").unwrap()), "false");
    assert_eq!(infix_render(&parse("nil").unwrap()), "nil");
    assert_eq!(infix_render(&parse("(true)").unwrap()), "(group true)");
}

#[test]
fn missing_right_paren_is_reported_at_end() {
    let err = parse("(1 + 2").unwrap_err();
    assert_eq!(err.diagnostic.message, "Expect ')' after expression.");
    assert_eq!(err.diagnostic.location, " at end");
    assert_eq!(err.diagnostic.line, 1);
}

#[test]
fn missing_operand_is_reported_at_token() {
    let err = parse("1 +\n* 2").unwrap_err();
    assert_eq!(err.diagnostic.message, "Expect expression.");
    assert_eq!(err.diagnostic.location, " at '*'");
    assert_eq!(err.diagnostic.line, 2);
}

#[test]
fn trailing_tokens_are_left_unparsed() {
    let e = parse("1 2").unwrap();
    assert_eq!(e, Expr::Literal(String::from("1")));
}

#[test]
fn number_literal_round_trips() {
    let e = parse("45.67").unwrap();
    let again = parse(&infix_render(&e)).unwrap();
    assert_eq!(again, e);
    assert_eq!(again, Expr::Literal(String::from("45.67")));
}
