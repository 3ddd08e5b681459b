use rlox::{infix_render, rpn_render, ASTPrinter, Expr, ExprVisitor, RPNPrinter, Token, TokenType};

fn lit(s: &str) -> Box<Expr> {
    Box::new(Expr::Literal(String::from(s)))
}

#[test]
fn can_visit_simple_expression() {
    let simple_expression = Expr::Literal(String::from("Potato"));
    let mut visitor = ASTPrinter;

    assert_eq!(visitor.visit(&simple_expression), simple_expression.to_display_string());
}

#[test]
fn can_visit_composite_expression() {
    let composite_expression = Expr::Binary(
        Box::new(Expr::Literal(String::from("Potato"))),
        Token::new(TokenType::PLUS, "+", None, 0),
        Box::new(Expr::Literal(String::from("Potato"))),
    );
    let mut visitor = ASTPrinter;

    assert_eq!(visitor.visit(&composite_expression), composite_expression.to_display_string());
}

#[test]
fn can_visit_complex_expression() {
    // -variableA + (variableB * variableC)
    let complex_expression = Expr::Binary(
        Box::new(Expr::Unary(
            Token::new(TokenType::PLUS, "+", None, 0),
            Box::new(Expr::Literal(String::from("variableA"))),
        )),
        Token::new(TokenType::PLUS, "+", None, 0),
        Box::new(Expr::Binary(
            Box::new(Expr::Literal(String::from("variableB"))),
            Token::new(TokenType::STAR, "*", None, 0),
            Box::new(Expr::Literal(String::from("variableC"))),
        )),
    );
    let mut visitor = ASTPrinter;

    assert_eq!(visitor.visit(&complex_expression), complex_expression.to_display_string());
}

#[test]
fn test_book_example() {
    let expression = Expr::Binary(
        Box::new(Expr::Unary(
            Token::new(TokenType::MINUS, "-", None, 0),
            Box::new(Expr::Literal(String::from("123"))),
        )),
        Token::new(TokenType::STAR, "*", None, 0),
        Box::new(Expr::Grouping(Box::new(Expr::Literal(String::from("45.67"))))),
    );
    let mut visitor = ASTPrinter;

    assert_eq!(visitor.visit(&expression), "(* (- 123) (group 45.67))");
}

#[test]
fn test_book_example_rpn() {
    // (1 + 2) * (4 - 3)
    let expression = Box::new(Expr::Binary(
        Box::new(Expr::Grouping(Box::new(Expr::Binary(
            Box::new(Expr::Literal(String::from("1"))),
            Token::new(TokenType::PLUS, "+", None, 0),
            Box::new(Expr::Literal(String::from("2"))),
        )))),
        Token::new(TokenType::STAR, "*", None, 0),
        Box::new(Expr::Grouping(Box::new(Expr::Binary(
            Box::new(Expr::Literal(String::from("4"))),
            Token::new(TokenType::MINUS, "-", None, 0),
            Box::new(Expr::Literal(String::from("3"))),
        )))),
    ));

    let mut visitor = RPNPrinter;

    assert_eq!(visitor.visit(&expression), "1 2 + 4 3 - *");
}

#[test]
fn rpn_renders_unary_before_parenthesised_operand() {
    let e = Expr::Unary(Token::new(TokenType::BANG, "!", None, 1), lit("true"));
    assert_eq!(rpn_render(&e), "!(true)");
    assert_eq!(infix_render(&e), "(! true)");
}

#[test]
fn infix_and_display_agree_on_nested_tree() {
    let e = Expr::Grouping(Box::new(Expr::Binary(
        lit("1"),
        Token::new(TokenType::SLASH, "/", None, 1),
        Box::new(Expr::Unary(Token::new(TokenType::MINUS, "-", None, 1), lit("2"))),
    )));
    assert_eq!(infix_render(&e), "(group (/ 1 (- 2)))");
    assert_eq!(infix_render(&e), e.to_display_string());
}

#[test]
fn token_display_shows_kind_lexeme_and_literal() {
    let t = Token::new(TokenType::NUMBER, "42", Some("42"), 3);
    assert_eq!(t.to_display_string(), "NUMBER 42 42");
    let u = Token::new(TokenType::LEFT_PAREN, "(", None, 1);
    assert_eq!(u.to_display_string(), "LEFT_PAREN (  ");
}

#[test]
fn token_copy_keeps_every_field() {
    let t = Token::new(TokenType::STRING, "\"hi\"", Some("hi"), 7);
    assert_eq!(t.copy(), t);
}
