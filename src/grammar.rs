use vstd::prelude::*;

use crate::errors::DiagnosticModel;
use crate::expr::ExprModel;
use crate::token::{TokenModel, TokenType};

verus! {

/// The outcome of parsing from a token position: a tree and the position
/// after it, or the position of the offending token and a message.
pub ghost enum Parsed {
    Done(ExprModel, int),
    Failed(int, Seq<char>),
}

/// Whether the token at `p` is of kind `k` (the end-of-input token never
/// matches).
pub open spec fn at_kind(ts: Seq<TokenModel>, p: int, k: TokenType) -> bool {
    0 <= p < ts.len() && ts[p].kind != TokenType::EOF && ts[p].kind == k
}

/// Whether the token at `p` is of one of the kinds in `ops`.
pub open spec fn at_any(ts: Seq<TokenModel>, p: int, ops: Seq<TokenType>) -> bool {
    0 <= p < ts.len() && ts[p].kind != TokenType::EOF && ops.contains(ts[p].kind)
}

/// The operators of each binary level.
pub open spec fn level_ops(level: nat) -> Seq<TokenType> {
    if level == 5 {
        seq![TokenType::BANG_EQUAL, TokenType::EQUAL_EQUAL]
    } else if level == 4 {
        seq![TokenType::GREATER, TokenType::GREATER_EQUAL, TokenType::LESS, TokenType::LESS_EQUAL]
    } else if level == 3 {
        seq![TokenType::MINUS, TokenType::PLUS]
    } else {
        seq![TokenType::SLASH, TokenType::STAR]
    }
}

/// The prefix operators.
pub open spec fn unary_ops() -> Seq<TokenType> {
    seq![TokenType::MINUS, TokenType::BANG]
}

/// The value a NUMBER or STRING token stands for: its literal, or its
/// lexeme where it carries none.
pub open spec fn literal_text(t: TokenModel) -> Seq<char> {
    match t.literal {
        Some(l) => l,
        None => t.lexeme,
    }
}

pub open spec fn expect_expression() -> Seq<char> {
    "Expect expression."@
}

pub open spec fn expect_right_paren() -> Seq<char> {
    "Expect ')' after expression."@
}

/// Parses one level of the grammar from position `p`. The levels, loosest
/// first: 6 expression, 5 equality, 4 comparison, 3 term, 2 factor,
/// 1 unary, 0 primary. Every binary level
/// parses the next tighter level, then folds any operators of its own to
/// the left; a unary operator applies to a whole unary expression.
/// A successful parse always consumes a token, so the guards on progress
/// never fail; they only make termination evident.
pub open spec fn parse_level(ts: Seq<TokenModel>, p: int, level: nat) -> Parsed
    decreases ts.len() - p, level, 1nat,
{
    if level == 0 {
        parse_primary(ts, p)
    } else if level == 1 {
        if at_any(ts, p, unary_ops()) {
            match parse_level(ts, p + 1, 1) {
                Parsed::Done(e, q) => Parsed::Done(ExprModel::Unary(ts[p], Box::new(e)), q),
                failed => failed,
            }
        } else {
            parse_level(ts, p, 0)
        }
    } else if level >= 6 {
        parse_level(ts, p, 5)
    } else {
        match parse_level(ts, p, (level - 1) as nat) {
            Parsed::Done(left, q) => if p < q <= ts.len() {
                binary_rest(ts, left, q, level)
            } else {
                Parsed::Failed(q, expect_expression())
            },
            failed => failed,
        }
    }
}

/// Continues a binary level after `left`, at position `q`.
pub open spec fn binary_rest(ts: Seq<TokenModel>, left: ExprModel, q: int, level: nat) -> Parsed
    decreases ts.len() - q, level, 2nat,
{
    if at_any(ts, q, level_ops(level)) && 1 <= level {
        match parse_level(ts, q + 1, (level - 1) as nat) {
            Parsed::Done(right, q2) => if q + 1 < q2 <= ts.len() {
                binary_rest(ts, ExprModel::Binary(Box::new(left), ts[q], Box::new(right)), q2, level)
            } else {
                Parsed::Failed(q2, expect_expression())
            },
            failed => failed,
        }
    } else {
        Parsed::Done(left, q)
    }
}

pub open spec fn parse_primary(ts: Seq<TokenModel>, p: int) -> Parsed
    decreases ts.len() - p, 0nat, 0nat,
{
    if at_kind(ts, p, TokenType::FALSE) {
        Parsed::Done(ExprModel::Literal("false"@), p + 1)
    } else if at_kind(ts, p, TokenType::TRUE) {
        Parsed::Done(ExprModel::Literal("true"@), p + 1)
    } else if at_kind(ts, p, TokenType::NIL) {
        Parsed::Done(ExprModel::Literal("nil"@), p + 1)
    } else if at_kind(ts, p, TokenType::NUMBER) || at_kind(ts, p, TokenType::STRING) {
        Parsed::Done(ExprModel::Literal(literal_text(ts[p])), p + 1)
    } else if at_kind(ts, p, TokenType::LEFT_PAREN) {
        match parse_level(ts, p + 1, 6) {
            Parsed::Done(e, q) => if at_kind(ts, q, TokenType::RIGHT_PAREN) {
                Parsed::Done(ExprModel::Grouping(Box::new(e)), q + 1)
            } else {
                Parsed::Failed(q, expect_right_paren())
            },
            failed => failed,
        }
    } else {
        Parsed::Failed(p, expect_expression())
    }
}

/// Where on its line a parse error is reported: at the offending token's
/// lexeme, or at the end of the input.
pub open spec fn location_of(t: TokenModel) -> Seq<char> {
    if t.kind == TokenType::EOF {
        " at end"@
    } else {
        " at '"@ + t.lexeme + "'"@
    }
}

/// The diagnostic for a parse error at token `i`.
pub open spec fn error_at(ts: Seq<TokenModel>, i: int, message: Seq<char>) -> DiagnosticModel {
    DiagnosticModel { line: ts[i].line, location: location_of(ts[i]), message }
}

} // verus!
