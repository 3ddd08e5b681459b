use vstd::prelude::*;
use vstd::string::StringExecFns;

use crate::errors::Diagnostic;
use crate::expr::Expr;
use crate::grammar::{
    at_any, at_kind, binary_rest, error_at, level_ops, parse_level, parse_primary, unary_ops,
    Parsed,
};
use crate::token::{token_views, Token, TokenModel, TokenType};

verus! {

/// A parse error, as it was reported: the offending token's line and
/// lexeme, and what was expected.
#[derive(Debug)]
pub struct ParseError {
    pub diagnostic: Diagnostic,
}

/// Whether `r`, with the cursor left at `end`, is the executable form of
/// the outcome `parsed`.
pub open spec fn outcome(
    ts: Seq<TokenModel>,
    parsed: Parsed,
    r: Result<Expr, ParseError>,
    end: int,
) -> bool {
    match (parsed, r) {
        (Parsed::Done(e, q), Ok(x)) => x@ == e && end == q,
        (Parsed::Failed(i, message), Err(err)) => err.diagnostic@ == error_at(ts, i, message),
        _ => false,
    }
}

proof fn lemma_at_one(ts: Seq<TokenModel>, p: int, ops: Seq<TokenType>, a: TokenType)
    requires
        ops == seq![a],
    ensures
        at_any(ts, p, ops) == at_kind(ts, p, a),
{
    if at_kind(ts, p, a) {
        assert(ops[0] == a);
    }
}

proof fn lemma_at_two(ts: Seq<TokenModel>, p: int, ops: Seq<TokenType>, a: TokenType, b: TokenType)
    requires
        ops == seq![a, b],
    ensures
        at_any(ts, p, ops) == (at_kind(ts, p, a) || at_kind(ts, p, b)),
{
    if at_kind(ts, p, a) {
        assert(ops[0] == a);
    }
    if at_kind(ts, p, b) {
        assert(ops[1] == b);
    }
}

/// A cursor over a token sequence that ends with the end-of-input token.
pub struct Parser<'a> {
    tokens: &'a [Token],
    current: usize,
}

impl<'a> Parser<'a> {
    /// The tokens being parsed.
    pub closed spec fn model(&self) -> Seq<TokenModel> {
        token_views(self.tokens@)
    }

    /// The position of the next token.
    pub closed spec fn position(&self) -> int {
        self.current as int
    }

    pub closed spec fn wf(&self) -> bool {
        &&& self.tokens@.len() > 0
        &&& self.tokens@.last().kind == TokenType::EOF
        &&& self.current < self.tokens@.len()
    }

    /// A parser at the first of `tokens`, which must end with the
    /// end-of-input token, as every scan does.
    pub fn new(tokens: &'a [Token]) -> (p: Parser<'a>)
        requires
            tokens@.len() > 0,
            tokens@.last().kind == TokenType::EOF,
        ensures
            p.wf(),
            p.model() == token_views(tokens@),
            p.position() == 0,
    {
        Parser { tokens, current: 0 }
    }

    /// Parses one expression from the cursor.
    pub fn parse(&mut self) -> (r: Result<Expr, ParseError>)
        requires
            old(self).wf(),
        ensures
            final(self).wf(),
            final(self).model() == old(self).model(),
            outcome(
                old(self).model(),
                parse_level(old(self).model(), old(self).position(), 6),
                r,
                final(self).position(),
            ),
    {
        self.expression()
    }

    fn expression(&mut self) -> (r: Result<Expr, ParseError>)
        requires
            old(self).wf(),
        ensures
            final(self).wf(),
            final(self).tokens == old(self).tokens,
            outcome(
                old(self).model(),
                parse_level(old(self).model(), old(self).current as int, 6),
                r,
                final(self).current as int,
            ),
            r is Ok ==> final(self).current > old(self).current,
        decreases old(self).tokens@.len() - old(self).current, 6nat, 1nat,
    {
        self.equality()
    }

    fn equality(&mut self) -> (r: Result<Expr, ParseError>)
        requires
            old(self).wf(),
        ensures
            final(self).wf(),
            final(self).tokens == old(self).tokens,
            outcome(
                old(self).model(),
                parse_level(old(self).model(), old(self).current as int, 5),
                r,
                final(self).current as int,
            ),
            r is Ok ==> final(self).current > old(self).current,
        decreases old(self).tokens@.len() - old(self).current, 5nat, 1nat,
    {
        let ghost ts = self.model();
        let ghost p = self.current as int;
        let mut expr = match self.comparison() {
            Ok(e) => e,
            Err(err) => return Err(err),
        };
        loop
            invariant
                self.wf(),
                self.tokens == old(self).tokens,
                ts == self.model(),
                ts == old(self).model(),
                p == old(self).current,
                p < self.current,
                binary_rest(ts, expr@, self.current as int, 5) == parse_level(ts, p, 5),
            decreases self.tokens@.len() - self.current,
        {
            let ops = [TokenType::BANG_EQUAL, TokenType::EQUAL_EQUAL];
            assert(ops@ =~= level_ops(5));
            if !self.match_any(&ops) {
                return Ok(expr);
            }
            let operator = self.previous().copy();
            let right = match self.comparison() {
                Ok(e) => e,
                Err(err) => return Err(err),
            };
            expr = Expr::Binary(Box::new(expr), operator, Box::new(right));
        }
    }

    fn comparison(&mut self) -> (r: Result<Expr, ParseError>)
        requires
            old(self).wf(),
        ensures
            final(self).wf(),
            final(self).tokens == old(self).tokens,
            outcome(
                old(self).model(),
                parse_level(old(self).model(), old(self).current as int, 4),
                r,
                final(self).current as int,
            ),
            r is Ok ==> final(self).current > old(self).current,
        decreases old(self).tokens@.len() - old(self).current, 4nat, 1nat,
    {
        let ghost ts = self.model();
        let ghost p = self.current as int;
        let mut expr = match self.term() {
            Ok(e) => e,
            Err(err) => return Err(err),
        };
        loop
            invariant
                self.wf(),
                self.tokens == old(self).tokens,
                ts == self.model(),
                ts == old(self).model(),
                p == old(self).current,
                p < self.current,
                binary_rest(ts, expr@, self.current as int, 4) == parse_level(ts, p, 4),
            decreases self.tokens@.len() - self.current,
        {
            let ops = [TokenType::GREATER, TokenType::GREATER_EQUAL, TokenType::LESS, TokenType::LESS_EQUAL];
            assert(ops@ =~= level_ops(4));
            if !self.match_any(&ops) {
                return Ok(expr);
            }
            let operator = self.previous().copy();
            let right = match self.term() {
                Ok(e) => e,
                Err(err) => return Err(err),
            };
            expr = Expr::Binary(Box::new(expr), operator, Box::new(right));
        }
    }

    fn term(&mut self) -> (r: Result<Expr, ParseError>)
        requires
            old(self).wf(),
        ensures
            final(self).wf(),
            final(self).tokens == old(self).tokens,
            outcome(
                old(self).model(),
                parse_level(old(self).model(), old(self).current as int, 3),
                r,
                final(self).current as int,
            ),
            r is Ok ==> final(self).current > old(self).current,
        decreases old(self).tokens@.len() - old(self).current, 3nat, 1nat,
    {
        let ghost ts = self.model();
        let ghost p = self.current as int;
        let mut expr = match self.factor() {
            Ok(e) => e,
            Err(err) => return Err(err),
        };
        loop
            invariant
                self.wf(),
                self.tokens == old(self).tokens,
                ts == self.model(),
                ts == old(self).model(),
                p == old(self).current,
                p < self.current,
                binary_rest(ts, expr@, self.current as int, 3) == parse_level(ts, p, 3),
            decreases self.tokens@.len() - self.current,
        {
            let ops = [TokenType::MINUS, TokenType::PLUS];
            assert(ops@ =~= level_ops(3));
            if !self.match_any(&ops) {
                return Ok(expr);
            }
            let operator = self.previous().copy();
            let right = match self.factor() {
                Ok(e) => e,
                Err(err) => return Err(err),
            };
            expr = Expr::Binary(Box::new(expr), operator, Box::new(right));
        }
    }

    fn factor(&mut self) -> (r: Result<Expr, ParseError>)
        requires
            old(self).wf(),
        ensures
            final(self).wf(),
            final(self).tokens == old(self).tokens,
            outcome(
                old(self).model(),
                parse_level(old(self).model(), old(self).current as int, 2),
                r,
                final(self).current as int,
            ),
            r is Ok ==> final(self).current > old(self).current,
        decreases old(self).tokens@.len() - old(self).current, 2nat, 1nat,
    {
        let ghost ts = self.model();
        let ghost p = self.current as int;
        let mut expr = match self.unary() {
            Ok(e) => e,
            Err(err) => return Err(err),
        };
        loop
            invariant
                self.wf(),
                self.tokens == old(self).tokens,
                ts == self.model(),
                ts == old(self).model(),
                p == old(self).current,
                p < self.current,
                binary_rest(ts, expr@, self.current as int, 2) == parse_level(ts, p, 2),
            decreases self.tokens@.len() - self.current,
        {
            let ops = [TokenType::SLASH, TokenType::STAR];
            assert(ops@ =~= level_ops(2));
            if !self.match_any(&ops) {
                return Ok(expr);
            }
            let operator = self.previous().copy();
            let right = match self.unary() {
                Ok(e) => e,
                Err(err) => return Err(err),
            };
            expr = Expr::Binary(Box::new(expr), operator, Box::new(right));
        }
    }

    fn unary(&mut self) -> (r: Result<Expr, ParseError>)
        requires
            old(self).wf(),
        ensures
            final(self).wf(),
            final(self).tokens == old(self).tokens,
            outcome(
                old(self).model(),
                parse_level(old(self).model(), old(self).current as int, 1),
                r,
                final(self).current as int,
            ),
            r is Ok ==> final(self).current > old(self).current,
        decreases old(self).tokens@.len() - old(self).current, 1nat, 1nat,
    {
        let ops = [TokenType::MINUS, TokenType::BANG];
        assert(ops@ =~= unary_ops());
        if !self.match_any(&ops) {
            return self.primary();
        }
        let operator = self.previous().copy();
        let right = match self.unary() {
            Ok(e) => e,
            Err(err) => return Err(err),
        };
        Ok(Expr::Unary(operator, Box::new(right)))
    }

    fn primary(&mut self) -> (r: Result<Expr, ParseError>)
        requires
            old(self).wf(),
        ensures
            final(self).wf(),
            final(self).tokens == old(self).tokens,
            outcome(
                old(self).model(),
                parse_level(old(self).model(), old(self).current as int, 0),
                r,
                final(self).current as int,
            ),
            r is Ok ==> final(self).current > old(self).current,
        decreases old(self).tokens@.len() - old(self).current, 0nat, 0nat,
    {
        proof {
            assert(parse_level(self.model(), self.current as int, 0) == parse_primary(
                self.model(),
                self.current as int,
            ));
        }
        let ops = [TokenType::FALSE];
        proof {
            assert(ops@ =~= seq![TokenType::FALSE]);
            lemma_at_one(self.model(), self.current as int, ops@, TokenType::FALSE);
        }
        if self.match_any(&ops) {
            return Ok(Expr::Literal(String::from_str("false")));
        }
        let ops = [TokenType::TRUE];
        proof {
            assert(ops@ =~= seq![TokenType::TRUE]);
            lemma_at_one(self.model(), self.current as int, ops@, TokenType::TRUE);
        }
        if self.match_any(&ops) {
            return Ok(Expr::Literal(String::from_str("true")));
        }
        let ops = [TokenType::NIL];
        proof {
            assert(ops@ =~= seq![TokenType::NIL]);
            lemma_at_one(self.model(), self.current as int, ops@, TokenType::NIL);
        }
        if self.match_any(&ops) {
            return Ok(Expr::Literal(String::from_str("nil")));
        }
        let ops = [TokenType::NUMBER, TokenType::STRING];
        proof {
            assert(ops@ =~= seq![TokenType::NUMBER, TokenType::STRING]);
            lemma_at_two(self.model(), self.current as int, ops@, TokenType::NUMBER, TokenType::STRING);
        }
        if self.match_any(&ops) {
            let token = self.previous();
            let value = match &token.literal {
                Some(l) => l.clone(),
                None => token.lexeme.clone(),
            };
            return Ok(Expr::Literal(value));
        }
        let ops = [TokenType::LEFT_PAREN];
        proof {
            assert(ops@ =~= seq![TokenType::LEFT_PAREN]);
            lemma_at_one(self.model(), self.current as int, ops@, TokenType::LEFT_PAREN);
        }
        if self.match_any(&ops) {
            let expr = match self.expression() {
                Ok(e) => e,
                Err(err) => return Err(err),
            };
            return match self.consume(TokenType::RIGHT_PAREN, "Expect ')' after expression.") {
                Ok(()) => Ok(Expr::Grouping(Box::new(expr))),
                Err(err) => Err(err),
            };
        }
        Err(self.error_here("Expect expression."))
    }

    /// Advances past the next token when it is of one of `types`.
    fn match_any(&mut self, types: &[TokenType]) -> (r: bool)
        requires
            old(self).wf(),
        ensures
            final(self).wf(),
            final(self).tokens == old(self).tokens,
            r == at_any(old(self).model(), old(self).current as int, types@),
            final(self).current == old(self).current + if r {
                1int
            } else {
                0
            },
    {
        let mut i: usize = 0;
        while i < types.len()
            invariant
                self.wf(),
                self == old(self),
                i <= types@.len(),
                forall|j: int| 0 <= j < i ==> !at_kind(self.model(), self.current as int, types@[j]),
            decreases types@.len() - i,
        {
            if self.check(types[i]) {
                self.advance();
                return true;
            }
            i = i + 1;
        }
        false
    }

    /// Advances past the next token when it is of `kind`; otherwise reports
    /// `message` at it.
    fn consume(&mut self, kind: TokenType, message: &str) -> (r: Result<(), ParseError>)
        requires
            old(self).wf(),
        ensures
            final(self).wf(),
            final(self).tokens == old(self).tokens,
            at_kind(old(self).model(), old(self).current as int, kind) ==> r is Ok
                && final(self).current == old(self).current + 1,
            !at_kind(old(self).model(), old(self).current as int, kind) ==> (r matches Err(err)
                && err.diagnostic@ == error_at(
                old(self).model(),
                old(self).current as int,
                message@,
            )),
    {
        if self.check(kind) {
            self.advance();
            Ok(())
        } else {
            Err(self.error_here(message))
        }
    }

    /// The error `message`, reported at the next token.
    fn error_here(&self, message: &str) -> (e: ParseError)
        requires
            self.wf(),
        ensures
            e.diagnostic@ == error_at(self.model(), self.current as int, message@),
    {
        let token = self.peek();
        let location = if token.kind == TokenType::EOF {
            String::from_str(" at end")
        } else {
            let mut s = String::from_str(" at '");
            s.append(token.lexeme.as_str());
            s.append("'");
            s
        };
        ParseError {
            diagnostic: Diagnostic {
                line: token.line,
                location,
                message: String::from_str(message),
            },
        }
    }

    fn check(&self, kind: TokenType) -> (r: bool)
        requires
            self.wf(),
        ensures
            r == at_kind(self.model(), self.current as int, kind),
    {
        !self.is_at_end() && self.peek().kind == kind
    }

    fn advance(&mut self)
        requires
            old(self).wf(),
        ensures
            final(self).wf(),
            final(self).tokens == old(self).tokens,
            final(self).current == if old(self).tokens@[old(self).current as int].kind
                == TokenType::EOF {
                old(self).current as int
            } else {
                old(self).current + 1
            },
    {
        let n = self.tokens.len();
        if !self.is_at_end() {
            self.current = self.current + 1;
        }
    }

    fn is_at_end(&self) -> (r: bool)
        requires
            self.wf(),
        ensures
            r == (self.tokens@[self.current as int].kind == TokenType::EOF),
    {
        self.peek().kind == TokenType::EOF
    }

    fn peek(&self) -> (t: &Token)
        requires
            self.wf(),
        ensures
            *t == self.tokens@[self.current as int],
    {
        &self.tokens[self.current]
    }

    fn previous(&self) -> (t: &Token)
        requires
            self.wf(),
            self.current >= 1,
        ensures
            *t == self.tokens@[self.current - 1],
    {
        &self.tokens[self.current - 1]
    }
}

} // verus!
