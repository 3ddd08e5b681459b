use vstd::prelude::*;
use vstd::string::StringExecFns;

use crate::token::{Token, TokenModel};

verus! {

/// An expression tree. Every node owns its children; operator tokens are
/// copies of the tokens the scanner produced.
#[derive(Debug, PartialEq, Eq)]
pub enum Expr {
    Binary(Box<Expr>, Token, Box<Expr>),
    Grouping(Box<Expr>),
    Literal(String),
    Unary(Token, Box<Expr>),
}

/// The mathematical value of an expression tree.
pub ghost enum ExprModel {
    Binary(Box<ExprModel>, TokenModel, Box<ExprModel>),
    Grouping(Box<ExprModel>),
    Literal(Seq<char>),
    Unary(TokenModel, Box<ExprModel>),
}

pub open spec fn expr_model(e: Expr) -> ExprModel
    decreases e,
{
    match e {
        Expr::Binary(l, op, r) => ExprModel::Binary(
            Box::new(expr_model(*l)),
            op@,
            Box::new(expr_model(*r)),
        ),
        Expr::Grouping(inner) => ExprModel::Grouping(Box::new(expr_model(*inner))),
        Expr::Literal(v) => ExprModel::Literal(v@),
        Expr::Unary(op, inner) => ExprModel::Unary(op@, Box::new(expr_model(*inner))),
    }
}

impl View for Expr {
    type V = ExprModel;

    open spec fn view(&self) -> ExprModel {
        expr_model(*self)
    }
}

/// The parenthesised prefix rendering of a tree: `(op left right)`,
/// `(group inner)`, `(op operand)`, or a literal's own text.
pub open spec fn infix_of(e: ExprModel) -> Seq<char>
    decreases e,
{
    match e {
        ExprModel::Binary(l, op, r) => "("@ + op.lexeme + " "@ + infix_of(*l) + " "@ + infix_of(*r)
            + ")"@,
        ExprModel::Grouping(inner) => "(group "@ + infix_of(*inner) + ")"@,
        ExprModel::Literal(v) => v,
        ExprModel::Unary(op, inner) => "("@ + op.lexeme + " "@ + infix_of(*inner) + ")"@,
    }
}

/// The reverse-Polish rendering of a tree: operands before operators,
/// groupings elided, and a unary operator before its parenthesised operand.
pub open spec fn rpn_of(e: ExprModel) -> Seq<char>
    decreases e,
{
    match e {
        ExprModel::Binary(l, op, r) => rpn_of(*l) + " "@ + rpn_of(*r) + " "@ + op.lexeme,
        ExprModel::Grouping(inner) => rpn_of(*inner),
        ExprModel::Literal(v) => v,
        ExprModel::Unary(op, inner) => op.lexeme + "("@ + rpn_of(*inner) + ")"@,
    }
}

/// Renders a tree in parenthesised prefix form.
pub fn infix_render(expr: &Expr) -> (r: String)
    ensures
        r@ == infix_of(expr@),
    decreases expr,
{
    match expr {
        Expr::Binary(left, operator, right) => {
            let l = infix_render(left);
            let r = infix_render(right);
            let mut s = String::from_str("(");
            s.append(operator.lexeme.as_str());
            s.append(" ");
            s.append(l.as_str());
            s.append(" ");
            s.append(r.as_str());
            s.append(")");
            s
        },
        Expr::Grouping(inner) => {
            let i = infix_render(inner);
            let mut s = String::from_str("(group ");
            s.append(i.as_str());
            s.append(")");
            s
        },
        Expr::Literal(value) => String::from_str(value.as_str()),
        Expr::Unary(operator, inner) => {
            let i = infix_render(inner);
            let mut s = String::from_str("(");
            s.append(operator.lexeme.as_str());
            s.append(" ");
            s.append(i.as_str());
            s.append(")");
            s
        },
    }
}

/// Renders a tree in reverse-Polish form.
pub fn rpn_render(expr: &Expr) -> (r: String)
    ensures
        r@ == rpn_of(expr@),
    decreases expr,
{
    match expr {
        Expr::Binary(left, operator, right) => {
            let mut s = rpn_render(left);
            let r = rpn_render(right);
            s.append(" ");
            s.append(r.as_str());
            s.append(" ");
            s.append(operator.lexeme.as_str());
            s
        },
        Expr::Grouping(inner) => rpn_render(inner),
        Expr::Literal(value) => String::from_str(value.as_str()),
        Expr::Unary(operator, inner) => {
            let i = rpn_render(inner);
            let mut s = String::from_str(operator.lexeme.as_str());
            s.append("(");
            s.append(i.as_str());
            s.append(")");
            s
        },
    }
}

impl Expr {
    /// The tree's natural textual form, which is its parenthesised prefix
    /// rendering.
    pub fn to_display_string(&self) -> (r: String)
        ensures
            r@ == infix_of(self@),
    {
        infix_render(self)
    }
}

/// A traversal of an expression tree that produces a `T`.
pub trait ExprVisitor<T> {
    /// Whether `r` is what this visitor makes of `e`.
    spec fn visits(&self, e: Expr, r: T) -> bool;

    fn visit(&mut self, expr: &Expr) -> (r: T)
        ensures
            old(self).visits(*expr, r),
    ;
}

/// The visitor that renders a tree in parenthesised prefix form.
pub struct ASTPrinter;

/// The visitor that renders a tree in reverse-Polish form.
pub struct RPNPrinter;

impl ExprVisitor<String> for ASTPrinter {
    open spec fn visits(&self, e: Expr, r: String) -> bool {
        r@ == infix_of(e@)
    }

    fn visit(&mut self, expr: &Expr) -> (r: String) {
        infix_render(expr)
    }
}

impl ExprVisitor<String> for RPNPrinter {
    open spec fn visits(&self, e: Expr, r: String) -> bool {
        r@ == rpn_of(e@)
    }

    fn visit(&mut self, expr: &Expr) -> (r: String) {
        rpn_render(expr)
    }
}

} // verus!
