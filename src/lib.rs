//! Front end of a small expression language: a scanner that turns source
//! text into tokens, a recursive-descent parser that builds an expression
//! tree, and two printers that render a tree back to text.
//!
//! Tokens own copies of their lexemes and literals, so no token or tree
//! borrows from the source text.
pub mod token;
pub mod keywords;
pub mod errors;
pub mod lexical;
pub mod scanner;
pub mod expr;
pub mod grammar;
pub mod parser;
pub mod roundtrip;

pub use errors::{error, Diagnostic};
pub use expr::{infix_render, rpn_render, ASTPrinter, Expr, ExprVisitor, RPNPrinter};
pub use parser::{ParseError, Parser};
pub use scanner::{LexError, Scanner};
pub use token::{Token, TokenModel, TokenType};
