use vstd::prelude::*;
use vstd::string::StrSliceExecFns;

use crate::token::TokenType;

verus! {

/// The reserved words of the language and the kind each one scans as.
pub open spec fn keyword_of(w: Seq<char>) -> Option<TokenType> {
    if w == "and"@ {
        Some(TokenType::AND)
    } else if w == "class"@ {
        Some(TokenType::CLASS)
    } else if w == "else"@ {
        Some(TokenType::ELSE)
    } else if w == "false"@ {
        Some(TokenType::FALSE)
    } else if w == "for"@ {
        Some(TokenType::FOR)
    } else if w == "fun"@ {
        Some(TokenType::FUN)
    } else if w == "if"@ {
        Some(TokenType::IF)
    } else if w == "nil"@ {
        Some(TokenType::NIL)
    } else if w == "or"@ {
        Some(TokenType::OR)
    } else if w == "print"@ {
        Some(TokenType::PRINT)
    } else if w == "return"@ {
        Some(TokenType::RETURN)
    } else if w == "super"@ {
        Some(TokenType::SUPER)
    } else if w == "this"@ {
        Some(TokenType::THIS)
    } else if w == "true"@ {
        Some(TokenType::TRUE)
    } else if w == "var"@ {
        Some(TokenType::VAR)
    } else if w == "while"@ {
        Some(TokenType::WHILE)
    } else {
        None
    }
}

/// Whether two strings hold the same characters.
pub fn same_text(a: &str, b: &str) -> (r: bool)
    ensures
        r == (a@ == b@),
{
    let n = a.unicode_len();
    if n != b.unicode_len() {
        return false;
    }
    let mut i: usize = 0;
    while i < n
        invariant
            n == a@.len(),
            n == b@.len(),
            i <= n,
            a@.subrange(0, i as int) == b@.subrange(0, i as int),
        decreases n - i,
    {
        if a.get_char(i) != b.get_char(i) {
            return false;
        }
        assert(a@.subrange(0, i + 1) == a@.subrange(0, i as int).push(a@[i as int]));
        assert(b@.subrange(0, i + 1) == b@.subrange(0, i as int).push(b@[i as int]));
        i = i + 1;
    }
    assert(a@ == a@.subrange(0, n as int));
    assert(b@ == b@.subrange(0, n as int));
    true
}

/// Looks a word up in the table of reserved words.
pub fn keyword_kind(text: &str) -> (r: Option<TokenType>)
    ensures
        r == keyword_of(text@),
{
    if same_text(text, "and") {
        Some(TokenType::AND)
    } else if same_text(text, "class") {
        Some(TokenType::CLASS)
    } else if same_text(text, "else") {
        Some(TokenType::ELSE)
    } else if same_text(text, "false") {
        Some(TokenType::FALSE)
    } else if same_text(text, "for") {
        Some(TokenType::FOR)
    } else if same_text(text, "fun") {
        Some(TokenType::FUN)
    } else if same_text(text, "if") {
        Some(TokenType::IF)
    } else if same_text(text, "nil") {
        Some(TokenType::NIL)
    } else if same_text(text, "or") {
        Some(TokenType::OR)
    } else if same_text(text, "print") {
        Some(TokenType::PRINT)
    } else if same_text(text, "return") {
        Some(TokenType::RETURN)
    } else if same_text(text, "super") {
        Some(TokenType::SUPER)
    } else if same_text(text, "this") {
        Some(TokenType::THIS)
    } else if same_text(text, "true") {
        Some(TokenType::TRUE)
    } else if same_text(text, "var") {
        Some(TokenType::VAR)
    } else if same_text(text, "while") {
        Some(TokenType::WHILE)
    } else {
        None
    }
}

} // verus!
