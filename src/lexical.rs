use vstd::prelude::*;

use crate::errors::DiagnosticModel;
use crate::keywords::keyword_of;
use crate::token::{TokenModel, TokenType};

verus! {

/// What `char::is_alphabetic` says of a character.
pub uninterp spec fn alphabetic(c: char) -> bool;

/// What `char::is_alphanumeric` says of a character.
pub uninterp spec fn alphanumeric(c: char) -> bool;

/// Relies on `char::is_alphabetic`: whether `c` has the Unicode Alphabetic
/// property; the answer depends on `c` alone.
#[verifier::external_body]
pub(crate) fn is_alphabetic(c: char) -> (r: bool)
    ensures
        r == alphabetic(c),
{
    c.is_alphabetic()
}

/// Relies on `char::is_alphanumeric`: whether `c` is alphabetic or numeric
/// in Unicode's sense; the answer depends on `c` alone.
#[verifier::external_body]
pub(crate) fn is_alphanumeric(c: char) -> (r: bool)
    ensures
        r == alphanumeric(c),
{
    c.is_alphanumeric()
}

pub open spec fn is_digit(c: char) -> bool {
    '0' <= c <= '9'
}

/// A character that may begin an identifier.
pub open spec fn ident_start(c: char) -> bool {
    alphabetic(c) || c == '_'
}

/// A character that may continue an identifier.
pub open spec fn ident_char(c: char) -> bool {
    alphanumeric(c) || c == '_'
}

/// The runs of characters that the scanner consumes in one sweep.
#[derive(Clone, Copy, PartialEq, Eq, Structural)]
pub enum RunKind {
    Digit,
    Word,
    LineBody,
    StringBody,
}

pub open spec fn in_run(k: RunKind, c: char) -> bool {
    match k {
        RunKind::Digit => is_digit(c),
        RunKind::Word => ident_char(c),
        RunKind::LineBody => c != '\n',
        RunKind::StringBody => c != '"',
    }
}

/// The end of the longest run of kind `k` that starts at `i`.
pub open spec fn run_end(s: Seq<char>, i: int, k: RunKind) -> int
    decreases s.len() - i,
{
    if 0 <= i < s.len() && in_run(k, s[i]) {
        run_end(s, i + 1, k)
    } else {
        i
    }
}

/// The number of newlines among `s[a..b]`.
pub open spec fn newlines(s: Seq<char>, a: int, b: int) -> nat
    decreases b - a,
{
    if b <= a {
        0
    } else {
        newlines(s, a, b - 1) + if s[b - 1] == '\n' {
            1nat
        } else {
            0nat
        }
    }
}

/// Scanning the body of a block comment from `i`, `depth` levels deep:
/// where the comment ends, and whether it was closed before the input did.
pub open spec fn block_end(s: Seq<char>, i: int, depth: nat) -> (int, bool)
    decreases s.len() - i,
{
    if depth == 0 {
        (i, true)
    } else if i < 0 || i >= s.len() {
        (i, false)
    } else if s[i] == '*' && i + 1 < s.len() && s[i + 1] == '/' {
        block_end(s, i + 2, (depth - 1) as nat)
    } else if s[i] == '/' && i + 1 < s.len() && s[i + 1] == '*' {
        block_end(s, i + 2, depth + 1)
    } else {
        block_end(s, i + 1, depth)
    }
}

/// The end of the number literal that starts at `p`: digits, then a
/// fractional part only where a digit follows the point.
pub open spec fn number_end(s: Seq<char>, p: int) -> int {
    let j = run_end(s, p + 1, RunKind::Digit);
    if j + 1 < s.len() && s[j] == '.' && is_digit(s[j + 1]) {
        run_end(s, j + 2, RunKind::Digit)
    } else {
        j
    }
}

/// Whether the character after position `p` is `x`.
pub open spec fn followed_by(s: Seq<char>, p: int, x: char) -> bool {
    p + 1 < s.len() && s[p + 1] == x
}

/// The kind of a token made of this one character alone.
pub open spec fn single_kind(c: char) -> Option<TokenType> {
    if c == '(' {
        Some(TokenType::LEFT_PAREN)
    } else if c == ')' {
        Some(TokenType::RIGHT_PAREN)
    } else if c == '{' {
        Some(TokenType::LEFT_BRACE)
    } else if c == '}' {
        Some(TokenType::RIGHT_BRACE)
    } else if c == ',' {
        Some(TokenType::COMMA)
    } else if c == '.' {
        Some(TokenType::DOT)
    } else if c == '-' {
        Some(TokenType::MINUS)
    } else if c == '+' {
        Some(TokenType::PLUS)
    } else if c == ';' {
        Some(TokenType::SEMICOLON)
    } else if c == '*' {
        Some(TokenType::STAR)
    } else {
        None
    }
}

/// For a character that may be followed by `=`: the kind with the `=`,
/// and the kind without it.
pub open spec fn pair_kinds(c: char) -> Option<(TokenType, TokenType)> {
    if c == '!' {
        Some((TokenType::BANG_EQUAL, TokenType::BANG))
    } else if c == '=' {
        Some((TokenType::EQUAL_EQUAL, TokenType::EQUAL))
    } else if c == '<' {
        Some((TokenType::LESS_EQUAL, TokenType::LESS))
    } else if c == '>' {
        Some((TokenType::GREATER_EQUAL, TokenType::GREATER))
    } else {
        None
    }
}

/// Where the scan of a source stands: the position of the next character,
/// the current line, and what has been emitted so far.
pub ghost struct ScanState {
    pub pos: int,
    pub line: nat,
    pub tokens: Seq<TokenModel>,
    pub diagnostics: Seq<DiagnosticModel>,
}

/// The state before anything is scanned.
pub open spec fn initial_state() -> ScanState {
    ScanState { pos: 0, line: 1, tokens: Seq::empty(), diagnostics: Seq::empty() }
}

/// Emits the token spelled by `s[st.pos..end]` on the current line.
pub open spec fn emit(
    s: Seq<char>,
    st: ScanState,
    kind: TokenType,
    end: int,
    literal: Option<Seq<char>>,
) -> ScanState {
    ScanState {
        pos: end,
        tokens: st.tokens.push(
            TokenModel { kind, lexeme: s.subrange(st.pos, end), literal, line: st.line },
        ),
        ..st
    }
}

/// Adds a diagnostic with no location.
pub open spec fn report(st: ScanState, line: nat, message: Seq<char>) -> ScanState {
    ScanState {
        diagnostics: st.diagnostics.push(
            DiagnosticModel { line, location: Seq::empty(), message },
        ),
        ..st
    }
}

/// Moves the position (and the line) on without emitting anything.
pub open spec fn skip_to(st: ScanState, pos: int, line: nat) -> ScanState {
    ScanState { pos, line, ..st }
}

pub open spec fn comment_step(s: Seq<char>, st: ScanState) -> ScanState {
    let p = st.pos;
    if followed_by(s, p, '/') {
        skip_to(st, run_end(s, p + 2, RunKind::LineBody), st.line)
    } else if followed_by(s, p, '*') {
        let (e, closed) = block_end(s, p + 2, 1);
        let moved = skip_to(st, e, st.line + newlines(s, p + 2, e));
        if closed {
            moved
        } else {
            report(moved, st.line, "Unterminated block comment."@)
        }
    } else {
        emit(s, st, TokenType::SLASH, p + 1, None)
    }
}

pub open spec fn string_step(s: Seq<char>, st: ScanState) -> ScanState {
    let p = st.pos;
    let q = run_end(s, p + 1, RunKind::StringBody);
    let line = st.line + newlines(s, p + 1, q);
    if q < s.len() {
        skip_to(emit(s, st, TokenType::STRING, q + 1, Some(s.subrange(p + 1, q))), q + 1, line)
    } else {
        report(skip_to(st, q, line), line, "Unterminated string."@)
    }
}

pub open spec fn word_step(s: Seq<char>, st: ScanState) -> ScanState {
    let e = run_end(s, st.pos + 1, RunKind::Word);
    let kind = match keyword_of(s.subrange(st.pos, e)) {
        Some(k) => k,
        None => TokenType::IDENTIFIER,
    };
    emit(s, st, kind, e, None)
}

/// One step of the scanner at `st.pos`, which must be inside the source:
/// the lexical rules of the language.
pub open spec fn step(s: Seq<char>, st: ScanState) -> ScanState {
    let p = st.pos;
    let c = s[p];
    if single_kind(c) is Some {
        emit(s, st, single_kind(c)->0, p + 1, None)
    } else if pair_kinds(c) is Some {
        let (two, one) = pair_kinds(c)->0;
        if followed_by(s, p, '=') {
            emit(s, st, two, p + 2, None)
        } else {
            emit(s, st, one, p + 1, None)
        }
    } else if c == '/' {
        comment_step(s, st)
    } else if c == ' ' || c == '\r' || c == '\t' {
        skip_to(st, p + 1, st.line)
    } else if c == '\n' {
        skip_to(st, p + 1, st.line + 1)
    } else if c == '"' {
        string_step(s, st)
    } else if is_digit(c) {
        let e = number_end(s, p);
        emit(s, st, TokenType::NUMBER, e, Some(s.subrange(p, e)))
    } else if ident_start(c) {
        word_step(s, st)
    } else {
        report(skip_to(st, p + 1, st.line), st.line, "Unexpected character."@)
    }
}

/// Steps the scanner from `st` until the input is used up.
pub open spec fn scan_from(s: Seq<char>, st: ScanState) -> ScanState
    decreases s.len() - st.pos,
{
    if 0 <= st.pos < step(s, st).pos <= s.len() {
        scan_from(s, step(s, st))
    } else {
        st
    }
}

/// The end-of-input token on line `line`.
pub open spec fn eof_token(line: nat) -> TokenModel {
    TokenModel { kind: TokenType::EOF, lexeme: Seq::empty(), literal: None, line }
}

/// The outcome of scanning the whole of `s`: its tokens, ending with the
/// end-of-input token, and its diagnostics.
pub open spec fn scan_source(s: Seq<char>) -> ScanState {
    let fin = scan_from(s, initial_state());
    ScanState { tokens: fin.tokens.push(eof_token(fin.line)), ..fin }
}

pub proof fn lemma_run_end_bounds(s: Seq<char>, i: int, k: RunKind)
    requires
        0 <= i <= s.len(),
    ensures
        i <= run_end(s, i, k) <= s.len(),
    decreases s.len() - i,
{
    if i < s.len() && in_run(k, s[i]) {
        lemma_run_end_bounds(s, i + 1, k);
    }
}

/// Each token carries a literal exactly when it is a STRING or a NUMBER.
pub open spec fn literals_fit(ts: Seq<TokenModel>) -> bool {
    forall|i: int|
        0 <= i < ts.len() ==> ((#[trigger] ts[i]).literal is Some <==> (ts[i].kind
            == TokenType::STRING || ts[i].kind == TokenType::NUMBER))
}

proof fn lemma_step_literals_fit(s: Seq<char>, st: ScanState)
    requires
        0 <= st.pos < s.len(),
        literals_fit(st.tokens),
    ensures
        literals_fit(step(s, st).tokens),
{
    let p = st.pos;
    let c = s[p];
    let n = step(s, st).tokens;
    if n != st.tokens {
        assert(n == st.tokens.push(n.last()));
        if single_kind(c) is None && pair_kinds(c) is None && c != '/' && c != '"' && !is_digit(c)
            && ident_start(c) {
            let e = run_end(s, st.pos + 1, RunKind::Word);
            let k = keyword_of(s.subrange(st.pos, e));
            assert(k is Some ==> k->0 != TokenType::STRING && k->0 != TokenType::NUMBER);
        }
        assert forall|i: int| 0 <= i < n.len() implies ((#[trigger] n[i]).literal is Some <==> (
        n[i].kind == TokenType::STRING || n[i].kind == TokenType::NUMBER)) by {
            if i < st.tokens.len() {
                assert(n[i] == st.tokens[i]);
            }
        }
    }
}

proof fn lemma_scan_from_literals_fit(s: Seq<char>, st: ScanState)
    requires
        literals_fit(st.tokens),
    ensures
        literals_fit(scan_from(s, st).tokens),
    decreases s.len() - st.pos,
{
    if 0 <= st.pos < step(s, st).pos <= s.len() {
        lemma_step_literals_fit(s, st);
        lemma_scan_from_literals_fit(s, step(s, st));
    }
}

/// A scan attaches a literal to a token exactly when the token is a STRING
/// or a NUMBER, and its last token is the end-of-input token.
pub proof fn lemma_scan_literals_fit(s: Seq<char>)
    ensures
        literals_fit(scan_source(s).tokens),
        scan_source(s).tokens.last().kind == TokenType::EOF,
{
    lemma_scan_from_literals_fit(s, initial_state());
    let fin = scan_from(s, initial_state());
    let ts = scan_source(s).tokens;
    assert forall|i: int| 0 <= i < ts.len() implies ((#[trigger] ts[i]).literal is Some <==> (
    ts[i].kind == TokenType::STRING || ts[i].kind == TokenType::NUMBER)) by {
        if i < fin.tokens.len() {
            assert(ts[i] == fin.tokens[i]);
        }
    }
}

} // verus!
