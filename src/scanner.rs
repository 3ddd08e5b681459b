use vstd::prelude::*;
use vstd::std_specs::iter::IteratorSpec;
use vstd::string::StringExecFns;

use crate::errors::{diagnostic_views, error, Diagnostic, DiagnosticModel};
use crate::keywords::keyword_kind;
use crate::lexical::{
    block_end, comment_step, emit, eof_token, followed_by, in_run, initial_state, is_alphabetic,
    is_alphanumeric, newlines, number_end, pair_kinds, report, run_end, scan_from, single_kind,
    step, string_step, word_step, RunKind, ScanState, lemma_run_end_bounds,
};
use crate::token::{literal_view, token_views, Token, TokenModel, TokenType};

verus! {

/// A failed scan. The whole token sequence was still produced, and every
/// diagnostic is kept, in source order.
#[derive(Debug)]
pub struct LexError {
    pub tokens: Vec<Token>,
    pub diagnostics: Vec<Diagnostic>,
}

/// The scanner's cursor over one source text: where the current lexeme
/// starts, the next character, the current line, and whether any lexical
/// error occurred. Tokens and diagnostics collect here until the scan ends.
pub struct Scanner {
    chars: Vec<char>,
    tokens: Vec<Token>,
    diagnostics: Vec<Diagnostic>,
    start: usize,
    current: usize,
    line: usize,
    failed: bool,
}

/// The character at `i`, if there is one.
pub open spec fn char_at(s: Seq<char>, i: int) -> Option<char> {
    if 0 <= i < s.len() {
        Some(s[i])
    } else {
        None
    }
}

/// Relies on `String::push`: appends `c` to the end of `s`.
#[verifier::external_body]
fn push_char(s: &mut String, c: char)
    ensures
        final(s)@ == old(s)@.push(c),
{
    s.push(c);
}

fn run_has(kind: RunKind, c: char) -> (r: bool)
    ensures
        r == in_run(kind, c),
{
    match kind {
        RunKind::Digit => '0' <= c && c <= '9',
        RunKind::Word => is_alphanumeric(c) || c == '_',
        RunKind::LineBody => c != '\n',
        RunKind::StringBody => c != '"',
    }
}

fn single_kind_of(c: char) -> (r: Option<TokenType>)
    ensures
        r == single_kind(c),
{
    match c {
        '(' => Some(TokenType::LEFT_PAREN),
        ')' => Some(TokenType::RIGHT_PAREN),
        '{' => Some(TokenType::LEFT_BRACE),
        '}' => Some(TokenType::RIGHT_BRACE),
        ',' => Some(TokenType::COMMA),
        '.' => Some(TokenType::DOT),
        '-' => Some(TokenType::MINUS),
        '+' => Some(TokenType::PLUS),
        ';' => Some(TokenType::SEMICOLON),
        '*' => Some(TokenType::STAR),
        _ => None,
    }
}

fn pair_kinds_of(c: char) -> (r: Option<(TokenType, TokenType)>)
    ensures
        r == pair_kinds(c),
{
    match c {
        '!' => Some((TokenType::BANG_EQUAL, TokenType::BANG)),
        '=' => Some((TokenType::EQUAL_EQUAL, TokenType::EQUAL)),
        '<' => Some((TokenType::LESS_EQUAL, TokenType::LESS)),
        '>' => Some((TokenType::GREATER_EQUAL, TokenType::GREATER)),
        _ => None,
    }
}

impl Scanner {
    /// The characters of the source.
    pub closed spec fn text(&self) -> Seq<char> {
        self.chars@
    }

    /// The scan's state, positioned at the start of the current lexeme.
    pub closed spec fn state(&self) -> ScanState {
        ScanState {
            pos: self.start as int,
            line: self.line as nat,
            tokens: token_views(self.tokens@),
            diagnostics: diagnostic_views(self.diagnostics@),
        }
    }

    pub closed spec fn wf(&self) -> bool {
        &&& self.start <= self.current <= self.chars@.len()
        &&& self.chars@.len() < usize::MAX
        &&& 1 <= self.line <= self.current + 1
        &&& self.failed == (self.diagnostics@.len() > 0)
    }

    /// Well formed, and between two lexemes.
    pub closed spec fn ready(&self) -> bool {
        self.wf() && self.start == self.current
    }

    /// A scanner at the start of `source`.
    pub fn new(source: &str) -> (s: Scanner)
        requires
            source@.len() < usize::MAX,
        ensures
            s.ready(),
            s.text() == source@,
            s.state() == initial_state(),
    {
        let mut chars: Vec<char> = Vec::new();
        let mut it = source.chars();
        proof {
            broadcast use vstd::string::group_string_axioms;

        }
        loop
            invariant
                chars@ + it.remaining() == source@,
                it.decrease() is Some,
            ensures
                chars@ == source@,
            decreases it.decrease()->0,
        {
            match it.next() {
                Some(c) => {
                    assert(chars@.push(c) + it.remaining() =~= source@);
                    chars.push(c);
                },
                None => {
                    assert(chars@ =~= source@);
                    break;
                },
            }
        }
        let s = Scanner {
            chars,
            tokens: Vec::new(),
            diagnostics: Vec::new(),
            start: 0,
            current: 0,
            line: 1,
            failed: false,
        };
        assert(token_views(s.tokens@) == Seq::<TokenModel>::empty());
        assert(diagnostic_views(s.diagnostics@) == Seq::<DiagnosticModel>::empty());
        s
    }

    fn is_at_end(&self) -> (r: bool)
        requires
            self.wf(),
        ensures
            r == (self.current >= self.chars@.len()),
    {
        self.peek_first_char().is_none()
    }

    fn peek_first_char(&self) -> (r: Option<char>)
        requires
            self.wf(),
        ensures
            r == char_at(self.chars@, self.current as int),
    {
        if self.current < self.chars.len() {
            Some(self.chars[self.current])
        } else {
            None
        }
    }

    fn peek_second_char(&self) -> (r: Option<char>)
        requires
            self.wf(),
        ensures
            r == char_at(self.chars@, self.current + 1),
    {
        if self.current + 1 < self.chars.len() {
            Some(self.chars[self.current + 1])
        } else {
            None
        }
    }

    fn advance(&mut self) -> (c: char)
        requires
            old(self).wf(),
            old(self).current < old(self).chars@.len(),
        ensures
            c == old(self).chars@[old(self).current as int],
            *final(self) == (Scanner { current: (old(self).current + 1) as usize, ..*old(self) }),
    {
        let c = self.chars[self.current];
        self.current = self.current + 1;
        c
    }

    fn match_next_char(&mut self, expected: char) -> (r: bool)
        requires
            old(self).wf(),
        ensures
            r == (char_at(old(self).chars@, old(self).current as int) == Some(expected)),
            *final(self) == if r {
                Scanner { current: (old(self).current + 1) as usize, ..*old(self) }
            } else {
                *old(self)
            },
    {
        match self.peek_first_char() {
            Some(c) => {
                if c == expected {
                    self.advance();
                    true
                } else {
                    false
                }
            },
            None => false,
        }
    }

    /// The characters `from..to` of the source, as a string.
    fn slice(&self, from: usize, to: usize) -> (r: String)
        requires
            self.wf(),
            from <= to <= self.chars@.len(),
        ensures
            r@ == self.chars@.subrange(from as int, to as int),
    {
        let mut s = String::new();
        let mut i = from;
        while i < to
            invariant
                from <= i <= to <= self.chars@.len(),
                s@ == self.chars@.subrange(from as int, i as int),
            decreases to - i,
        {
            push_char(&mut s, self.chars[i]);
            assert(s@ =~= self.chars@.subrange(from as int, i + 1));
            i = i + 1;
        }
        s
    }

    /// Emits the current lexeme as a token of `kind` on `line`.
    fn add_token(&mut self, kind: TokenType, literal: Option<String>, line: usize)
        requires
            old(self).wf(),
        ensures
            final(self).wf(),
            final(self).start == final(self).current,
            final(self).current == old(self).current,
            final(self).chars == old(self).chars,
            final(self).state() == (ScanState {
                pos: old(self).current as int,
                tokens: old(self).state().tokens.push(
                    TokenModel {
                        kind,
                        lexeme: old(self).chars@.subrange(
                            old(self).start as int,
                            old(self).current as int,
                        ),
                        literal: literal_view(literal),
                        line: line as nat,
                    },
                ),
                ..old(self).state()
            }),
    {
        let text = self.slice(self.start, self.current);
        let token = Token { kind, lexeme: text, literal, line };
        self.tokens.push(token);
        self.start = self.current;
        assert(token_views(self.tokens@) =~= token_views(old(self).tokens@).push(token@));
    }

    /// Sends a diagnostic to the sink and marks the scan as failed.
    fn report_error(&mut self, line: usize, message: &str)
        requires
            old(self).wf(),
        ensures
            final(self).wf(),
            final(self).start == old(self).start,
            final(self).current == old(self).current,
            final(self).chars == old(self).chars,
            final(self).state() == report(old(self).state(), line as nat, message@),
    {
        let d = error(line, String::from_str(message));
        self.diagnostics.push(d);
        self.failed = true;
        assert(diagnostic_views(self.diagnostics@) =~= diagnostic_views(
            old(self).diagnostics@,
        ).push(d@));
    }

    /// Consumes the longest run of `kind` from the cursor, counting the
    /// newlines in it when `count_lines` is set.
    fn skip_run(&mut self, kind: RunKind, count_lines: bool)
        requires
            old(self).wf(),
        ensures
            final(self).wf(),
            final(self).current == run_end(old(self).chars@, old(self).current as int, kind),
            final(self).line == old(self).line + if count_lines {
                newlines(old(self).chars@, old(self).current as int, final(self).current as int)
            } else {
                0
            },
            final(self).start == old(self).start,
            final(self).chars == old(self).chars,
            final(self).tokens == old(self).tokens,
            final(self).diagnostics == old(self).diagnostics,
            final(self).current >= old(self).current,
    {
        let ghost s = self.chars@;
        let ghost c0 = self.current as int;
        proof {
            lemma_run_end_bounds(s, c0, kind);
        }
        let n = self.chars.len();
        let mut i = self.current;
        let mut line = self.line;
        while i < n && run_has(kind, self.chars[i])
            invariant
                s == self.chars@,
                n == s.len(),
                n < usize::MAX,
                c0 <= i <= n,
                self.line <= c0 + 1,
                run_end(s, i as int, kind) == run_end(s, c0, kind),
                line == self.line + if count_lines {
                    newlines(s, c0, i as int)
                } else {
                    0
                },
                line <= i + 1,
            decreases n - i,
        {
            if count_lines && self.chars[i] == '\n' {
                line = line + 1;
            }
            i = i + 1;
        }
        self.current = i;
        self.line = line;
    }

    /// Consumes the body of a block comment whose opening has just been
    /// read, honouring nested openings; returns whether it was closed.
    fn skip_block_comment(&mut self) -> (closed: bool)
        requires
            old(self).wf(),
        ensures
            final(self).wf(),
            (final(self).current as int, closed) == block_end(
                old(self).chars@,
                old(self).current as int,
                1,
            ),
            final(self).line == old(self).line + newlines(
                old(self).chars@,
                old(self).current as int,
                final(self).current as int,
            ),
            final(self).start == old(self).start,
            final(self).chars == old(self).chars,
            final(self).tokens == old(self).tokens,
            final(self).diagnostics == old(self).diagnostics,
            final(self).current >= old(self).current,
    {
        let ghost s = self.chars@;
        let ghost c0 = self.current as int;
        let n = self.chars.len();
        let mut i = self.current;
        let mut line = self.line;
        let mut depth: usize = 1;
        while depth > 0 && i < n
            invariant
                s == self.chars@,
                n == s.len(),
                n < usize::MAX,
                c0 <= i <= n,
                self.line <= c0 + 1,
                depth <= i + 1,
                block_end(s, i as int, depth as nat) == block_end(s, c0, 1),
                line == self.line + newlines(s, c0, i as int),
                line <= i + 1,
            decreases n - i,
        {
            if self.chars[i] == '*' && i + 1 < n && self.chars[i + 1] == '/' {
                assert(newlines(s, c0, i + 1) == newlines(s, c0, i as int));
                depth = depth - 1;
                i = i + 2;
            } else if self.chars[i] == '/' && i + 1 < n && self.chars[i + 1] == '*' {
                assert(newlines(s, c0, i + 1) == newlines(s, c0, i as int));
                depth = depth + 1;
                i = i + 2;
            } else {
                if self.chars[i] == '\n' {
                    line = line + 1;
                }
                i = i + 1;
            }
        }
        self.current = i;
        self.line = line;
        depth == 0
    }

    fn peek_and_add_token(&mut self, expecting: char, matched: TokenType, not_matched: TokenType)
        requires
            old(self).wf(),
            old(self).current == old(self).start + 1,
        ensures
            final(self).ready(),
            final(self).chars == old(self).chars,
            final(self).state() == if followed_by(
                old(self).chars@,
                old(self).start as int,
                expecting,
            ) {
                emit(old(self).chars@, old(self).state(), matched, old(self).start + 2, None)
            } else {
                emit(old(self).chars@, old(self).state(), not_matched, old(self).start + 1, None)
            },
    {
        let line = self.line;
        if self.match_next_char(expecting) {
            self.add_token(matched, None, line);
        } else {
            self.add_token(not_matched, None, line);
        }
    }

    /// After a `/`: a line comment, a block comment, or a slash.
    fn scan_slash(&mut self)
        requires
            old(self).wf(),
            old(self).current == old(self).start + 1,
            old(self).chars@[old(self).start as int] == '/',
        ensures
            final(self).ready(),
            final(self).chars == old(self).chars,
            final(self).state() == comment_step(old(self).chars@, old(self).state()),
            final(self).current >= old(self).current,
    {
        let line = self.line;
        if self.match_next_char('/') {
            self.skip_run(RunKind::LineBody, false);
            self.start = self.current;
        } else if self.match_next_char('*') {
            let closed = self.skip_block_comment();
            if !closed {
                self.report_error(line, "Unterminated block comment.");
            }
            self.start = self.current;
        } else {
            self.add_token(TokenType::SLASH, None, line);
        }
    }

    /// After an opening quote: a string literal up to the closing quote.
    fn scan_string(&mut self)
        requires
            old(self).wf(),
            old(self).current == old(self).start + 1,
            old(self).chars@[old(self).start as int] == '"',
        ensures
            final(self).ready(),
            final(self).chars == old(self).chars,
            final(self).state() == string_step(old(self).chars@, old(self).state()),
            final(self).current >= old(self).current,
    {
        let line = self.line;
        self.skip_run(RunKind::StringBody, true);
        proof {
            lemma_run_end_bounds(self.chars@, old(self).current as int, RunKind::StringBody);
        }
        if self.current < self.chars.len() {
            self.advance();
            let value = self.slice(self.start + 1, self.current - 1);
            self.add_token(TokenType::STRING, Some(value), line);
        } else {
            let here = self.line;
            self.report_error(here, "Unterminated string.");
            self.start = self.current;
        }
    }

    /// After a digit: the rest of a number literal.
    fn scan_number(&mut self)
        requires
            old(self).wf(),
            old(self).current == old(self).start + 1,
        ensures
            final(self).ready(),
            final(self).chars == old(self).chars,
            final(self).state() == emit(
                old(self).chars@,
                old(self).state(),
                TokenType::NUMBER,
                number_end(old(self).chars@, old(self).start as int),
                Some(
                    old(self).chars@.subrange(
                        old(self).start as int,
                        number_end(old(self).chars@, old(self).start as int),
                    ),
                ),
            ),
            final(self).current >= old(self).current,
    {
        self.skip_run(RunKind::Digit, false);
        let point = self.peek_first_char();
        let after = self.peek_second_char();
        if point == Some('.') && after.is_some() {
            let d = after.unwrap();
            if '0' <= d && d <= '9' {
                self.advance();
                self.skip_run(RunKind::Digit, false);
            }
        }
        let value = self.slice(self.start, self.current);
        let line = self.line;
        self.add_token(TokenType::NUMBER, Some(value), line);
    }

    /// After a letter or underscore: an identifier or a reserved word.
    fn scan_identifier(&mut self)
        requires
            old(self).wf(),
            old(self).current == old(self).start + 1,
        ensures
            final(self).ready(),
            final(self).chars == old(self).chars,
            final(self).state() == word_step(old(self).chars@, old(self).state()),
            final(self).current >= old(self).current,
    {
        self.skip_run(RunKind::Word, false);
        let text = self.slice(self.start, self.current);
        let kind = match keyword_kind(text.as_str()) {
            Some(k) => k,
            None => TokenType::IDENTIFIER,
        };
        let line = self.line;
        self.add_token(kind, None, line);
    }

    /// Scans one lexeme, which starts at the cursor.
    fn scan_token(&mut self)
        requires
            old(self).ready(),
            old(self).current < old(self).chars@.len(),
        ensures
            final(self).ready(),
            final(self).chars == old(self).chars,
            final(self).state() == step(old(self).chars@, old(self).state()),
            final(self).current > old(self).current,
    {
        let c = self.advance();
        let line = self.line;
        match single_kind_of(c) {
            Some(kind) => {
                self.add_token(kind, None, line);
                return;
            },
            None => {},
        }
        match pair_kinds_of(c) {
            Some((two, one)) => {
                self.peek_and_add_token('=', two, one);
                return;
            },
            None => {},
        }
        if c == '/' {
            self.scan_slash();
        } else if c == ' ' || c == '\r' || c == '\t' {
            self.start = self.current;
        } else if c == '\n' {
            self.line = self.line + 1;
            self.start = self.current;
        } else if c == '"' {
            self.scan_string();
        } else if '0' <= c && c <= '9' {
            self.scan_number();
        } else if is_alphabetic(c) || c == '_' {
            self.scan_identifier();
        } else {
            self.report_error(line, "Unexpected character.");
            self.start = self.current;
        }
    }

    /// Scans the rest of the source. The tokens end with the end-of-input
    /// token; the scan fails exactly when some diagnostic was reported, and
    /// then the error still carries every token and every diagnostic.
    /// Tokens and diagnostics are handed over to the result.
    pub fn scan_tokens(&mut self) -> (r: Result<Vec<Token>, LexError>)
        requires
            old(self).ready(),
        ensures
            final(self).ready(),
            final(self).text() == old(self).text(),
            ({
                let fin = scan_from(old(self).text(), old(self).state());
                let all = fin.tokens.push(eof_token(fin.line));
                match r {
                    Ok(ts) => fin.diagnostics.len() == 0 && token_views(ts@) == all,
                    Err(e) => fin.diagnostics.len() > 0 && token_views(e.tokens@) == all
                        && diagnostic_views(e.diagnostics@) == fin.diagnostics,
                }
            }),
    {
        let ghost s = self.chars@;
        let ghost st0 = self.state();
        while !self.is_at_end()
            invariant
                self.ready(),
                self.chars@ == s,
                scan_from(s, self.state()) == scan_from(s, st0),
            decreases s.len() - self.current,
        {
            self.scan_token();
        }
        let line = self.line;
        let eof = Token { kind: TokenType::EOF, lexeme: String::new(), literal: None, line };
        let ghost before = self.tokens@;
        self.tokens.push(eof);
        assert(token_views(self.tokens@) =~= token_views(before).push(eof@));
        let mut tokens: Vec<Token> = Vec::new();
        let mut diagnostics: Vec<Diagnostic> = Vec::new();
        std::mem::swap(&mut tokens, &mut self.tokens);
        std::mem::swap(&mut diagnostics, &mut self.diagnostics);
        let failed = self.failed;
        self.failed = false;
        if failed {
            Err(LexError { tokens, diagnostics })
        } else {
            Ok(tokens)
        }
    }
}

} // verus!
