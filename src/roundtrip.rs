use vstd::prelude::*;

use crate::expr::{infix_of, ExprModel};
use crate::grammar::{at_any, binary_rest, level_ops, parse_level, parse_primary, unary_ops, Parsed};
use crate::lexical::{
    emit, eof_token, initial_state, is_digit, number_end, run_end, scan_from, scan_source, step,
    RunKind,
};
use crate::token::{TokenModel, TokenType};

verus! {

/// Every character of `v[a..b]` is an ASCII digit.
pub open spec fn all_digits(v: Seq<char>, a: int, b: int) -> bool {
    forall|i: int| a <= i < b ==> is_digit(#[trigger] v[i])
}

/// The spelling of a number literal: digits, optionally followed by a
/// point and more digits.
pub open spec fn is_number_text(v: Seq<char>) -> bool {
    ||| v.len() > 0 && all_digits(v, 0, v.len() as int)
    ||| exists|k: int|
        0 < k && k + 1 < v.len() && v[k] == '.' && all_digits(v, 0, k) && all_digits(
            v,
            k + 1,
            v.len() as int,
        )
}

proof fn lemma_digit_run(s: Seq<char>, i: int, j: int)
    requires
        0 <= i <= j <= s.len(),
        all_digits(s, i, j),
        j == s.len() || !is_digit(s[j]),
    ensures
        run_end(s, i, RunKind::Digit) == j,
    decreases j - i,
{
    if i < j {
        lemma_digit_run(s, i + 1, j);
    }
}

proof fn lemma_number_end(v: Seq<char>)
    requires
        is_number_text(v),
    ensures
        number_end(v, 0) == v.len(),
{
    let n = v.len() as int;
    if n > 0 && all_digits(v, 0, n) {
        lemma_digit_run(v, 1, n);
    } else {
        let k = choose|k: int|
            0 < k && k + 1 < v.len() && v[k] == '.' && all_digits(v, 0, k) && all_digits(
                v,
                k + 1,
                v.len() as int,
            );
        lemma_digit_run(v, 1, k);
        lemma_digit_run(v, k + 2, n);
    }
}

/// Scanning the spelling of a number literal gives one NUMBER token whose
/// lexeme and literal are that spelling, then the end-of-input token, and
/// no diagnostic.
pub proof fn lemma_scan_number_text(v: Seq<char>)
    requires
        is_number_text(v),
    ensures
        scan_source(v).diagnostics.len() == 0,
        scan_source(v).tokens == seq![
            TokenModel { kind: TokenType::NUMBER, lexeme: v, literal: Some(v), line: 1 },
            eof_token(1),
        ],
{
    let n = v.len() as int;
    lemma_number_end(v);
    assert(is_digit(v[0])) by {
        if !(n > 0 && all_digits(v, 0, n)) {
            let k = choose|k: int|
                0 < k && k + 1 < v.len() && v[k] == '.' && all_digits(v, 0, k) && all_digits(
                    v,
                    k + 1,
                    v.len() as int,
                );
            assert(is_digit(v[0]));
        }
    }
    let st1 = emit(v, initial_state(), TokenType::NUMBER, n, Some(v.subrange(0, n)));
    assert(v.subrange(0, n) =~= v);
    assert(step(v, initial_state()) == st1);
    assert(scan_from(v, st1) == st1);
    assert(scan_from(v, initial_state()) == st1);
    assert(scan_source(v).tokens =~= seq![
        TokenModel { kind: TokenType::NUMBER, lexeme: v, literal: Some(v), line: 1 },
        eof_token(1),
    ]);
}

/// Rendering a number literal's tree and then scanning and parsing the
/// text gives back the same tree, with every token but the end-of-input
/// token consumed.
pub proof fn lemma_number_literal_round_trip(e: ExprModel)
    requires
        e matches ExprModel::Literal(v) && is_number_text(v),
    ensures
        scan_source(infix_of(e)).diagnostics.len() == 0,
        parse_level(scan_source(infix_of(e)).tokens, 0, 6) == Parsed::Done(e, 1),
{
    let v = infix_of(e);
    lemma_scan_number_text(v);
    let ts = scan_source(v).tokens;
    assert(!at_any(ts, 0, unary_ops())) by {
        if at_any(ts, 0, unary_ops()) {
            let i = choose|i: int| 0 <= i < unary_ops().len() && unary_ops()[i] == ts[0].kind;
            assert(i == 0 || i == 1);
        }
    }
    assert forall|level: nat| 2 <= level <= 5 implies !at_any(ts, 1, level_ops(level)) by {}
    assert(ts[0].kind == TokenType::NUMBER);
    assert(parse_primary(ts, 0) == Parsed::Done(e, 1));
    assert(parse_level(ts, 0, 0) == Parsed::Done(e, 1));
    assert(parse_level(ts, 0, 1) == Parsed::Done(e, 1));
    assert(binary_rest(ts, e, 1, 2) == Parsed::Done(e, 1));
    assert(parse_level(ts, 0, 2) == Parsed::Done(e, 1));
    assert(binary_rest(ts, e, 1, 3) == Parsed::Done(e, 1));
    assert(parse_level(ts, 0, 3) == Parsed::Done(e, 1));
    assert(binary_rest(ts, e, 1, 4) == Parsed::Done(e, 1));
    assert(parse_level(ts, 0, 4) == Parsed::Done(e, 1));
    assert(binary_rest(ts, e, 1, 5) == Parsed::Done(e, 1));
    assert(parse_level(ts, 0, 5) == Parsed::Done(e, 1));
}

} // verus!
