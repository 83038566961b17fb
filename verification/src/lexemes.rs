//! What the tokens of a source say of it: outside string literals they
//! spell the source out again, without its blanks and comments; there are
//! no more of them than the source has characters; and none of them is the
//! end marker, so that a marker appended to them is the only one.

use vstd::prelude::*;
use crate::lexicon::{
    char_at, is_alpha, is_digit, lemma_run_end, lemma_run_end_from, operator, punctuation,
    run_end, CharClass,
};
use crate::scanner::{
    lemma_scan_token_moves, scanned, tokenize, LiteralView, ReportView, ScannerView,
    TokenView,
};
use crate::token_types::TokenType;

verus! {

/// The raw text that a token holds. The token of a string literal holds
/// the value of the literal, not its raw text.
pub open spec fn lexeme(token: TokenView) -> Seq<char> {
    match token.literal {
        LiteralView::Number(text) => text,
        LiteralView::Str(text) => text,
        LiteralView::Unknown(text) => text,
        _ => Seq::empty(),
    }
}

/// The raw texts of `tokens`, one after the other.
pub open spec fn lexemes(tokens: Seq<TokenView>) -> Seq<char>
    decreases tokens.len(),
{
    if tokens.len() == 0 {
        Seq::empty()
    } else {
        lexemes(tokens.drop_last()) + lexeme(tokens.last())
    }
}

/// A character that separates tokens and is otherwise skipped.
pub open spec fn is_blank(c: char) -> bool {
    c == ' ' || c == '\r' || c == '\t' || c == '\n'
}

/// Whether a comment begins at `at`.
pub open spec fn comment_at(source: Seq<char>, at: int) -> bool {
    char_at(source, at) == '/' && char_at(source, at + 1) == '/'
}

/// The source from `from` on, without its blanks and without its comments:
/// two slashes and what follows them on the line.
pub open spec fn significant(source: Seq<char>, from: int) -> Seq<char>
    decreases source.len() - from,
    via significant_terminates
{
    if from < 0 || from >= source.len() {
        Seq::empty()
    } else if is_blank(source[from]) {
        significant(source, from + 1)
    } else if comment_at(source, from) {
        significant(source, run_end(source, from + 2, CharClass::Comment))
    } else {
        seq![source[from]] + significant(source, from + 1)
    }
}

#[via_fn]
proof fn significant_terminates(source: Seq<char>, from: int) {
    lemma_run_end_from(source, from + 2, CharClass::Comment);
}

/// The raw texts add up as tokens are added.
pub proof fn lemma_lexemes_push(tokens: Seq<TokenView>, token: TokenView)
    ensures
        lexemes(tokens.push(token)) == lexemes(tokens) + lexeme(token),
{
    assert(tokens.push(token).drop_last() =~= tokens);
}

/// A stretch of the source that holds no blank and no comment is kept as
/// it is.
pub proof fn lemma_significant_keeps(source: Seq<char>, from: int, to: int)
    requires
        0 <= from <= to <= source.len(),
        forall|i: int| from <= i < to ==> !is_blank(#[trigger] source[i]) && !comment_at(source, i),
    ensures
        significant(source, from) == source.subrange(from, to) + significant(source, to),
    decreases to - from,
{
    if from < to {
        lemma_significant_keeps(source, from + 1, to);
    }
}

/// Scanning one unit adds at most one token.
pub proof fn lemma_scan_token_adds(state: ScannerView)
    ensures
        state.scan_token().0.tokens == state.tokens || (state.scan_token().0.tokens.len() > 0
            && state.scan_token().0.tokens == state.tokens.push(
            state.scan_token().0.tokens.last(),
        )),
{
}

/// Scanning to the end only adds tokens.
pub proof fn lemma_scan_rest_adds(state: ScannerView)
    ensures
        state.tokens.is_prefix_of(state.scan_rest().0.tokens),
    decreases state.source.len() - state.current,
{
    if state.at_end() || !state.wf() {
    } else {
        let unit = state.restart().scan_token();
        lemma_scan_token_moves(state.restart());
        lemma_scan_token_adds(state.restart());
        lemma_scan_rest_adds(unit.0);
    }
}

/// One unit that is scanned without a report either adds no token and is
/// blank or a comment, or adds a token: that of a string literal, or one
/// that holds the text of the unit.
pub proof fn lemma_scan_token_keeps(state: ScannerView)
    requires
        state.wf(),
        state.start == state.current,
        !state.at_end(),
        state.scan_token().1.len() == 0,
    ensures
        ({
            let after = state.scan_token().0;
            ||| after.tokens == state.tokens && significant(state.source, state.current)
                == significant(state.source, after.current)
            ||| after.tokens.len() > 0 && after.tokens == state.tokens.push(after.tokens.last())
                && (after.tokens.last().token_type == TokenType::STRING || significant(
                state.source,
                state.current,
            ) == lexeme(after.tokens.last()) + significant(state.source, after.current))
        }),
{
    let source = state.source;
    let at = state.current;
    let c = state.peek();
    let next = state.advance();
    let after = state.scan_token().0;
    lemma_scan_token_moves(state);
    if punctuation(c) is Some {
        lemma_significant_keeps(source, at, at + 1);
    } else if operator(c, false) is Some {
        lemma_significant_keeps(source, at, after.current);
    } else if c == '/' {
        if next.peek() != '/' {
            lemma_significant_keeps(source, at, at + 1);
        }
    } else if c == '"' {
    } else if is_blank(c) {
    } else if is_digit(c) {
        let whole = run_end(source, at + 1, CharClass::Digit);
        lemma_run_end(source, at + 1, CharClass::Digit);
        if char_at(source, whole) == '.' && is_digit(char_at(source, whole + 1)) {
            lemma_run_end(source, whole + 1, CharClass::Digit);
        }
        lemma_significant_keeps(source, at, after.current);
    } else if is_alpha(c) {
        lemma_run_end(source, at + 1, CharClass::Alphanumeric);
        lemma_significant_keeps(source, at, after.current);
    } else {
    }
}

/// Scanning to the end without a report adds tokens whose raw texts,
/// unless one of them is that of a string literal, spell out the rest of
/// the source without its blanks and comments.
pub proof fn lemma_scan_rest_keeps(state: ScannerView)
    requires
        state.wf(),
        state.scan_rest().1.len() == 0,
        forall|i: int|
            state.tokens.len() <= i < state.scan_rest().0.tokens.len() ==> (
            #[trigger] state.scan_rest().0.tokens[i]).token_type != TokenType::STRING,
    ensures
        lexemes(state.scan_rest().0.tokens) == lexemes(state.tokens) + significant(
            state.source,
            state.current,
        ),
    decreases state.source.len() - state.current,
{
    if !state.at_end() {
        let begun = state.restart();
        let unit = begun.scan_token();
        lemma_scan_token_moves(begun);
        lemma_scan_rest_adds(unit.0);
        lemma_scan_token_adds(begun);
        assert(unit.1.len() == 0 && unit.0.scan_rest().1.len() == 0);
        lemma_scan_token_keeps(begun);
        lemma_scan_rest_keeps(unit.0);
        if unit.0.tokens != state.tokens {
            lemma_lexemes_push(state.tokens, unit.0.tokens.last());
        }
    }
}

/// Scanning, then joining the raw texts of the tokens, gives the source
/// back without its blanks and comments, if the source has no lexical
/// error and no string literal. The end marker, where a caller appends it,
/// adds nothing.
pub proof fn lemma_round_trip(source: Seq<char>)
    requires
        scanned(source).1 == Seq::<ReportView>::empty(),
        forall|i: int|
            0 <= i < scanned(source).0.tokens.len() ==> (
            #[trigger] scanned(source).0.tokens[i]).token_type != TokenType::STRING,
    ensures
        lexemes(scanned(source).0.tokens) == significant(source, 0),
        lexemes(tokenize(source).0) == significant(source, 0),
{
    let begin = ScannerView { source, tokens: Seq::empty(), start: 0, current: 0, line: 1 };
    let last = scanned(source).0;
    lemma_scan_rest_keeps(begin);
    lemma_lexemes_push(last.tokens, last.end_of_file());
}

/// Whether no token of `tokens` is the end marker.
pub open spec fn unmarked(tokens: Seq<TokenView>) -> bool {
    forall|i: int| 0 <= i < tokens.len() ==> (#[trigger] tokens[i]).token_type != TokenType::EOF
}

/// Scanning to the end adds no end marker.
pub proof fn lemma_scan_rest_unmarked(state: ScannerView)
    requires
        state.wf(),
        unmarked(state.tokens),
    ensures
        unmarked(state.scan_rest().0.tokens),
    decreases state.source.len() - state.current,
{
    if !state.at_end() {
        lemma_scan_token_moves(state.restart());
        lemma_scan_token_adds(state.restart());
        lemma_scan_rest_unmarked(state.restart().scan_token().0);
    }
}

/// The scanner adds no end marker. Once a caller has appended one, the
/// tokens of a source end with it and hold no other: a parser that stops at
/// the end marker has seen every token of the source.
pub proof fn lemma_one_end_marker(source: Seq<char>)
    ensures
        unmarked(scanned(source).0.tokens),
        tokenize(source).0.len() > 0,
        tokenize(source).0.last().token_type == TokenType::EOF,
        tokenize(source).0.drop_last() == scanned(source).0.tokens,
{
    let begin = ScannerView { source, tokens: Seq::empty(), start: 0, current: 0, line: 1 };
    lemma_scan_rest_unmarked(begin);
    assert(tokenize(source).0.drop_last() =~= scanned(source).0.tokens);
}

/// One unit adds at most one token or one report, not both.
pub proof fn lemma_scan_token_counts(state: ScannerView)
    ensures
        state.scan_token().0.tokens.len() + state.scan_token().1.len() <= state.tokens.len() + 1,
        state.tokens.len() <= state.scan_token().0.tokens.len(),
{
}

/// Scanning to the end adds no more tokens and reports together than it
/// reads characters.
pub proof fn lemma_scan_rest_counts(state: ScannerView)
    requires
        state.wf(),
    ensures
        state.scan_rest().0.at_end(),
        state.scan_rest().0.tokens.len() + state.scan_rest().1.len() <= state.tokens.len()
            + state.source.len() - state.current,
    decreases state.source.len() - state.current,
{
    if !state.at_end() {
        lemma_scan_token_moves(state.restart());
        lemma_scan_token_counts(state.restart());
        lemma_scan_rest_counts(state.restart().scan_token().0);
    }
}

/// A scan reads all of its source, and finds in it no more tokens and
/// lexical errors together than it has characters.
pub proof fn lemma_counts(source: Seq<char>)
    ensures
        scanned(source).0.at_end(),
        scanned(source).0.tokens.len() + scanned(source).1.len() <= source.len(),
{
    lemma_scan_rest_counts(
        ScannerView { source, tokens: Seq::empty(), start: 0, current: 0, line: 1 },
    );
}

} // verus!
