//! The numerals that reach the host: every numeral that the scanner finds,
//! the parser passes on and the evaluator asks the host to read is a run of
//! digits, optionally followed by a point and another run of digits.

use vstd::prelude::*;
use crate::expressions::ExprView;
use crate::grammar::{binary, expression, kind_at, operand, primary, remaining, tail, unary, Level};
use crate::lexemes::lemma_scan_token_adds;
use crate::lexicon::{char_at, is_digit, lemma_run_end, lemma_run_end_from, run_end, CharClass};
use crate::number::Number;
use crate::scanner::{
    lemma_scan_token_moves, scanned, tokenize, LiteralView, ScannerView, TokenView,
};
use crate::semantics::{evaluate, InterruptView, RequestView};
use crate::token_types::TokenType;

verus! {

/// Whether `text` is a numeral: one or more digits, alone or followed by a
/// point and one or more digits.
pub open spec fn is_numeral(text: Seq<char>) -> bool {
    let whole = run_end(text, 0, CharClass::Digit);
    &&& whole > 0
    &&& whole == text.len() || (text[whole] == '.' && whole + 1 < text.len() && run_end(
        text,
        whole + 1,
        CharClass::Digit,
    ) == text.len())
}

/// Whether a literal, if it is a number, holds a numeral.
pub open spec fn sound_literal(literal: LiteralView) -> bool {
    literal matches LiteralView::Number(text) ==> is_numeral(text)
}

/// Whether every number among the literals of `tokens` holds a numeral.
pub open spec fn sound_tokens(tokens: Seq<TokenView>) -> bool {
    forall|i: int| 0 <= i < tokens.len() ==> sound_literal((#[trigger] tokens[i]).literal)
}

/// Whether every number among the literals of `tree` holds a numeral.
pub open spec fn sound_tree(tree: ExprView) -> bool
    decreases tree,
{
    match tree {
        ExprView::Literal { value } => sound_literal(value),
        ExprView::Grouping { expression } => sound_tree(*expression),
        ExprView::Unary { operator, right } => sound_tree(*right),
        ExprView::Binary { left, operator, right } => sound_tree(*left) && sound_tree(*right),
    }
}

/// A run within a stretch of the source ends where the run in the source
/// ends, or where the stretch ends if that comes first.
pub proof fn lemma_run_end_within(
    source: Seq<char>,
    begin: int,
    end: int,
    from: int,
    class: CharClass,
)
    requires
        0 <= begin <= from <= end <= source.len(),
    ensures
        run_end(source.subrange(begin, end), from - begin, class) == if run_end(
            source,
            from,
            class,
        ) < end {
            run_end(source, from, class) - begin
        } else {
            end - begin
        },
    decreases end - from,
{
    lemma_run_end_from(source, from, class);
    if from < end && class.admits(source[from]) {
        lemma_run_end_within(source, begin, end, from + 1, class);
    }
}

/// The token that the scanner makes of a unit that begins with a digit
/// holds a numeral.
pub proof fn lemma_number_is_numeral(state: ScannerView)
    requires
        state.wf(),
        state.start == state.current,
        is_digit(state.peek()),
    ensures
        is_numeral(state.advance().number().lexeme()),
{
    let source = state.source;
    let begin = state.current;
    let whole = run_end(source, begin + 1, CharClass::Digit);
    let end = state.advance().number().current;
    let fraction = char_at(source, whole) == '.' && is_digit(char_at(source, whole + 1));
    lemma_run_end(source, begin + 1, CharClass::Digit);
    if fraction {
        lemma_run_end(source, whole + 1, CharClass::Digit);
    }
    lemma_run_end_within(source, begin, end, begin, CharClass::Digit);
    if fraction {
        lemma_run_end_within(source, begin, end, whole + 1, CharClass::Digit);
    }
}

/// Scanning one unit adds no number that is not a numeral.
pub proof fn lemma_scan_token_sound(state: ScannerView)
    requires
        state.wf(),
        state.start == state.current,
        sound_tokens(state.tokens),
    ensures
        sound_tokens(state.scan_token().0.tokens),
{
    lemma_scan_token_adds(state);
    if !state.at_end() && is_digit(state.peek()) {
        lemma_number_is_numeral(state);
    }
}

/// Scanning to the end adds no number that is not a numeral.
pub proof fn lemma_scan_rest_sound(state: ScannerView)
    requires
        state.wf(),
        sound_tokens(state.tokens),
    ensures
        sound_tokens(state.scan_rest().0.tokens),
    decreases state.source.len() - state.current,
{
    if !state.at_end() {
        lemma_scan_token_moves(state.restart());
        lemma_scan_token_sound(state.restart());
        lemma_scan_rest_sound(state.restart().scan_token().0);
    }
}

/// Every number among the tokens of a source holds a numeral, also once
/// the end marker is appended.
pub proof fn lemma_tokens_sound(source: Seq<char>)
    ensures
        sound_tokens(scanned(source).0.tokens),
        sound_tokens(tokenize(source).0),
{
    let begin = ScannerView { source, tokens: Seq::empty(), start: 0, current: 0, line: 1 };
    lemma_scan_rest_sound(begin);
}

/// What a binary level makes of sound tokens is a sound tree.
pub proof fn lemma_binary_sound(level: Level, tokens: Seq<TokenView>, at: int)
    requires
        sound_tokens(tokens),
    ensures
        binary(level, tokens, at) matches Ok((tree, read)) ==> sound_tree(tree),
        operand(level, tokens, at) matches Ok((tree, read)) ==> sound_tree(tree),
    decreases remaining(tokens, at), 3 * level.rank() + 6,
{
    match level {
        Level::Equality => lemma_binary_sound(Level::Comparison, tokens, at),
        Level::Comparison => lemma_binary_sound(Level::Term, tokens, at),
        Level::Term => lemma_binary_sound(Level::Factor, tokens, at),
        Level::Factor => lemma_unary_sound(tokens, at),
    }
    if let Ok((left, read)) = operand(level, tokens, at) {
        lemma_tail_sound(level, tokens, left, at + read);
    }
}

/// The rest of a binary level keeps a tree sound.
pub proof fn lemma_tail_sound(level: Level, tokens: Seq<TokenView>, left: ExprView, at: int)
    requires
        sound_tokens(tokens),
        sound_tree(left),
    ensures
        tail(level, tokens, left, at) matches Ok((tree, read)) ==> sound_tree(tree),
    decreases remaining(tokens, at), 0nat,
{
    if let Some(kind) = kind_at(tokens, at) {
        if level.joins(kind) {
            lemma_binary_sound(level, tokens, at + 1);
            if let Ok((right, read)) = operand(level, tokens, at + 1) {
                lemma_tail_sound(
                    level,
                    tokens,
                    ExprView::Binary {
                        left: Box::new(left),
                        operator: tokens[at],
                        right: Box::new(right),
                    },
                    at + 1 + read,
                );
            }
        }
    }
}

/// What a unary expression or a primary makes of sound tokens is a sound
/// tree.
pub proof fn lemma_unary_sound(tokens: Seq<TokenView>, at: int)
    requires
        sound_tokens(tokens),
    ensures
        unary(tokens, at) matches Ok((tree, read)) ==> sound_tree(tree),
        primary(tokens, at) matches Ok((tree, read)) ==> sound_tree(tree),
    decreases remaining(tokens, at), 4nat,
{
    if let Some(kind) = kind_at(tokens, at) {
        if kind == TokenType::BANG || kind == TokenType::MINUS {
            lemma_unary_sound(tokens, at + 1);
        }
        if kind == TokenType::LEFT_PAREN {
            lemma_tree_sound(tokens, at + 1);
        }
    }
}

/// The tree that is parsed from sound tokens is sound.
pub proof fn lemma_tree_sound(tokens: Seq<TokenView>, at: int)
    requires
        sound_tokens(tokens),
    ensures
        expression(tokens, at) matches Ok((tree, read)) ==> sound_tree(tree),
    decreases remaining(tokens, at), 20nat,
{
    lemma_binary_sound(Level::Equality, tokens, at);
}

/// What the evaluator asks the host to read is a numeral, if the tree is
/// sound.
pub proof fn lemma_request_sound(tree: ExprView, answers: Seq<Number>, at: int)
    requires
        sound_tree(tree),
    ensures
        evaluate(tree, answers, at).0 matches Err(
            InterruptView::Request(RequestView::Parse(text)),
        ) ==> is_numeral(text),
    decreases tree,
{
    match tree {
        ExprView::Literal { value } => {},
        ExprView::Grouping { expression } => lemma_request_sound(*expression, answers, at),
        ExprView::Unary { operator, right } => lemma_request_sound(*right, answers, at),
        ExprView::Binary { left, operator, right } => {
            lemma_request_sound(*left, answers, at);
            lemma_request_sound(*right, answers, evaluate(*left, answers, at).1);
        },
    }
}

/// From source text to the host: whatever numbers have been supplied, the
/// evaluator asks the host to read nothing but numerals while it evaluates
/// the expression that a source begins with.
pub proof fn lemma_host_reads_numerals(source: Seq<char>, answers: Seq<Number>)
    ensures
        expression(tokenize(source).0, 0) matches Ok((tree, read)) ==> (evaluate(
            tree,
            answers,
            0,
        ).0 matches Err(InterruptView::Request(RequestView::Parse(text))) ==> is_numeral(text)),
{
    lemma_tokens_sound(source);
    lemma_tree_sound(tokenize(source).0, 0);
    if let Ok((tree, read)) = expression(tokenize(source).0, 0) {
        lemma_request_sound(tree, answers, 0);
    }
}

} // verus!
