//! The exchange between the evaluator and its host.
//!
//! A host is any function from requests to numbers. Walking a tree again
//! and again, each time with the number that the host gives for the request
//! of the walk before, ends after no more walks than the tree has nodes,
//! and ends with the value that the tree has when numerals and arithmetic
//! mean what the host says.

use vstd::prelude::*;
use crate::expressions::ExprView;
use crate::number::Number;
use crate::scanner::LiteralView;
use crate::semantics::{
    binary_rule, evaluate, unary_rule, unknown_literal, InterruptView, Operation, RequestView,
    Rule, ValueView,
};
use crate::token_types::TokenType;

verus! {

/// The value of `expr`, or the message of the runtime error it runs into,
/// when `host` reads the numerals and does the arithmetic.
pub open spec fn value_of(expr: ExprView, host: spec_fn(RequestView) -> Number) -> Result<
    ValueView,
    Seq<char>,
>
    decreases expr,
{
    match expr {
        ExprView::Literal { value } => match value {
            LiteralView::Nil => Ok(ValueView::Nil),
            LiteralView::Bool(b) => Ok(ValueView::Boolean(b)),
            LiteralView::Number(numeral) => Ok(
                ValueView::Number(host(RequestView::Parse(numeral))),
            ),
            LiteralView::Str(text) => Ok(ValueView::String(text)),
            LiteralView::Unknown(text) => Err(unknown_literal(text)),
        },
        ExprView::Grouping { expression } => value_of(*expression, host),
        ExprView::Unary { operator, right } => match value_of(*right, host) {
            Ok(value) => unary_rule(operator.token_type, value),
            Err(message) => Err(message),
        },
        ExprView::Binary { left, operator, right } => match value_of(*left, host) {
            Ok(l) => match value_of(*right, host) {
                Ok(r) => match binary_rule(operator.token_type, l, r) {
                    Rule::Value(value) => Ok(value),
                    Rule::Error(message) => Err(message),
                    Rule::Compute(operation, x, y) => Ok(
                        ValueView::Number(host(RequestView::Compute(operation, x, y))),
                    ),
                },
                Err(message) => Err(message),
            },
            Err(message) => Err(message),
        },
    }
}

/// The numbers that `host` gives while `expr` is evaluated, in the order in
/// which they are asked for.
pub open spec fn answers_of(expr: ExprView, host: spec_fn(RequestView) -> Number) -> Seq<Number>
    decreases expr,
{
    match expr {
        ExprView::Literal { value } => match value {
            LiteralView::Number(numeral) => seq![host(RequestView::Parse(numeral))],
            _ => Seq::empty(),
        },
        ExprView::Grouping { expression } => answers_of(*expression, host),
        ExprView::Unary { operator, right } => answers_of(*right, host),
        ExprView::Binary { left, operator, right } => match value_of(*left, host) {
            Ok(l) => match value_of(*right, host) {
                Ok(r) => match binary_rule(operator.token_type, l, r) {
                    Rule::Compute(operation, x, y) => answers_of(*left, host) + answers_of(
                        *right,
                        host,
                    ) + seq![host(RequestView::Compute(operation, x, y))],
                    _ => answers_of(*left, host) + answers_of(*right, host),
                },
                Err(message) => answers_of(*left, host) + answers_of(*right, host),
            },
            Err(message) => answers_of(*left, host),
        },
    }
}

/// The number of nodes of `expr`.
pub open spec fn size(expr: ExprView) -> nat
    decreases expr,
{
    match expr {
        ExprView::Literal { value } => 1,
        ExprView::Grouping { expression } => 1 + size(*expression),
        ExprView::Unary { operator, right } => 1 + size(*right),
        ExprView::Binary { left, operator, right } => 1 + size(*left) + size(*right),
    }
}

/// A value or the message of a runtime error, as the end of an evaluation.
pub open spec fn finished(outcome: Result<ValueView, Seq<char>>) -> Result<
    ValueView,
    InterruptView,
> {
    match outcome {
        Ok(value) => Ok(value),
        Err(message) => Err(InterruptView::Error(message)),
    }
}

/// How evaluation ends when `expr` is walked with `answers`, and walked
/// again up to `rounds` times, each time with one more number: the one that
/// `host` gives for the request of the walk before.
pub open spec fn run(
    expr: ExprView,
    host: spec_fn(RequestView) -> Number,
    answers: Seq<Number>,
    rounds: nat,
) -> Result<ValueView, InterruptView>
    decreases rounds,
{
    match evaluate(expr, answers, 0).0 {
        Err(InterruptView::Request(request)) if rounds > 0 => run(
            expr,
            host,
            answers.push(host(request)),
            (rounds - 1) as nat,
        ),
        outcome => outcome,
    }
}

/// Whether the numbers of `answers` from `at` on are those that `host`
/// gives for `expr`, as far as either goes.
pub open spec fn answered_by(
    expr: ExprView,
    host: spec_fn(RequestView) -> Number,
    answers: Seq<Number>,
    at: int,
) -> bool {
    forall|i: int|
        0 <= i < answers_of(expr, host).len() && at + i < answers.len() ==> answers[at + i]
            == #[trigger] answers_of(expr, host)[i]
}

/// A host is asked for no more numbers than the tree has nodes.
pub proof fn lemma_answers_bounded(expr: ExprView, host: spec_fn(RequestView) -> Number)
    ensures
        answers_of(expr, host).len() <= size(expr),
    decreases expr,
{
    match expr {
        ExprView::Literal { value } => {},
        ExprView::Grouping { expression } => lemma_answers_bounded(*expression, host),
        ExprView::Unary { operator, right } => lemma_answers_bounded(*right, host),
        ExprView::Binary { left, operator, right } => {
            lemma_answers_bounded(*left, host);
            lemma_answers_bounded(*right, host);
        },
    }
}

/// With the host's numbers supplied as far as they go, a walk ends with
/// the value of the tree if all of them are there, and otherwise with the
/// request for the first that is missing.
pub proof fn lemma_walk(
    expr: ExprView,
    host: spec_fn(RequestView) -> Number,
    answers: Seq<Number>,
    at: int,
)
    requires
        0 <= at <= answers.len(),
        answered_by(expr, host, answers, at),
    ensures
        at + answers_of(expr, host).len() <= answers.len() ==> evaluate(expr, answers, at) == (
            finished(value_of(expr, host)),
            at + answers_of(expr, host).len(),
        ),
        at + answers_of(expr, host).len() > answers.len() ==> (evaluate(expr, answers, at).0
            matches Err(InterruptView::Request(request)) && host(request) == answers_of(
            expr,
            host,
        )[answers.len() - at]),
    decreases expr,
{
    let all = answers_of(expr, host);
    match expr {
        ExprView::Literal { value } => {
            if all.len() > 0 && at < answers.len() {
                assert(answers[at + 0] == all[0]);
            }
        },
        ExprView::Grouping { expression } => {
            lemma_walk(*expression, host, answers, at);
        },
        ExprView::Unary { operator, right } => {
            lemma_walk(*right, host, answers, at);
        },
        ExprView::Binary { left, operator, right } => {
            let first = answers_of(*left, host);
            let second = answers_of(*right, host);
            assert(answered_by(*left, host, answers, at)) by {
                assert forall|i: int| 0 <= i < first.len() && at + i < answers.len() implies
                    answers[at + i] == #[trigger] first[i] by {
                    assert(all[i] == first[i]);
                }
            }
            lemma_walk(*left, host, answers, at);
            if at + first.len() <= answers.len() {
                if let Ok(l) = value_of(*left, host) {
                    let middle = at + first.len();
                    assert(answered_by(*right, host, answers, middle)) by {
                        assert forall|i: int|
                            0 <= i < second.len() && middle + i < answers.len() implies
                            answers[middle + i] == #[trigger] second[i] by {
                            assert(all[first.len() + i] == second[i]);
                        }
                    }
                    lemma_walk(*right, host, answers, middle);
                    if middle + second.len() <= answers.len() {
                        if let Ok(r) = value_of(*right, host) {
                            let end = middle + second.len();
                            match binary_rule(operator.token_type, l, r) {
                                Rule::Compute(operation, x, y) => {
                                    if end < answers.len() {
                                        assert(answers[at + (first.len() + second.len())]
                                            == all[(first.len() + second.len()) as int]);
                                    }
                                },
                                _ => {},
                            }
                        }
                    }
                }
            }
        },
    }
}

/// Walking again with the host's next number after each request ends with
/// the value of the tree, once the host's first `given` numbers are there
/// and as many rounds are allowed as numbers are still missing.
pub proof fn lemma_run_from(
    expr: ExprView,
    host: spec_fn(RequestView) -> Number,
    given: nat,
    rounds: nat,
)
    requires
        given <= answers_of(expr, host).len(),
        given + rounds >= answers_of(expr, host).len(),
    ensures
        run(expr, host, answers_of(expr, host).take(given as int), rounds) == finished(
            value_of(expr, host),
        ),
    decreases answers_of(expr, host).len() - given,
{
    let all = answers_of(expr, host);
    let answers = all.take(given as int);
    lemma_walk(expr, host, answers, 0);
    if given < all.len() {
        let request = evaluate(expr, answers, 0).0->Err_0->Request_0;
        assert(answers.push(host(request)) =~= all.take((given + 1) as int));
        lemma_run_from(expr, host, given + 1, (rounds - 1) as nat);
    }
}

/// Walking a tree again and again, beginning with no number and supplying
/// after each request the number that the host gives for it, ends after no
/// more requests than the tree has nodes, with the value that the tree has
/// under that host, or with its runtime error.
pub proof fn lemma_run(expr: ExprView, host: spec_fn(RequestView) -> Number)
    ensures
        run(expr, host, Seq::empty(), size(expr)) == finished(value_of(expr, host)),
{
    lemma_answers_bounded(expr, host);
    assert(answers_of(expr, host).take(0) =~= Seq::<Number>::empty());
    lemma_run_from(expr, host, 0, size(expr));
}

/// Whether `expr` is made of numerals, parentheses and the four arithmetic
/// operators alone.
pub open spec fn is_arithmetic(expr: ExprView) -> bool
    decreases expr,
{
    match expr {
        ExprView::Literal { value } => value is Number,
        ExprView::Grouping { expression } => is_arithmetic(*expression),
        ExprView::Unary { operator, right } => false,
        ExprView::Binary { left, operator, right } => operation(operator.token_type) is Some
            && is_arithmetic(*left) && is_arithmetic(*right),
    }
}

/// The arithmetic operation that an operator stands for.
pub open spec fn operation(operator: TokenType) -> Option<Operation> {
    match operator {
        TokenType::PLUS => Some(Operation::Add),
        TokenType::MINUS => Some(Operation::Subtract),
        TokenType::STAR => Some(Operation::Multiply),
        TokenType::SLASH => Some(Operation::Divide),
        _ => None,
    }
}

/// The number that an arithmetic expression stands for when `host` reads
/// the numerals and does the arithmetic, operands before operators and left
/// before right; or the message of the error if a divisor is zero.
pub open spec fn arithmetic(expr: ExprView, host: spec_fn(RequestView) -> Number) -> Result<
    Number,
    Seq<char>,
>
    decreases expr,
{
    match expr {
        ExprView::Literal { value } => match value {
            LiteralView::Number(numeral) => Ok(host(RequestView::Parse(numeral))),
            _ => Err(Seq::empty()),
        },
        ExprView::Grouping { expression } => arithmetic(*expression, host),
        ExprView::Unary { operator, right } => Err(Seq::empty()),
        ExprView::Binary { left, operator, right } => match arithmetic(*left, host) {
            Ok(l) => match arithmetic(*right, host) {
                Ok(r) => match operation(operator.token_type) {
                    Some(Operation::Divide) if r.zero() => Err("Division by zero."@),
                    Some(operation) => Ok(host(RequestView::Compute(operation, l, r))),
                    None => Err(Seq::empty()),
                },
                Err(message) => Err(message),
            },
            Err(message) => Err(message),
        },
    }
}

/// An expression made of numerals, parentheses and the four arithmetic
/// operators has the value that the host's arithmetic gives it, and no
/// other error than a division by zero.
pub proof fn lemma_arithmetic(expr: ExprView, host: spec_fn(RequestView) -> Number)
    requires
        is_arithmetic(expr),
    ensures
        value_of(expr, host) == match arithmetic(expr, host) {
            Ok(number) => Ok::<ValueView, Seq<char>>(ValueView::Number(number)),
            Err(message) => Err(message),
        },
        arithmetic(expr, host) matches Err(message) ==> message == "Division by zero."@,
    decreases expr,
{
    match expr {
        ExprView::Literal { value } => {},
        ExprView::Grouping { expression } => lemma_arithmetic(*expression, host),
        ExprView::Unary { operator, right } => {},
        ExprView::Binary { left, operator, right } => {
            lemma_arithmetic(*left, host);
            lemma_arithmetic(*right, host);
        },
    }
}

} // verus!
