//! What expressions evaluate to, stated over the views of trees and values.
//!
//! Numbers are read from numerals and combined by the host, not by this
//! library. The meaning of an expression is therefore stated relative to
//! the numbers that the host has supplied so far: each numeral and each
//! arithmetic operation, in the order of a post-order walk, takes the next
//! supplied number as its value, and where none is left, evaluation is
//! interrupted by the request for it.

use vstd::prelude::*;
use crate::expressions::ExprView;
use crate::number::Number;
use crate::scanner::{LiteralView, TokenView};
use crate::token_types::TokenType;

verus! {

/// The mathematical value of a runtime value.
pub enum ValueView {
    Nil,
    Boolean(bool),
    Number(Number),
    String(Seq<char>),
}

/// An arithmetic operation on two numbers.
#[derive(Debug, Clone, Copy, PartialEq, Eq, Structural)]
pub enum Operation {
    Add,
    Subtract,
    Multiply,
    Divide,
}

/// The mathematical value of a request to the host.
pub enum RequestView {
    /// The number that a numeral denotes.
    Parse(Seq<char>),
    /// The result of an operation on two numbers, left operand first.
    Compute(Operation, Number, Number),
}

/// The mathematical value of what interrupts an evaluation.
pub enum InterruptView {
    /// A runtime error, by its message.
    Error(Seq<char>),
    /// A number is needed that the host has not supplied yet.
    Request(RequestView),
}

/// What the rules for an operator make of two operand values.
pub enum Rule {
    /// The result is this value.
    Value(ValueView),
    /// The operands are not acceptable.
    Error(Seq<char>),
    /// The result is the number that the host computes.
    Compute(Operation, Number, Number),
}

/// Where an evaluation stands: its value or what interrupted it, and the
/// position in the supplied numbers after those it took.
pub type Evaluation = (Result<ValueView, InterruptView>, int);

/// `nil` and `false` are falsy; every other value is truthy.
pub open spec fn truthy(value: ValueView) -> bool {
    match value {
        ValueView::Nil => false,
        ValueView::Boolean(b) => b,
        _ => true,
    }
}

/// Equality of values: values of different types are never equal, `nil`
/// equals `nil` alone, and numbers are compared numerically.
pub open spec fn equal(a: ValueView, b: ValueView) -> bool {
    match (a, b) {
        (ValueView::Nil, ValueView::Nil) => true,
        (ValueView::Boolean(x), ValueView::Boolean(y)) => x == y,
        (ValueView::Number(x), ValueView::Number(y)) => x.equals(y),
        (ValueView::String(x), ValueView::String(y)) => x == y,
        _ => false,
    }
}

/// The message for a literal that has no value.
pub open spec fn unknown_literal(text: Seq<char>) -> Seq<char> {
    "Unknown literal: "@ + text + "."@
}

/// The value of an operand under the prefix operator `operator`, or the
/// message of the error.
pub open spec fn unary_rule(operator: TokenType, right: ValueView) -> Result<ValueView, Seq<char>> {
    match operator {
        TokenType::MINUS => match right {
            ValueView::Number(number) => Ok(ValueView::Number(number.opposite())),
            _ => Err("Operand must be a number."@),
        },
        TokenType::BANG => Ok(ValueView::Boolean(!truthy(right))),
        _ => Err("Unknown unary operator."@),
    }
}

/// The rule for two numbers under an operator that takes only numbers.
pub open spec fn numeric_rule(
    left: ValueView,
    right: ValueView,
    rule: spec_fn(Number, Number) -> Rule,
) -> Rule {
    match (left, right) {
        (ValueView::Number(l), ValueView::Number(r)) => rule(l, r),
        _ => Rule::Error("Operands must be numbers."@),
    }
}

/// What the infix operator `operator` makes of two operand values.
pub open spec fn binary_rule(operator: TokenType, left: ValueView, right: ValueView) -> Rule {
    match operator {
        TokenType::PLUS => match (left, right) {
            (ValueView::Number(l), ValueView::Number(r)) => Rule::Compute(Operation::Add, l, r),
            (ValueView::String(l), ValueView::String(r)) => Rule::Value(ValueView::String(l + r)),
            _ => Rule::Error("Operands must be two numbers or two strings."@),
        },
        TokenType::MINUS => numeric_rule(
            left,
            right,
            |l: Number, r: Number| Rule::Compute(Operation::Subtract, l, r),
        ),
        TokenType::STAR => numeric_rule(
            left,
            right,
            |l: Number, r: Number| Rule::Compute(Operation::Multiply, l, r),
        ),
        TokenType::SLASH => numeric_rule(
            left,
            right,
            |l: Number, r: Number|
                if r.zero() {
                    Rule::Error("Division by zero."@)
                } else {
                    Rule::Compute(Operation::Divide, l, r)
                },
        ),
        TokenType::GREATER => numeric_rule(
            left,
            right,
            |l: Number, r: Number| Rule::Value(ValueView::Boolean(r.below(l))),
        ),
        TokenType::GREATER_EQUAL => numeric_rule(
            left,
            right,
            |l: Number, r: Number| Rule::Value(ValueView::Boolean(r.below(l) || r.equals(l))),
        ),
        TokenType::LESS => numeric_rule(
            left,
            right,
            |l: Number, r: Number| Rule::Value(ValueView::Boolean(l.below(r))),
        ),
        TokenType::LESS_EQUAL => numeric_rule(
            left,
            right,
            |l: Number, r: Number| Rule::Value(ValueView::Boolean(l.below(r) || l.equals(r))),
        ),
        TokenType::EQUAL_EQUAL => Rule::Value(ValueView::Boolean(equal(left, right))),
        TokenType::BANG_EQUAL => Rule::Value(ValueView::Boolean(!equal(left, right))),
        _ => Rule::Error("Unknown binary operator."@),
    }
}

/// The number that answers `request`: the supplied number at `at`, or the
/// interruption by the request if the supplied numbers end there.
pub open spec fn answered(request: RequestView, answers: Seq<Number>, at: int) -> Evaluation {
    if 0 <= at < answers.len() {
        (Ok(ValueView::Number(answers[at])), at + 1)
    } else {
        (Err(InterruptView::Request(request)), at)
    }
}

/// The evaluation of a literal.
pub open spec fn literal(value: LiteralView, answers: Seq<Number>, at: int) -> Evaluation {
    match value {
        LiteralView::Nil => (Ok(ValueView::Nil), at),
        LiteralView::Bool(b) => (Ok(ValueView::Boolean(b)), at),
        LiteralView::Number(numeral) => answered(RequestView::Parse(numeral), answers, at),
        LiteralView::Str(text) => (Ok(ValueView::String(text)), at),
        LiteralView::Unknown(text) => (Err(InterruptView::Error(unknown_literal(text))), at),
    }
}

/// The evaluation of a prefix operator applied to what its operand
/// evaluated to.
pub open spec fn apply_unary(operator: TokenType, right: Evaluation) -> Evaluation {
    match right.0 {
        Ok(value) => match unary_rule(operator, value) {
            Ok(result) => (Ok(result), right.1),
            Err(message) => (Err(InterruptView::Error(message)), right.1),
        },
        Err(interrupt) => right,
    }
}

/// The evaluation of an infix operator applied to two operand values, with
/// the supplied numbers read from `at`.
pub open spec fn apply_binary(
    operator: TokenType,
    left: ValueView,
    right: ValueView,
    answers: Seq<Number>,
    at: int,
) -> Evaluation {
    match binary_rule(operator, left, right) {
        Rule::Value(value) => (Ok(value), at),
        Rule::Error(message) => (Err(InterruptView::Error(message)), at),
        Rule::Compute(operation, l, r) => answered(
            RequestView::Compute(operation, l, r),
            answers,
            at,
        ),
    }
}

/// The evaluation of `expr` with the supplied numbers read from `at`:
/// operands are evaluated before their operator, left before right, and the
/// first interruption ends the evaluation.
pub open spec fn evaluate(expr: ExprView, answers: Seq<Number>, at: int) -> Evaluation
    decreases expr,
{
    match expr {
        ExprView::Literal { value } => literal(value, answers, at),
        ExprView::Grouping { expression } => evaluate(*expression, answers, at),
        ExprView::Unary { operator, right } => apply_unary(
            operator.token_type,
            evaluate(*right, answers, at),
        ),
        ExprView::Binary { left, operator, right } => {
            let first = evaluate(*left, answers, at);
            match first.0 {
                Ok(l) => {
                    let second = evaluate(*right, answers, first.1);
                    match second.0 {
                        Ok(r) => apply_binary(operator.token_type, l, r, answers, second.1),
                        Err(interrupt) => second,
                    }
                },
                Err(interrupt) => first,
            }
        },
    }
}

/// Dividing a number by zero is an error, whatever the dividend and the
/// sign of the zero: the host is never asked for such a quotient.
pub proof fn lemma_division_by_zero(left: Number, right: Number, answers: Seq<Number>, at: int)
    requires
        right.zero(),
    ensures
        binary_rule(TokenType::SLASH, ValueView::Number(left), ValueView::Number(right))
            == Rule::Error("Division by zero."@),
        apply_binary(
            TokenType::SLASH,
            ValueView::Number(left),
            ValueView::Number(right),
            answers,
            at,
        ) == (Err::<ValueView, InterruptView>(InterruptView::Error("Division by zero."@)), at),
{
}

/// A division whose operands evaluate to a number and to zero evaluates to
/// the error "Division by zero.", never to a number.
pub proof fn lemma_quotient_by_zero(
    left: ExprView,
    operator: TokenView,
    right: ExprView,
    answers: Seq<Number>,
    at: int,
)
    requires
        operator.token_type == TokenType::SLASH,
        evaluate(left, answers, at).0 matches Ok(ValueView::Number(dividend)),
        evaluate(right, answers, evaluate(left, answers, at).1).0 matches Ok(
            ValueView::Number(divisor),
        ) && divisor.zero(),
    ensures
        evaluate(
            ExprView::Binary { left: Box::new(left), operator, right: Box::new(right) },
            answers,
            at,
        ).0 == Err::<ValueView, InterruptView>(InterruptView::Error("Division by zero."@)),
{
}

/// Every value but `nil` and `false` is truthy: numbers whatever their
/// value, and strings even when empty.
pub proof fn lemma_truthiness(value: ValueView)
    ensures
        truthy(value) <==> !(value == ValueView::Nil || value == ValueView::Boolean(false)),
        value is Number ==> truthy(value),
        value is String ==> truthy(value),
        unary_rule(TokenType::BANG, value) == Ok::<ValueView, Seq<char>>(
            ValueView::Boolean(!truthy(value)),
        ),
{
}

/// Equality does not coerce: values of different types are never equal,
/// and `nil` equals `nil` alone.
pub proof fn lemma_equality_without_coercion(a: ValueView, b: ValueView)
    ensures
        equal(a, b) ==> (a is Nil <==> b is Nil) && (a is Boolean <==> b is Boolean) && (a
            is Number <==> b is Number) && (a is String <==> b is String),
        a is Nil ==> (equal(a, b) <==> b is Nil),
        equal(a, b) <==> equal(b, a),
        equal(a, a) <==> !(a matches ValueView::Number(number) && number.nan()),
{
}

} // verus!
