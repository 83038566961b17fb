//! The tree-walking evaluator.
//!
//! The evaluator decides everything but the arithmetic on numbers, which it
//! asks of its host. It holds the numbers the host has supplied so far and
//! walks the tree with them. Where the walk needs a number that has not
//! been supplied, it stops with the request; the host supplies the number
//! and has the tree walked again.

use vstd::prelude::*;
use vstd::string::StringExecFns;
use crate::expressions::{
    BinaryExpr, Expr, ExprView, GroupingExpr, LiteralExpr, UnaryExpr, Visitor,
};
use crate::number::Number;
use crate::scanner::Literal;
use crate::semantics::{
    answered, apply_binary, equal, evaluate, literal, truthy, Evaluation, InterruptView,
    Operation, RequestView, ValueView,
};
use crate::token_types::TokenType;

verus! {

/// A runtime value.
#[derive(Debug, PartialEq)]
pub enum Value {
    Nil,
    Boolean(bool),
    Number(Number),
    String(String),
}

impl View for Value {
    type V = ValueView;

    open spec fn view(&self) -> ValueView {
        match *self {
            Value::Nil => ValueView::Nil,
            Value::Boolean(b) => ValueView::Boolean(b),
            Value::Number(number) => ValueView::Number(number),
            Value::String(text) => ValueView::String(text@),
        }
    }
}

impl Clone for Value {
    fn clone(&self) -> (copy: Self)
        ensures
            copy == *self,
    {
        match self {
            Value::Nil => Value::Nil,
            Value::Boolean(b) => Value::Boolean(*b),
            Value::Number(number) => Value::Number(*number),
            Value::String(text) => Value::String(text.clone()),
        }
    }
}

/// A failure of evaluation: an operand of the wrong type, a division by
/// zero, or a literal without a value.
#[derive(Debug, PartialEq)]
pub struct RuntimeError {
    pub message: String,
}

impl View for RuntimeError {
    type V = Seq<char>;

    open spec fn view(&self) -> Seq<char> {
        self.message@
    }
}

/// What the evaluator asks of its host.
#[derive(Debug, PartialEq)]
pub enum Request {
    /// The number that a numeral denotes.
    Parse(String),
    /// The result of an operation on two numbers, left operand first.
    Compute(Operation, Number, Number),
}

impl View for Request {
    type V = RequestView;

    open spec fn view(&self) -> RequestView {
        match *self {
            Request::Parse(numeral) => RequestView::Parse(numeral@),
            Request::Compute(operation, left, right) => RequestView::Compute(
                operation,
                left,
                right,
            ),
        }
    }
}

/// What ends an evaluation before it has a value.
#[derive(Debug, PartialEq)]
pub enum Interrupt {
    /// The expression has no value.
    Error(RuntimeError),
    /// The host must supply the requested number before the evaluation can
    /// go further.
    Request(Request),
}

impl View for Interrupt {
    type V = InterruptView;

    open spec fn view(&self) -> InterruptView {
        match *self {
            Interrupt::Error(error) => InterruptView::Error(error@),
            Interrupt::Request(request) => InterruptView::Request(request@),
        }
    }
}

/// The mathematical value of the result of an evaluation.
pub open spec fn result_view(result: Result<Value, Interrupt>) -> Result<ValueView, InterruptView> {
    match result {
        Ok(value) => Ok(value@),
        Err(interrupt) => Err(interrupt@),
    }
}

/// The mathematical state of an [`Interpreter`].
pub struct InterpreterView {
    /// The numbers that the host has supplied, in the order of the requests.
    pub answers: Seq<Number>,
    /// How many of them the walk under way has taken.
    pub cursor: int,
}

/// Evaluates expression trees.
pub struct Interpreter {
    answers: Vec<Number>,
    cursor: usize,
}

impl View for Interpreter {
    type V = InterpreterView;

    closed spec fn view(&self) -> InterpreterView {
        InterpreterView { answers: self.answers@, cursor: self.cursor as int }
    }
}

impl Interpreter {
    /// The walk has taken no more numbers than were supplied.
    pub open spec fn wf(&self) -> bool {
        0 <= self@.cursor <= self@.answers.len()
    }

    /// Whether a walk from `self` to `after` with `result` is what
    /// `evaluation` asks for.
    pub open spec fn yields(
        self,
        after: Self,
        result: Result<Value, Interrupt>,
        evaluation: Evaluation,
    ) -> bool {
        &&& after@.answers == self@.answers
        &&& after@.cursor == evaluation.1
        &&& result_view(result) == evaluation.0
    }

    /// An interpreter to which no number has been supplied.
    pub fn new() -> (interpreter: Self)
        ensures
            interpreter.wf(),
            interpreter@ == (InterpreterView { answers: Seq::empty(), cursor: 0 }),
    {
        Interpreter { answers: Vec::new(), cursor: 0 }
    }

    /// Supplies the number that answers the request of the last walk.
    pub fn supply(&mut self, number: Number)
        requires
            old(self).wf(),
        ensures
            final(self).wf(),
            final(self)@ == (InterpreterView {
                answers: old(self)@.answers.push(number),
                ..old(self)@
            }),
    {
        self.answers.push(number);
    }

    /// Walks `expr` from its root with the numbers supplied so far, and
    /// returns its value, the runtime error that it runs into, or the
    /// request for the first number that is missing.
    pub fn interpret(&mut self, expr: &Expr) -> (result: Result<Value, Interrupt>)
        requires
            old(self).wf(),
        ensures
            final(self).wf(),
            old(self).yields(*final(self), result, evaluate(expr@, old(self)@.answers, 0)),
    {
        self.cursor = 0;
        self.evaluate(expr)
    }

    /// The interruption by a runtime error with `message`.
    fn failure(message: &str) -> (interrupt: Interrupt)
        ensures
            interrupt@ == InterruptView::Error(message@),
    {
        Interrupt::Error(RuntimeError { message: message.to_owned() })
    }

    /// Takes the next supplied number as the answer to `request`, or
    /// interrupts with the request if none is left.
    fn answer(&mut self, request: Request) -> (result: Result<Value, Interrupt>)
        requires
            old(self).wf(),
        ensures
            final(self).wf(),
            old(self).yields(
                *final(self),
                result,
                answered(request@, old(self)@.answers, old(self)@.cursor),
            ),
    {
        if self.cursor < self.answers.len() {
            let number = self.answers[self.cursor];
            self.cursor += 1;
            Ok(Value::Number(number))
        } else {
            Err(Interrupt::Request(request))
        }
    }

    /// Evaluates `expr` with the supplied numbers that the walk has not
    /// taken yet.
    pub fn evaluate(&mut self, expr: &Expr) -> (result: Result<Value, Interrupt>)
        requires
            old(self).wf(),
        ensures
            final(self).wf(),
            old(self).yields(
                *final(self),
                result,
                evaluate(expr@, old(self)@.answers, old(self)@.cursor),
            ),
        decreases expr,
    {
        match expr {
            Expr::Binary(expr) => self.visit_binary_expr(expr),
            Expr::Unary(expr) => self.visit_unary_expr(expr),
            Expr::Grouping(expr) => self.visit_grouping_expr(expr),
            Expr::Literal(expr) => self.visit_literal_expr(expr),
        }
    }

    /// Applies the infix operator `operator` to two operand values.
    pub fn apply_binary(
        &mut self,
        operator: TokenType,
        left: Value,
        right: Value,
    ) -> (result: Result<Value, Interrupt>)
        requires
            old(self).wf(),
        ensures
            final(self).wf(),
            old(self).yields(
                *final(self),
                result,
                apply_binary(operator, left@, right@, old(self)@.answers, old(self)@.cursor),
            ),
    {
        match operator {
            TokenType::PLUS => match (left, right) {
                (Value::Number(l), Value::Number(r)) => self.answer(
                    Request::Compute(Operation::Add, l, r),
                ),
                (Value::String(l), Value::String(r)) => Ok(Value::String(l.concat(r.as_str()))),
                _ => Err(Self::failure("Operands must be two numbers or two strings.")),
            },
            TokenType::MINUS => match (left, right) {
                (Value::Number(l), Value::Number(r)) => self.answer(
                    Request::Compute(Operation::Subtract, l, r),
                ),
                _ => Err(Self::failure("Operands must be numbers.")),
            },
            TokenType::STAR => match (left, right) {
                (Value::Number(l), Value::Number(r)) => self.answer(
                    Request::Compute(Operation::Multiply, l, r),
                ),
                _ => Err(Self::failure("Operands must be numbers.")),
            },
            TokenType::SLASH => match (left, right) {
                (Value::Number(l), Value::Number(r)) => {
                    if r.is_zero() {
                        Err(Self::failure("Division by zero."))
                    } else {
                        self.answer(Request::Compute(Operation::Divide, l, r))
                    }
                },
                _ => Err(Self::failure("Operands must be numbers.")),
            },
            TokenType::GREATER => match (left, right) {
                (Value::Number(l), Value::Number(r)) => Ok(Value::Boolean(r.is_less_than(l))),
                _ => Err(Self::failure("Operands must be numbers.")),
            },
            TokenType::GREATER_EQUAL => match (left, right) {
                (Value::Number(l), Value::Number(r)) => Ok(Value::Boolean(r.is_at_most(l))),
                _ => Err(Self::failure("Operands must be numbers.")),
            },
            TokenType::LESS => match (left, right) {
                (Value::Number(l), Value::Number(r)) => Ok(Value::Boolean(l.is_less_than(r))),
                _ => Err(Self::failure("Operands must be numbers.")),
            },
            TokenType::LESS_EQUAL => match (left, right) {
                (Value::Number(l), Value::Number(r)) => Ok(Value::Boolean(l.is_at_most(r))),
                _ => Err(Self::failure("Operands must be numbers.")),
            },
            TokenType::EQUAL_EQUAL => Ok(Value::Boolean(self.is_equal(&left, &right))),
            TokenType::BANG_EQUAL => Ok(Value::Boolean(!self.is_equal(&left, &right))),
            _ => Err(Self::failure("Unknown binary operator.")),
        }
    }

    /// Whether `value` counts as true: everything but `nil` and `false`
    /// does.
    pub fn is_truthy(&mut self, value: &Value) -> (truth: bool)
        ensures
            *final(self) == *old(self),
            truth == truthy(value@),
    {
        match value {
            Value::Nil => false,
            Value::Boolean(b) => *b,
            _ => true,
        }
    }

    /// Whether two values are equal. Values of different types never are.
    pub fn is_equal(&mut self, a: &Value, b: &Value) -> (same: bool)
        ensures
            *final(self) == *old(self),
            same == equal(a@, b@),
    {
        match (a, b) {
            (Value::Nil, Value::Nil) => true,
            (Value::Boolean(x), Value::Boolean(y)) => *x == *y,
            (Value::Number(x), Value::Number(y)) => x.is_equal_to(*y),
            (Value::String(x), Value::String(y)) => *x == *y,
            _ => false,
        }
    }
}

impl Visitor<Result<Value, Interrupt>> for Interpreter {
    open spec fn ready(&self) -> bool {
        self.wf()
    }

    open spec fn visits_binary(
        &self,
        expr: &BinaryExpr,
        result: Result<Value, Interrupt>,
        after: &Self,
    ) -> bool {
        self.yields(
            *after,
            result,
            evaluate(
                ExprView::Binary {
                    left: Box::new(expr.left@),
                    operator: expr.operator@,
                    right: Box::new(expr.right@),
                },
                self@.answers,
                self@.cursor,
            ),
        )
    }

    open spec fn visits_unary(
        &self,
        expr: &UnaryExpr,
        result: Result<Value, Interrupt>,
        after: &Self,
    ) -> bool {
        self.yields(
            *after,
            result,
            evaluate(
                ExprView::Unary { operator: expr.operator@, right: Box::new(expr.right@) },
                self@.answers,
                self@.cursor,
            ),
        )
    }

    open spec fn visits_grouping(
        &self,
        expr: &GroupingExpr,
        result: Result<Value, Interrupt>,
        after: &Self,
    ) -> bool {
        self.yields(
            *after,
            result,
            evaluate(
                ExprView::Grouping { expression: Box::new(expr.expression@) },
                self@.answers,
                self@.cursor,
            ),
        )
    }

    open spec fn visits_literal(
        &self,
        expr: &LiteralExpr,
        result: Result<Value, Interrupt>,
        after: &Self,
    ) -> bool {
        self.yields(*after, result, literal(expr.value@, self@.answers, self@.cursor))
    }

    /// Evaluates both operands, left before right, and applies the operator
    /// to their values.
    fn visit_binary_expr(&mut self, expr: &BinaryExpr) -> (result: Result<Value, Interrupt>)
        decreases expr,
    {
        let left = match self.evaluate(&expr.left) {
            Ok(value) => value,
            Err(interrupt) => {
                return Err(interrupt);
            },
        };
        let right = match self.evaluate(&expr.right) {
            Ok(value) => value,
            Err(interrupt) => {
                return Err(interrupt);
            },
        };
        self.apply_binary(expr.operator.token_type, left, right)
    }

    /// Evaluates the operand and applies the prefix operator to its value.
    fn visit_unary_expr(&mut self, expr: &UnaryExpr) -> (result: Result<Value, Interrupt>)
        decreases expr,
    {
        let right = match self.evaluate(&expr.right) {
            Ok(value) => value,
            Err(interrupt) => {
                return Err(interrupt);
            },
        };
        match expr.operator.token_type {
            TokenType::MINUS => match right {
                Value::Number(r) => Ok(Value::Number(r.negate())),
                _ => Err(Self::failure("Operand must be a number.")),
            },
            TokenType::BANG => Ok(Value::Boolean(!self.is_truthy(&right))),
            _ => Err(Self::failure("Unknown unary operator.")),
        }
    }

    /// Evaluates the expression inside the parentheses.
    fn visit_grouping_expr(&mut self, expr: &GroupingExpr) -> (result: Result<
        Value,
        Interrupt,
    >)
        decreases expr,
    {
        self.evaluate(&expr.expression)
    }

    /// The value of a literal. A numeral is read by the host; raw text has
    /// no value.
    fn visit_literal_expr(&mut self, expr: &LiteralExpr) -> (result: Result<
        Value,
        Interrupt,
    >)
    {
        match &expr.value {
            Literal::Nil => Ok(Value::Nil),
            Literal::Bool(b) => Ok(Value::Boolean(*b)),
            Literal::Number(numeral) => self.answer(Request::Parse(numeral.clone())),
            Literal::Str(text) => Ok(Value::String(text.clone())),
            Literal::Unknown(text) => {
                let mut message = "Unknown literal: ".to_owned();
                message.append(text.as_str());
                message.append(".");
                Err(Interrupt::Error(RuntimeError { message }))
            },
        }
    }
}

} // verus!
