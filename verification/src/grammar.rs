//! The grammar of expressions, stated over sequences of tokens.
//!
//! From loosest to tightest binding, with left-associative binary operators:
//!
//! ```text
//! expression → equality
//! equality   → comparison ( ( "!=" | "==" ) comparison )*
//! comparison → term ( ( ">" | ">=" | "<" | "<=" ) term )*
//! term       → factor ( ( "-" | "+" ) factor )*
//! factor     → unary ( ( "/" | "*" ) unary )*
//! unary      → ( "!" | "-" ) unary | primary
//! primary    → NUMBER | STRING | "true" | "false" | "nil" | "(" expression ")"
//! ```

use vstd::prelude::*;
use crate::expressions::ExprView;
use crate::scanner::{LiteralView, TokenView};
use crate::token_types::TokenType;

verus! {

/// The four levels of binary operators.
#[derive(Debug, Clone, Copy, PartialEq, Eq, Structural)]
pub enum Level {
    Equality,
    Comparison,
    Term,
    Factor,
}

impl Level {
    /// How loosely the operators of this level bind: the higher, the looser.
    pub open spec fn rank(self) -> nat {
        match self {
            Level::Equality => 4,
            Level::Comparison => 3,
            Level::Term => 2,
            Level::Factor => 1,
        }
    }

    /// Whether `kind` is an operator of this level.
    pub open spec fn joins(self, kind: TokenType) -> bool {
        match self {
            Level::Equality => kind == TokenType::BANG_EQUAL || kind == TokenType::EQUAL_EQUAL,
            Level::Comparison => kind == TokenType::GREATER || kind == TokenType::GREATER_EQUAL
                || kind == TokenType::LESS || kind == TokenType::LESS_EQUAL,
            Level::Term => kind == TokenType::MINUS || kind == TokenType::PLUS,
            Level::Factor => kind == TokenType::SLASH || kind == TokenType::STAR,
        }
    }
}

/// What a grammar rule makes of the tokens from some position on: the tree
/// and the number of tokens it spans, or the message of the failure.
pub type Parse = Result<(ExprView, nat), Seq<char>>;

/// The message for a position where no expression begins.
pub open spec fn expect_expression() -> Seq<char> {
    "Expect expression."@
}

/// The message for a parenthesis that is not closed.
pub open spec fn expect_right_paren() -> Seq<char> {
    "Expect ')' after expression."@
}

/// The kind of the token at `at`, or `None` if the tokens end there: past
/// the last token, or at the end marker.
pub open spec fn kind_at(tokens: Seq<TokenView>, at: int) -> Option<TokenType> {
    if 0 <= at < tokens.len() && tokens[at].token_type != TokenType::EOF {
        Some(tokens[at].token_type)
    } else {
        None
    }
}

/// How many tokens lie at or after `at`.
pub open spec fn remaining(tokens: Seq<TokenView>, at: int) -> nat {
    if at < tokens.len() {
        (tokens.len() - at) as nat
    } else {
        0
    }
}

/// `expression → equality`
pub open spec fn expression(tokens: Seq<TokenView>, at: int) -> Parse
    decreases remaining(tokens, at), 20nat,
{
    binary(Level::Equality, tokens, at)
}

/// A binary level: one operand, then operators of the level with one more
/// operand each, folded to the left.
pub open spec fn binary(level: Level, tokens: Seq<TokenView>, at: int) -> Parse
    decreases remaining(tokens, at), 3 * level.rank() + 6,
{
    match operand(level, tokens, at) {
        Ok((left, read)) => match tail(level, tokens, left, at + read) {
            Ok((tree, more)) => Ok((tree, read + more)),
            Err(message) => Err(message),
        },
        Err(message) => Err(message),
    }
}

/// An operand of a binary level: the next tighter level, or a unary
/// expression under the tightest.
pub open spec fn operand(level: Level, tokens: Seq<TokenView>, at: int) -> Parse
    decreases remaining(tokens, at), 3 * level.rank() + 5,
{
    match level {
        Level::Equality => binary(Level::Comparison, tokens, at),
        Level::Comparison => binary(Level::Term, tokens, at),
        Level::Term => binary(Level::Factor, tokens, at),
        Level::Factor => unary(tokens, at),
    }
}

/// The rest of a binary level after the operands that were folded into
/// `left`: while an operator of the level follows, it and the operand after
/// it are folded in with `left` as the left side.
pub open spec fn tail(level: Level, tokens: Seq<TokenView>, left: ExprView, at: int) -> Parse
    decreases remaining(tokens, at), 0nat,
{
    match kind_at(tokens, at) {
        Some(kind) if level.joins(kind) => match operand(level, tokens, at + 1) {
            Ok((right, read)) => match tail(
                level,
                tokens,
                ExprView::Binary {
                    left: Box::new(left),
                    operator: tokens[at],
                    right: Box::new(right),
                },
                at + 1 + read,
            ) {
                Ok((tree, more)) => Ok((tree, 1 + read + more)),
                Err(message) => Err(message),
            },
            Err(message) => Err(message),
        },
        _ => Ok((left, 0)),
    }
}

/// `unary → ( "!" | "-" ) unary | primary`
pub open spec fn unary(tokens: Seq<TokenView>, at: int) -> Parse
    decreases remaining(tokens, at), 4nat,
{
    match kind_at(tokens, at) {
        Some(kind) if kind == TokenType::BANG || kind == TokenType::MINUS => match unary(
            tokens,
            at + 1,
        ) {
            Ok((right, read)) => Ok(
                (ExprView::Unary { operator: tokens[at], right: Box::new(right) }, 1 + read),
            ),
            Err(message) => Err(message),
        },
        _ => primary(tokens, at),
    }
}

/// `primary → NUMBER | STRING | "true" | "false" | "nil" | "(" expression ")"`
pub open spec fn primary(tokens: Seq<TokenView>, at: int) -> Parse
    decreases remaining(tokens, at), 3nat,
{
    match kind_at(tokens, at) {
        Some(TokenType::FALSE) => Ok((ExprView::Literal { value: LiteralView::Bool(false) }, 1)),
        Some(TokenType::TRUE) => Ok((ExprView::Literal { value: LiteralView::Bool(true) }, 1)),
        Some(TokenType::NIL) => Ok((ExprView::Literal { value: LiteralView::Nil }, 1)),
        Some(TokenType::NUMBER) | Some(TokenType::STRING) => Ok(
            (ExprView::Literal { value: tokens[at].literal }, 1),
        ),
        Some(TokenType::LEFT_PAREN) => match expression(tokens, at + 1) {
            Ok((inner, read)) => if kind_at(tokens, at + 1 + read) == Some(
                TokenType::RIGHT_PAREN,
            ) {
                Ok((ExprView::Grouping { expression: Box::new(inner) }, read + 2))
            } else {
                Err(expect_right_paren())
            },
            Err(message) => Err(message),
        },
        _ => Err(expect_expression()),
    }
}

/// Whether a token of kind `kind` begins a statement.
pub open spec fn starts_statement(kind: TokenType) -> bool {
    kind == TokenType::CLASS || kind == TokenType::FUN || kind == TokenType::VAR || kind
        == TokenType::FOR || kind == TokenType::IF || kind == TokenType::WHILE || kind
        == TokenType::PRINT || kind == TokenType::RETURN
}

/// The first position at or after `at` where a statement may begin: the
/// tokens end there, the token before it is a semicolon, or the token at it
/// begins a statement.
pub open spec fn statement_boundary(tokens: Seq<TokenView>, at: int) -> int
    decreases remaining(tokens, at),
{
    match kind_at(tokens, at) {
        None => at,
        Some(kind) => if (at > 0 && tokens[at - 1].token_type == TokenType::SEMICOLON)
            || starts_statement(kind) {
            at
        } else {
            statement_boundary(tokens, at + 1)
        },
    }
}

/// A binary level that succeeds spans at least one token and none past the
/// last, and so does each of its operands.
pub proof fn lemma_binary_span(level: Level, tokens: Seq<TokenView>, at: int)
    ensures
        binary(level, tokens, at) matches Ok((tree, read)) ==> 1 <= read <= remaining(tokens, at),
        operand(level, tokens, at) matches Ok((tree, read)) ==> 1 <= read <= remaining(
            tokens,
            at,
        ),
    decreases remaining(tokens, at), 3 * level.rank() + 6,
{
    match level {
        Level::Equality => lemma_binary_span(Level::Comparison, tokens, at),
        Level::Comparison => lemma_binary_span(Level::Term, tokens, at),
        Level::Term => lemma_binary_span(Level::Factor, tokens, at),
        Level::Factor => lemma_unary_span(tokens, at),
    }
    if let Ok((left, read)) = operand(level, tokens, at) {
        lemma_tail_span(level, tokens, left, at + read);
    }
}

/// The rest of a binary level, where it succeeds, spans no token past the
/// last.
pub proof fn lemma_tail_span(level: Level, tokens: Seq<TokenView>, left: ExprView, at: int)
    ensures
        tail(level, tokens, left, at) matches Ok((tree, read)) ==> read <= remaining(tokens, at),
    decreases remaining(tokens, at), 0nat,
{
    if let Some(kind) = kind_at(tokens, at) {
        if level.joins(kind) {
            lemma_binary_span(level, tokens, at + 1);
            if let Ok((right, read)) = operand(level, tokens, at + 1) {
                lemma_tail_span(
                    level,
                    tokens,
                    ExprView::Binary {
                        left: Box::new(left),
                        operator: tokens[at],
                        right: Box::new(right),
                    },
                    at + 1 + read,
                );
            }
        }
    }
}

/// A unary expression or a primary that succeeds spans at least one token
/// and none past the last.
pub proof fn lemma_unary_span(tokens: Seq<TokenView>, at: int)
    ensures
        unary(tokens, at) matches Ok((tree, read)) ==> 1 <= read <= remaining(tokens, at),
        primary(tokens, at) matches Ok((tree, read)) ==> 1 <= read <= remaining(tokens, at),
    decreases remaining(tokens, at), 4nat,
{
    if let Some(kind) = kind_at(tokens, at) {
        if kind == TokenType::BANG || kind == TokenType::MINUS {
            lemma_unary_span(tokens, at + 1);
        }
        if kind == TokenType::LEFT_PAREN {
            lemma_span(tokens, at + 1);
        }
    }
}

/// An expression that is parsed spans at least one token and none past the
/// last: parsing moves forward and stays within the tokens.
pub proof fn lemma_span(tokens: Seq<TokenView>, at: int)
    ensures
        expression(tokens, at) matches Ok((tree, read)) ==> 1 <= read <= remaining(tokens, at),
    decreases remaining(tokens, at), 20nat,
{
    lemma_binary_span(Level::Equality, tokens, at);
}

/// How loosely an infix operator binds: the rank of its level, or zero for
/// a token that is no infix operator.
pub open spec fn rank_of(kind: TokenType) -> nat {
    if Level::Equality.joins(kind) {
        Level::Equality.rank()
    } else if Level::Comparison.joins(kind) {
        Level::Comparison.rank()
    } else if Level::Term.joins(kind) {
        Level::Term.rank()
    } else if Level::Factor.joins(kind) {
        Level::Factor.rank()
    } else {
        0
    }
}

/// How loosely the root of a tree binds: the rank of its operator if it is
/// a binary node, zero if it is anything else.
pub open spec fn binding(tree: ExprView) -> nat {
    match tree {
        ExprView::Binary { left, operator, right } => rank_of(operator.token_type),
        _ => 0,
    }
}

/// Whether a tree is shaped as precedence and associativity ask: under a
/// binary operator the left operand binds no looser than the operator and
/// the right operand binds tighter, and under a prefix operator stands no
/// binary node. Only parentheses lift these bounds.
pub open spec fn layered(tree: ExprView) -> bool
    decreases tree,
{
    match tree {
        ExprView::Binary { left, operator, right } => {
            &&& rank_of(operator.token_type) > 0
            &&& binding(*left) <= rank_of(operator.token_type)
            &&& binding(*right) < rank_of(operator.token_type)
            &&& layered(*left)
            &&& layered(*right)
        },
        ExprView::Unary { operator, right } => {
            &&& operator.token_type == TokenType::BANG || operator.token_type
                == TokenType::MINUS
            &&& binding(*right) == 0
            &&& layered(*right)
        },
        ExprView::Grouping { expression } => layered(*expression),
        ExprView::Literal { value } => true,
    }
}

/// What a binary level parses is layered and binds no looser than the
/// level; what it takes as an operand is layered and binds tighter.
pub proof fn lemma_binary_layered(level: Level, tokens: Seq<TokenView>, at: int)
    ensures
        binary(level, tokens, at) matches Ok((tree, read)) ==> layered(tree) && binding(tree)
            <= level.rank(),
        operand(level, tokens, at) matches Ok((tree, read)) ==> layered(tree) && binding(tree)
            < level.rank(),
    decreases remaining(tokens, at), 3 * level.rank() + 6,
{
    match level {
        Level::Equality => lemma_binary_layered(Level::Comparison, tokens, at),
        Level::Comparison => lemma_binary_layered(Level::Term, tokens, at),
        Level::Term => lemma_binary_layered(Level::Factor, tokens, at),
        Level::Factor => lemma_unary_layered(tokens, at),
    }
    if let Ok((left, read)) = operand(level, tokens, at) {
        lemma_tail_layered(level, tokens, left, at + read);
    }
}

/// The rest of a binary level keeps a tree layered and binding no looser
/// than the level: each operator of the level takes what was parsed before
/// it as its left operand.
pub proof fn lemma_tail_layered(level: Level, tokens: Seq<TokenView>, left: ExprView, at: int)
    requires
        layered(left),
        binding(left) <= level.rank(),
    ensures
        tail(level, tokens, left, at) matches Ok((tree, read)) ==> layered(tree) && binding(tree)
            <= level.rank(),
    decreases remaining(tokens, at), 0nat,
{
    if let Some(kind) = kind_at(tokens, at) {
        if level.joins(kind) {
            lemma_binary_layered(level, tokens, at + 1);
            if let Ok((right, read)) = operand(level, tokens, at + 1) {
                lemma_tail_layered(
                    level,
                    tokens,
                    ExprView::Binary {
                        left: Box::new(left),
                        operator: tokens[at],
                        right: Box::new(right),
                    },
                    at + 1 + read,
                );
            }
        }
    }
}

/// A unary expression or a primary is layered and no binary node is at its
/// root.
pub proof fn lemma_unary_layered(tokens: Seq<TokenView>, at: int)
    ensures
        unary(tokens, at) matches Ok((tree, read)) ==> layered(tree) && binding(tree) == 0,
        primary(tokens, at) matches Ok((tree, read)) ==> layered(tree) && binding(tree) == 0,
    decreases remaining(tokens, at), 4nat,
{
    if let Some(kind) = kind_at(tokens, at) {
        if kind == TokenType::BANG || kind == TokenType::MINUS {
            lemma_unary_layered(tokens, at + 1);
        }
        if kind == TokenType::LEFT_PAREN {
            lemma_layered(tokens, at + 1);
        }
    }
}

/// Every tree that is parsed is shaped as precedence and associativity
/// ask: operators of a tighter level are grouped before those of a looser
/// level, and operators of one level are grouped from the left.
pub proof fn lemma_layered(tokens: Seq<TokenView>, at: int)
    ensures
        expression(tokens, at) matches Ok((tree, read)) ==> layered(tree),
    decreases remaining(tokens, at), 20nat,
{
    lemma_binary_layered(Level::Equality, tokens, at);
}

} // verus!
