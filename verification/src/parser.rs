//! The recursive-descent parser.

use vstd::prelude::*;
use crate::expressions::{BinaryExpr, Expr, GroupingExpr, LiteralExpr, UnaryExpr};
use crate::grammar::{
    binary, expression, kind_at, operand, primary, remaining, statement_boundary, tail, unary,
    Level, Parse,
};
use crate::scanner::{token_views, Literal, Token, TokenView};
use crate::token_types::TokenType;

verus! {

/// A violation of the grammar. The parser cannot continue after it.
#[derive(Debug, PartialEq)]
pub struct ParseError {
    pub message: String,
}

impl View for ParseError {
    type V = Seq<char>;

    open spec fn view(&self) -> Seq<char> {
        self.message@
    }
}

/// The mathematical state of a [`Parser`].
pub struct ParserView {
    /// The tokens being parsed.
    pub tokens: Seq<TokenView>,
    /// The next token to read.
    pub current: int,
}

impl ParserView {
    /// Whether the tokens end at the cursor.
    pub open spec fn at_end(self) -> bool {
        kind_at(self.tokens, self.current) is None
    }

    /// The state after reading one token, if there is one.
    pub open spec fn advance(self) -> Self {
        if self.at_end() {
            self
        } else {
            ParserView { current: self.current + 1, ..self }
        }
    }

    /// Whether going from `self` to `after` with `result` is what `parse`
    /// asks for: on success the tree is returned and the cursor has moved
    /// over the tokens it spans; on failure the message is returned.
    pub open spec fn yields(
        self,
        after: Self,
        result: Result<Expr, ParseError>,
        parse: Parse,
    ) -> bool {
        &&& after.tokens == self.tokens
        &&& match parse {
            Ok((tree, read)) => result matches Ok(expr) && expr@ == tree && after.current
                == self.current + read,
            Err(message) => result matches Err(error) && error@ == message,
        }
    }
}

/// Builds an expression tree from a sequence of tokens.
pub struct Parser {
    current: usize,
    tokens: Vec<Token>,
}

impl View for Parser {
    type V = ParserView;

    closed spec fn view(&self) -> ParserView {
        ParserView { tokens: token_views(self.tokens@), current: self.current as int }
    }
}

impl Parser {
    /// The cursor lies within the tokens or just past them.
    pub open spec fn wf(&self) -> bool {
        0 <= self@.current <= self@.tokens.len()
    }

    /// A parser at the first of `tokens`.
    pub fn new(tokens: Vec<Token>) -> (parser: Self)
        ensures
            parser.wf(),
            parser@ == (ParserView { tokens: token_views(tokens@), current: 0 }),
    {
        Parser { current: 0, tokens }
    }

    /// Whether the tokens end at the cursor: no token is left, or the next
    /// one is the end marker.
    fn is_at_end(&self) -> (at_end: bool)
        requires
            self.wf(),
        ensures
            at_end == self@.at_end(),
    {
        self.current >= self.tokens.len() || self.tokens[self.current].token_type
            == TokenType::EOF
    }

    /// The next token.
    fn peek(&self) -> (token: &Token)
        requires
            self.wf(),
            self@.current < self@.tokens.len(),
        ensures
            token@ == self@.tokens[self@.current],
    {
        &self.tokens[self.current]
    }

    /// The token before the cursor.
    fn previous(&self) -> (token: &Token)
        requires
            self.wf(),
            self@.current > 0,
        ensures
            token@ == self@.tokens[self@.current - 1],
    {
        &self.tokens[self.current - 1]
    }

    /// Whether the next token is of kind `token_type`. The end marker is
    /// never matched.
    fn check(&self, token_type: &TokenType) -> (same: bool)
        requires
            self.wf(),
        ensures
            same == (kind_at(self@.tokens, self@.current) == Some(*token_type)),
    {
        if self.is_at_end() {
            return false;
        }
        self.peek().token_type == *token_type
    }

    /// Moves past the next token unless the tokens end here, and returns the
    /// token that is then before the cursor.
    fn advance(&mut self) -> (token: &Token)
        requires
            old(self).wf(),
            old(self)@.current > 0 || !old(self)@.at_end(),
        ensures
            final(self).wf(),
            final(self)@ == old(self)@.advance(),
            token@ == final(self)@.tokens[final(self)@.current - 1],
    {
        if !self.is_at_end() {
            assert(self.current < self.tokens.len());
            self.current += 1;
        }
        self.previous()
    }

    /// Reads the next token if its kind is one of `types`, and says whether
    /// it did.
    fn match_token(&mut self, types: &[TokenType]) -> (matched: bool)
        requires
            old(self).wf(),
        ensures
            final(self).wf(),
            matched == (kind_at(old(self)@.tokens, old(self)@.current) matches Some(kind)
                && types@.contains(kind)),
            final(self)@ == if matched { old(self)@.advance() } else { old(self)@ },
    {
        let mut i: usize = 0;
        while i < types.len()
            invariant
                self.wf(),
                self@ == old(self)@,
                0 <= i <= types.len(),
                forall|j: int|
                    0 <= j < i ==> kind_at(self@.tokens, self@.current) != Some(types@[j]),
            decreases types.len() - i,
        {
            if self.check(&types[i]) {
                self.advance();
                return true;
            }
            i += 1;
        }
        false
    }
}

impl Parser {
    /// Parses one expression from the cursor on. Tokens after it are left
    /// unread.
    pub fn parse(&mut self) -> (result: Result<Expr, ParseError>)
        requires
            old(self).wf(),
        ensures
            final(self).wf(),
            old(self)@.yields(
                final(self)@,
                result,
                expression(old(self)@.tokens, old(self)@.current),
            ),
    {
        self.expr()
    }

    /// `expression → equality`
    pub fn expr(&mut self) -> (result: Result<Expr, ParseError>)
        requires
            old(self).wf(),
        ensures
            final(self).wf(),
            old(self)@.yields(
                final(self)@,
                result,
                expression(old(self)@.tokens, old(self)@.current),
            ),
        decreases remaining(old(self)@.tokens, old(self)@.current), 20nat,
    {
        self.equality()
    }

    /// `equality → comparison ( ( "!=" | "==" ) comparison )*`
    fn equality(&mut self) -> (result: Result<Expr, ParseError>)
        requires
            old(self).wf(),
        ensures
            final(self).wf(),
            old(self)@.yields(
                final(self)@,
                result,
                binary(Level::Equality, old(self)@.tokens, old(self)@.current),
            ),
        decreases remaining(old(self)@.tokens, old(self)@.current), 19nat,
    {
        self.binary(Level::Equality)
    }

    /// `comparison → term ( ( ">" | ">=" | "<" | "<=" ) term )*`
    fn comparison(&mut self) -> (result: Result<Expr, ParseError>)
        requires
            old(self).wf(),
        ensures
            final(self).wf(),
            old(self)@.yields(
                final(self)@,
                result,
                binary(Level::Comparison, old(self)@.tokens, old(self)@.current),
            ),
        decreases remaining(old(self)@.tokens, old(self)@.current), 16nat,
    {
        self.binary(Level::Comparison)
    }

    /// `term → factor ( ( "-" | "+" ) factor )*`
    fn term(&mut self) -> (result: Result<Expr, ParseError>)
        requires
            old(self).wf(),
        ensures
            final(self).wf(),
            old(self)@.yields(
                final(self)@,
                result,
                binary(Level::Term, old(self)@.tokens, old(self)@.current),
            ),
        decreases remaining(old(self)@.tokens, old(self)@.current), 13nat,
    {
        self.binary(Level::Term)
    }

    /// `factor → unary ( ( "/" | "*" ) unary )*`
    fn factor(&mut self) -> (result: Result<Expr, ParseError>)
        requires
            old(self).wf(),
        ensures
            final(self).wf(),
            old(self)@.yields(
                final(self)@,
                result,
                binary(Level::Factor, old(self)@.tokens, old(self)@.current),
            ),
        decreases remaining(old(self)@.tokens, old(self)@.current), 10nat,
    {
        self.binary(Level::Factor)
    }

    /// Parses one operand of `level`.
    fn operand(&mut self, level: Level) -> (result: Result<Expr, ParseError>)
        requires
            old(self).wf(),
        ensures
            final(self).wf(),
            old(self)@.yields(
                final(self)@,
                result,
                operand(level, old(self)@.tokens, old(self)@.current),
            ),
        decreases remaining(old(self)@.tokens, old(self)@.current), 3 * level.rank() + 5,
    {
        match level {
            Level::Equality => self.comparison(),
            Level::Comparison => self.term(),
            Level::Term => self.factor(),
            Level::Factor => self.unary(),
        }
    }

    /// Reads the next token if it is an operator of `level`.
    fn match_level(&mut self, level: Level) -> (matched: bool)
        requires
            old(self).wf(),
        ensures
            final(self).wf(),
            matched == (kind_at(old(self)@.tokens, old(self)@.current) matches Some(kind)
                && level.joins(kind)),
            final(self)@ == if matched { old(self)@.advance() } else { old(self)@ },
    {
        match level {
            Level::Equality => self.match_token(
                &[TokenType::BANG_EQUAL, TokenType::EQUAL_EQUAL],
            ),
            Level::Comparison => self.match_token(
                &[
                    TokenType::GREATER,
                    TokenType::GREATER_EQUAL,
                    TokenType::LESS,
                    TokenType::LESS_EQUAL,
                ],
            ),
            Level::Term => self.match_token(&[TokenType::MINUS, TokenType::PLUS]),
            Level::Factor => self.match_token(&[TokenType::SLASH, TokenType::STAR]),
        }
    }

    /// Parses a binary level: one operand, then as many operators of the
    /// level with their right operands as follow, folded to the left.
    fn binary(&mut self, level: Level) -> (result: Result<Expr, ParseError>)
        requires
            old(self).wf(),
        ensures
            final(self).wf(),
            old(self)@.yields(
                final(self)@,
                result,
                binary(level, old(self)@.tokens, old(self)@.current),
            ),
        decreases remaining(old(self)@.tokens, old(self)@.current), 3 * level.rank() + 6,
    {
        let ghost tokens = self@.tokens;
        let ghost start = self@.current;
        let mut expr = match self.operand(level) {
            Ok(expr) => expr,
            Err(error) => {
                return Err(error);
            },
        };
        loop
            invariant
                self.wf(),
                self@.tokens == tokens,
                old(self)@.tokens == tokens,
                old(self)@.current == start,
                0 <= start <= self@.current,
                self@.current > start || operand(level, tokens, start) is Ok,
                binary(level, tokens, start) == match tail(level, tokens, expr@, self@.current) {
                    Ok((tree, more)) => Ok((tree, (self@.current - start + more) as nat)),
                    Err(message) => Err(message),
                },
            decreases remaining(tokens, self@.current),
        {
            if !self.match_level(level) {
                return Ok(expr);
            }
            let operator = self.previous().clone();
            let right = match self.operand(level) {
                Ok(right) => right,
                Err(error) => {
                    return Err(error);
                },
            };
            expr = Expr::Binary(Box::new(BinaryExpr { left: expr, operator, right }));
        }
    }

    /// `unary → ( "!" | "-" ) unary | primary`
    fn unary(&mut self) -> (result: Result<Expr, ParseError>)
        requires
            old(self).wf(),
        ensures
            final(self).wf(),
            old(self)@.yields(final(self)@, result, unary(old(self)@.tokens, old(self)@.current)),
        decreases remaining(old(self)@.tokens, old(self)@.current), 4nat,
    {
        if self.match_token(&[TokenType::BANG, TokenType::MINUS]) {
            let operator = self.previous().clone();
            return match self.unary() {
                Ok(right) => Ok(Expr::Unary(Box::new(UnaryExpr { operator, right }))),
                Err(error) => Err(error),
            };
        }
        self.primary()
    }

    /// `primary → NUMBER | STRING | "true" | "false" | "nil" | "(" expression ")"`
    ///
    /// Fails with "Expect expression." where none of these begins, and with
    /// "Expect ')' after expression." where a parenthesis is not closed.
    fn primary(&mut self) -> (result: Result<Expr, ParseError>)
        requires
            old(self).wf(),
        ensures
            final(self).wf(),
            old(self)@.yields(
                final(self)@,
                result,
                primary(old(self)@.tokens, old(self)@.current),
            ),
        decreases remaining(old(self)@.tokens, old(self)@.current), 3nat,
    {
        if self.match_token(&[TokenType::FALSE]) {
            return Ok(Expr::Literal(LiteralExpr { value: Literal::Bool(false) }));
        }
        if self.match_token(&[TokenType::TRUE]) {
            return Ok(Expr::Literal(LiteralExpr { value: Literal::Bool(true) }));
        }
        if self.match_token(&[TokenType::NIL]) {
            return Ok(Expr::Literal(LiteralExpr { value: Literal::Nil }));
        }
        if self.match_token(&[TokenType::NUMBER, TokenType::STRING]) {
            return Ok(Expr::Literal(LiteralExpr { value: self.previous().literal.clone() }));
        }
        if self.match_token(&[TokenType::LEFT_PAREN]) {
            let expr = match self.expr() {
                Ok(expr) => expr,
                Err(error) => {
                    return Err(error);
                },
            };
            match self.consume(TokenType::RIGHT_PAREN, "Expect ')' after expression.") {
                Ok(_) => {},
                Err(error) => {
                    return Err(error);
                },
            }
            return Ok(Expr::Grouping(Box::new(GroupingExpr { expression: expr })));
        }
        Err(ParseError { message: "Expect expression.".to_owned() })
    }

    /// Reads the next token if it is of kind `token_type`; fails with
    /// `message` if it is not.
    fn consume(&mut self, token_type: TokenType, message: &str) -> (result: Result<
        &Token,
        ParseError,
    >)
        requires
            old(self).wf(),
        ensures
            final(self).wf(),
            final(self)@.tokens == old(self)@.tokens,
            match result {
                Ok(token) => {
                    &&& kind_at(old(self)@.tokens, old(self)@.current) == Some(token_type)
                    &&& final(self)@.current == old(self)@.current + 1
                    &&& token@ == old(self)@.tokens[old(self)@.current]
                },
                Err(error) => {
                    &&& kind_at(old(self)@.tokens, old(self)@.current) != Some(token_type)
                    &&& error@ == message@
                },
            },
    {
        if self.check(&token_type) {
            return Ok(self.advance());
        }
        Err(ParseError { message: message.to_owned() })
    }

    /// Skips tokens up to the next statement boundary: reads one token, then
    /// goes on until the tokens end, a semicolon has just been read, or the
    /// next token begins a statement.
    pub fn synchronize(&mut self)
        requires
            old(self).wf(),
            old(self)@.current > 0 || !old(self)@.at_end(),
        ensures
            final(self).wf(),
            final(self)@.tokens == old(self)@.tokens,
            final(self)@.current == statement_boundary(
                old(self)@.tokens,
                old(self)@.advance().current,
            ),
    {
        self.advance();
        while !self.is_at_end()
            invariant
                self.wf(),
                self@.tokens == old(self)@.tokens,
                self@.current > 0,
                statement_boundary(self@.tokens, self@.current) == statement_boundary(
                    old(self)@.tokens,
                    old(self)@.advance().current,
                ),
            decreases remaining(self@.tokens, self@.current),
        {
            if self.previous().token_type == TokenType::SEMICOLON {
                return ;
            }
            match self.peek().token_type {
                TokenType::CLASS
                | TokenType::FUN
                | TokenType::VAR
                | TokenType::FOR
                | TokenType::IF
                | TokenType::WHILE
                | TokenType::PRINT
                | TokenType::RETURN => {
                    return ;
                },
                _ => {},
            }
            self.advance();
        }
    }
}

} // verus!
